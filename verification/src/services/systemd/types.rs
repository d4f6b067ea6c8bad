//! Data read from systemd.
use vstd::prelude::*;

use crate::text::{concat3, str_eq};

verus! {

/// High-level systemd unit status.
#[derive(Debug, Clone, PartialEq, Eq)]
pub struct SystemdUnitStatus {
    pub unit: String,
    pub active_state: Option<String>,
    pub sub_state: Option<String>,
    pub load_state: Option<String>,
    pub description: Option<String>,
}

/// systemd unit-file listing entry.
#[derive(Debug, Clone, PartialEq, Eq)]
pub struct SystemdUnitFile {
    pub name: String,
    pub state: Option<String>,
}

/// systemd dependency entry.
#[derive(Debug, Clone, PartialEq, Eq)]
pub struct SystemdDependency {
    pub unit: String,
}

/// Journal output captured from journalctl.
#[derive(Debug, Clone, PartialEq, Eq)]
pub struct SystemdJournal {
    pub output: String,
}

/// A job that systemd queued for a unit, by its D-Bus object path.
#[derive(Debug, Clone, PartialEq, Eq)]
pub struct SystemdJob {
    pub path: String,
}

/// One loaded unit as listed by `ListUnits`.
#[derive(Debug, Clone, PartialEq, Eq)]
pub struct SystemdUnitSummary {
    pub unit: String,
    pub description: Option<String>,
    pub load_state: Option<String>,
    pub active_state: Option<String>,
    pub sub_state: Option<String>,
}

/// One structured journal record (`journalctl -o json`), by the fields this
/// library reads.
#[derive(Debug, Clone, PartialEq, Eq)]
pub struct SystemdJournalEntry {
    /// `MESSAGE`
    pub message: Option<String>,
    /// `_SYSTEMD_UNIT`
    pub unit: Option<String>,
    /// `PRIORITY`
    pub priority: Option<String>,
    /// `__REALTIME_TIMESTAMP`
    pub realtime_timestamp: Option<String>,
}

/// The value of the first field named `key`, if any.
pub open spec fn field_value(fields: Seq<(String, String)>, key: Seq<char>) -> Option<Seq<char>>
    decreases fields.len(),
{
    if fields.len() == 0 {
        None
    } else if fields[0].0@ == key {
        Some(fields[0].1@)
    } else {
        field_value(fields.drop_first(), key)
    }
}

/// The text inside an optional string.
pub open spec fn opt_text(o: Option<String>) -> Option<Seq<char>> {
    match o {
        Some(s) => Some(s@),
        None => None,
    }
}

fn find_field(fields: &Vec<(String, String)>, key: &str) -> (r: Option<String>)
    ensures
        opt_text(r) == field_value(fields@, key@),
{
    let mut i: usize = 0;
    assert(fields@.skip(0) =~= fields@);
    while i < fields.len()
        invariant
            i <= fields.len(),
            field_value(fields@, key@) == field_value(fields@.skip(i as int), key@),
        decreases fields.len() - i,
    {
        assert(fields@.skip(i as int).drop_first() =~= fields@.skip(i + 1));
        if str_eq(fields[i].0.as_str(), key) {
            return Some(fields[i].1.clone());
        }
        i = i + 1;
    }
    assert(fields@.skip(i as int).len() == 0);
    None
}

impl SystemdJournalEntry {
    /// The entry made of the fields of one journal record, each taken from the
    /// first field of its name.
    pub fn from_fields(fields: Vec<(String, String)>) -> (e: Self)
        ensures
            opt_text(e.message) == field_value(fields@, "MESSAGE"@),
            opt_text(e.unit) == field_value(fields@, "_SYSTEMD_UNIT"@),
            opt_text(e.priority) == field_value(fields@, "PRIORITY"@),
            opt_text(e.realtime_timestamp) == field_value(fields@, "__REALTIME_TIMESTAMP"@),
    {
        SystemdJournalEntry {
            message: find_field(&fields, "MESSAGE"),
            unit: find_field(&fields, "_SYSTEMD_UNIT"),
            priority: find_field(&fields, "PRIORITY"),
            realtime_timestamp: find_field(&fields, "__REALTIME_TIMESTAMP"),
        }
    }
}

/// Unit resource limit assignment.
#[derive(Debug, Clone, PartialEq, Eq)]
pub struct SystemdResourceLimit {
    pub property: String,
    pub value: String,
}

impl SystemdResourceLimit {
    /// A limit setting `property` to `value`.
    pub fn new(property: &str, value: &str) -> (l: Self)
        ensures
            l.property@ == property@,
            l.value@ == value@,
    {
        SystemdResourceLimit { property: property.to_owned(), value: value.to_owned() }
    }

    /// The `Property=value` form that `systemctl set-property` takes.
    pub fn assignment(&self) -> (s: String)
        ensures
            s@ == self.property@ + "="@ + self.value@,
    {
        concat3(self.property.as_str(), "=", self.value.as_str())
    }
}

} // verus!
