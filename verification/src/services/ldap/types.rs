//! LDAP data types: entries, attributes, search options and modifications.
use vstd::prelude::*;
use vstd::utf8::{decode_utf8, encode_utf8, valid_utf8};

use crate::data::time::Duration;
use crate::text::{str_eq, to_lowercase, unicode_lower, utf8_bytes, utf8_string};

verus! {

/// LDAP search scope.
#[derive(Debug, Clone, Copy, PartialEq, Eq, Structural)]
pub enum SearchScope {
    /// Only the base entry itself.
    Base,
    /// Immediate children only.
    OneLevel,
    /// Base entry and all descendants (default).
    Subtree,
}

/// The bytes of each value.
pub open spec fn values_view(v: Seq<Vec<u8>>) -> Seq<Seq<u8>> {
    Seq::new(v.len(), |i: int| v[i]@)
}

/// LDAP attribute (name + multi-valued data).
#[derive(Debug, Clone)]
pub struct LdapAttribute {
    /// Attribute name (lowercase)
    pub name: String,
    /// Binary-safe values
    pub values: Vec<Vec<u8>>,
}

/// The UTF-8 bytes of each string.
pub open spec fn encoded_strings(v: Seq<String>) -> Seq<Seq<u8>> {
    Seq::new(v.len(), |i: int| encode_utf8(v[i]@))
}

fn strings_to_bytes(values: Vec<String>) -> (r: Vec<Vec<u8>>)
    ensures
        values_view(r@) == encoded_strings(values@),
{
    let mut out: Vec<Vec<u8>> = Vec::new();
    let mut i: usize = 0;
    while i < values.len()
        invariant
            i <= values.len(),
            values_view(out@) == encoded_strings(values@).take(i as int),
        decreases values.len() - i,
    {
        let ghost before = values_view(out@);
        let b = utf8_bytes(values[i].as_str());
        out.push(b);
        assert(values_view(out@) =~= before.push(encode_utf8(values@[i as int]@)));
        assert(encoded_strings(values@).take(i + 1) =~= encoded_strings(values@).take(i as int).push(
            encode_utf8(values@[i as int]@),
        ));
        i = i + 1;
    }
    assert(encoded_strings(values@).take(values.len() as int) =~= encoded_strings(values@));
    out
}

fn copy_bytes(v: &Vec<u8>) -> (r: Vec<u8>)
    ensures
        r@ == v@,
{
    let r = v.clone();
    assert(r@ =~= v@);
    r
}

fn copy_values(v: &Vec<Vec<u8>>) -> (r: Vec<Vec<u8>>)
    ensures
        values_view(r@) == values_view(v@),
{
    let mut out: Vec<Vec<u8>> = Vec::new();
    let mut i: usize = 0;
    while i < v.len()
        invariant
            i <= v.len(),
            values_view(out@) == values_view(v@).take(i as int),
        decreases v.len() - i,
    {
        let ghost before = values_view(out@);
        let b = copy_bytes(&v[i]);
        out.push(b);
        assert(values_view(out@) =~= before.push(v@[i as int]@));
        assert(values_view(v@).take(i + 1) =~= values_view(v@).take(i as int).push(v@[i as int]@));
        i = i + 1;
    }
    assert(values_view(v@).take(v.len() as int) =~= values_view(v@));
    out
}

impl LdapAttribute {
    /// An attribute with a lowercased name.
    pub fn new(name: String, values: Vec<Vec<u8>>) -> (a: Self)
        ensures
            a.name@ == unicode_lower(name@),
            a.values == values,
    {
        LdapAttribute { name: to_lowercase(name.as_str()), values }
    }

    /// An attribute with a lowercased name and the UTF-8 bytes of each
    /// string as values.
    pub fn from_strings(name: String, values: Vec<String>) -> (a: Self)
        ensures
            a.name@ == unicode_lower(name@),
            values_view(a.values@) == encoded_strings(values@),
    {
        LdapAttribute { name: to_lowercase(name.as_str()), values: strings_to_bytes(values) }
    }
}

/// The attribute stored under `key`, if any.
pub open spec fn find_attr(attrs: Seq<(String, LdapAttribute)>, key: Seq<char>) -> Option<LdapAttribute>
    decreases attrs.len(),
{
    if attrs.len() == 0 {
        None
    } else if attrs[0].0@ == key {
        Some(attrs[0].1)
    } else {
        find_attr(attrs.drop_first(), key)
    }
}

/// The index of the first attribute stored under `key`, or the length.
pub open spec fn attr_position(attrs: Seq<(String, LdapAttribute)>, key: Seq<char>) -> int
    decreases attrs.len(),
{
    if attrs.len() == 0 {
        0
    } else if attrs[0].0@ == key {
        0
    } else {
        1 + attr_position(attrs.drop_first(), key)
    }
}

/// The values that are valid UTF-8, decoded, in order.
pub open spec fn decoded_values(v: Seq<Seq<u8>>) -> Seq<Seq<char>>
    decreases v.len(),
{
    if v.len() == 0 {
        Seq::empty()
    } else if valid_utf8(v.last()) {
        decoded_values(v.drop_last()).push(decode_utf8(v.last()))
    } else {
        decoded_values(v.drop_last())
    }
}

/// LDAP entry (DN + attributes stored by lowercase name).
#[derive(Debug, Clone)]
pub struct LdapEntry {
    /// Distinguished Name
    pub dn: String,
    /// Attributes by key, each key once
    pub attributes: Vec<(String, LdapAttribute)>,
}

/// No key occurs twice among the attributes.
pub open spec fn keys_distinct(attrs: Seq<(String, LdapAttribute)>) -> bool {
    forall|i: int, j: int| 0 <= i < j < attrs.len() ==> attrs[i].0@ != attrs[j].0@
}

/// A key that is not found occurs nowhere among the attributes.
proof fn lemma_absent_key(s: Seq<(String, LdapAttribute)>, key: Seq<char>)
    requires
        find_attr(s, key) is None,
    ensures
        forall|j: int| 0 <= j < s.len() ==> s[j].0@ != key,
    decreases s.len(),
{
    if s.len() > 0 {
        lemma_absent_key(s.drop_first(), key);
        assert forall|j: int| 0 <= j < s.len() implies s[j].0@ != key by {
            if j > 0 {
                assert(s[j] == s.drop_first()[j - 1]);
            }
        }
    }
}

impl LdapEntry {
    /// Each attribute key is stored once, as the map it stands for holds it.
    pub open spec fn wf(&self) -> bool {
        keys_distinct(self.attributes@)
    }

    /// An entry with `dn` and no attributes.
    pub fn new(dn: String) -> (e: Self)
        ensures
            e.dn == dn,
            e.attributes@.len() == 0,
            e.wf(),
    {
        LdapEntry { dn, attributes: Vec::new() }
    }

    fn position(&self, key: &str) -> (i: usize)
        ensures
            i == attr_position(self.attributes@, key@),
            i <= self.attributes@.len(),
            find_attr(self.attributes@, key@) == if i < self.attributes@.len() {
                Some(self.attributes@[i as int].1)
            } else {
                None
            },
            i < self.attributes@.len() ==> self.attributes@[i as int].0@ == key@,
    {
        let mut i: usize = 0;
        let ghost all = self.attributes@;
        assert(all.skip(0) =~= all);
        while i < self.attributes.len()
            invariant
                i <= all.len(),
                all == self.attributes@,
                attr_position(all, key@) == i + attr_position(all.skip(i as int), key@),
                find_attr(all, key@) == find_attr(all.skip(i as int), key@),
            decreases all.len() - i,
        {
            assert(all.skip(i as int).drop_first() =~= all.skip(i + 1));
            assert(all.skip(i as int)[0] == all[i as int]);
            if str_eq(self.attributes[i].0.as_str(), key) {
                return i;
            }
            i = i + 1;
        }
        assert(all.skip(i as int).len() == 0);
        i
    }

    /// Stores `attr` under `key`, replacing what was stored under it.
    pub fn insert_attribute(&mut self, key: String, attr: LdapAttribute)
        ensures
            final(self).dn == old(self).dn,
            find_attr(final(self).attributes@, key@) == Some(attr),
            forall|k: Seq<char>|
                k != key@ ==> find_attr(final(self).attributes@, k) == find_attr(
                    old(self).attributes@,
                    k,
                ),
            old(self).wf() ==> final(self).wf(),
    {
        let i = self.position(key.as_str());
        let ghost before = self.attributes@;
        let ghost kv = key@;
        let entry = (key, attr);
        let ghost e = entry;
        if i < self.attributes.len() {
            self.attributes.set(i, entry);
            proof {
                lemma_find_update(before, i as int, kv, e);
                assert forall|a: int, b: int| 0 <= a < b < self.attributes@.len() && keys_distinct(before)
                    implies self.attributes@[a].0@ != self.attributes@[b].0@ by {
                    if a == i {
                        assert(before[a].0@ == kv);
                    } else if b == i {
                        assert(before[b].0@ == kv);
                    }
                }
            }
        } else {
            self.attributes.push(entry);
            proof {
                lemma_find_push(before, kv, e);
                lemma_absent_key(before, kv);
                assert forall|a: int, b: int| 0 <= a < b < self.attributes@.len() && keys_distinct(before)
                    implies self.attributes@[a].0@ != self.attributes@[b].0@ by {
                    if b == before.len() {
                        assert(self.attributes@[a] == before[a]);
                    }
                }
            }
        }
    }

    /// The first value of an attribute, decoded, when it is valid UTF-8.
    pub fn get_string(&self, attr: &str) -> (r: Option<String>)
        ensures
            match find_attr(self.attributes@, unicode_lower(attr@)) {
                None => r is None,
                Some(a) => if a.values@.len() > 0 && valid_utf8(a.values@[0]@) {
                    r matches Some(s) && s@ == decode_utf8(a.values@[0]@)
                } else {
                    r is None
                },
            },
    {
        let key = to_lowercase(attr);
        let i = self.position(key.as_str());
        if i >= self.attributes.len() {
            return None;
        }
        let a = &self.attributes[i].1;
        if a.values.len() == 0 {
            return None;
        }
        match utf8_string(copy_bytes(&a.values[0])) {
            Ok(s) => Some(s),
            Err(_) => None,
        }
    }

    /// Every value of an attribute that is valid UTF-8, decoded, in order.
    pub fn get_strings(&self, attr: &str) -> (r: Option<Vec<String>>)
        ensures
            match find_attr(self.attributes@, unicode_lower(attr@)) {
                None => r is None,
                Some(a) => r matches Some(v) && crate::os::process::strings_view(v@)
                    == decoded_values(values_view(a.values@)),
            },
    {
        let key = to_lowercase(attr);
        let i = self.position(key.as_str());
        if i >= self.attributes.len() {
            return None;
        }
        let a = &self.attributes[i].1;
        let ghost vs = values_view(a.values@);
        let mut out: Vec<String> = Vec::new();
        let mut j: usize = 0;
        while j < a.values.len()
            invariant
                j <= a.values@.len(),
                vs == values_view(a.values@),
                crate::os::process::strings_view(out@) == decoded_values(vs.take(j as int)),
            decreases a.values.len() - j,
        {
            assert(vs.take(j + 1).drop_last() =~= vs.take(j as int));
            match utf8_string(copy_bytes(&a.values[j])) {
                Ok(s) => {
                    let ghost before = crate::os::process::strings_view(out@);
                    out.push(s);
                    assert(crate::os::process::strings_view(out@) =~= before.push(
                        decode_utf8(vs[j as int]),
                    ));
                },
                Err(_) => {},
            }
            j = j + 1;
        }
        assert(vs.take(a.values.len() as int) =~= vs);
        Some(out)
    }

    /// The first value of an attribute, as bytes.
    pub fn get_bytes(&self, attr: &str) -> (r: Option<Vec<u8>>)
        ensures
            match find_attr(self.attributes@, unicode_lower(attr@)) {
                None => r is None,
                Some(a) => if a.values@.len() > 0 {
                    r matches Some(b) && b@ == a.values@[0]@
                } else {
                    r is None
                },
            },
    {
        let key = to_lowercase(attr);
        let i = self.position(key.as_str());
        if i >= self.attributes.len() {
            return None;
        }
        let a = &self.attributes[i].1;
        if a.values.len() == 0 {
            return None;
        }
        Some(copy_bytes(&a.values[0]))
    }

    /// Every value of an attribute, as bytes.
    pub fn get_all_bytes(&self, attr: &str) -> (r: Option<Vec<Vec<u8>>>)
        ensures
            match find_attr(self.attributes@, unicode_lower(attr@)) {
                None => r is None,
                Some(a) => r matches Some(v) && values_view(v@) == values_view(a.values@),
            },
    {
        let key = to_lowercase(attr);
        let i = self.position(key.as_str());
        if i >= self.attributes.len() {
            return None;
        }
        Some(copy_values(&self.attributes[i].1.values))
    }
}

proof fn lemma_find_update(s: Seq<(String, LdapAttribute)>, i: int, key: Seq<char>, entry: (String, LdapAttribute))
    requires
        0 <= i < s.len(),
        s[i].0@ == key,
        entry.0@ == key,
        i == attr_position(s, key),
    ensures
        forall|k: Seq<char>| #![auto] find_attr(s.update(i, entry), k) == if k == key {
            Some(entry.1)
        } else {
            find_attr(s, k)
        },
    decreases s.len(),
{
    let s2 = s.update(i, entry);
    if i > 0 {
        lemma_find_update(s.drop_first(), i - 1, key, entry);
        assert(s2.drop_first() =~= s.drop_first().update(i - 1, entry));
        assert(s2[0] == s[0]);
        assert(s[0].0@ != key);
    } else {
        assert(s2.drop_first() =~= s.drop_first());
        assert(s2[0] == entry);
    }
    assert forall|k: Seq<char>| #![auto] find_attr(s2, k) == if k == key {
        Some(entry.1)
    } else {
        find_attr(s, k)
    } by {
        if i > 0 {
            if s[0].0@ == k {
            } else {
                assert(find_attr(s2, k) == find_attr(s2.drop_first(), k));
            }
        } else {
            if k != key {
                assert(find_attr(s2, k) == find_attr(s2.drop_first(), k));
            }
        }
    }
}

proof fn lemma_find_push(s: Seq<(String, LdapAttribute)>, key: Seq<char>, entry: (String, LdapAttribute))
    requires
        find_attr(s, key) is None,
        entry.0@ == key,
    ensures
        forall|k: Seq<char>| #![auto] find_attr(s.push(entry), k) == if k == key {
            Some(entry.1)
        } else {
            find_attr(s, k)
        },
    decreases s.len(),
{
    let s2 = s.push(entry);
    if s.len() > 0 {
        assert(s[0].0@ != key);
        assert(find_attr(s.drop_first(), key) is None);
        lemma_find_push(s.drop_first(), key, entry);
        assert(s2.drop_first() =~= s.drop_first().push(entry));
        assert(s2[0] == s[0]);
    } else {
        assert(s2[0] == entry);
        assert(s2.drop_first().len() == 0);
    }
    assert forall|k: Seq<char>| #![auto] find_attr(s2, k) == if k == key {
        Some(entry.1)
    } else {
        find_attr(s, k)
    } by {
        if s.len() > 0 {
            if s[0].0@ == k {
            } else {
                assert(find_attr(s2, k) == find_attr(s2.drop_first(), k));
            }
        } else {
            if k != key {
                assert(find_attr(s2, k) == find_attr(s2.drop_first(), k));
            }
        }
    }
}

/// Search filter options.
#[derive(Debug, Clone)]
pub struct SearchOptions {
    /// Base DN for search
    pub base_dn: String,
    /// RFC 4515 filter (e.g., "(uid=jdoe)")
    pub filter: String,
    /// Search scope
    pub scope: SearchScope,
    /// Attributes to return (empty for all user attributes)
    pub attributes: Option<Vec<String>>,
    /// Server-side result size limit
    pub size_limit: Option<usize>,
    /// Server-side operation timeout
    pub time_limit: Option<Duration>,
    /// Paged result page size
    pub paged_size: Option<usize>,
    /// Return attribute names only (no values)
    pub types_only: bool,
}

impl SearchOptions {
    /// Options searching the subtree at `base_dn` with `filter`, all
    /// attributes, no limits, pages of 500.
    pub fn new(base_dn: String, filter: String) -> (o: Self)
        ensures
            o.base_dn == base_dn,
            o.filter == filter,
            o.scope == SearchScope::Subtree,
            o.attributes is None,
            o.size_limit is None,
            o.time_limit is None,
            o.paged_size == Some(500usize),
            !o.types_only,
    {
        SearchOptions {
            base_dn,
            filter,
            scope: SearchScope::Subtree,
            attributes: None,
            size_limit: None,
            time_limit: None,
            paged_size: Some(500),
            types_only: false,
        }
    }

    /// Set search scope.
    pub fn with_scope(self, scope: SearchScope) -> (o: Self)
        ensures
            o == (SearchOptions { scope, ..self }),
    {
        SearchOptions { scope, ..self }
    }

    /// Set attributes to return.
    pub fn with_attributes(self, attributes: Vec<String>) -> (o: Self)
        ensures
            o == (SearchOptions { attributes: Some(attributes), ..self }),
    {
        SearchOptions { attributes: Some(attributes), ..self }
    }

    /// Set size limit.
    pub fn with_size_limit(self, limit: usize) -> (o: Self)
        ensures
            o == (SearchOptions { size_limit: Some(limit), ..self }),
    {
        SearchOptions { size_limit: Some(limit), ..self }
    }

    /// Set time limit.
    pub fn with_time_limit(self, timeout: Duration) -> (o: Self)
        ensures
            o == (SearchOptions { time_limit: Some(timeout), ..self }),
    {
        SearchOptions { time_limit: Some(timeout), ..self }
    }

    /// Set paged result page size.
    pub fn with_page_size(self, size: usize) -> (o: Self)
        ensures
            o == (SearchOptions { paged_size: Some(size), ..self }),
    {
        SearchOptions { paged_size: Some(size), ..self }
    }

    /// Set types-only (attribute names without values).
    pub fn with_types_only(self, types_only: bool) -> (o: Self)
        ensures
            o == (SearchOptions { types_only, ..self }),
    {
        SearchOptions { types_only, ..self }
    }
}

/// Modify operation on an LDAP entry.
#[derive(Debug, Clone)]
pub enum ModifyOp {
    /// Add values to attribute
    Add {
        /// Attribute name
        attr: String,
        /// Values to add (binary-safe)
        values: Vec<Vec<u8>>,
    },
    /// Replace attribute values
    Replace {
        /// Attribute name
        attr: String,
        /// New values (replaces all existing)
        values: Vec<Vec<u8>>,
    },
    /// Delete attribute or specific values
    Delete {
        /// Attribute name
        attr: String,
        /// Values to delete (None = delete entire attribute)
        values: Option<Vec<Vec<u8>>>,
    },
}

impl ModifyOp {
    /// An Add of the UTF-8 bytes of each string.
    pub fn add_strings(attr: String, values: Vec<String>) -> (m: Self)
        ensures
            m matches ModifyOp::Add { attr: a, values: v } && a == attr && values_view(v@)
                == encoded_strings(values@),
    {
        ModifyOp::Add { attr, values: strings_to_bytes(values) }
    }

    /// A Replace with the UTF-8 bytes of each string.
    pub fn replace_strings(attr: String, values: Vec<String>) -> (m: Self)
        ensures
            m matches ModifyOp::Replace { attr: a, values: v } && a == attr && values_view(v@)
                == encoded_strings(values@),
    {
        ModifyOp::Replace { attr, values: strings_to_bytes(values) }
    }

    /// A Delete of the entire attribute.
    pub fn delete_attr(attr: String) -> (m: Self)
        ensures
            m matches ModifyOp::Delete { attr: a, values: v } && a == attr && v is None,
    {
        ModifyOp::Delete { attr, values: None }
    }

    /// A Delete of specific values.
    pub fn delete_values(attr: String, values: Vec<Vec<u8>>) -> (m: Self)
        ensures
            m == (ModifyOp::Delete { attr, values: Some(values) }),
    {
        ModifyOp::Delete { attr, values: Some(values) }
    }
}

} // verus!
