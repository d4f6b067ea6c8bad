//! Podman container labels and their command-line form.
use vstd::prelude::*;

use super::quadlet::{auto_update_value, PodmanAutoUpdatePolicy};
use crate::error::{Result, VeltrixError};
use crate::text::{chars_of, concat3, contains_char, str_eq, trim, trim_chars};

verus! {

/// Why a label key or value is refused, if it is: it is blank, or holds a NUL
/// byte or a line break, or (for a key) an `=`.
pub open spec fn label_part_error(field: Seq<char>, value: Seq<char>) -> Option<Seq<char>> {
    if trim(value).len() == 0 {
        Some("label field must not be empty"@)
    } else if value.contains('\0') {
        Some("label field must not contain NUL bytes"@)
    } else if value.contains('\n') || value.contains('\r') {
        Some("label field must not contain newlines"@)
    } else if field == "key"@ && value.contains('=') {
        Some("label key must not contain '='"@)
    } else {
        None
    }
}

/// Checks one part of a label; `field` names it (`key` or `value`).
pub fn validate_label_part(field: &str, value: &str) -> (r: Result<()>)
    ensures
        match label_part_error(field@, value@) {
            None => r is Ok,
            Some(reason) => r matches Err(VeltrixError::Validation { field: f, reason: m }) && f@
                == field@ && m@ == reason,
        },
{
    let cs = chars_of(value);
    let t = trim_chars(cs.as_slice());
    if t.len() == 0 {
        return Err(VeltrixError::validation(field, "label field must not be empty"));
    }
    if contains_char(cs.as_slice(), '\0') {
        return Err(VeltrixError::validation(field, "label field must not contain NUL bytes"));
    }
    if contains_char(cs.as_slice(), '\n') || contains_char(cs.as_slice(), '\r') {
        return Err(VeltrixError::validation(field, "label field must not contain newlines"));
    }
    if str_eq(field, "key") && contains_char(cs.as_slice(), '=') {
        return Err(VeltrixError::validation(field, "label key must not contain '='"));
    }
    Ok(())
}

/// Podman's auto-update label key.
pub open spec fn auto_update_key() -> Seq<char> {
    "io.containers.autoupdate"@
}

/// A Podman label key/value pair.
#[derive(Debug, Clone, PartialEq, Eq, Hash)]
pub struct PodmanLabel {
    key: String,
    value: String,
}

impl View for PodmanLabel {
    type V = (Seq<char>, Seq<char>);

    closed spec fn view(&self) -> (Seq<char>, Seq<char>) {
        (self.key@, self.value@)
    }
}

/// The `key=value` text of a label.
pub open spec fn label_arg(l: (Seq<char>, Seq<char>)) -> Seq<char> {
    l.0 + "="@ + l.1
}

impl PodmanLabel {
    /// A label, after checking its key and then its value.
    pub fn new(key: &str, value: &str) -> (r: Result<Self>)
        ensures
            label_part_error("key"@, key@) is None && label_part_error("value"@, value@) is None
                ==> (r matches Ok(l) && l@ == (key@, value@)),
            label_part_error("key"@, key@) matches Some(m) ==> (r matches Err(
                VeltrixError::Validation { field, reason },
            ) && field@ == "key"@ && reason@ == m),
            label_part_error("key"@, key@) is None ==> (label_part_error("value"@, value@) matches Some(
                m,
            ) ==> (r matches Err(VeltrixError::Validation { field, reason }) && field@ == "value"@
                && reason@ == m)),
    {
        match validate_label_part("key", key) {
            Err(e) => return Err(e),
            Ok(()) => {},
        }
        match validate_label_part("value", value) {
            Err(e) => return Err(e),
            Ok(()) => {},
        }
        Ok(PodmanLabel { key: key.to_owned(), value: value.to_owned() })
    }

    /// Podman's auto-update label for `policy`.
    pub fn auto_update(policy: PodmanAutoUpdatePolicy) -> (l: Self)
        ensures
            l@ == (auto_update_key(), auto_update_value(policy)),
    {
        PodmanLabel {
            key: "io.containers.autoupdate".to_owned(),
            value: policy.as_label_value().to_owned(),
        }
    }

    /// The label key.
    pub fn key(&self) -> (k: &str)
        ensures
            k@ == self@.0,
    {
        self.key.as_str()
    }

    /// The label value.
    pub fn value(&self) -> (v: &str)
        ensures
            v@ == self@.1,
    {
        self.value.as_str()
    }

    /// The `key=value` form accepted by Podman CLI and Quadlet.
    pub fn as_label_arg(&self) -> (s: String)
        ensures
            s@ == label_arg(self@),
    {
        concat3(self.key.as_str(), "=", self.value.as_str())
    }

    /// The label as text: its `key=value` form.
    pub fn to_string(&self) -> (s: String)
        ensures
            s@ == label_arg(self@),
    {
        self.as_label_arg()
    }
}

/// The labels of a sequence.
pub open spec fn labels_view(ls: Seq<PodmanLabel>) -> Seq<(Seq<char>, Seq<char>)> {
    Seq::new(ls.len(), |i: int| ls[i]@)
}

/// `--label key=value` for each label, in order.
pub open spec fn cli_args_of(ls: Seq<(Seq<char>, Seq<char>)>) -> Seq<Seq<char>>
    decreases ls.len(),
{
    if ls.len() == 0 {
        Seq::empty()
    } else {
        cli_args_of(ls.drop_last()) + seq!["--label"@, label_arg(ls.last())]
    }
}

/// Converts labels to repeated `--label key=value` CLI arguments.
pub fn labels_to_cli_args(labels: &[PodmanLabel]) -> (r: Vec<String>)
    ensures
        crate::os::process::strings_view(r@) == cli_args_of(labels_view(labels@)),
{
    let mut args: Vec<String> = Vec::new();
    let mut i: usize = 0;
    while i < labels.len()
        invariant
            i <= labels.len(),
            crate::os::process::strings_view(args@) == cli_args_of(labels_view(labels@).take(i as int)),
        decreases labels.len() - i,
    {
        let ghost before = crate::os::process::strings_view(args@);
        args.push("--label".to_owned());
        args.push(labels[i].as_label_arg());
        assert(labels_view(labels@).take(i + 1).drop_last() =~= labels_view(labels@).take(i as int));
        assert(crate::os::process::strings_view(args@) =~= before + seq![
            "--label"@,
            label_arg(labels@[i as int]@),
        ]);
        i = i + 1;
    }
    assert(labels_view(labels@).take(labels.len() as int) =~= labels_view(labels@));
    args
}

/// A collection of Podman labels.
#[derive(Debug, Clone, PartialEq, Eq)]
pub struct PodmanLabels {
    labels: Vec<PodmanLabel>,
}

impl View for PodmanLabels {
    type V = Seq<(Seq<char>, Seq<char>)>;

    closed spec fn view(&self) -> Seq<(Seq<char>, Seq<char>)> {
        labels_view(self.labels@)
    }
}

/// The first pair of `pairs` with a refused key or value, with the error it
/// gives; `None` when every pair is a valid label.
pub open spec fn first_label_error(pairs: Seq<(String, String)>) -> Option<(Seq<char>, Seq<char>)>
    decreases pairs.len(),
{
    if pairs.len() == 0 {
        None
    } else {
        match label_part_error("key"@, pairs[0].0@) {
            Some(m) => Some(("key"@, m)),
            None => match label_part_error("value"@, pairs[0].1@) {
                Some(m) => Some(("value"@, m)),
                None => first_label_error(pairs.drop_first()),
            },
        }
    }
}

impl PodmanLabels {
    /// An empty label collection.
    pub fn new() -> (l: Self)
        ensures
            l@ == Seq::<(Seq<char>, Seq<char>)>::empty(),
    {
        let l = PodmanLabels { labels: Vec::new() };
        assert(l@ =~= Seq::<(Seq<char>, Seq<char>)>::empty());
        l
    }

    /// Labels from `(key, value)` pairs, in order; the first refused pair is
    /// the error.
    pub fn from_pairs(pairs: Vec<(String, String)>) -> (r: Result<Self>)
        ensures
            first_label_error(pairs@) is None ==> (r matches Ok(l) && l@ == Seq::new(
                pairs.len() as nat,
                |i: int| (pairs@[i].0@, pairs@[i].1@),
            )),
            first_label_error(pairs@) matches Some((f, m)) ==> (r matches Err(
                VeltrixError::Validation { field, reason },
            ) && field@ == f && reason@ == m),
    {
        let mut labels = Self::new();
        let mut i: usize = 0;
        assert(pairs@.skip(0) =~= pairs@);
        while i < pairs.len()
            invariant
                i <= pairs.len(),
                first_label_error(pairs@) == first_label_error(pairs@.skip(i as int)),
                labels@ == Seq::new(i as nat, |k: int| (pairs@[k].0@, pairs@[k].1@)),
            decreases pairs.len() - i,
        {
            assert(pairs@.skip(i as int).drop_first() =~= pairs@.skip(i + 1));
            assert(pairs@.skip(i as int)[0] == pairs@[i as int]);
            let label = match PodmanLabel::new(pairs[i].0.as_str(), pairs[i].1.as_str()) {
                Ok(l) => l,
                Err(e) => return Err(e),
            };
            labels = labels.label(label);
            assert(labels@ =~= Seq::new((i + 1) as nat, |k: int| (pairs@[k].0@, pairs@[k].1@)));
            i = i + 1;
        }
        assert(pairs@.skip(i as int).len() == 0);
        Ok(labels)
    }

    /// Adds a label at the end.
    pub fn label(self, label: PodmanLabel) -> (l: Self)
        ensures
            l@ == self@.push(label@),
    {
        let mut v = self.labels;
        let ghost before = labels_view(v@);
        v.push(label);
        let l = PodmanLabels { labels: v };
        assert(l@ =~= before.push(label@));
        l
    }

    /// Adds Podman's auto-update label.
    pub fn auto_update(self, policy: PodmanAutoUpdatePolicy) -> (l: Self)
        ensures
            l@ == self@.push((auto_update_key(), auto_update_value(policy))),
    {
        self.label(PodmanLabel::auto_update(policy))
    }

    /// The labels, in order.
    pub fn as_slice(&self) -> (s: &[PodmanLabel])
        ensures
            labels_view(s@) == self@,
    {
        self.labels.as_slice()
    }

    /// Whether the collection is empty.
    pub fn is_empty(&self) -> (b: bool)
        ensures
            b == (self@.len() == 0),
    {
        self.labels.len() == 0
    }

    /// CLI arguments in `--label key=value` form.
    pub fn to_cli_args(&self) -> (r: Vec<String>)
        ensures
            crate::os::process::strings_view(r@) == cli_args_of(self@),
    {
        labels_to_cli_args(self.labels.as_slice())
    }
}

/// Arguments `2i` and `2i + 1` are `--label` and the `i`th label's `key=value`.
pub open spec fn label_pair_at(args: Seq<Seq<char>>, ls: Seq<(Seq<char>, Seq<char>)>, i: int) -> bool {
    args[2 * i] == "--label"@ && args[2 * i + 1] == label_arg(ls[i])
}

/// The CLI form of labels is two arguments per label, in order: `--label`,
/// then the label's `key=value`.
pub proof fn cli_args_pair_each_label(ls: Seq<(Seq<char>, Seq<char>)>)
    ensures
        cli_args_of(ls).len() == 2 * ls.len(),
        forall|i: int| 0 <= i < ls.len() ==> #[trigger] label_pair_at(cli_args_of(ls), ls, i),
    decreases ls.len(),
{
    if ls.len() > 0 {
        cli_args_pair_each_label(ls.drop_last());
        let prev = cli_args_of(ls.drop_last());
        let last = seq!["--label"@, label_arg(ls.last())];
        assert(cli_args_of(ls) == prev + last);
        assert forall|i: int| 0 <= i < ls.len() implies #[trigger] label_pair_at(
            cli_args_of(ls),
            ls,
            i,
        ) by {
            if i < ls.len() - 1 {
                assert(label_pair_at(prev, ls.drop_last(), i));
                assert(ls.drop_last()[i] == ls[i]);
                assert(cli_args_of(ls)[2 * i] == prev[2 * i]);
                assert(cli_args_of(ls)[2 * i + 1] == prev[2 * i + 1]);
            } else {
                assert(cli_args_of(ls)[2 * i] == last[0]);
                assert(cli_args_of(ls)[2 * i + 1] == last[1]);
            }
        }
    }
}

} // verus!
