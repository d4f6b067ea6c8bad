//! Podman Quadlet unit files: sections of `Key=value` entries, rendered with
//! the sections in ascending name order.
use vstd::prelude::*;

use super::labels::{label_arg, PodmanLabel};
use crate::text::{chars_of, concat3, extend_str, string_of};

verus! {

/// Podman auto-update label key recognized by `podman auto-update`.
pub const PODMAN_AUTO_UPDATE_LABEL: &'static str = "io.containers.autoupdate";

/// Podman auto-update policies supported by Quadlet and container labels.
#[derive(Debug, Clone, Copy, PartialEq, Eq, Structural)]
pub enum PodmanAutoUpdatePolicy {
    /// Pull updates from the image registry.
    Registry,
    /// Use locally available images.
    Local,
}

/// The label value Podman expects for a policy.
pub open spec fn auto_update_value(p: PodmanAutoUpdatePolicy) -> Seq<char> {
    match p {
        PodmanAutoUpdatePolicy::Registry => "registry"@,
        PodmanAutoUpdatePolicy::Local => "local"@,
    }
}

impl PodmanAutoUpdatePolicy {
    /// The label value expected by Podman.
    pub fn as_label_value(self) -> (s: &'static str)
        ensures
            s@ == auto_update_value(self),
    {
        match self {
            PodmanAutoUpdatePolicy::Registry => "registry",
            PodmanAutoUpdatePolicy::Local => "local",
        }
    }

    /// The complete CLI label argument, such as
    /// `io.containers.autoupdate=registry`.
    pub fn as_label_arg(self) -> (s: String)
        ensures
            s@ == "io.containers.autoupdate"@ + "="@ + auto_update_value(self),
    {
        concat3("io.containers.autoupdate", "=", self.as_label_value())
    }
}

/// Quadlet unit file kind.
#[derive(Debug, Clone, Copy, PartialEq, Eq, Structural)]
pub enum QuadletUnitKind {
    /// A `.container` Quadlet file.
    Container,
    /// A `.pod` Quadlet file.
    Pod,
    /// A `.volume` Quadlet file.
    Volume,
    /// A `.network` Quadlet file.
    Network,
    /// A `.kube` Quadlet file.
    Kube,
}

/// The file extension of a kind.
pub open spec fn kind_extension(k: QuadletUnitKind) -> Seq<char> {
    match k {
        QuadletUnitKind::Container => "container"@,
        QuadletUnitKind::Pod => "pod"@,
        QuadletUnitKind::Volume => "volume"@,
        QuadletUnitKind::Network => "network"@,
        QuadletUnitKind::Kube => "kube"@,
    }
}

/// The primary section of a kind.
pub open spec fn kind_section(k: QuadletUnitKind) -> Seq<char> {
    match k {
        QuadletUnitKind::Container => "Container"@,
        QuadletUnitKind::Pod => "Pod"@,
        QuadletUnitKind::Volume => "Volume"@,
        QuadletUnitKind::Network => "Network"@,
        QuadletUnitKind::Kube => "Kube"@,
    }
}

impl QuadletUnitKind {
    /// The file extension used by systemd Quadlet.
    pub fn extension(self) -> (s: &'static str)
        ensures
            s@ == kind_extension(self),
    {
        match self {
            QuadletUnitKind::Container => "container",
            QuadletUnitKind::Pod => "pod",
            QuadletUnitKind::Volume => "volume",
            QuadletUnitKind::Network => "network",
            QuadletUnitKind::Kube => "kube",
        }
    }

    /// The primary section for this kind.
    pub fn section(self) -> (s: &'static str)
        ensures
            s@ == kind_section(self),
    {
        match self {
            QuadletUnitKind::Container => "Container",
            QuadletUnitKind::Pod => "Pod",
            QuadletUnitKind::Volume => "Volume",
            QuadletUnitKind::Network => "Network",
            QuadletUnitKind::Kube => "Kube",
        }
    }
}

/// Strict lexicographic order on texts, by character.
pub open spec fn text_less(a: Seq<char>, b: Seq<char>) -> bool
    decreases a.len(),
{
    if a.len() == 0 {
        b.len() > 0
    } else if b.len() == 0 {
        false
    } else if a[0] != b[0] {
        (a[0] as int) < (b[0] as int)
    } else {
        text_less(a.drop_first(), b.drop_first())
    }
}

/// [`text_less`] is a strict total order.
pub proof fn lemma_text_less_order(a: Seq<char>, b: Seq<char>, c: Seq<char>)
    ensures
        !text_less(a, a),
        a != b ==> text_less(a, b) || text_less(b, a),
        text_less(a, b) ==> !text_less(b, a),
        text_less(a, b) && text_less(b, c) ==> text_less(a, c),
    decreases a.len(),
{
    if a.len() > 0 {
        if b.len() > 0 && c.len() > 0 {
            lemma_text_less_order(a.drop_first(), b.drop_first(), c.drop_first());
        } else if b.len() > 0 {
            lemma_text_less_order(a.drop_first(), b.drop_first(), b.drop_first());
        } else if c.len() > 0 {
            lemma_text_less_order(a.drop_first(), c.drop_first(), c.drop_first());
        } else {
            lemma_text_less_order(a.drop_first(), a.drop_first(), a.drop_first());
        }
        if b.len() > 0 && a[0] == b[0] && a != b {
            assert(a.drop_first() != b.drop_first()) by {
                if a.drop_first() == b.drop_first() {
                    assert(a =~= seq![a[0]] + a.drop_first());
                    assert(b =~= seq![b[0]] + b.drop_first());
                }
            }
        }
    } else {
        if b.len() == 0 {
            assert(a =~= b);
        }
    }
}

fn chars_less(a: &[char], b: &[char]) -> (r: bool)
    ensures
        r == text_less(a@, b@),
{
    let mut i: usize = 0;
    assert(a@.skip(0) =~= a@);
    assert(b@.skip(0) =~= b@);
    while i < a.len() && i < b.len() && a[i] == b[i]
        invariant
            i <= a.len(),
            i <= b.len(),
            text_less(a@, b@) == text_less(a@.skip(i as int), b@.skip(i as int)),
        decreases a.len() - i,
    {
        assert(a@.skip(i as int).drop_first() =~= a@.skip(i + 1));
        assert(b@.skip(i as int).drop_first() =~= b@.skip(i + 1));
        i = i + 1;
    }
    if i == a.len() {
        assert(a@.skip(i as int).len() == 0);
        i < b.len()
    } else if i == b.len() {
        assert(b@.skip(i as int).len() == 0);
        false
    } else {
        assert(a@.skip(i as int)[0] == a@[i as int]);
        assert(b@.skip(i as int)[0] == b@[i as int]);
        a[i] < b[i]
    }
}

/// The text of one section's entries.
pub type EntriesView = Seq<(Seq<char>, Seq<char>)>;

/// The sections of a unit, each a name and its entries.
pub type SectionsView = Seq<(Seq<char>, EntriesView)>;

/// The names of the sections are in strictly ascending order (so each occurs
/// once).
pub open spec fn sorted_sections(s: SectionsView) -> bool {
    forall|i: int, j: int| 0 <= i < j < s.len() ==> text_less(s[i].0, s[j].0)
}

/// The sections after adding the entry `(key, value)` to the section `name`:
/// appended to its entries if the section exists, else in a new section at
/// its place in name order.
pub open spec fn add_entry(s: SectionsView, name: Seq<char>, key: Seq<char>, value: Seq<char>) -> SectionsView {
    let p = insert_point(s, name);
    if p < s.len() && s[p].0 == name {
        s.update(p, (name, s[p].1.push((key, value))))
    } else {
        s.insert(p, (name, seq![(key, value)]))
    }
}

/// The number of leading sections whose name sorts before `name`.
pub open spec fn insert_point(s: SectionsView, name: Seq<char>) -> int
    decreases s.len(),
{
    if s.len() == 0 || !text_less(s[0].0, name) {
        0
    } else {
        1 + insert_point(s.drop_first(), name)
    }
}

proof fn lemma_insert_point(s: SectionsView, name: Seq<char>)
    ensures
        0 <= insert_point(s, name) <= s.len(),
        forall|i: int| 0 <= i < insert_point(s, name) ==> text_less(s[i].0, name),
        insert_point(s, name) < s.len() ==> !text_less(s[insert_point(s, name)].0, name),
    decreases s.len(),
{
    if s.len() > 0 && text_less(s[0].0, name) {
        lemma_insert_point(s.drop_first(), name);
        assert forall|i: int| 0 <= i < insert_point(s, name) implies text_less(s[i].0, name) by {
            if i > 0 {
                assert(s[i] == s.drop_first()[i - 1]);
            }
        }
    }
}

/// The text of entries: `key=value` lines.
pub open spec fn render_entries(e: EntriesView) -> Seq<char>
    decreases e.len(),
{
    if e.len() == 0 {
        Seq::empty()
    } else {
        render_entries(e.drop_last()) + e.last().0 + "="@ + e.last().1 + "\n"@
    }
}

/// The text of sections: for each, `[name]`, its entries, and a blank line.
pub open spec fn render_sections(s: SectionsView) -> Seq<char>
    decreases s.len(),
{
    if s.len() == 0 {
        Seq::empty()
    } else {
        render_sections(s.drop_last()) + "["@ + s.last().0 + "]\n"@ + render_entries(s.last().1)
            + "\n"@
    }
}

/// Builder for simple Podman Quadlet unit files.
#[derive(Debug, Clone)]
pub struct QuadletUnit {
    kind: QuadletUnitKind,
    name: String,
    sections: Vec<(String, Vec<(String, String)>)>,
}

/// The text of a stored section list.
pub open spec fn sections_view(v: Seq<(String, Vec<(String, String)>)>) -> SectionsView {
    Seq::new(
        v.len(),
        |i: int| (v[i].0@, Seq::new(v[i].1@.len(), |j: int| (v[i].1@[j].0@, v[i].1@[j].1@))),
    )
}

impl QuadletUnit {
    /// The unit's kind.
    pub closed spec fn kind_of(&self) -> QuadletUnitKind {
        self.kind
    }

    /// The unit's name.
    pub closed spec fn name_of(&self) -> Seq<char> {
        self.name@
    }

    /// The unit's sections, in name order.
    pub closed spec fn sections_of(&self) -> SectionsView {
        sections_view(self.sections@)
    }

    /// The sections are kept in ascending name order.
    pub closed spec fn wf(&self) -> bool {
        sorted_sections(self.sections_of())
    }

    /// A unit of `kind` named `name`, with no sections.
    pub fn new(kind: QuadletUnitKind, name: &str) -> (u: Self)
        ensures
            u.wf(),
            u.kind_of() == kind,
            u.name_of() == name@,
            u.sections_of() == SectionsView::empty(),
    {
        let u = QuadletUnit { kind, name: name.to_owned(), sections: Vec::new() };
        assert(u.sections_of() =~= SectionsView::empty());
        u
    }

    /// A `.container` unit with its image.
    pub fn container(name: &str, image: &str) -> (u: Self)
        ensures
            u.wf(),
            u.kind_of() == QuadletUnitKind::Container,
            u.name_of() == name@,
            u.sections_of() == seq![("Container"@, seq![("Image"@, image@)])],
    {
        let u = Self::new(QuadletUnitKind::Container, name).entry("Container", "Image", image);
        assert(u.sections_of() =~= seq![("Container"@, seq![("Image"@, image@)])]);
        u
    }

    /// A `.pod` unit.
    pub fn pod(name: &str) -> (u: Self)
        ensures
            u.wf(),
            u.kind_of() == QuadletUnitKind::Pod,
            u.name_of() == name@,
            u.sections_of() == SectionsView::empty(),
    {
        Self::new(QuadletUnitKind::Pod, name)
    }

    /// A `.kube` unit with its YAML path.
    pub fn kube(name: &str, yaml: &str) -> (u: Self)
        ensures
            u.wf(),
            u.kind_of() == QuadletUnitKind::Kube,
            u.name_of() == name@,
            u.sections_of() == seq![("Kube"@, seq![("Yaml"@, yaml@)])],
    {
        let u = Self::new(QuadletUnitKind::Kube, name).entry("Kube", "Yaml", yaml);
        assert(u.sections_of() =~= seq![("Kube"@, seq![("Yaml"@, yaml@)])]);
        u
    }

    /// Adds the entry `key=value` to `section`, after the section's earlier
    /// entries; a new section takes its place in name order.
    pub fn entry(self, section: &str, key: &str, value: &str) -> (u: Self)
        requires
            self.wf(),
        ensures
            u.wf(),
            u.kind_of() == self.kind_of(),
            u.name_of() == self.name_of(),
            u.sections_of() == add_entry(self.sections_of(), section@, key@, value@),
    {
        let ghost old_s = self.sections_of();
        let mut secs = self.sections;
        let name = chars_of(section);
        let mut p: usize = 0;
        proof {
            lemma_insert_point(old_s, section@);
        }
        assert(old_s.skip(0) =~= old_s);
        while p < secs.len() && chars_less(chars_of(secs[p].0.as_str()).as_slice(), name.as_slice())
            invariant
                p <= secs.len(),
                sections_view(secs@) == old_s,
                name@ == section@,
                insert_point(old_s, section@) == p + insert_point(old_s.skip(p as int), section@),
            decreases secs.len() - p,
        {
            assert(old_s.skip(p as int).drop_first() =~= old_s.skip(p + 1));
            assert(old_s.skip(p as int)[0] == old_s[p as int]);
            p = p + 1;
        }
        proof {
            if p < secs.len() {
                assert(old_s.skip(p as int)[0] == old_s[p as int]);
            } else {
                assert(old_s.skip(p as int).len() == 0);
            }
        }
        assert(p == insert_point(old_s, section@));
        let found = p < secs.len() && crate::text::str_eq(secs[p].0.as_str(), section);
        if found {
            let ghost old_v = secs@;
            let mut sec = secs.remove(p);
            sec.1.push((key.to_owned(), value.to_owned()));
            let ghost new_sec = sec;
            secs.insert(p, sec);
            assert(secs@ =~= old_v.update(p as int, new_sec));
            assert(sections_view(secs@)[p as int].1 =~= old_s[p as int].1.push((key@, value@)));
            let u = QuadletUnit { kind: self.kind, name: self.name, sections: secs };
            assert(u.sections_of() =~= add_entry(old_s, section@, key@, value@));
            u
        } else {
            let mut entries: Vec<(String, String)> = Vec::new();
            entries.push((key.to_owned(), value.to_owned()));
            secs.insert(p, (section.to_owned(), entries));
            assert(sections_view(secs@)[p as int].1 =~= seq![(key@, value@)]);
            let u = QuadletUnit { kind: self.kind, name: self.name, sections: secs };
            assert(u.sections_of() =~= add_entry(old_s, section@, key@, value@));
            proof {
                let s2 = u.sections_of();
                assert forall|i: int, j: int| 0 <= i < j < s2.len() implies text_less(
                    s2[i].0,
                    s2[j].0,
                ) by {
                    if j == p {
                        assert(text_less(old_s[i].0, section@));
                    } else if i == p {
                        lemma_text_less_order(section@, old_s[p as int].0, old_s[j - 1].0);
                        if j - 1 > p {
                            assert(text_less(old_s[p as int].0, old_s[j - 1].0));
                        }
                    } else if i < p && j > p {
                        lemma_text_less_order(old_s[i].0, section@, old_s[j - 1].0);
                        lemma_text_less_order(section@, old_s[p as int].0, old_s[j - 1].0);
                        if j - 1 > p {
                            assert(text_less(old_s[p as int].0, old_s[j - 1].0));
                        }
                    } else if i > p {
                        assert(text_less(old_s[i - 1].0, old_s[j - 1].0));
                    }
                }
            }
            u
        }
    }

    /// Adds Podman's auto-update label to the `Container` section.
    pub fn auto_update(self, policy: PodmanAutoUpdatePolicy) -> (u: Self)
        requires
            self.wf(),
        ensures
            u.wf(),
            u.kind_of() == self.kind_of(),
            u.name_of() == self.name_of(),
            u.sections_of() == add_entry(
                self.sections_of(),
                "Container"@,
                "Label"@,
                "io.containers.autoupdate"@ + "="@ + auto_update_value(policy),
            ),
    {
        self.label(PodmanLabel::auto_update(policy))
    }

    /// Adds a `Label=key=value` entry to the `Container` section.
    pub fn label(self, label: PodmanLabel) -> (u: Self)
        requires
            self.wf(),
        ensures
            u.wf(),
            u.kind_of() == self.kind_of(),
            u.name_of() == self.name_of(),
            u.sections_of() == add_entry(self.sections_of(), "Container"@, "Label"@, label_arg(label@)),
    {
        let arg = label.as_label_arg();
        self.entry("Container", "Label", arg.as_str())
    }

    /// Adds each label in order.
    pub fn labels(self, labels: Vec<PodmanLabel>) -> (u: Self)
        requires
            self.wf(),
        ensures
            u.wf(),
            u.kind_of() == self.kind_of(),
            u.name_of() == self.name_of(),
            u.sections_of() == add_labels(self.sections_of(), super::labels::labels_view(labels@)),
    {
        let mut u = self;
        let ghost start = self.sections_of();
        let mut i: usize = 0;
        while i < labels.len()
            invariant
                i <= labels.len(),
                u.wf(),
                u.kind_of() == self.kind_of(),
                u.name_of() == self.name_of(),
                u.sections_of() == add_labels(start, super::labels::labels_view(labels@).take(i as int)),
            decreases labels.len() - i,
        {
            assert(super::labels::labels_view(labels@).take(i + 1).drop_last()
                =~= super::labels::labels_view(labels@).take(i as int));
            let arg = labels[i].as_label_arg();
            u = u.entry("Container", "Label", arg.as_str());
            i = i + 1;
        }
        assert(super::labels::labels_view(labels@).take(labels.len() as int)
            =~= super::labels::labels_view(labels@));
        u
    }

    /// This unit's kind.
    pub fn kind(&self) -> (k: QuadletUnitKind)
        ensures
            k == self.kind_of(),
    {
        self.kind
    }

    /// This unit's file name: `<name>.<extension>`.
    pub fn file_name(&self) -> (s: String)
        ensures
            s@ == self.name_of() + "."@ + kind_extension(self.kind_of()),
    {
        concat3(self.name.as_str(), ".", self.kind.extension())
    }

    /// The unit file's text.
    pub fn render(&self) -> (s: String)
        ensures
            s@ == render_sections(self.sections_of()),
    {
        let mut out: Vec<char> = Vec::new();
        let ghost all = self.sections_of();
        let mut i: usize = 0;
        while i < self.sections.len()
            invariant
                i <= self.sections.len(),
                all == self.sections_of(),
                out@ == render_sections(all.take(i as int)),
            decreases self.sections.len() - i,
        {
            let sec = &self.sections[i];
            let ghost es = all[i as int].1;
            extend_str(&mut out, "[");
            extend_str(&mut out, sec.0.as_str());
            extend_str(&mut out, "]\n");
            let ghost head = out@;
            let mut j: usize = 0;
            while j < sec.1.len()
                invariant
                    j <= sec.1.len(),
                    es == all[i as int].1,
                    es.len() == sec.1.len(),
                    forall|k: int| 0 <= k < es.len() ==> es[k] == (sec.1@[k].0@, sec.1@[k].1@),
                    out@ == head + render_entries(es.take(j as int)),
                decreases sec.1.len() - j,
            {
                assert(es.take(j + 1).drop_last() =~= es.take(j as int));
                extend_str(&mut out, sec.1[j].0.as_str());
                extend_str(&mut out, "=");
                extend_str(&mut out, sec.1[j].1.as_str());
                extend_str(&mut out, "\n");
                assert(out@ =~= head + render_entries(es.take(j + 1)));
                j = j + 1;
            }
            assert(es.take(sec.1.len() as int) =~= es);
            extend_str(&mut out, "\n");
            assert(all.take(i + 1).drop_last() =~= all.take(i as int));
            assert(out@ =~= render_sections(all.take(i + 1)));
            i = i + 1;
        }
        assert(all.take(self.sections.len() as int) =~= all);
        string_of(out.as_slice())
    }
}

/// The sections after adding a `Label` entry for each label in order.
pub open spec fn add_labels(s: SectionsView, ls: Seq<(Seq<char>, Seq<char>)>) -> SectionsView
    decreases ls.len(),
{
    if ls.len() == 0 {
        s
    } else {
        add_entry(add_labels(s, ls.drop_last()), "Container"@, "Label"@, label_arg(ls.last()))
    }
}

/// The entries of the section named `name`, or none when there is no such
/// section.
pub open spec fn section_entries(s: SectionsView, name: Seq<char>) -> EntriesView
    decreases s.len(),
{
    if s.len() == 0 {
        Seq::empty()
    } else if s[0].0 == name {
        s[0].1
    } else {
        section_entries(s.drop_first(), name)
    }
}

proof fn lemma_section_entries_at(s: SectionsView, name: Seq<char>, i: int)
    requires
        0 <= i < s.len(),
        s[i].0 == name,
        forall|j: int| 0 <= j < i ==> s[j].0 != name,
    ensures
        section_entries(s, name) == s[i].1,
    decreases i,
{
    if i > 0 {
        assert forall|j: int| 0 <= j < i - 1 implies s.drop_first()[j].0 != name by {
            assert(s.drop_first()[j] == s[j + 1]);
        }
        lemma_section_entries_at(s.drop_first(), name, i - 1);
    }
}

proof fn lemma_section_entries_none(s: SectionsView, name: Seq<char>)
    requires
        forall|j: int| 0 <= j < s.len() ==> s[j].0 != name,
    ensures
        section_entries(s, name) == EntriesView::empty(),
    decreases s.len(),
{
    if s.len() > 0 {
        assert forall|j: int| 0 <= j < s.drop_first().len() implies s.drop_first()[j].0 != name by {
            assert(s.drop_first()[j] == s[j + 1]);
        }
        lemma_section_entries_none(s.drop_first(), name);
    }
}

/// The first index of a section named `n`, if any.
proof fn lemma_section_first(s: SectionsView, n: Seq<char>) -> (r: Option<int>)
    ensures
        r matches Some(i) ==> 0 <= i < s.len() && s[i].0 == n && (forall|j: int|
            0 <= j < i ==> s[j].0 != n) && section_entries(s, n) == s[i].1,
        r is None ==> (forall|j: int| 0 <= j < s.len() ==> s[j].0 != n) && section_entries(s, n)
            == EntriesView::empty(),
    decreases s.len(),
{
    if s.len() == 0 {
        lemma_section_entries_none(s, n);
        None
    } else if s[0].0 == n {
        Some(0)
    } else {
        match lemma_section_first(s.drop_first(), n) {
            Some(i) => {
                assert forall|j: int| 0 <= j < i + 1 implies s[j].0 != n by {
                    if j > 0 {
                        assert(s[j] == s.drop_first()[j - 1]);
                    }
                }
                Some(i + 1)
            },
            None => {
                assert forall|j: int| 0 <= j < s.len() implies s[j].0 != n by {
                    if j > 0 {
                        assert(s[j] == s.drop_first()[j - 1]);
                    }
                }
                None
            },
        }
    }
}

/// Adding an entry to a section of a unit whose sections are in order
/// appends it to that section's entries and leaves every other section's
/// entries as they were.
pub proof fn add_entry_appends_to_its_section(
    s: SectionsView,
    name: Seq<char>,
    key: Seq<char>,
    value: Seq<char>,
    other: Seq<char>,
)
    requires
        sorted_sections(s),
        other != name,
    ensures
        section_entries(add_entry(s, name, key, value), name) == section_entries(s, name).push(
            (key, value),
        ),
        section_entries(add_entry(s, name, key, value), other) == section_entries(s, other),
{
    let p = insert_point(s, name);
    lemma_insert_point(s, name);
    let t = add_entry(s, name, key, value);
    assert forall|j: int| 0 <= j < p implies s[j].0 != name by {
        lemma_text_less_order(s[j].0, name, name);
    }
    if p < s.len() && s[p].0 == name {
        assert(t == s.update(p, (name, s[p].1.push((key, value)))));
        lemma_section_entries_at(s, name, p);
        lemma_section_entries_at(t, name, p);
        match lemma_section_first(s, other) {
            Some(i) => {
                assert(i != p);
                lemma_section_entries_at(t, other, i);
            },
            None => {
                lemma_section_entries_none(t, other);
            },
        }
    } else {
        assert(t == s.insert(p, (name, seq![(key, value)])));
        assert forall|j: int| p <= j < s.len() implies s[j].0 != name by {
            lemma_text_less_order(name, s[p].0, s[j].0);
            lemma_text_less_order(s[p].0, name, name);
            if j > p {
                assert(text_less(s[p].0, s[j].0));
            }
            lemma_text_less_order(name, s[j].0, name);
        }
        lemma_section_entries_none(s, name);
        lemma_section_entries_at(t, name, p);
        assert(seq![(key, value)] =~= EntriesView::empty().push((key, value)));
        match lemma_section_first(s, other) {
            Some(i) => {
                if i < p {
                    lemma_section_entries_at(t, other, i);
                } else {
                    assert forall|j: int| 0 <= j < i + 1 implies t[j].0 != other by {
                        if j > p {
                            assert(t[j] == s[j - 1]);
                        }
                    }
                    lemma_section_entries_at(t, other, i + 1);
                }
            },
            None => {
                assert forall|j: int| 0 <= j < t.len() implies t[j].0 != other by {
                    if j > p {
                        assert(t[j] == s[j - 1]);
                    }
                }
                lemma_section_entries_none(t, other);
            },
        }
    }
}

} // verus!
