//! Emoji data generation: reading Unicode's `emoji-test.txt`, naming a Rust
//! constant for each emoji, and rendering the generated Rust sources.
use vstd::prelude::*;

use crate::codegen::xml::{
    attribute_view, attributes_view, read_view, reads_view, xml_reads, xml_reads_of, XmlEvent,
    XmlEventView,
};
use crate::services::systemd::dbus::strip_leading;
use crate::text::{
    ascii_lower_chars, ascii_lower_seq, ascii_upper_chars, ascii_upper_seq, chars_eq, chars_eq_str,
    chars_of, concat2, concat3, eq_ignore_ascii_case, extend_chars, extend_str, find_char,
    first_index, has_prefix, lemma_first_index, lines, lines_chars, seqs_of, slice_chars,
    split_whitespace_chars, starts_with, string_of, trim, trim_chars, words,
};

verus! {

/// One emoji read from the Unicode test data.
#[derive(Debug, Clone)]
pub struct Emoji {
    pub emoji: String,
    pub name: String,
    pub group: String,
    pub subgroup: String,
    pub codepoints: Vec<String>,
    pub emoji_version: String,
    pub const_name: String,
    pub is_flag: bool,
}

/// The text content of an [`Emoji`].
pub struct EmojiView {
    pub emoji: Seq<char>,
    pub name: Seq<char>,
    pub group: Seq<char>,
    pub subgroup: Seq<char>,
    pub codepoints: Seq<Seq<char>>,
    pub emoji_version: Seq<char>,
    pub const_name: Seq<char>,
    pub is_flag: bool,
}

impl View for Emoji {
    type V = EmojiView;

    open spec fn view(&self) -> EmojiView {
        EmojiView {
            emoji: self.emoji@,
            name: self.name@,
            group: self.group@,
            subgroup: self.subgroup@,
            codepoints: crate::os::process::strings_view(self.codepoints@),
            emoji_version: self.emoji_version@,
            const_name: self.const_name@,
            is_flag: self.is_flag,
        }
    }
}

/// The views of a sequence of emojis.
pub open spec fn emojis_view(v: Seq<Emoji>) -> Seq<EmojiView> {
    Seq::new(v.len(), |i: int| v[i]@)
}

/// The input file for an emoji data version: `data/unicode-emoji.txt` for
/// `latest` (in any ASCII case), else `data/unicode-emoji-<version>.txt`.
pub fn emoji_input_path(version: &str) -> (p: String)
    ensures
        ascii_lower_seq(version@) == "latest"@ ==> p@ == "data/unicode-emoji.txt"@,
        ascii_lower_seq(version@) != "latest"@ ==> p@ == "data/unicode-emoji-"@ + version@
            + ".txt"@,
{
    proof {
        reveal_strlit("latest");
        assert(ascii_lower_seq("latest"@) =~= "latest"@);
    }
    if eq_ignore_ascii_case(version, "latest") {
        "data/unicode-emoji.txt".to_owned()
    } else {
        concat3("data/unicode-emoji-", version, ".txt")
    }
}

/// The CLDR annotations file for a version: `data/unicode-cldr-en.xml` for
/// `latest` (in any ASCII case), else `data/unicode-cldr-en-<version>.xml`.
pub fn cldr_input_path(version: &str) -> (p: String)
    ensures
        ascii_lower_seq(version@) == "latest"@ ==> p@ == "data/unicode-cldr-en.xml"@,
        ascii_lower_seq(version@) != "latest"@ ==> p@ == "data/unicode-cldr-en-"@ + version@
            + ".xml"@,
{
    proof {
        reveal_strlit("latest");
        assert(ascii_lower_seq("latest"@) =~= "latest"@);
    }
    if eq_ignore_ascii_case(version, "latest") {
        "data/unicode-cldr-en.xml".to_owned()
    } else {
        concat3("data/unicode-cldr-en-", version, ".xml")
    }
}

/// The first three space-separated parts of `s` (`str::splitn(3, ' ')`),
/// missing parts empty.
pub open spec fn split3(s: Seq<char>) -> (Seq<char>, Seq<char>, Seq<char>) {
    let i = first_index(s, ' ');
    if i >= s.len() {
        (s, Seq::empty(), Seq::empty())
    } else {
        let rest = s.skip(i + 1 as int);
        let j = first_index(rest, ' ');
        if j >= rest.len() {
            (s.take(i as int), rest, Seq::empty())
        } else {
            (s.take(i as int), rest.take(j as int), rest.skip(j + 1 as int))
        }
    }
}

/// What one line of the test data is.
pub enum LineSpec {
    /// `# group: <name>`
    Group(Seq<char>),
    /// `# subgroup: <name>`
    Subgroup(Seq<char>),
    /// Nothing to take: blank, a comment, malformed, not fully qualified, or
    /// without emoji or name.
    Skip,
    /// A fully-qualified emoji: the emoji, its name, version, code points,
    /// and whether it is a flag.
    Entry(Seq<char>, Seq<char>, Seq<char>, Seq<Seq<char>>, bool),
}

/// Each code point written in ASCII uppercase.
pub open spec fn upper_all(ws: Seq<Seq<char>>) -> Seq<Seq<char>> {
    Seq::new(ws.len(), |i: int| ascii_upper_seq(ws[i]))
}

/// How a fully-qualified line's comment reads: the emoji, the version
/// without its leading `E`s, and the name, which for a flag (a name starting
/// `flag: ` in any ASCII case) is the text after that prefix, trimmed.
pub open spec fn comment_parts(comment: Seq<char>) -> (Seq<char>, Seq<char>, Seq<char>, bool) {
    let (e, v, n) = split3(comment);
    let flag = has_prefix(ascii_lower_seq(n), "flag: "@);
    (e, strip_leading(v, 'E'), if flag { trim(n.skip(6)) } else { n }, flag)
}

/// What a raw line of `emoji-test.txt` is.
pub open spec fn line_spec(raw: Seq<char>) -> LineSpec {
    let line = trim(raw);
    if has_prefix(line, "# group: "@) {
        LineSpec::Group(line.skip(9))
    } else if has_prefix(line, "# subgroup: "@) {
        LineSpec::Subgroup(line.skip(12))
    } else if line.len() == 0 || line[0] == '#' {
        LineSpec::Skip
    } else {
        let h = first_index(line, '#');
        let left = line.take(h as int);
        let sc = first_index(left, ';');
        if h >= line.len() || sc >= left.len() || trim(left.skip(sc + 1 as int))
            != "fully-qualified"@ {
            LineSpec::Skip
        } else {
            let (e, v, n, flag) = comment_parts(trim(line.skip(h + 1 as int)));
            if e.len() == 0 || n.len() == 0 {
                LineSpec::Skip
            } else {
                LineSpec::Entry(e, n, v, upper_all(words(left.take(sc as int))), flag)
            }
        }
    }
}

/// The running state of a read: current group, current subgroup, emojis so far.
pub struct EmojiScan {
    pub group: Seq<char>,
    pub subgroup: Seq<char>,
    pub emojis: Seq<EmojiView>,
}

/// The read of all `ls`, in order.
pub open spec fn emoji_scan(ls: Seq<Seq<char>>) -> EmojiScan
    decreases ls.len(),
{
    if ls.len() == 0 {
        EmojiScan { group: Seq::empty(), subgroup: Seq::empty(), emojis: Seq::empty() }
    } else {
        let st = emoji_scan(ls.drop_last());
        match line_spec(ls.last()) {
            LineSpec::Group(g) => EmojiScan { group: g, ..st },
            LineSpec::Subgroup(s) => EmojiScan { subgroup: s, ..st },
            LineSpec::Skip => st,
            LineSpec::Entry(e, n, v, cps, flag) => EmojiScan {
                emojis: st.emojis.push(
                    EmojiView {
                        emoji: e,
                        name: n,
                        group: st.group,
                        subgroup: st.subgroup,
                        codepoints: cps,
                        emoji_version: v,
                        const_name: Seq::empty(),
                        is_flag: flag,
                    },
                ),
                ..st
            },
        }
    }
}

/// One line of the test data, as read.
pub enum EmojiLine {
    Group(String),
    Subgroup(String),
    Skip,
    Entry { emoji: String, name: String, version: String, codepoints: Vec<String>, is_flag: bool },
}

/// Whether an executable line reading matches [`line_spec`].
pub open spec fn line_matches(l: EmojiLine, s: LineSpec) -> bool {
    match l {
        EmojiLine::Group(g) => s == LineSpec::Group(g@),
        EmojiLine::Subgroup(g) => s == LineSpec::Subgroup(g@),
        EmojiLine::Skip => s == LineSpec::Skip,
        EmojiLine::Entry { emoji, name, version, codepoints, is_flag } => s == LineSpec::Entry(
            emoji@,
            name@,
            version@,
            crate::os::process::strings_view(codepoints@),
            is_flag,
        ),
    }
}

fn strip_leading_chars(a: &[char], c: char) -> (r: Vec<char>)
    ensures
        r@ == strip_leading(a@, c),
{
    let mut i: usize = 0;
    assert(a@.skip(0) =~= a@);
    while i < a.len() && a[i] == c
        invariant
            i <= a.len(),
            strip_leading(a@, c) == strip_leading(a@.skip(i as int), c),
        decreases a.len() - i,
    {
        assert(a@.skip(i as int).drop_first() =~= a@.skip(i + 1));
        i = i + 1;
    }
    let r = slice_chars(a, i, a.len());
    assert(r@ =~= a@.skip(i as int));
    r
}

fn split3_chars(s: &[char]) -> (r: (Vec<char>, Vec<char>, Vec<char>))
    ensures
        (r.0@, r.1@, r.2@) == split3(s@),
{
    let i = find_char(s, ' ');
    proof {
        lemma_first_index(s@, ' ');
    }
    if i >= s.len() {
        let a = slice_chars(s, 0, s.len());
        assert(a@ =~= s@);
        return (a, Vec::new(), Vec::new());
    }
    let first = slice_chars(s, 0, i);
    let rest = slice_chars(s, i + 1, s.len());
    assert(first@ =~= s@.take(i as int));
    assert(rest@ =~= s@.skip(i + 1 as int));
    let j = find_char(rest.as_slice(), ' ');
    proof {
        lemma_first_index(rest@, ' ');
    }
    if j >= rest.len() {
        return (first, rest, Vec::new());
    }
    let second = slice_chars(rest.as_slice(), 0, j);
    let third = slice_chars(rest.as_slice(), j + 1, rest.len());
    assert(second@ =~= rest@.take(j as int));
    assert(third@ =~= rest@.skip(j + 1 as int));
    (first, second, third)
}

fn upper_words(a: &[char]) -> (r: Vec<String>)
    ensures
        crate::os::process::strings_view(r@) == upper_all(words(a@)),
{
    let ws = split_whitespace_chars(a);
    let ghost all = seqs_of(ws@);
    let mut out: Vec<String> = Vec::new();
    let mut i: usize = 0;
    while i < ws.len()
        invariant
            i <= ws.len(),
            all == seqs_of(ws@),
            all == words(a@),
            crate::os::process::strings_view(out@) == upper_all(all).take(i as int),
        decreases ws.len() - i,
    {
        let u = ascii_upper_chars(ws[i].as_slice());
        let ghost before = crate::os::process::strings_view(out@);
        out.push(string_of(u.as_slice()));
        assert(crate::os::process::strings_view(out@) =~= before.push(ascii_upper_seq(all[i as int])));
        assert(upper_all(all).take(i + 1) =~= upper_all(all).take(i as int).push(
            ascii_upper_seq(all[i as int]),
        ));
        i = i + 1;
    }
    assert(upper_all(all).take(ws.len() as int) =~= upper_all(all));
    out
}

fn read_comment(comment: &[char]) -> (r: (Vec<char>, Vec<char>, Vec<char>, bool))
    ensures
        (r.0@, r.1@, r.2@, r.3) == comment_parts(comment@),
{
    let (e, v, n) = split3_chars(comment);
    let version = strip_leading_chars(v.as_slice(), 'E');
    let low = ascii_lower_chars(n.as_slice());
    let prefix = chars_of("flag: ");
    let flag = starts_with(low.as_slice(), prefix.as_slice());
    if flag {
        proof {
            reveal_strlit("flag: ");
        }
        assert(n@.len() >= 6);
        let after = slice_chars(n.as_slice(), 6, n.len());
        assert(after@ =~= n@.skip(6));
        let name = trim_chars(after.as_slice());
        (e, version, name, true)
    } else {
        (e, version, n, false)
    }
}

/// Reads one raw line of `emoji-test.txt`.
pub fn read_emoji_line(raw: &[char]) -> (r: EmojiLine)
    ensures
        line_matches(r, line_spec(raw@)),
{
    let line = trim_chars(raw);
    let group = chars_of("# group: ");
    let subgroup = chars_of("# subgroup: ");
    proof {
        reveal_strlit("# group: ");
        reveal_strlit("# subgroup: ");
    }
    if starts_with(line.as_slice(), group.as_slice()) {
        let g = slice_chars(line.as_slice(), 9, line.len());
        assert(g@ =~= line@.skip(9));
        return EmojiLine::Group(string_of(g.as_slice()));
    }
    if starts_with(line.as_slice(), subgroup.as_slice()) {
        let g = slice_chars(line.as_slice(), 12, line.len());
        assert(g@ =~= line@.skip(12));
        return EmojiLine::Subgroup(string_of(g.as_slice()));
    }
    if line.len() == 0 || line[0] == '#' {
        return EmojiLine::Skip;
    }
    let h = find_char(line.as_slice(), '#');
    proof {
        lemma_first_index(line@, '#');
    }
    if h >= line.len() {
        return EmojiLine::Skip;
    }
    let left = slice_chars(line.as_slice(), 0, h);
    assert(left@ =~= line@.take(h as int));
    let sc = find_char(left.as_slice(), ';');
    proof {
        lemma_first_index(left@, ';');
    }
    if sc >= left.len() {
        return EmojiLine::Skip;
    }
    let status_raw = slice_chars(left.as_slice(), sc + 1, left.len());
    assert(status_raw@ =~= left@.skip(sc + 1 as int));
    let status = trim_chars(status_raw.as_slice());
    if !chars_eq_str(status.as_slice(), "fully-qualified") {
        return EmojiLine::Skip;
    }
    let right = slice_chars(line.as_slice(), h + 1, line.len());
    assert(right@ =~= line@.skip(h + 1 as int));
    let comment = trim_chars(right.as_slice());
    let (e, v, n, flag) = read_comment(comment.as_slice());
    if e.len() == 0 || n.len() == 0 {
        return EmojiLine::Skip;
    }
    let cps_raw = slice_chars(left.as_slice(), 0, sc);
    assert(cps_raw@ =~= left@.take(sc as int));
    let codepoints = upper_words(cps_raw.as_slice());
    EmojiLine::Entry {
        emoji: string_of(e.as_slice()),
        name: string_of(n.as_slice()),
        version: string_of(v.as_slice()),
        codepoints,
        is_flag: flag,
    }
}

/// Reads the fully-qualified emojis of `emoji-test.txt`, each with the
/// group and subgroup in effect at its line.
pub fn parse_emoji_test(input: &str) -> (r: Vec<Emoji>)
    ensures
        emojis_view(r@) == emoji_scan(lines(input@)).emojis,
{
    let cs = chars_of(input);
    let ls = lines_chars(cs.as_slice());
    let ghost all = seqs_of(ls@);
    let mut group = String::new();
    let mut subgroup = String::new();
    let mut emojis: Vec<Emoji> = Vec::new();
    let mut i: usize = 0;
    assert(emojis_view(emojis@) =~= Seq::<EmojiView>::empty());
    while i < ls.len()
        invariant
            i <= ls.len(),
            all == seqs_of(ls@),
            all == lines(input@),
            group@ == emoji_scan(all.take(i as int)).group,
            subgroup@ == emoji_scan(all.take(i as int)).subgroup,
            emojis_view(emojis@) == emoji_scan(all.take(i as int)).emojis,
        decreases ls.len() - i,
    {
        assert(all.take(i + 1).drop_last() =~= all.take(i as int));
        assert(all.take(i + 1).last() == ls@[i as int]@);
        match read_emoji_line(ls[i].as_slice()) {
            EmojiLine::Group(g) => {
                group = g;
            },
            EmojiLine::Subgroup(s) => {
                subgroup = s;
            },
            EmojiLine::Skip => {},
            EmojiLine::Entry { emoji, name, version, codepoints, is_flag } => {
                let ghost before = emojis_view(emojis@);
                let e = Emoji {
                    emoji,
                    name,
                    group: string_of(chars_of(group.as_str()).as_slice()),
                    subgroup: string_of(chars_of(subgroup.as_str()).as_slice()),
                    codepoints,
                    emoji_version: version,
                    const_name: String::new(),
                    is_flag,
                };
                let ghost ev = e@;
                emojis.push(e);
                assert(emojis_view(emojis@) =~= before.push(ev));
            },
        }
        i = i + 1;
    }
    assert(all.take(ls.len() as int) =~= all);
    emojis
}

/// What heck's `to_shouty_snake_case` makes of a text.
pub uninterp spec fn shouty_snake_case(s: Seq<char>) -> Seq<char>;

/// heck's `ToShoutySnakeCase::to_shouty_snake_case`: words split at case
/// and punctuation boundaries, uppercased, joined by `_`. The result is
/// only named.
#[verifier::external_body]
fn to_shouty_snake_case(s: &str) -> (r: String)
    ensures
        r@ == shouty_snake_case(s@),
{
    heck::ToShoutySnakeCase::to_shouty_snake_case(s)
}

/// The constant name an emoji starts from: `EMOJI_FLAG_` for a flag, else
/// `EMOJI_`, then its name in shouty snake case.
pub open spec fn base_const_name(e: EmojiView) -> Seq<char> {
    (if e.is_flag {
        "EMOJI_FLAG_"@
    } else {
        "EMOJI_"@
    }) + shouty_snake_case(e.name)
}

/// The constant name of the emoji at `i`: its base name, or, when an earlier
/// emoji has the same base name, the base name, `_`, and its code points
/// joined by `_`.
pub open spec fn const_name_at(es: Seq<EmojiView>, i: int) -> Seq<char> {
    let base = base_const_name(es[i]);
    if exists|j: int| 0 <= j < i && #[trigger] base_const_name(es[j]) == base {
        base + "_"@ + crate::text::join(es[i].codepoints, "_"@)
    } else {
        base
    }
}

fn base_name(e: &Emoji) -> (s: String)
    ensures
        s@ == base_const_name(e@),
{
    let shouty = to_shouty_snake_case(e.name.as_str());
    if e.is_flag {
        concat2("EMOJI_FLAG_", shouty.as_str())
    } else {
        concat2("EMOJI_", shouty.as_str())
    }
}

fn copy_strings(v: &Vec<String>) -> (r: Vec<String>)
    ensures
        r@ == v@,
{
    let r = v.clone();
    assert(r@ =~= v@);
    r
}

/// Gives every emoji its constant name, in order: the first emoji with a
/// base name keeps it, later ones add their code points.
pub fn assign_const_names(emojis: &mut Vec<Emoji>)
    ensures
        final(emojis)@.len() == old(emojis)@.len(),
        forall|i: int|
            0 <= i < old(emojis)@.len() ==> #[trigger] final(emojis)@[i]@ == (EmojiView {
                const_name: const_name_at(emojis_view(old(emojis)@), i),
                ..old(emojis)@[i]@
            }),
{
    let ghost orig = emojis_view(emojis@);
    let mut bases: Vec<String> = Vec::new();
    let mut i: usize = 0;
    while i < emojis.len()
        invariant
            i <= emojis@.len(),
            emojis@.len() == orig.len(),
            bases@.len() == i,
            forall|j: int| 0 <= j < i ==> #[trigger] bases@[j]@ == base_const_name(orig[j]),
            forall|j: int|
                0 <= j < i ==> #[trigger] emojis@[j]@ == (EmojiView {
                    const_name: const_name_at(orig, j),
                    ..orig[j]
                }),
            forall|j: int| i <= j < orig.len() ==> #[trigger] emojis@[j]@ == orig[j],
        decreases orig.len() - i,
    {
        let base = base_name(&emojis[i]);
        let mut seen = false;
        let mut k: usize = 0;
        while k < bases.len()
            invariant
                k <= bases@.len(),
                bases@.len() == i,
                forall|j: int| 0 <= j < i ==> #[trigger] bases@[j]@ == base_const_name(orig[j]),
                seen <==> exists|j: int| 0 <= j < k && #[trigger] base_const_name(orig[j]) == base@,
            decreases bases.len() - k,
        {
            assert(bases@[k as int]@ == base_const_name(orig[k as int]));
            if crate::text::str_eq(bases[k].as_str(), base.as_str()) {
                seen = true;
            }
            k = k + 1;
        }
        let name = if seen {
            let joined = crate::text::join_with(emojis[i].codepoints.as_slice(), "_");
            concat3(base.as_str(), "_", joined.as_str())
        } else {
            base.clone()
        };
        let e = &emojis[i];
        let updated = Emoji {
            emoji: e.emoji.clone(),
            name: e.name.clone(),
            group: e.group.clone(),
            subgroup: e.subgroup.clone(),
            codepoints: copy_strings(&e.codepoints),
            emoji_version: e.emoji_version.clone(),
            const_name: name,
            is_flag: e.is_flag,
        };
        proof {
            assert(Seq::new(e.codepoints@.len(), |t: int| e.codepoints@[t]@) =~= orig[i as int].codepoints);
        }
        assert(name@ == const_name_at(orig, i as int));
        assert(updated@ == (EmojiView { const_name: const_name_at(orig, i as int), ..orig[i as int] }));
        let ghost before = emojis@;
        emojis.set(i, updated);
        assert(emojis@ == before.update(i as int, updated));
        bases.push(base);
        i = i + 1;
    }
}

/// An annotation of the CLDR data: the code point sequence it is for, if
/// given, whether it is a text-to-speech name, and its text.
#[derive(Debug, Clone)]
pub struct Annotation {
    pub cp: Option<String>,
    pub tts: bool,
    pub text: String,
}

/// The keywords of an annotation text: its `|`-separated parts, trimmed,
/// without empty ones.
pub open spec fn keyword_list(text: Seq<char>) -> Seq<Seq<char>> {
    crate::services::systemd::cli::nonempty_trimmed(crate::text::split_on(text, '|'))
}

/// Whether a keyword list for `cp` is among `ks`.
pub open spec fn has_key(ks: Seq<(Seq<char>, Seq<Seq<char>>)>, cp: Seq<char>) -> bool {
    exists|i: int| 0 <= i < ks.len() && #[trigger] ks[i].0 == cp
}

/// The keyword lists of annotations: for each code point sequence, the
/// keywords of its first annotation that is not a text-to-speech name.
pub open spec fn keywords_of(anns: Seq<(Option<Seq<char>>, bool, Seq<char>)>) -> Seq<(Seq<char>, Seq<Seq<char>>)>
    decreases anns.len(),
{
    if anns.len() == 0 {
        Seq::empty()
    } else {
        let ks = keywords_of(anns.drop_last());
        let a = anns.last();
        match a.0 {
            Some(cp) => if !a.1 && !has_key(ks, cp) {
                ks.push((cp, keyword_list(a.2)))
            } else {
                ks
            },
            None => ks,
        }
    }
}

/// The plain content of annotations.
pub open spec fn annotations_view(v: Seq<Annotation>) -> Seq<(Option<Seq<char>>, bool, Seq<char>)> {
    Seq::new(
        v.len(),
        |i: int|
            (
                match v[i].cp {
                    Some(c) => Some(c@),
                    None => None,
                },
                v[i].tts,
                v[i].text@,
            ),
    )
}

/// The plain content of keyword lists.
pub open spec fn keywords_view(v: Seq<(String, Vec<String>)>) -> Seq<(Seq<char>, Seq<Seq<char>>)> {
    Seq::new(v.len(), |i: int| (v[i].0@, crate::os::process::strings_view(v[i].1@)))
}

fn keyword_strings(text: &str) -> (r: Vec<String>)
    ensures
        crate::os::process::strings_view(r@) == keyword_list(text@),
{
    let cs = chars_of(text);
    let parts = crate::text::split_chars(cs.as_slice(), '|');
    let ghost all = seqs_of(parts@);
    let mut out: Vec<String> = Vec::new();
    let mut i: usize = 0;
    while i < parts.len()
        invariant
            i <= parts.len(),
            all == seqs_of(parts@),
            all == crate::text::split_on(text@, '|'),
            crate::os::process::strings_view(out@) == crate::services::systemd::cli::nonempty_trimmed(
                all.take(i as int),
            ),
        decreases parts.len() - i,
    {
        assert(all.take(i + 1).drop_last() =~= all.take(i as int));
        let t = trim_chars(parts[i].as_slice());
        if t.len() > 0 {
            let ghost before = crate::os::process::strings_view(out@);
            out.push(string_of(t.as_slice()));
            assert(crate::os::process::strings_view(out@) =~= before.push(t@));
        }
        i = i + 1;
    }
    assert(all.take(parts.len() as int) =~= all);
    out
}

fn contains_key(out: &Vec<(String, Vec<String>)>, cp: &str) -> (r: bool)
    ensures
        r == has_key(keywords_view(out@), cp@),
{
    let mut k: usize = 0;
    while k < out.len()
        invariant
            k <= out@.len(),
            forall|j: int| 0 <= j < k ==> keywords_view(out@)[j].0 != cp@,
        decreases out.len() - k,
    {
        assert(keywords_view(out@)[k as int].0 == out@[k as int].0@);
        if crate::text::str_eq(out[k].0.as_str(), cp) {
            return true;
        }
        k = k + 1;
    }
    false
}

/// Collects the keywords of CLDR annotations (see [`keywords_of`]).
pub fn keywords_from_annotations(annotations: &[Annotation]) -> (r: Vec<(String, Vec<String>)>)
    ensures
        keywords_view(r@) == keywords_of(annotations_view(annotations@)),
{
    let ghost anns = annotations_view(annotations@);
    let mut out: Vec<(String, Vec<String>)> = Vec::new();
    let mut i: usize = 0;
    while i < annotations.len()
        invariant
            i <= annotations.len(),
            anns == annotations_view(annotations@),
            keywords_view(out@) == keywords_of(anns.take(i as int)),
        decreases annotations.len() - i,
    {
        assert(anns.take(i + 1).drop_last() =~= anns.take(i as int));
        let a = &annotations[i];
        match &a.cp {
            Some(cp) => {
                if !a.tts {
                    let found = contains_key(&out, cp.as_str());
                    if !found {
                        let ghost before = keywords_view(out@);
                        let words = keyword_strings(a.text.as_str());
                        out.push((cp.clone(), words));
                        assert(keywords_view(out@) =~= before.push((cp@, keyword_list(a.text@))));
                    }
                }
            },
            None => {},
        }
        i = i + 1;
    }
    assert(anns.take(annotations.len() as int) =~= anns);
    out
}

/// The first line of every generated source.
pub open spec fn generated_header() -> Seq<char> {
    "// @generated by veltrix-codegen. Do not edit.\n\n"@
}

/// The generated constants source: the header, then one
/// `pub const NAME: &str = "emoji";` line per emoji.
pub open spec fn constants_text(es: Seq<EmojiView>) -> Seq<char>
    decreases es.len(),
{
    if es.len() == 0 {
        generated_header()
    } else {
        constants_text(es.drop_last()) + "pub const "@ + es.last().const_name + ": &str = \""@
            + es.last().emoji + "\";\n"@
    }
}

/// Renders the generated constants source.
pub fn constants_source(emojis: &[Emoji]) -> (s: String)
    ensures
        s@ == constants_text(emojis_view(emojis@)),
{
    let ghost es = emojis_view(emojis@);
    let mut v: Vec<char> = Vec::new();
    extend_str(&mut v, "// @generated by veltrix-codegen. Do not edit.\n\n");
    let mut i: usize = 0;
    assert(es.take(0) =~= Seq::<EmojiView>::empty());
    while i < emojis.len()
        invariant
            i <= emojis.len(),
            es == emojis_view(emojis@),
            v@ == constants_text(es.take(i as int)),
        decreases emojis.len() - i,
    {
        assert(es.take(i + 1).drop_last() =~= es.take(i as int));
        extend_str(&mut v, "pub const ");
        extend_str(&mut v, emojis[i].const_name.as_str());
        extend_str(&mut v, ": &str = \"");
        extend_str(&mut v, emojis[i].emoji.as_str());
        extend_str(&mut v, "\";\n");
        i = i + 1;
    }
    assert(es.take(emojis.len() as int) =~= es);
    string_of(v.as_slice())
}

/// What `format!("{:?}", s)` gives for a string: it quoted, with escapes.
pub uninterp spec fn debug_str(s: Seq<char>) -> Seq<char>;

/// The `Debug` form of a string (`{:?}`).
#[verifier::external_body]
fn debug_quoted(s: &str) -> (r: String)
    ensures
        r@ == debug_str(s@),
{
    format!("{:?}", s)
}

/// The keywords listed for `emoji`: those of the first list for it, or none.
pub open spec fn keywords_for(ks: Seq<(Seq<char>, Seq<Seq<char>>)>, emoji: Seq<char>) -> Seq<Seq<char>>
    decreases ks.len(),
{
    if ks.len() == 0 {
        Seq::empty()
    } else if ks[0].0 == emoji {
        ks[0].1
    } else {
        keywords_for(ks.drop_first(), emoji)
    }
}

/// Lines of quoted items at the item indentation.
pub open spec fn item_lines(items: Seq<Seq<char>>) -> Seq<char>
    decreases items.len(),
{
    if items.len() == 0 {
        Seq::empty()
    } else {
        item_lines(items.drop_last()) + "            "@ + debug_str(items.last()) + ",\n"@
    }
}

/// The `Emoji { .. }` literal of one emoji in the details source.
pub open spec fn detail_entry(e: EmojiView, ks: Seq<(Seq<char>, Seq<Seq<char>>)>) -> Seq<char> {
    "    Emoji {\n        emoji: "@ + e.const_name + ",\n        name: "@ + debug_str(e.name)
        + ",\n        group: "@ + debug_str(e.group) + ",\n        subgroup: "@ + debug_str(
        e.subgroup,
    ) + ",\n        codepoints: &[\n"@ + item_lines(e.codepoints) + "        ],\n        keywords: &[\n"@
        + item_lines(keywords_for(ks, e.emoji)) + "        ],\n        emoji_version: "@ + debug_str(
        e.emoji_version,
    ) + ",\n    },\n"@
}

/// The entries of the details source, in order.
pub open spec fn detail_entries(es: Seq<EmojiView>, ks: Seq<(Seq<char>, Seq<Seq<char>>)>) -> Seq<char>
    decreases es.len(),
{
    if es.len() == 0 {
        Seq::empty()
    } else {
        detail_entries(es.drop_last(), ks) + detail_entry(es.last(), ks)
    }
}

/// The `Emoji` type of the details source.
pub open spec fn details_prelude() -> Seq<char> {
    "use super::constants::*;\n\n#[derive(Debug, Clone, Copy, PartialEq, Eq, Hash)]\npub struct Emoji {\n    pub emoji: &'static str,\n    pub name: &'static str,\n    pub group: &'static str,\n    pub subgroup: &'static str,\n    pub codepoints: &'static [&'static str],\n    pub keywords: &'static [&'static str],\n    pub emoji_version: &'static str,\n}\n\npub const ALL: &[Emoji] = &[\n"@
}

/// The lookup functions of the details source.
pub open spec fn details_lookups() -> Seq<char> {
    "];\n\npub fn find_by_name(name: &str) -> Option<&'static Emoji> {\n    ALL.iter().find(|item| item.name.eq_ignore_ascii_case(name))\n}\n\npub fn find_by_emoji(emoji: &str) -> Option<&'static Emoji> {\n    ALL.iter().find(|item| item.emoji == emoji)\n}\n\npub fn by_group(group: &str) -> impl Iterator<Item = &'static Emoji> {\n    ALL.iter().filter(move |item| item.group == group)\n}\n\npub fn by_subgroup(subgroup: &str) -> impl Iterator<Item = &'static Emoji> {\n    ALL.iter().filter(move |item| item.subgroup == subgroup)\n}\n"@
}

/// The generated details source.
pub open spec fn details_text(es: Seq<EmojiView>, ks: Seq<(Seq<char>, Seq<Seq<char>>)>) -> Seq<char> {
    generated_header() + details_prelude() + detail_entries(es, ks) + details_lookups()
}

fn push_item_lines(v: &mut Vec<char>, items: &[String])
    ensures
        final(v)@ == old(v)@ + item_lines(crate::os::process::strings_view(items@)),
{
    let ghost all = crate::os::process::strings_view(items@);
    let ghost start = v@;
    let mut i: usize = 0;
    while i < items.len()
        invariant
            i <= items.len(),
            all == crate::os::process::strings_view(items@),
            v@ == start + item_lines(all.take(i as int)),
        decreases items.len() - i,
    {
        assert(all.take(i + 1).drop_last() =~= all.take(i as int));
        let q = debug_quoted(items[i].as_str());
        extend_str(v, "            ");
        extend_str(v, q.as_str());
        extend_str(v, ",\n");
        assert(v@ =~= start + item_lines(all.take(i + 1)));
        i = i + 1;
    }
    assert(all.take(items.len() as int) =~= all);
}

fn find_keywords(ks: &[(String, Vec<String>)], emoji: &str) -> (r: Option<usize>)
    ensures
        r matches Some(i) ==> i < ks@.len() && keywords_for(keywords_view(ks@), emoji@)
            == keywords_view(ks@)[i as int].1,
        r is None ==> keywords_for(keywords_view(ks@), emoji@) == Seq::<Seq<char>>::empty(),
{
    let ghost all = keywords_view(ks@);
    let mut i: usize = 0;
    assert(all.skip(0) =~= all);
    while i < ks.len()
        invariant
            i <= ks@.len(),
            all == keywords_view(ks@),
            keywords_for(all, emoji@) == keywords_for(all.skip(i as int), emoji@),
        decreases ks.len() - i,
    {
        assert(all.skip(i as int).drop_first() =~= all.skip(i + 1));
        assert(all.skip(i as int)[0] == all[i as int]);
        if crate::text::str_eq(ks[i].0.as_str(), emoji) {
            return Some(i);
        }
        i = i + 1;
    }
    assert(all.skip(i as int).len() == 0);
    None
}

fn push_entry(v: &mut Vec<char>, e: &Emoji, ks: &[(String, Vec<String>)])
    ensures
        final(v)@ == old(v)@ + detail_entry(e@, keywords_view(ks@)),
{
    let ghost start = v@;
    extend_str(v, "    Emoji {\n        emoji: ");
    extend_str(v, e.const_name.as_str());
    extend_str(v, ",\n        name: ");
    let q = debug_quoted(e.name.as_str());
    extend_str(v, q.as_str());
    extend_str(v, ",\n        group: ");
    let q = debug_quoted(e.group.as_str());
    extend_str(v, q.as_str());
    extend_str(v, ",\n        subgroup: ");
    let q = debug_quoted(e.subgroup.as_str());
    extend_str(v, q.as_str());
    extend_str(v, ",\n        codepoints: &[\n");
    push_item_lines(v, e.codepoints.as_slice());
    extend_str(v, "        ],\n        keywords: &[\n");
    match find_keywords(ks, e.emoji.as_str()) {
        Some(i) => {
            push_item_lines(v, ks[i].1.as_slice());
        },
        None => {
            assert(item_lines(Seq::<Seq<char>>::empty()) == Seq::<char>::empty());
        },
    }
    extend_str(v, "        ],\n        emoji_version: ");
    let q = debug_quoted(e.emoji_version.as_str());
    extend_str(v, q.as_str());
    extend_str(v, ",\n    },\n");
    assert(v@ =~= start + detail_entry(e@, keywords_view(ks@)));
}

/// Renders the generated details source: the `Emoji` type, the `ALL` table
/// with each emoji's code points and keywords, and the lookup functions.
pub fn details_source(emojis: &[Emoji], keywords: &[(String, Vec<String>)]) -> (s: String)
    ensures
        s@ == details_text(emojis_view(emojis@), keywords_view(keywords@)),
{
    let ghost es = emojis_view(emojis@);
    let ghost ks = keywords_view(keywords@);
    let mut v: Vec<char> = Vec::new();
    extend_str(&mut v, "// @generated by veltrix-codegen. Do not edit.\n\n");
    extend_str(
        &mut v,
        "use super::constants::*;\n\n#[derive(Debug, Clone, Copy, PartialEq, Eq, Hash)]\npub struct Emoji {\n    pub emoji: &'static str,\n    pub name: &'static str,\n    pub group: &'static str,\n    pub subgroup: &'static str,\n    pub codepoints: &'static [&'static str],\n    pub keywords: &'static [&'static str],\n    pub emoji_version: &'static str,\n}\n\npub const ALL: &[Emoji] = &[\n",
    );
    let ghost head = v@;
    let mut i: usize = 0;
    while i < emojis.len()
        invariant
            i <= emojis.len(),
            es == emojis_view(emojis@),
            ks == keywords_view(keywords@),
            v@ == head + detail_entries(es.take(i as int), ks),
        decreases emojis.len() - i,
    {
        assert(es.take(i + 1).drop_last() =~= es.take(i as int));
        push_entry(&mut v, &emojis[i], keywords);
        assert(v@ =~= head + detail_entries(es.take(i + 1), ks));
        i = i + 1;
    }
    assert(es.take(emojis.len() as int) =~= es);
    extend_str(
        &mut v,
        "];\n\npub fn find_by_name(name: &str) -> Option<&'static Emoji> {\n    ALL.iter().find(|item| item.name.eq_ignore_ascii_case(name))\n}\n\npub fn find_by_emoji(emoji: &str) -> Option<&'static Emoji> {\n    ALL.iter().find(|item| item.emoji == emoji)\n}\n\npub fn by_group(group: &str) -> impl Iterator<Item = &'static Emoji> {\n    ALL.iter().filter(move |item| item.group == group)\n}\n\npub fn by_subgroup(subgroup: &str) -> impl Iterator<Item = &'static Emoji> {\n    ALL.iter().filter(move |item| item.subgroup == subgroup)\n}\n",
    );
    assert(v@ =~= details_text(es, ks));
    string_of(v.as_slice())
}


/// `annotation`, as bytes.
pub open spec fn annotation_tag() -> Seq<u8> {
    seq![97u8, 110u8, 110u8, 111u8, 116u8, 97u8, 116u8, 105u8, 111u8, 110u8]
}

/// `cp`, as bytes.
pub open spec fn cp_key() -> Seq<u8> {
    seq![99u8, 112u8]
}

/// `type`, as bytes.
pub open spec fn type_key() -> Seq<u8> {
    seq![116u8, 121u8, 112u8, 101u8]
}

/// `tts`, as bytes.
pub open spec fn tts_value() -> Seq<u8> {
    seq![116u8, 116u8, 115u8]
}

/// What the attributes of an `annotation` tag give, read in order: an
/// attribute that could not be read is an error; each `cp` attribute sets
/// the code points (its value decoded as UTF-8, an error otherwise), and a
/// `type` of `tts` marks a text-to-speech name.
pub open spec fn attr_info(attrs: Seq<std::result::Result<(Seq<u8>, Seq<u8>), Seq<char>>>) -> std::result::Result<(Option<Seq<char>>, bool), Seq<char>>
    decreases attrs.len(),
{
    if attrs.len() == 0 {
        Ok((None, false))
    } else {
        match attr_info(attrs.drop_last()) {
            Err(m) => Err(m),
            Ok((cp, tts)) => match attrs.last() {
                Err(m) => Err(m),
                Ok((k, v)) => if k == cp_key() {
                    if vstd::utf8::valid_utf8(v) {
                        Ok((Some(vstd::utf8::decode_utf8(v)), tts))
                    } else {
                        Err(crate::text::utf8_error_text(v))
                    }
                } else if k == type_key() && v == tts_value() {
                    Ok((cp, true))
                } else {
                    Ok((cp, tts))
                },
            },
        }
    }
}

/// The bytes of `b` from `start` to `end`; none when that is not a range
/// of `b`.
pub open spec fn byte_span(b: Seq<u8>, start: nat, end: nat) -> Seq<u8> {
    if start <= end <= b.len() {
        b.subrange(start as int, end as int)
    } else {
        Seq::empty()
    }
}

/// Where a reading of annotations stands: the annotations read; the one
/// being read (its code points, text-to-speech flag, the byte position where
/// its content starts, and how many `annotation` tags are open inside it);
/// the reader's position after the last event; and the error that stopped
/// the reading.
pub struct AnnotationScan {
    pub done: Seq<(Option<Seq<char>>, bool, Seq<char>)>,
    pub open: Option<(Option<Seq<char>>, bool, nat, nat)>,
    pub last: nat,
    pub failed: Option<Seq<char>>,
}

/// One event of the reading, which ends at byte position `pos` of the
/// document `doc`. Outside an annotation, an `annotation` start tag opens
/// one (its attributes read by [`attr_info`]) and every other event is
/// passed over. Inside one, `annotation` start and end tags nest, and the
/// end tag that closes it gives its text: the document's bytes from the end
/// of its start tag to the end of the event before that end tag, as they
/// stand (`Reader::read_text`).
pub open spec fn scan_event(doc: Seq<u8>, s: AnnotationScan, e: XmlEventView, pos: nat) -> AnnotationScan {
    match s.open {
        None => match e {
            XmlEventView::Start(name, attrs) => if name == annotation_tag() {
                match attr_info(attrs) {
                    Ok((cp, tts)) => AnnotationScan { open: Some((cp, tts, pos, 0)), last: pos, ..s },
                    Err(m) => AnnotationScan { failed: Some(m), last: pos, ..s },
                }
            } else {
                AnnotationScan { last: pos, ..s }
            },
            _ => AnnotationScan { last: pos, ..s },
        },
        Some((cp, tts, start, depth)) => match e {
            XmlEventView::Start(name, _) => if name == annotation_tag() {
                AnnotationScan { open: Some((cp, tts, start, depth + 1)), last: pos, ..s }
            } else {
                AnnotationScan { last: pos, ..s }
            },
            XmlEventView::End(name) => if name == annotation_tag() {
                if depth == 0 {
                    AnnotationScan {
                        done: s.done.push(
                            (cp, tts, crate::text::utf8_lossy(byte_span(doc, start, s.last))),
                        ),
                        open: None,
                        last: pos,
                        ..s
                    }
                } else {
                    AnnotationScan {
                        open: Some((cp, tts, start, (depth - 1) as nat)),
                        last: pos,
                        ..s
                    }
                }
            } else {
                AnnotationScan { last: pos, ..s }
            },
            _ => AnnotationScan { last: pos, ..s },
        },
    }
}

/// One read of the reading: a reader error stops it; any other event goes to
/// [`scan_event`]; nothing changes once it has stopped.
pub open spec fn scan_step(doc: Seq<u8>, s: AnnotationScan, r: (XmlEventView, nat)) -> AnnotationScan {
    if s.failed is Some {
        s
    } else {
        match r.0 {
            XmlEventView::Error(m) => AnnotationScan { failed: Some(m), ..s },
            e => scan_event(doc, s, e, r.1),
        }
    }
}

/// The reading of a sequence of reads, from the start.
pub open spec fn scan_annotations(doc: Seq<u8>, reads: Seq<(XmlEventView, nat)>) -> AnnotationScan
    decreases reads.len(),
{
    if reads.len() == 0 {
        AnnotationScan { done: Seq::empty(), open: None, last: 0, failed: None }
    } else {
        scan_step(doc, scan_annotations(doc, reads.drop_last()), reads.last())
    }
}

/// The message of an annotation left open at the end of the document (the
/// reader's `MissingEndTag` error).
pub open spec fn unclosed_annotation_message() -> Seq<char> {
    "start tag not closed: `</annotation>` not found before end of input"@
}

/// The annotations of a document's reads: the first error (of the reader or
/// of an annotation's attributes) if any; else an error for an annotation
/// left open; else the annotations read.
pub open spec fn annotations_result(doc: Seq<u8>, reads: Seq<(XmlEventView, nat)>) -> std::result::Result<Seq<(Option<Seq<char>>, bool, Seq<char>)>, Seq<char>> {
    let s = scan_annotations(doc, reads);
    match s.failed {
        Some(m) => Err(m),
        None => match s.open {
            Some(_) => Err(unclosed_annotation_message()),
            None => Ok(s.done),
        },
    }
}

proof fn lemma_failure_stays(doc: Seq<u8>, reads: Seq<(XmlEventView, nat)>, k: int)
    requires
        0 <= k <= reads.len(),
        scan_annotations(doc, reads.take(k)).failed is Some,
    ensures
        scan_annotations(doc, reads).failed == scan_annotations(doc, reads.take(k)).failed,
    decreases reads.len() - k,
{
    if k < reads.len() {
        assert(reads.take(k + 1).drop_last() =~= reads.take(k));
        lemma_failure_stays(doc, reads, k + 1);
    } else {
        assert(reads.take(k) =~= reads);
    }
}

fn bytes_eq(a: &[u8], b: &[u8]) -> (r: bool)
    ensures
        r == (a@ == b@),
{
    if a.len() != b.len() {
        return false;
    }
    let mut i: usize = 0;
    while i < a.len()
        invariant
            i <= a.len(),
            a.len() == b.len(),
            forall|j: int| 0 <= j < i ==> a@[j] == b@[j],
        decreases a.len() - i,
    {
        if a[i] != b[i] {
            return false;
        }
        i = i + 1;
    }
    assert(a@ =~= b@);
    true
}

fn annotation_attributes(attrs: &[std::result::Result<(Vec<u8>, Vec<u8>), String>]) -> (r: std::result::Result<(Option<String>, bool), String>)
    ensures
        match attr_info(attributes_view(attrs@)) {
            Ok((cp, tts)) => r matches Ok((c, t)) && crate::services::systemd::cli::opt_view(c) == cp
                && t == tts,
            Err(m) => r matches Err(e) && e@ == m,
        },
{
    let ghost all = attributes_view(attrs@);
    let cp_k: Vec<u8> = vec![99u8, 112u8];
    let type_k: Vec<u8> = vec![116u8, 121u8, 112u8, 101u8];
    let tts_v: Vec<u8> = vec![116u8, 116u8, 115u8];
    assert(cp_k@ =~= cp_key());
    assert(type_k@ =~= type_key());
    assert(tts_v@ =~= tts_value());
    let mut cp: Option<String> = None;
    let mut tts = false;
    let mut i: usize = 0;
    assert(all.take(0) =~= Seq::<std::result::Result<(Seq<u8>, Seq<u8>), Seq<char>>>::empty());
    while i < attrs.len()
        invariant
            i <= attrs.len(),
            all == attributes_view(attrs@),
            cp_k@ == cp_key(),
            type_k@ == type_key(),
            tts_v@ == tts_value(),
            attr_info(all.take(i as int)) == std::result::Result::<(Option<Seq<char>>, bool), Seq<char>>::Ok(
                (crate::services::systemd::cli::opt_view(cp), tts),
            ),
        decreases attrs.len() - i,
    {
        assert(all.take(i + 1).drop_last() =~= all.take(i as int));
        assert(all.take(i + 1).last() == attribute_view(attrs@[i as int]));
        let (k, v) = match &attrs[i] {
            Ok((k, v)) => (k, v),
            Err(m) => {
                proof {
                    lemma_attr_failure_stays(all, i as int + 1);
                }
                assert(all.take(attrs.len() as int) =~= all);
                return Err(m.clone());
            },
        };
        if bytes_eq(k.as_slice(), cp_k.as_slice()) {
            let bytes = crate::services::http::prefix_bytes(v.as_slice(), v.len());
            assert(bytes@ =~= v@);
            match crate::text::utf8_string(bytes) {
                Ok(text) => {
                    cp = Some(text);
                },
                Err(m) => {
                    proof {
                        lemma_attr_failure_stays(all, i as int + 1);
                    }
                    assert(all.take(attrs.len() as int) =~= all);
                    return Err(m);
                },
            }
        } else if bytes_eq(k.as_slice(), type_k.as_slice()) && bytes_eq(v.as_slice(), tts_v.as_slice()) {
            tts = true;
        }
        i = i + 1;
    }
    assert(all.take(attrs.len() as int) =~= all);
    Ok((cp, tts))
}

proof fn lemma_attr_failure_stays(attrs: Seq<std::result::Result<(Seq<u8>, Seq<u8>), Seq<char>>>, k: int)
    requires
        0 <= k <= attrs.len(),
        attr_info(attrs.take(k)) is Err,
    ensures
        attr_info(attrs) == attr_info(attrs.take(k)),
    decreases attrs.len() - k,
{
    if k < attrs.len() {
        assert(attrs.take(k + 1).drop_last() =~= attrs.take(k));
        lemma_attr_failure_stays(attrs, k + 1);
    } else {
        assert(attrs.take(k) =~= attrs);
    }
}

/// The open annotation of a reading, as plain values.
pub open spec fn open_view(in_annotation: bool, cp: Option<String>, tts: bool, start: u64, depth: usize) -> Option<(Option<Seq<char>>, bool, nat, nat)> {
    if in_annotation {
        Some((crate::services::systemd::cli::opt_view(cp), tts, start as nat, depth as nat))
    } else {
        None
    }
}

fn span_text(doc: &[u8], start: u64, end: u64) -> (s: String)
    ensures
        s@ == crate::text::utf8_lossy(byte_span(doc@, start as nat, end as nat)),
{
    if start <= end && end <= doc.len() as u64 {
        let mut v: Vec<u8> = Vec::new();
        let mut i: usize = start as usize;
        while i < end as usize
            invariant
                start <= end <= doc@.len(),
                start <= i <= end,
                v@ == doc@.subrange(start as int, i as int),
            decreases end - i,
        {
            v.push(doc[i]);
            assert(v@ =~= doc@.subrange(start as int, i + 1));
            i = i + 1;
        }
        crate::text::lossy_string(v.as_slice())
    } else {
        let v: Vec<u8> = Vec::new();
        assert(v@ =~= byte_span(doc@, start as nat, end as nat));
        crate::text::lossy_string(v.as_slice())
    }
}

/// The CLDR annotations of the document `xml` from its reads (see
/// [`annotations_result`]).
pub fn annotations_of(xml: &str, reads: &[(XmlEvent, u64)]) -> (r: std::result::Result<Vec<Annotation>, String>)
    ensures
        match annotations_result(vstd::utf8::encode_utf8(xml@), reads_view(reads@)) {
            Ok(a) => r matches Ok(v) && annotations_view(v@) == a,
            Err(m) => r matches Err(e) && e@ == m,
        },
{
    let doc = crate::text::utf8_bytes(xml);
    let ghost rs = reads_view(reads@);
    let tag: Vec<u8> = vec![97u8, 110u8, 110u8, 111u8, 116u8, 97u8, 116u8, 105u8, 111u8, 110u8];
    assert(tag@ =~= annotation_tag());
    let mut done: Vec<Annotation> = Vec::new();
    let mut in_annotation = false;
    let mut cur_cp: Option<String> = None;
    let mut cur_tts = false;
    let mut start: u64 = 0;
    let mut depth: usize = 0;
    let mut last: u64 = 0;
    let mut i: usize = 0;
    assert(rs.take(0) =~= Seq::<(XmlEventView, nat)>::empty());
    assert(annotations_view(done@) =~= Seq::<(Option<Seq<char>>, bool, Seq<char>)>::empty());
    while i < reads.len()
        invariant
            i <= reads.len(),
            rs == reads_view(reads@),
            doc@ == vstd::utf8::encode_utf8(xml@),
            tag@ == annotation_tag(),
            depth <= i,
            scan_annotations(doc@, rs.take(i as int)).failed is None,
            annotations_view(done@) == scan_annotations(doc@, rs.take(i as int)).done,
            open_view(in_annotation, cur_cp, cur_tts, start, depth) == scan_annotations(
                doc@,
                rs.take(i as int),
            ).open,
            last as nat == scan_annotations(doc@, rs.take(i as int)).last,
        decreases reads.len() - i,
    {
        assert(rs.take(i + 1).drop_last() =~= rs.take(i as int));
        assert(rs.take(i + 1).last() == read_view(reads@[i as int]));
        let ghost before = annotations_view(done@);
        let pos = reads[i].1;
        match &reads[i].0 {
            XmlEvent::Error(m) => {
                proof {
                    lemma_failure_stays(doc@, rs, i as int + 1);
                }
                assert(rs.take(reads.len() as int) =~= rs);
                return Err(m.clone());
            },
            XmlEvent::Start(name, attrs) => {
                if bytes_eq(name.as_slice(), tag.as_slice()) {
                    if in_annotation {
                        depth = depth + 1;
                    } else {
                        match annotation_attributes(attrs.as_slice()) {
                            Ok((cp, tts)) => {
                                in_annotation = true;
                                cur_cp = cp;
                                cur_tts = tts;
                                start = pos;
                                depth = 0;
                            },
                            Err(m) => {
                                proof {
                                    lemma_failure_stays(doc@, rs, i as int + 1);
                                }
                                assert(rs.take(reads.len() as int) =~= rs);
                                return Err(m);
                            },
                        }
                    }
                }
            },
            XmlEvent::End(name) => {
                if in_annotation && bytes_eq(name.as_slice(), tag.as_slice()) {
                    if depth == 0 {
                        let cp = match &cur_cp {
                            Some(c) => Some(c.clone()),
                            None => None,
                        };
                        let text = span_text(doc.as_slice(), start, last);
                        done.push(Annotation { cp, tts: cur_tts, text });
                        assert(annotations_view(done@) =~= before.push(
                            (
                                crate::services::systemd::cli::opt_view(cur_cp),
                                cur_tts,
                                crate::text::utf8_lossy(byte_span(doc@, start as nat, last as nat)),
                            ),
                        ));
                        in_annotation = false;
                    } else {
                        depth = depth - 1;
                    }
                }
            },
            XmlEvent::Other(_) => {},
        }
        last = pos;
        i = i + 1;
    }
    assert(rs.take(reads.len() as int) =~= rs);
    if in_annotation {
        Err("start tag not closed: `</annotation>` not found before end of input".to_owned())
    } else {
        Ok(done)
    }
}

/// The keyword lists of a CLDR annotations document (see [`keywords_of`]),
/// or why it cannot be read: the reader's error, an attribute error, or an
/// annotation left open.
pub fn keywords_from_xml(xml: &str) -> (r: std::result::Result<Vec<(String, Vec<String>)>, String>)
    ensures
        match annotations_result(vstd::utf8::encode_utf8(xml@), xml_reads_of(xml@)) {
            Ok(a) => r matches Ok(k) && keywords_view(k@) == keywords_of(a),
            Err(m) => r matches Err(e) && e@ == m,
        },
{
    let reads = xml_reads(xml);
    match annotations_of(xml, reads.as_slice()) {
        Ok(annotations) => Ok(keywords_from_annotations(annotations.as_slice())),
        Err(m) => Err(m),
    }
}

} // verus!
