//! What the system reports about the machine, read from the text that the
//! system's hardware report prints.
use vstd::prelude::*;
use crate::text::{chars_eq, chars_of, string_of, trim, trim_bounds};

verus! {

/// The machine and the operating system.
#[derive(Clone)]
pub struct SystemInfo {
    pub model_name: Option<String>,
    pub model_identifier: String,
    pub chip: Option<String>,
    pub total_cores: Option<String>,
    pub macos_version: String,
    pub macos_build: String,
}

/// Why the hardware report could not be used.
#[derive(Clone, Copy, Debug, PartialEq, Eq, Structural)]
pub enum PlatformError {
    MissingModelIdentifier,
}

impl PlatformError {
    pub fn message(&self) -> (r: String)
        ensures
            r@ == "failed to parse Model Identifier from system_profiler output"@,
    {
        "failed to parse Model Identifier from system_profiler output".to_owned()
    }
}

/// The lines of a text: the pieces between line feeds (the last piece may be
/// empty).
pub open spec fn lines_of(s: Seq<char>) -> Seq<Seq<char>>
    decreases s.len(),
{
    if s.len() == 0 {
        seq![Seq::<char>::empty()]
    } else if s.last() == '\n' {
        lines_of(s.drop_last()).push(Seq::<char>::empty())
    } else {
        let l = lines_of(s.drop_last());
        l.update(l.len() - 1, l.last().push(s.last()))
    }
}

/// The index of the first `c` in `s`, or the length of `s` if there is none.
pub open spec fn index_of_char(s: Seq<char>, c: char) -> int
    decreases s.len(),
{
    if s.len() == 0 {
        0
    } else if s[0] == c {
        0
    } else {
        1 + index_of_char(s.drop_first(), c)
    }
}

/// The key and value of a report line `key: value`, each trimmed; `None` for a
/// line without a colon.
pub open spec fn line_field(line: Seq<char>) -> Option<(Seq<char>, Seq<char>)> {
    let t = trim(line);
    let p = index_of_char(t, ':');
    if p < t.len() {
        Some((trim(t.take(p)), trim(t.skip(p + 1))))
    } else {
        None
    }
}

/// The value that the last line with key `key` gives.
pub open spec fn field_value(lines: Seq<Seq<char>>, key: Seq<char>) -> Option<Seq<char>>
    decreases lines.len(),
{
    if lines.len() == 0 {
        None
    } else {
        match line_field(lines.last()) {
            Some((k, v)) => if k == key {
                Some(v)
            } else {
                field_value(lines.drop_last(), key)
            },
            None => field_value(lines.drop_last(), key),
        }
    }
}

/// The value of `key` in the report `text`.
pub open spec fn report_field(text: Seq<char>, key: Seq<char>) -> Option<Seq<char>> {
    field_value(lines_of(text), key)
}

pub open spec fn opt_view(o: Option<String>) -> Option<Seq<char>> {
    match o {
        Some(s) => Some(s@),
        None => None,
    }
}

proof fn lemma_index_of_char_bounds(s: Seq<char>, c: char)
    ensures
        0 <= index_of_char(s, c) <= s.len(),
        forall|k: int| 0 <= k < index_of_char(s, c) ==> s[k] != c,
        index_of_char(s, c) < s.len() ==> s[index_of_char(s, c)] == c,
    decreases s.len(),
{
    if s.len() > 0 && s[0] != c {
        lemma_index_of_char_bounds(s.drop_first(), c);
        assert forall|k: int| 0 <= k < index_of_char(s, c) implies s[k] != c by {
            if k > 0 {
                assert(s[k] == s.drop_first()[k - 1]);
            }
        }
    }
}

proof fn lemma_index_of_char_at(s: Seq<char>, c: char, p: int)
    requires
        0 <= p <= s.len(),
        forall|k: int| 0 <= k < p ==> s[k] != c,
        p < s.len() ==> s[p] == c,
    ensures
        index_of_char(s, c) == p,
    decreases s.len(),
{
    if s.len() > 0 && p > 0 {
        lemma_index_of_char_at(s.drop_first(), c, p - 1);
    }
}

/// The characters `v[a..b]`.
fn sub_chars(v: &[char], a: usize, b: usize) -> (r: Vec<char>)
    requires
        a <= b <= v.len(),
    ensures
        r@ == v@.subrange(a as int, b as int),
{
    let mut r: Vec<char> = Vec::new();
    let mut k: usize = a;
    while k < b
        invariant
            a <= k <= b <= v.len(),
            r@ == v@.subrange(a as int, k as int),
        decreases b - k,
    {
        assert(v@.subrange(a as int, k + 1) == v@.subrange(a as int, k as int).push(v@[k as int]));
        r.push(v[k]);
        k = k + 1;
    }
    r
}

/// The characters of `v` without surrounding whitespace.
fn trimmed(v: &[char]) -> (r: Vec<char>)
    ensures
        r@ == trim(v@),
{
    let (a, b) = trim_bounds(v);
    sub_chars(v, a, b)
}

/// The key and value of one report line.
fn parse_line(line: &[char]) -> (r: Option<(Vec<char>, Vec<char>)>)
    ensures
        match line_field(line@) {
            Some((k, v)) => r matches Some((rk, rv)) && rk@ == k && rv@ == v,
            None => r is None,
        },
{
    let t = trimmed(line);
    let mut p: usize = 0;
    while p < t.len() && t[p] != ':'
        invariant
            p <= t.len(),
            forall|k: int| 0 <= k < p ==> t@[k] != ':',
        decreases t.len() - p,
    {
        p = p + 1;
    }
    proof {
        lemma_index_of_char_at(t@, ':', p as int);
    }
    if p < t.len() {
        let key_part = sub_chars(t.as_slice(), 0, p);
        let value_part = sub_chars(t.as_slice(), p + 1, t.len());
        assert(key_part@ == t@.take(p as int));
        assert(value_part@ == t@.skip(p + 1));
        Some((trimmed(key_part.as_slice()), trimmed(value_part.as_slice())))
    } else {
        None
    }
}

/// The four fields the report is read for, after some lines.
struct ReportFields {
    model_name: Option<Vec<char>>,
    model_identifier: Option<Vec<char>>,
    chip: Option<Vec<char>>,
    total_cores: Option<Vec<char>>,
}

spec fn vopt(o: Option<Vec<char>>) -> Option<Seq<char>> {
    match o {
        Some(v) => Some(v@),
        None => None,
    }
}

spec fn fields_after(f: ReportFields, lines: Seq<Seq<char>>) -> bool {
    &&& vopt(f.model_name) == field_value(lines, "Model Name"@)
    &&& vopt(f.model_identifier) == field_value(lines, "Model Identifier"@)
    &&& vopt(f.chip) == field_value(lines, "Chip"@)
    &&& vopt(f.total_cores) == field_value(lines, "Total Number of Cores"@)
}

/// Takes one more line into account.
fn absorb_line(f: &mut ReportFields, line: &[char], Ghost(before): Ghost<Seq<Seq<char>>>)
    requires
        fields_after(*old(f), before),
    ensures
        fields_after(*final(f), before.push(line@)),
{
    proof {
        assert(before.push(line@).drop_last() == before);
        assert(before.push(line@).last() == line@);
        reveal_strlit("Model Name");
        reveal_strlit("Model Identifier");
        reveal_strlit("Chip");
        reveal_strlit("Total Number of Cores");
        assert("Model Name"@.len() == 10);
        assert("Model Identifier"@.len() == 16);
        assert("Chip"@.len() == 4);
        assert("Total Number of Cores"@.len() == 21);
    }
    match parse_line(line) {
        Some((key, value)) => {
            let k1 = chars_of("Model Name");
            let k2 = chars_of("Model Identifier");
            let k3 = chars_of("Chip");
            let k4 = chars_of("Total Number of Cores");
            if chars_eq(key.as_slice(), k1.as_slice()) {
                f.model_name = Some(value);
            } else if chars_eq(key.as_slice(), k2.as_slice()) {
                f.model_identifier = Some(value);
            } else if chars_eq(key.as_slice(), k3.as_slice()) {
                f.chip = Some(value);
            } else if chars_eq(key.as_slice(), k4.as_slice()) {
                f.total_cores = Some(value);
            }
        },
        None => {},
    }
}

fn opt_string(o: Option<Vec<char>>) -> (r: Option<String>)
    ensures
        opt_view(r) == vopt(o),
{
    match o {
        Some(v) => Some(string_of(v.as_slice())),
        None => None,
    }
}

/// Reads the machine's description from the hardware report: for each of the
/// keys `Model Name`, `Model Identifier`, `Chip` and `Total Number of Cores`,
/// the value of the last line `key: value` (both trimmed) that names it. The
/// model identifier must be present.
pub fn parse_system_info(macos_version: String, macos_build: String, hardware: &str) -> (r: Result<
    SystemInfo,
    PlatformError,
>)
    ensures
        report_field(hardware@, "Model Identifier"@) is None ==> r == Err::<SystemInfo, PlatformError>(
            PlatformError::MissingModelIdentifier,
        ),
        report_field(hardware@, "Model Identifier"@) is Some ==> (r matches Ok(info) && {
            &&& Some(info.model_identifier@) == report_field(hardware@, "Model Identifier"@)
            &&& opt_view(info.model_name) == report_field(hardware@, "Model Name"@)
            &&& opt_view(info.chip) == report_field(hardware@, "Chip"@)
            &&& opt_view(info.total_cores) == report_field(hardware@, "Total Number of Cores"@)
            &&& info.macos_version@ == macos_version@
            &&& info.macos_build@ == macos_build@
        }),
{
    let text = chars_of(hardware);
    let mut fields = ReportFields { model_name: None, model_identifier: None, chip: None, total_cores: None };
    let mut cur: Vec<char> = Vec::new();
    let mut i: usize = 0;
    while i < text.len()
        invariant
            i <= text.len(),
            cur@ == lines_of(text@.take(i as int)).last(),
            lines_of(text@.take(i as int)).len() > 0,
            fields_after(fields, lines_of(text@.take(i as int)).drop_last()),
        decreases text.len() - i,
    {
        let c = text[i];
        let ghost ls = lines_of(text@.take(i as int));
        assert(text@.take(i + 1).drop_last() == text@.take(i as int));
        assert(text@.take(i + 1).last() == c);
        if c == '\n' {
            absorb_line(&mut fields, cur.as_slice(), Ghost(ls.drop_last()));
            assert(ls.drop_last().push(ls.last()) == ls);
            assert(lines_of(text@.take(i + 1)).drop_last() == ls);
            cur = Vec::new();
        } else {
            cur.push(c);
            assert(lines_of(text@.take(i + 1)).drop_last() == ls.drop_last());
        }
        i = i + 1;
    }
    let ghost ls = lines_of(text@.take(i as int));
    absorb_line(&mut fields, cur.as_slice(), Ghost(ls.drop_last()));
    assert(ls.drop_last().push(ls.last()) == ls);
    assert(text@.take(i as int) == hardware@);
    match fields.model_identifier {
        Some(id) => Ok(SystemInfo {
            model_name: opt_string(fields.model_name),
            model_identifier: string_of(id.as_slice()),
            chip: opt_string(fields.chip),
            total_cores: opt_string(fields.total_cores),
            macos_version,
            macos_build,
        }),
        None => Err(PlatformError::MissingModelIdentifier),
    }
}

} // verus!
