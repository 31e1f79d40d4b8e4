//! The registry of monitored applications and its line-oriented text format.
//!
//! One record per non-empty line, three comma-separated fields:
//! `process_executable_name, display_name, launch_target`.  A field may be
//! wrapped in double quotes to let it contain commas; the quote characters
//! themselves are dropped (a primitive toggle scanner, with no support for
//! escaped quotes).  Lines that do not yield exactly three fields are
//! malformed and skipped; when the registry text is unavailable a single
//! hardcoded default entry takes its place.

use crate::text::{chars_of, is_space, is_space_char, string_from_chars};
use vstd::prelude::*;

verus! {

/// One entry of the launcher's registry: an executable name to watch, a
/// human-readable name, and the path or protocol URI used to start it.
pub struct MonitoredApp {
    pub process_executable_name: String,
    pub display_name: String,
    pub launch_target: String,
}

impl View for MonitoredApp {
    type V = (Seq<char>, Seq<char>, Seq<char>);

    open spec fn view(&self) -> Self::V {
        (self.process_executable_name@, self.display_name@, self.launch_target@)
    }
}

/// `s` with its leading whitespace removed.
pub open spec fn spec_trim_start(s: Seq<char>) -> Seq<char>
    decreases s.len(),
{
    if s.len() > 0 && is_space_char(s[0]) {
        spec_trim_start(s.subrange(1, s.len() as int))
    } else {
        s
    }
}

/// `s` with its trailing whitespace removed.
pub open spec fn spec_trim_end(s: Seq<char>) -> Seq<char>
    decreases s.len(),
{
    if s.len() > 0 && is_space_char(s[s.len() - 1]) {
        spec_trim_end(s.subrange(0, s.len() - 1))
    } else {
        s
    }
}

/// `s` with leading and trailing whitespace removed.
pub open spec fn spec_trim(s: Seq<char>) -> Seq<char> {
    spec_trim_end(spec_trim_start(s))
}

/// The quote-toggling field scanner, one character at a time: a double
/// quote flips the in-quotes state and is dropped; a comma outside quotes
/// ends the current field; any other character joins the current field.
pub open spec fn spec_scan(
    s: Seq<char>,
    in_quotes: bool,
    cur: Seq<char>,
    acc: Seq<Seq<char>>,
) -> Seq<Seq<char>>
    decreases s.len(),
{
    if s.len() == 0 {
        acc.push(cur)
    } else {
        let rest = s.subrange(1, s.len() as int);
        if s[0] == '"' {
            spec_scan(rest, !in_quotes, cur, acc)
        } else if s[0] == ',' && !in_quotes {
            spec_scan(rest, in_quotes, Seq::empty(), acc.push(cur))
        } else {
            spec_scan(rest, in_quotes, cur.push(s[0]), acc)
        }
    }
}

/// The raw (untrimmed) fields of one line.
pub open spec fn spec_fields(line: Seq<char>) -> Seq<Seq<char>> {
    spec_scan(line, false, Seq::empty(), Seq::empty())
}

/// A line is blank when nothing but whitespace stands on it.
pub open spec fn spec_line_blank(line: Seq<char>) -> bool {
    spec_trim(line).len() == 0
}

/// The trimmed fields scanned from the trimmed line.
pub open spec fn spec_line_fields(line: Seq<char>) -> Seq<Seq<char>> {
    spec_fields(spec_trim(line)).map_values(|f: Seq<char>| spec_trim(f))
}

/// A non-blank line is a registry entry exactly when it scans into three
/// fields.
pub open spec fn spec_line_is_entry(line: Seq<char>) -> bool {
    !spec_line_blank(line) && spec_line_fields(line).len() == 3
}

/// A non-blank line that does not scan into three fields is malformed.
pub open spec fn spec_line_is_malformed(line: Seq<char>) -> bool {
    !spec_line_blank(line) && spec_line_fields(line).len() != 3
}

/// The entry parsed from a line that satisfies `spec_line_is_entry`.
pub open spec fn spec_line_entry(line: Seq<char>) -> (Seq<char>, Seq<char>, Seq<char>) {
    let fs = spec_line_fields(line);
    (fs[0], fs[1], fs[2])
}

/// Splitting the registry text on newline characters, one character at a
/// time.
pub open spec fn spec_split_rec(s: Seq<char>, cur: Seq<char>, acc: Seq<Seq<char>>) -> Seq<
    Seq<char>,
>
    decreases s.len(),
{
    if s.len() == 0 {
        acc.push(cur)
    } else {
        let rest = s.subrange(1, s.len() as int);
        if s[0] == '\n' {
            spec_split_rec(rest, Seq::empty(), acc.push(cur))
        } else {
            spec_split_rec(rest, cur.push(s[0]), acc)
        }
    }
}

/// The lines of the registry text.
pub open spec fn spec_lines(content: Seq<char>) -> Seq<Seq<char>> {
    spec_split_rec(content, Seq::empty(), Seq::empty())
}

/// The entries parsed from a sequence of lines, in order; blank and
/// malformed lines contribute nothing.
pub open spec fn spec_entries_of_lines(lines: Seq<Seq<char>>) -> Seq<
    (Seq<char>, Seq<char>, Seq<char>),
>
    decreases lines.len(),
{
    if lines.len() == 0 {
        Seq::empty()
    } else {
        let rest = spec_entries_of_lines(lines.subrange(1, lines.len() as int));
        if spec_line_is_entry(lines[0]) {
            seq![spec_line_entry(lines[0])] + rest
        } else {
            rest
        }
    }
}

/// The trimmed text of each malformed line, in order.
pub open spec fn spec_malformed_of_lines(lines: Seq<Seq<char>>) -> Seq<Seq<char>>
    decreases lines.len(),
{
    if lines.len() == 0 {
        Seq::empty()
    } else {
        let rest = spec_malformed_of_lines(lines.subrange(1, lines.len() as int));
        if spec_line_is_malformed(lines[0]) {
            seq![spec_trim(lines[0])] + rest
        } else {
            rest
        }
    }
}

/// The registry parsed from the full registry text.
pub open spec fn spec_registry(content: Seq<char>) -> Seq<(Seq<char>, Seq<char>, Seq<char>)> {
    spec_entries_of_lines(spec_lines(content))
}

/// The malformed lines of the full registry text.
pub open spec fn spec_malformed(content: Seq<char>) -> Seq<Seq<char>> {
    spec_malformed_of_lines(spec_lines(content))
}

proof fn lemma_trim_start_at(s: Seq<char>, k: int)
    requires
        0 <= k <= s.len(),
        forall|j: int| 0 <= j < k ==> is_space_char(s[j]),
        k < s.len() ==> !is_space_char(s[k]),
    ensures
        spec_trim_start(s) == s.subrange(k, s.len() as int),
    decreases k,
{
    if k == 0 {
        assert(s.subrange(0, s.len() as int) =~= s);
    } else {
        let t = s.subrange(1, s.len() as int);
        lemma_trim_start_at(t, k - 1);
        assert(t.subrange(k - 1, t.len() as int) =~= s.subrange(k, s.len() as int));
    }
}

proof fn lemma_trim_end_at(s: Seq<char>, k: int)
    requires
        0 <= k <= s.len(),
        forall|j: int| k <= j < s.len() ==> is_space_char(s[j]),
        k > 0 ==> !is_space_char(s[k - 1]),
    ensures
        spec_trim_end(s) == s.subrange(0, k),
    decreases s.len(),
{
    if k == s.len() {
        assert(s.subrange(0, k) =~= s);
    } else {
        let t = s.subrange(0, s.len() - 1);
        lemma_trim_end_at(t, k);
        assert(t.subrange(0, k) =~= s.subrange(0, k));
    }
}

/// `s` with leading and trailing whitespace removed.
pub fn trim_chars(s: &Vec<char>) -> (r: Vec<char>)
    ensures
        r@ == spec_trim(s@),
{
    let n = s.len();
    let mut lo: usize = 0;
    while lo < n && is_space(s[lo])
        invariant
            lo <= n,
            n == s@.len(),
            forall|j: int| 0 <= j < lo ==> is_space_char(s@[j]),
        decreases n - lo,
    {
        lo = lo + 1;
    }
    proof {
        lemma_trim_start_at(s@, lo as int);
    }
    let mut hi: usize = n;
    while hi > lo && is_space(s[hi - 1])
        invariant
            lo <= hi <= n,
            n == s@.len(),
            forall|j: int| hi <= j < n ==> is_space_char(s@[j]),
        decreases hi,
    {
        hi = hi - 1;
    }
    proof {
        let t = s@.subrange(lo as int, n as int);
        lemma_trim_end_at(t, hi - lo);
        assert(t.subrange(0, hi - lo) =~= s@.subrange(lo as int, hi as int));
    }
    let mut r: Vec<char> = Vec::new();
    let mut i: usize = lo;
    while i < hi
        invariant
            lo <= i <= hi <= n,
            n == s@.len(),
            r@ == s@.subrange(lo as int, i as int),
        decreases hi - i,
    {
        r.push(s[i]);
        proof {
            assert(r@ =~= s@.subrange(lo as int, i + 1 as int));
        }
        i = i + 1;
    }
    r
}

/// Scans one (already trimmed) line into its raw fields.
fn scan_fields(t: &Vec<char>) -> (r: Vec<Vec<char>>)
    ensures
        r.deep_view() == spec_fields(t@),
{
    let n = t.len();
    let mut acc: Vec<Vec<char>> = Vec::new();
    let mut cur: Vec<char> = Vec::new();
    let mut in_quotes: bool = false;
    let mut i: usize = 0;
    proof {
        assert(t@.subrange(0, n as int) =~= t@);
        assert(acc.deep_view() =~~= Seq::<Seq<char>>::empty());
        assert(cur@ =~= Seq::<char>::empty());
    }
    while i < n
        invariant
            i <= n,
            n == t@.len(),
            spec_scan(t@.subrange(i as int, n as int), in_quotes, cur@, acc.deep_view())
                == spec_fields(t@),
        decreases n - i,
    {
        proof {
            let sfx = t@.subrange(i as int, n as int);
            assert(sfx[0] == t@[i as int]);
            assert(sfx.subrange(1, sfx.len() as int) =~= t@.subrange(i + 1, n as int));
        }
        let ghost pre_acc = acc.deep_view();
        let ghost pre_cur = cur@;
        let c = t[i];
        if c == '"' {
            in_quotes = !in_quotes;
        } else if c == ',' && !in_quotes {
            acc.push(cur);
            cur = Vec::new();
            proof {
                assert(acc.deep_view() =~~= pre_acc.push(pre_cur));
            }
        } else {
            cur.push(c);
        }
        i = i + 1;
    }
    proof {
        assert(t@.subrange(i as int, n as int).len() == 0);
    }
    let ghost pre_acc = acc.deep_view();
    let ghost pre_cur = cur@;
    acc.push(cur);
    proof {
        assert(acc.deep_view() =~~= pre_acc.push(pre_cur));
    }
    acc
}

/// Splits the registry text into lines on `'\n'`.
fn split_lines(cs: &Vec<char>) -> (r: Vec<Vec<char>>)
    ensures
        r.deep_view() == spec_lines(cs@),
{
    let n = cs.len();
    let mut acc: Vec<Vec<char>> = Vec::new();
    let mut cur: Vec<char> = Vec::new();
    let mut i: usize = 0;
    proof {
        assert(cs@.subrange(0, n as int) =~= cs@);
        assert(acc.deep_view() =~~= Seq::<Seq<char>>::empty());
        assert(cur@ =~= Seq::<char>::empty());
    }
    while i < n
        invariant
            i <= n,
            n == cs@.len(),
            spec_split_rec(cs@.subrange(i as int, n as int), cur@, acc.deep_view())
                == spec_lines(cs@),
        decreases n - i,
    {
        proof {
            let sfx = cs@.subrange(i as int, n as int);
            assert(sfx[0] == cs@[i as int]);
            assert(sfx.subrange(1, sfx.len() as int) =~= cs@.subrange(i + 1, n as int));
        }
        let ghost pre_acc = acc.deep_view();
        let ghost pre_cur = cur@;
        let c = cs[i];
        if c == '\n' {
            acc.push(cur);
            cur = Vec::new();
            proof {
                assert(acc.deep_view() =~~= pre_acc.push(pre_cur));
            }
        } else {
            cur.push(c);
        }
        i = i + 1;
    }
    proof {
        assert(cs@.subrange(i as int, n as int).len() == 0);
    }
    let ghost pre_acc = acc.deep_view();
    let ghost pre_cur = cur@;
    acc.push(cur);
    proof {
        assert(acc.deep_view() =~~= pre_acc.push(pre_cur));
    }
    acc
}

/// What one line of the registry text means: nothing, a malformed line
/// (carrying its trimmed text, for a warning), or an entry.
pub enum LineParse {
    Blank,
    Malformed(String),
    Entry(MonitoredApp),
}

fn parse_line_chars(line: &Vec<char>) -> (r: LineParse)
    ensures
        (r is Blank) == spec_line_blank(line@),
        (r is Entry) == spec_line_is_entry(line@),
        (r is Malformed) == spec_line_is_malformed(line@),
        r matches LineParse::Entry(app) ==> app@ == spec_line_entry(line@),
        r matches LineParse::Malformed(l) ==> l@ == spec_trim(line@),
{
    let t = trim_chars(line);
    if t.len() == 0 {
        return LineParse::Blank;
    }
    let fields = scan_fields(&t);
    let mut trimmed: Vec<Vec<char>> = Vec::new();
    let mut i: usize = 0;
    while i < fields.len()
        invariant
            i <= fields.len(),
            trimmed.deep_view().len() == i,
            forall|j: int|
                0 <= j < i ==> trimmed.deep_view()[j] == spec_trim(fields.deep_view()[j]),
        decreases fields.len() - i,
    {
        let ghost pre = trimmed.deep_view();
        let f = trim_chars(&fields[i]);
        trimmed.push(f);
        proof {
            assert(fields.deep_view()[i as int] =~= fields@[i as int]@);
            assert(trimmed.deep_view() =~~= pre.push(f@));
        }
        i = i + 1;
    }
    proof {
        assert(trimmed.deep_view() =~~= fields.deep_view().map_values(
            |f: Seq<char>| spec_trim(f),
        ));
    }
    if trimmed.len() == 3 {
        let target = string_from_chars(&trimmed[2]);
        let display = string_from_chars(&trimmed[1]);
        let process = string_from_chars(&trimmed[0]);
        LineParse::Entry(
            MonitoredApp {
                process_executable_name: process,
                display_name: display,
                launch_target: target,
            },
        )
    } else {
        LineParse::Malformed(string_from_chars(&t))
    }
}

/// What one line of the registry text means.
pub fn parse_line(line: &str) -> (r: LineParse)
    ensures
        (r is Blank) == spec_line_blank(line@),
        (r is Entry) == spec_line_is_entry(line@),
        (r is Malformed) == spec_line_is_malformed(line@),
        r matches LineParse::Entry(app) ==> app@ == spec_line_entry(line@),
        r matches LineParse::Malformed(l) ==> l@ == spec_trim(line@),
{
    let cs = chars_of(line);
    parse_line_chars(&cs)
}

/// Parses the whole registry text: the entries of its well-formed lines,
/// in order, and the trimmed text of each malformed line, in order.
pub fn parse_registry(content: &str) -> (r: (Vec<MonitoredApp>, Vec<String>))
    ensures
        r.0@.len() == spec_registry(content@).len(),
        forall|i: int| 0 <= i < r.0@.len() ==> r.0@[i]@ == spec_registry(content@)[i],
        r.1@.len() == spec_malformed(content@).len(),
        forall|i: int| 0 <= i < r.1@.len() ==> r.1@[i]@ == spec_malformed(content@)[i],
{
    let cs = chars_of(content);
    let lines = split_lines(&cs);
    let mut apps: Vec<MonitoredApp> = Vec::new();
    let mut bad: Vec<String> = Vec::new();
    let ghost ldv = lines.deep_view();
    let mut i: usize = 0;
    proof {
        assert(ldv.subrange(0, ldv.len() as int) =~~= ldv);
        assert(Seq::new(apps@.len(), |j: int| apps@[j]@) =~~= Seq::<
            (Seq<char>, Seq<char>, Seq<char>),
        >::empty());
        assert(Seq::new(bad@.len(), |j: int| bad@[j]@) =~~= Seq::<Seq<char>>::empty());
        assert(Seq::<(Seq<char>, Seq<char>, Seq<char>)>::empty() + spec_entries_of_lines(ldv)
            =~~= spec_entries_of_lines(ldv));
        assert(Seq::<Seq<char>>::empty() + spec_malformed_of_lines(ldv)
            =~~= spec_malformed_of_lines(ldv));
    }
    while i < lines.len()
        invariant
            i <= lines.len(),
            ldv == lines.deep_view(),
            ldv.len() == lines@.len(),
            spec_registry(cs@) == Seq::new(apps@.len(), |j: int| apps@[j]@)
                + spec_entries_of_lines(ldv.subrange(i as int, ldv.len() as int)),
            spec_malformed(cs@) == Seq::new(bad@.len(), |j: int| bad@[j]@)
                + spec_malformed_of_lines(ldv.subrange(i as int, ldv.len() as int)),
        decreases lines.len() - i,
    {
        proof {
            let sfx = ldv.subrange(i as int, ldv.len() as int);
            assert(sfx[0] == ldv[i as int]);
            assert(sfx.subrange(1, sfx.len() as int) =~= ldv.subrange(
                i + 1,
                ldv.len() as int,
            ));
            assert(ldv[i as int] == lines@[i as int].deep_view());
            assert(lines@[i as int].deep_view() == lines@[i as int]@);
        }
        let ghost pre_apps = Seq::new(apps@.len(), |j: int| apps@[j]@);
        let ghost pre_bad = Seq::new(bad@.len(), |j: int| bad@[j]@);
        match parse_line_chars(&lines[i]) {
            LineParse::Blank => {},
            LineParse::Malformed(l) => {
                bad.push(l);
                proof {
                    assert(Seq::new(bad@.len(), |j: int| bad@[j]@) =~= pre_bad.push(l@));
                    assert(pre_bad.push(l@) =~= pre_bad + seq![l@]);
                    assert(pre_bad + (seq![l@] + spec_malformed_of_lines(
                        ldv.subrange(i + 1, ldv.len() as int),
                    )) =~= (pre_bad + seq![l@]) + spec_malformed_of_lines(
                        ldv.subrange(i + 1, ldv.len() as int),
                    ));
                }
            },
            LineParse::Entry(app) => {
                let ghost av = app@;
                apps.push(app);
                proof {
                    assert(Seq::new(apps@.len(), |j: int| apps@[j]@) =~= pre_apps.push(av));
                    assert(pre_apps.push(av) =~= pre_apps + seq![av]);
                    assert(pre_apps + (seq![av] + spec_entries_of_lines(
                        ldv.subrange(i + 1, ldv.len() as int),
                    )) =~= (pre_apps + seq![av]) + spec_entries_of_lines(
                        ldv.subrange(i + 1, ldv.len() as int),
                    ));
                }
            },
        }
        i = i + 1;
    }
    proof {
        assert(ldv.subrange(i as int, ldv.len() as int).len() == 0);
        assert(spec_registry(cs@) =~= Seq::new(apps@.len(), |j: int| apps@[j]@));
        assert(spec_malformed(cs@) =~= Seq::new(bad@.len(), |j: int| bad@[j]@));
    }
    (apps, bad)
}

/// The single hardcoded entry used when the registry text is unavailable.
pub fn default_registry() -> (r: Vec<MonitoredApp>)
    ensures
        r@.len() == 1,
        r@[0]@.0 == "Code.exe"@,
        r@[0]@.1 == "VSCode"@,
        r@[0]@.2 == "code"@,
{
    let mut r: Vec<MonitoredApp> = Vec::new();
    r.push(
        MonitoredApp {
            process_executable_name: "Code.exe".to_owned(),
            display_name: "VSCode".to_owned(),
            launch_target: "code".to_owned(),
        },
    );
    r
}

/// The loaded registry: the entries of the registry text when it could be
/// read, or the single default entry when it could not (`None`).
pub fn load_monitored_apps(content: Option<&str>) -> (r: Vec<MonitoredApp>)
    ensures
        match content {
            Some(c) => r@.len() == spec_registry(c@).len() && (forall|i: int|
                0 <= i < r@.len() ==> r@[i]@ == spec_registry(c@)[i]),
            None => r@.len() == 1 && r@[0]@.0 == "Code.exe"@ && r@[0]@.1 == "VSCode"@
                && r@[0]@.2 == "code"@,
        },
{
    match content {
        Some(c) => parse_registry(c).0,
        None => default_registry(),
    }
}

} // verus!
