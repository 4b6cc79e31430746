//! Reading what the machine probes print: lines of `/proc` files and of
//! command output, the CPU model, and the fields of a `key: value` line. The
//! caller runs the commands and reads the files.
use vstd::prelude::*;
use vstd::string::StrSliceExecFns;
use vstd::string::StringExecFns;
use crate::strings::contains_str;
use crate::strings::contains_text;
use crate::strings::trim_text;
use crate::strings::trim_ws;
use crate::strings::trim_start_text;
use crate::strings::trim_end_text;
use crate::strings::is_whitespace_char;
use crate::strings::is_whitespace;
use crate::strings::lemma_trim_start_skip;
use crate::strings::lemma_trim_end_cut;

verus! {

/// Index of the first `\n` of `s` at or after `i`, or the length of `s`.
pub open spec fn line_end_from(s: Seq<char>, i: int) -> int
    decreases s.len() - i,
{
    if i >= s.len() {
        s.len() as int
    } else if s[i] == '\n' {
        i
    } else {
        line_end_from(s, i + 1)
    }
}

/// A line ends at or after its start, at a `\n` or at the end of the text,
/// and holds no `\n` before that.
pub proof fn lemma_line_end_bounds(s: Seq<char>, i: int)
    requires
        0 <= i <= s.len(),
    ensures
        i <= line_end_from(s, i) <= s.len(),
        line_end_from(s, i) < s.len() ==> s[line_end_from(s, i)] == '\n',
        forall|k: int| i <= k < line_end_from(s, i) ==> s[k] != '\n',
    decreases s.len() - i,
{
    if i < s.len() && s[i] != '\n' {
        lemma_line_end_bounds(s, i + 1);
    }
}

/// The line of `s` that starts at `i`, as `str::lines` yields it: up to the
/// next `\n`, without that `\n` and without a `\r` just before it.
pub open spec fn line_at(s: Seq<char>, i: int) -> Seq<char> {
    let e = line_end_from(s, i);
    let l = s.subrange(i, e);
    if e < s.len() && l.len() > 0 && l.last() == '\r' {
        l.drop_last()
    } else {
        l
    }
}

/// The first line of `s` at or after position `i` that contains `needle`,
/// taking lines as `str::lines` does (a final line ending adds no empty
/// line).
pub open spec fn first_line_containing_from(s: Seq<char>, needle: Seq<char>, i: int) -> Option<Seq<char>>
    decreases s.len() - i,
{
    if i < 0 || i >= s.len() {
        None
    } else if contains_text(line_at(s, i), needle) {
        Some(line_at(s, i))
    } else {
        proof {
            lemma_line_end_bounds(s, i);
        }
        if line_end_from(s, i) >= s.len() {
            None
        } else {
            first_line_containing_from(s, needle, line_end_from(s, i) + 1)
        }
    }
}

/// The first line of `s` (`s.lines().next()`), or the empty string when `s`
/// is empty.
pub open spec fn first_line_text(s: Seq<char>) -> Seq<char> {
    line_at(s, 0)
}

/// The line of `content` that starts at `i` (`i` is the start of a line).
fn line_from<'a>(content: &'a str, i: usize) -> (r: (&'a str, usize))
    requires
        i <= content@.len(),
    ensures
        r.0@ == line_at(content@, i as int),
        r.1 == line_end_from(content@, i as int),
{
    let n = content.unicode_len();
    let mut e: usize = i;
    while e < n && content.get_char(e) != '\n'
        invariant
            n == content@.len(),
            i <= e <= n,
            line_end_from(content@, e as int) == line_end_from(content@, i as int),
        decreases n - e,
    {
        e = e + 1;
    }
    let stop = if e < n && e > i && content.get_char(e - 1) == '\r' { e - 1 } else { e };
    proof {
        let l = content@.subrange(i as int, e as int);
        if e < n && e > i && content@[e - 1] == '\r' {
            assert(l.last() == '\r');
            assert(l.drop_last() =~= content@.subrange(i as int, stop as int));
        } else if e < n && l.len() > 0 {
            assert(l.last() == content@[e - 1]);
        }
    }
    (content.substring_char(i, stop), e)
}

/// The first line of `content` that contains `needle`, taking lines as
/// `str::lines` does; `None` when no line does.
pub fn first_line_containing(content: &str, needle: &str) -> (r: Option<String>)
    ensures
        match r {
            Some(l) => first_line_containing_from(content@, needle@, 0) == Some(l@),
            None => first_line_containing_from(content@, needle@, 0) is None,
        },
{
    let n = content.unicode_len();
    let mut i: usize = 0;
    while i < n
        invariant
            n == content@.len(),
            i <= n,
            first_line_containing_from(content@, needle@, i as int) == first_line_containing_from(content@, needle@, 0),
        decreases n - i,
    {
        let (line, e) = line_from(content, i);
        if contains_str(line, needle) {
            return Some(line.to_owned());
        }
        proof {
            lemma_line_end_bounds(content@, i as int);
        }
        if e == n {
            return None;
        }
        i = e + 1;
    }
    None
}

/// The first line of `s`, or the empty string when `s` is empty.
pub fn first_line(s: &str) -> (r: &str)
    ensures
        r@ == first_line_text(s@),
{
    let (line, _) = line_from(s, 0);
    line
}

/// `s` trimmed, when that leaves anything.
pub open spec fn nonblank_trimmed(s: Seq<char>) -> Option<Seq<char>> {
    if trim_text(s).len() > 0 {
        Some(trim_text(s))
    } else {
        None
    }
}

/// The value a `sysctl -n` call printed: its output trimmed, `None` when
/// nothing but white space was printed.
pub fn sysctl_value(stdout: &str) -> (r: Option<String>)
    ensures
        match r {
            Some(v) => nonblank_trimmed(stdout@) == Some(v@),
            None => nonblank_trimmed(stdout@) is None,
        },
{
    let t = trim_ws(stdout);
    if t.unicode_len() > 0 {
        Some(t.to_owned())
    } else {
        None
    }
}

/// The version a `--version` call printed: its first line trimmed, `None`
/// when that line is blank.
pub fn version_line(stdout: &str) -> (r: Option<String>)
    ensures
        match r {
            Some(v) => nonblank_trimmed(first_line_text(stdout@)) == Some(v@),
            None => nonblank_trimmed(first_line_text(stdout@)) is None,
        },
{
    let t = trim_ws(first_line(stdout));
    if t.unicode_len() > 0 {
        Some(t.to_owned())
    } else {
        None
    }
}

/// Index of the first `c` in `s` at or after `i`, or the length of `s`.
pub open spec fn index_of_from(s: Seq<char>, c: char, i: int) -> int
    decreases s.len() - i,
{
    if i >= s.len() {
        s.len() as int
    } else if s[i] == c {
        i
    } else {
        index_of_from(s, c, i + 1)
    }
}

/// The value of a `key: value` line (`split_once(':')`, then trimmed);
/// `None` when the line has no `:`.
pub open spec fn colon_value_text(line: Seq<char>) -> Option<Seq<char>> {
    let k = index_of_from(line, ':', 0);
    if k < line.len() {
        Some(trim_text(line.subrange(k + 1, line.len() as int)))
    } else {
        None
    }
}

/// The CPU description: the brand string when the platform reports one,
/// else the value of the first `model name` line of `/proc/cpuinfo`, else
/// `unknown`.
pub open spec fn cpu_text(brand: Option<Seq<char>>, cpuinfo: Option<Seq<char>>) -> Seq<char> {
    match brand {
        Some(b) => b,
        None => match cpuinfo {
            Some(c) => match first_line_containing_from(c, "model name"@, 0) {
                Some(line) => match colon_value_text(line) {
                    Some(v) => v,
                    None => "unknown"@,
                },
                None => "unknown"@,
            },
            None => "unknown"@,
        },
    }
}

/// The value of a `key: value` line; `None` when it has no `:`.
pub fn colon_value(line: &str) -> (r: Option<&str>)
    ensures
        match r {
            Some(v) => colon_value_text(line@) == Some(v@),
            None => colon_value_text(line@) is None,
        },
{
    let n = line.unicode_len();
    let mut k: usize = 0;
    while k < n && line.get_char(k) != ':'
        invariant
            n == line@.len(),
            k <= n,
            index_of_from(line@, ':', k as int) == index_of_from(line@, ':', 0),
        decreases n - k,
    {
        k = k + 1;
    }
    if k < n {
        Some(trim_ws(line.substring_char(k + 1, n)))
    } else {
        None
    }
}

/// Describes the CPU from the brand string the platform reports (if any)
/// and the text of `/proc/cpuinfo` (if it could be read).
pub fn cpu_from(brand: Option<&str>, cpuinfo: Option<&str>) -> (r: String)
    ensures
        r@ == cpu_text(
            match brand { Some(b) => Some(b@), None => None },
            match cpuinfo { Some(c) => Some(c@), None => None },
        ),
{
    if let Some(b) = brand {
        return b.to_owned();
    }
    if let Some(c) = cpuinfo {
        if let Some(line) = first_line_containing(c, "model name") {
            if let Some(v) = colon_value(line.as_str()) {
                return v.to_owned();
            }
        }
    }
    "unknown".to_owned()
}

/// The run of non-white-space characters that ends `t`.
pub open spec fn trailing_field(t: Seq<char>) -> Seq<char>
    decreases t.len(),
{
    if t.len() == 0 || is_whitespace_char(t.last()) {
        Seq::empty()
    } else {
        trailing_field(t.drop_last()).push(t.last())
    }
}

/// The run of non-white-space characters that starts `t`.
pub open spec fn leading_field(t: Seq<char>) -> Seq<char>
    decreases t.len(),
{
    if t.len() == 0 || is_whitespace_char(t[0]) {
        Seq::empty()
    } else {
        seq![t[0]] + leading_field(t.drop_first())
    }
}

/// The last white-space separated field of `s`
/// (`s.split_whitespace().last()`).
pub open spec fn last_field_text(s: Seq<char>) -> Option<Seq<char>> {
    if trim_end_text(s).len() == 0 {
        None
    } else {
        Some(trailing_field(trim_end_text(s)))
    }
}

/// The second white-space separated field of `s`
/// (`s.split_whitespace().nth(1)`).
pub open spec fn second_field_text(s: Seq<char>) -> Option<Seq<char>> {
    let t = trim_start_text(s);
    let rest = trim_start_text(t.subrange(leading_field(t).len() as int, t.len() as int));
    if rest.len() == 0 {
        None
    } else {
        Some(leading_field(rest))
    }
}

proof fn lemma_trailing_field_window(s: Seq<char>, k: int, j: int)
    requires
        0 <= k <= j <= s.len(),
        forall|q: int| k <= q < j ==> !is_whitespace_char(s[q]),
        k > 0 ==> is_whitespace_char(s[k - 1]),
    ensures
        trailing_field(s.subrange(0, j)) == s.subrange(k, j),
    decreases j - k,
{
    let t = s.subrange(0, j);
    if j > k {
        assert(t.drop_last() =~= s.subrange(0, j - 1));
        lemma_trailing_field_window(s, k, j - 1);
        assert(s.subrange(k, j - 1).push(s[j - 1]) =~= s.subrange(k, j));
    } else if k > 0 {
        assert(t.last() == s[k - 1]);
    }
}

proof fn lemma_leading_field_window(s: Seq<char>, i: int, e: int)
    requires
        0 <= i <= e <= s.len(),
        forall|q: int| i <= q < e ==> !is_whitespace_char(s[q]),
        e < s.len() ==> is_whitespace_char(s[e]),
    ensures
        leading_field(s.subrange(i, s.len() as int)) == s.subrange(i, e),
    decreases e - i,
{
    let t = s.subrange(i, s.len() as int);
    if i < e {
        assert(t.drop_first() =~= s.subrange(i + 1, s.len() as int));
        lemma_leading_field_window(s, i + 1, e);
        assert(seq![s[i]] + s.subrange(i + 1, e) =~= s.subrange(i, e));
    } else if i < s.len() {
        assert(t[0] == s[i]);
    }
}

/// Skips white space from `i`.
fn skip_whitespace(s: &str, i: usize) -> (r: usize)
    requires
        i <= s@.len(),
    ensures
        i <= r <= s@.len(),
        forall|q: int| i <= q < r ==> is_whitespace_char(s@[q]),
        r < s@.len() ==> !is_whitespace_char(s@[r as int]),
{
    let n = s.unicode_len();
    let mut k: usize = i;
    while k < n && is_whitespace(s.get_char(k))
        invariant
            n == s@.len(),
            i <= k <= n,
            forall|q: int| i <= q < k ==> is_whitespace_char(s@[q]),
        decreases n - k,
    {
        k = k + 1;
    }
    k
}

/// The end of the field starting at `i`.
fn field_end(s: &str, i: usize) -> (r: usize)
    requires
        i <= s@.len(),
    ensures
        i <= r <= s@.len(),
        forall|q: int| i <= q < r ==> !is_whitespace_char(s@[q]),
        r < s@.len() ==> is_whitespace_char(s@[r as int]),
{
    let n = s.unicode_len();
    let mut k: usize = i;
    while k < n && !is_whitespace(s.get_char(k))
        invariant
            n == s@.len(),
            i <= k <= n,
            forall|q: int| i <= q < k ==> !is_whitespace_char(s@[q]),
        decreases n - k,
    {
        k = k + 1;
    }
    k
}

/// The last white-space separated field of `s`; `None` when `s` is blank.
pub fn last_field(s: &str) -> (r: Option<&str>)
    ensures
        match r {
            Some(v) => last_field_text(s@) == Some(v@),
            None => last_field_text(s@) is None,
        },
{
    let n = s.unicode_len();
    let mut j: usize = n;
    while j > 0 && is_whitespace(s.get_char(j - 1))
        invariant
            n == s@.len(),
            j <= n,
            forall|q: int| j <= q < n ==> is_whitespace_char(s@[q]),
        decreases j,
    {
        j = j - 1;
    }
    proof {
        lemma_trim_end_cut(s@, j as int);
        if j > 0 {
            assert(s@.subrange(0, j as int).last() == s@[j - 1]);
        }
        assert(trim_end_text(s@.subrange(0, j as int)) == s@.subrange(0, j as int));
    }
    if j == 0 {
        return None;
    }
    let mut k: usize = j;
    while k > 0 && !is_whitespace(s.get_char(k - 1))
        invariant
            n == s@.len(),
            k <= j <= n,
            forall|q: int| k <= q < j ==> !is_whitespace_char(s@[q]),
        decreases k,
    {
        k = k - 1;
    }
    proof {
        lemma_trailing_field_window(s@, k as int, j as int);
    }
    Some(s.substring_char(k, j))
}

/// The second white-space separated field of `s`; `None` when `s` has
/// fewer than two.
pub fn second_field(s: &str) -> (r: Option<&str>)
    ensures
        match r {
            Some(v) => second_field_text(s@) == Some(v@),
            None => second_field_text(s@) is None,
        },
{
    let n = s.unicode_len();
    let a = skip_whitespace(s, 0);
    let b = field_end(s, a);
    let c = skip_whitespace(s, b);
    let d = field_end(s, c);
    proof {
        lemma_trim_start_skip(s@, a as int);
        assert(s@.subrange(0, n as int) =~= s@);
        let t = s@.subrange(a as int, n as int);
        if a < n {
            assert(t[0] == s@[a as int]);
        }
        assert(trim_start_text(t) == t);
        assert(trim_start_text(s@) == t);
        lemma_leading_field_window(s@, a as int, b as int);
        assert(t.subrange((b - a) as int, t.len() as int) =~= s@.subrange(b as int, n as int));
        lemma_trim_start_skip(s@.subrange(b as int, n as int), (c - b) as int);
        let u = s@.subrange(b as int, n as int).subrange((c - b) as int, (n - b) as int);
        assert(u =~= s@.subrange(c as int, n as int));
        if c < n {
            assert(u[0] == s@[c as int]);
        }
        assert(trim_start_text(u) == u);
        lemma_leading_field_window(s@, c as int, d as int);
    }
    if c < n {
        Some(s.substring_char(c, d))
    } else {
        None
    }
}

/// The prover version from its `--version` line: the last field, or
/// `unknown` when the line is blank.
pub fn version_or_unknown(line: &str) -> (r: String)
    ensures
        r@ == match last_field_text(line@) {
            Some(v) => v,
            None => "unknown"@,
        },
{
    match last_field(line) {
        Some(v) => v.to_owned(),
        None => "unknown".to_owned(),
    }
}

/// The `MemTotal` figure of `/proc/meminfo`, as printed (in kB): the second
/// field of the first line that mentions `MemTotal`.
pub fn mem_total_field(meminfo: &str) -> (r: Option<String>)
    ensures
        match r {
            Some(v) => match first_line_containing_from(meminfo@, "MemTotal"@, 0) {
                Some(line) => second_field_text(line) == Some(v@),
                None => false,
            },
            None => match first_line_containing_from(meminfo@, "MemTotal"@, 0) {
                Some(line) => second_field_text(line) is None,
                None => true,
            },
        },
{
    match first_line_containing(meminfo, "MemTotal") {
        Some(line) => match second_field(line.as_str()) {
            Some(v) => Some(v.to_owned()),
            None => None,
        },
        None => None,
    }
}

/// The version a tool reports, from the outputs of the candidate commands
/// in the order they are tried (`None` where a candidate could not be run or
/// failed): the trimmed first line of the first output whose first line is
/// not blank, else `unknown`.
pub open spec fn tool_version_text(outputs: Seq<Option<Seq<char>>>) -> Seq<char>
    decreases outputs.len(),
{
    if outputs.len() == 0 {
        "unknown"@
    } else {
        match outputs[0] {
            Some(out) => match nonblank_trimmed(first_line_text(out)) {
                Some(v) => v,
                None => tool_version_text(outputs.drop_first()),
            },
            None => tool_version_text(outputs.drop_first()),
        }
    }
}

/// The outputs of the candidates, as text.
pub open spec fn output_texts(outputs: Seq<Option<String>>) -> Seq<Option<Seq<char>>> {
    outputs.map_values(|o: Option<String>| match o { Some(s) => Some(s@), None => None })
}

/// The version a tool reports, from the outputs of its candidate commands in
/// the order they are tried.
pub fn tool_version_from(outputs: &[Option<String>]) -> (r: String)
    ensures
        r@ == tool_version_text(output_texts(outputs@)),
{
    let ghost all = output_texts(outputs@);
    assert(all.subrange(0, all.len() as int) =~= all);
    let mut i: usize = 0;
    while i < outputs.len()
        invariant
            i <= outputs@.len(),
            all == output_texts(outputs@),
            tool_version_text(all.subrange(i as int, all.len() as int)) == tool_version_text(all),
        decreases outputs@.len() - i,
    {
        let ghost rest = all.subrange(i as int, all.len() as int);
        proof {
            assert(rest.drop_first() =~= all.subrange(i + 1, all.len() as int));
            assert(rest[0] == all[i as int]);
        }
        match &outputs[i] {
            Some(out) => {
                if let Some(v) = version_line(out.as_str()) {
                    return v;
                }
            },
            None => {},
        }
        i = i + 1;
    }
    proof {
        assert(all.subrange(i as int, all.len() as int) =~= Seq::<Option<Seq<char>>>::empty());
    }
    "unknown".to_owned()
}

/// The commands tried, in order, to learn a tool's version: the copy under
/// `$HOME/.risc0/bin`, the copy under `$HOME/.cargo/bin`, then `bin` on the
/// search path.
pub fn tool_candidates(home: &str, bin: &str) -> (r: Vec<String>)
    ensures
        r@.len() == 3,
        r@[0]@ == home@ + "/.risc0/bin/"@ + bin@,
        r@[1]@ == home@ + "/.cargo/bin/"@ + bin@,
        r@[2]@ == bin@,
{
    let mut risc0 = home.to_owned();
    risc0.append("/.risc0/bin/");
    risc0.append(bin);
    let mut cargo = home.to_owned();
    cargo.append("/.cargo/bin/");
    cargo.append(bin);
    let mut r: Vec<String> = Vec::new();
    r.push(risc0);
    r.push(cargo);
    r.push(bin.to_owned());
    r
}

} // verus!
