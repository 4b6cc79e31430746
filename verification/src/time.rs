//! UTC timestamps for results files: RFC 3339 at seconds precision, and the
//! filesystem-safe run identifier built from one.
use vstd::prelude::*;
use crate::calendar::civil_of_days;
use crate::calendar::lemma_year_after_epoch;
use crate::text::zero_padded;
use crate::text::lemma_zero_padded_digits;
use crate::text::is_ascii_digit;
use crate::text::push_char;
use crate::text::push_zero_padded;
use vstd::string::StrSliceExecFns;
use vstd::string::StringExecFns;

verus! {

/// An instant on the UTC clock: whole seconds after 1970-01-01T00:00:00Z.
/// The caller reads the system clock and truncates it to seconds.
#[derive(Debug, Clone, Copy, PartialEq, Eq, Structural)]
pub struct UnixTime {
    pub secs: u64,
}

/// `YYYY-MM-DDTHH<sep>MM<sep>SSZ` for the instant `secs` seconds after the
/// Unix epoch, with the year zero-padded to at least four digits.
pub open spec fn clock_text(secs: u64, sep: char) -> Seq<char> {
    let date = civil_of_days(secs as int / 86_400);
    date_text(date.0, date.1, date.2) + seq!['T'] + time_of_day_text(secs as int % 86_400, sep)
}

/// `YYYY-MM-DD`, each field zero-padded.
pub open spec fn date_text(y: int, m: int, d: int) -> Seq<char> {
    zero_padded(y as nat, 4) + seq!['-'] + zero_padded(m as nat, 2) + seq!['-'] + zero_padded(d as nat, 2)
}

/// `HH<sep>MM<sep>SSZ` for `tod` seconds into the day.
pub open spec fn time_of_day_text(tod: int, sep: char) -> Seq<char> {
    zero_padded((tod / 3600) as nat, 2) + seq![sep] + zero_padded(((tod % 3600) / 60) as nat, 2)
        + seq![sep] + zero_padded((tod % 60) as nat, 2) + seq!['Z']
}

/// The RFC 3339 UTC timestamp of `secs` seconds after the Unix epoch.
pub open spec fn rfc3339_text(secs: u64) -> Seq<char> {
    clock_text(secs, ':')
}

/// `s` with every `from` replaced by `to`.
pub open spec fn replace_char(s: Seq<char>, from: char, to: char) -> Seq<char> {
    Seq::new(s.len(), |i: int| if s[i] == from { to } else { s[i] })
}

/// The run identifier: the timestamp with `:` made `-`, a `-`, then the host.
pub open spec fn run_id_text(secs: u64, host: Seq<char>) -> Seq<char> {
    replace_char(rfc3339_text(secs), ':', '-') + seq!['-'] + host
}

fn push_date_text(s: &mut String, y: u64, m: u64, d: u64)
    ensures
        final(s)@ == old(s)@ + date_text(y as int, m as int, d as int),
{
    let ghost start = s@;
    push_zero_padded(s, y, 4);
    push_char(s, '-');
    push_zero_padded(s, m, 2);
    push_char(s, '-');
    push_zero_padded(s, d, 2);
    assert(s@ =~= start + date_text(y as int, m as int, d as int));
}

fn push_time_of_day_text(s: &mut String, tod: u64, sep: char)
    ensures
        final(s)@ == old(s)@ + time_of_day_text(tod as int, sep),
{
    let ghost start = s@;
    push_zero_padded(s, tod / 3600, 2);
    push_char(s, sep);
    push_zero_padded(s, (tod % 3600) / 60, 2);
    push_char(s, sep);
    push_zero_padded(s, tod % 60, 2);
    push_char(s, 'Z');
    assert(s@ =~= start + time_of_day_text(tod as int, sep));
}

fn push_clock_text(s: &mut String, secs: u64, sep: char)
    ensures
        final(s)@ == old(s)@ + clock_text(secs, sep),
{
    let days = (secs / 86_400) as i64;
    let tod = secs % 86_400;
    let (y, mo, d) = crate::calendar::civil_from_days(days);
    proof {
        lemma_year_after_epoch(y as int, mo as int, d as int);
    }
    let ghost start = s@;
    push_date_text(s, y as u64, mo as u64, d as u64);
    push_char(s, 'T');
    push_time_of_day_text(s, tod, sep);
    assert(s@ =~= start + clock_text(secs, sep));
}

/// RFC 3339 UTC timestamp of `now`, seconds precision, e.g.
/// `1970-01-01T00:00:00Z` at the epoch.
pub fn rfc3339_utc(now: UnixTime) -> (r: String)
    ensures
        r@ == rfc3339_text(now.secs),
{
    let mut s = String::new();
    push_clock_text(&mut s, now.secs, ':');
    assert(s@ =~= rfc3339_text(now.secs));
    s
}

/// `s` with every `from` replaced by `to`.
pub fn replace_char_in(s: &str, from: char, to: char) -> (r: String)
    ensures
        r@ == replace_char(s@, from, to),
{
    let n = s.unicode_len();
    let mut out = String::new();
    let mut i: usize = 0;
    while i < n
        invariant
            n == s@.len(),
            i <= n,
            out@ =~= replace_char(s@, from, to).subrange(0, i as int),
        decreases n - i,
    {
        let c = s.get_char(i);
        if c == from {
            push_char(&mut out, to);
        } else {
            push_char(&mut out, c);
        }
        i = i + 1;
    }
    out
}

/// A run identifier of the form `<timestamp>-<host>`, filesystem safe: the
/// RFC 3339 timestamp of `now` with `:` replaced by `-`, a `-`, then
/// `host_label`.
pub fn run_id(now: UnixTime, host_label: &str) -> (r: String)
    ensures
        r@ == run_id_text(now.secs, host_label@),
{
    let stamp = rfc3339_utc(now);
    let mut id = replace_char_in(stamp.as_str(), ':', '-');
    push_char(&mut id, '-');
    id.append(host_label);
    id
}

proof fn lemma_replace_concat(x: Seq<char>, y: Seq<char>, from: char, to: char)
    ensures
        replace_char(x + y, from, to) == replace_char(x, from, to) + replace_char(y, from, to),
{
    assert(replace_char(x + y, from, to) =~= replace_char(x, from, to) + replace_char(y, from, to));
}

proof fn lemma_replace_absent(x: Seq<char>, from: char, to: char)
    requires
        forall|i: int| 0 <= i < x.len() ==> x[i] != from,
    ensures
        replace_char(x, from, to) == x,
{
    assert(replace_char(x, from, to) =~= x);
}

proof fn lemma_replace_padded(v: nat, width: nat)
    ensures
        replace_char(zero_padded(v, width), ':', '-') == zero_padded(v, width),
{
    lemma_zero_padded_digits(v, width);
    lemma_replace_absent(zero_padded(v, width), ':', '-');
}

proof fn lemma_replace_single(c: char)
    ensures
        replace_char(seq![c], ':', '-') == seq![if c == ':' { '-' } else { c }],
{
    assert(replace_char(seq![c], ':', '-') =~= seq![if c == ':' { '-' } else { c }]);
}

/// Replacing `:` by `-` in the RFC 3339 timestamp gives the same text built
/// with `-` as the time separator.
pub proof fn lemma_run_id_stamp(secs: u64)
    ensures
        replace_char(rfc3339_text(secs), ':', '-') == clock_text(secs, '-'),
{
    let tod = secs as int % 86_400;
    let date = civil_of_days(secs as int / 86_400);
    let p0 = zero_padded(date.0 as nat, 4);
    let p1 = zero_padded(date.1 as nat, 2);
    let p2 = zero_padded(date.2 as nat, 2);
    let p3 = zero_padded((tod / 3600) as nat, 2);
    let p4 = zero_padded(((tod % 3600) / 60) as nat, 2);
    let p5 = zero_padded((tod % 60) as nat, 2);
    lemma_replace_padded(date.0 as nat, 4);
    lemma_replace_padded(date.1 as nat, 2);
    lemma_replace_padded(date.2 as nat, 2);
    lemma_replace_padded((tod / 3600) as nat, 2);
    lemma_replace_padded(((tod % 3600) / 60) as nat, 2);
    lemma_replace_padded((tod % 60) as nat, 2);
    lemma_replace_single('-');
    lemma_replace_single('T');
    lemma_replace_single(':');
    lemma_replace_single('Z');
    let t1 = p0 + seq!['-'];
    lemma_replace_concat(p0, seq!['-'], ':', '-');
    let t2 = t1 + p1;
    lemma_replace_concat(t1, p1, ':', '-');
    let t3 = t2 + seq!['-'];
    lemma_replace_concat(t2, seq!['-'], ':', '-');
    let t4 = t3 + p2;
    lemma_replace_concat(t3, p2, ':', '-');
    let t5 = t4 + seq!['T'];
    lemma_replace_concat(t4, seq!['T'], ':', '-');
    let t6 = t5 + p3;
    lemma_replace_concat(t5, p3, ':', '-');
    let t7 = t6 + seq![':'];
    lemma_replace_concat(t6, seq![':'], ':', '-');
    let t8 = t7 + p4;
    lemma_replace_concat(t7, p4, ':', '-');
    let t9 = t8 + seq![':'];
    lemma_replace_concat(t8, seq![':'], ':', '-');
    let t10 = t9 + p5;
    lemma_replace_concat(t9, p5, ':', '-');
    let t11 = t10 + seq!['Z'];
    lemma_replace_concat(t10, seq!['Z'], ':', '-');
    assert(t11 =~= rfc3339_text(secs));
    assert(replace_char(t11, ':', '-') =~= clock_text(secs, '-'));
}

/// A run identifier holds no `:` when its host label holds none.
pub proof fn lemma_run_id_has_no_colon(secs: u64, host: Seq<char>)
    requires
        !host.contains(':'),
    ensures
        !run_id_text(secs, host).contains(':'),
{
    let id = run_id_text(secs, host);
    let stamp = replace_char(rfc3339_text(secs), ':', '-');
    assert forall|i: int| 0 <= i < id.len() implies id[i] != ':' by {
        if i < stamp.len() {
            assert(id[i] == stamp[i]);
        } else if i > stamp.len() {
            assert(id[i] == host[i - stamp.len() - 1]);
        }
    }
}

/// A character that is safe in a file name: an ASCII letter, a digit or `-`.
pub open spec fn is_filename_char(c: char) -> bool {
    ('0' <= c <= '9') || ('a' <= c <= 'z') || ('A' <= c <= 'Z') || c == '-'
}

/// Every character of `s` is safe in a file name.
pub open spec fn is_filename_safe(s: Seq<char>) -> bool {
    forall|i: int| 0 <= i < s.len() ==> is_filename_char(#[trigger] s[i])
}

proof fn lemma_safe_concat(a: Seq<char>, b: Seq<char>)
    requires
        is_filename_safe(a),
        is_filename_safe(b),
    ensures
        is_filename_safe(a + b),
{
    assert forall|i: int| 0 <= i < (a + b).len() implies is_filename_char(#[trigger] (a + b)[i]) by {
        if i < a.len() {
            assert((a + b)[i] == a[i]);
        } else {
            assert((a + b)[i] == b[i - a.len()]);
        }
    }
}

proof fn lemma_padded_safe(v: nat, width: nat)
    ensures
        is_filename_safe(zero_padded(v, width)),
{
    lemma_zero_padded_digits(v, width);
    assert forall|i: int| 0 <= i < zero_padded(v, width).len() implies is_filename_char(#[trigger] zero_padded(v, width)[i]) by {
        assert(is_ascii_digit(zero_padded(v, width)[i]));
    }
}

/// A run identifier is filesystem safe whenever its host label is: it holds
/// only ASCII letters, digits and `-`.
pub proof fn lemma_run_id_is_filesystem_safe(secs: u64, host: Seq<char>)
    requires
        is_filename_safe(host),
    ensures
        is_filename_safe(run_id_text(secs, host)),
{
    lemma_run_id_stamp(secs);
    let tod = secs as int % 86_400;
    let date = civil_of_days(secs as int / 86_400);
    let p0 = zero_padded(date.0 as nat, 4);
    let p1 = zero_padded(date.1 as nat, 2);
    let p2 = zero_padded(date.2 as nat, 2);
    let p3 = zero_padded((tod / 3600) as nat, 2);
    let p4 = zero_padded(((tod % 3600) / 60) as nat, 2);
    let p5 = zero_padded((tod % 60) as nat, 2);
    lemma_padded_safe(date.0 as nat, 4);
    lemma_padded_safe(date.1 as nat, 2);
    lemma_padded_safe(date.2 as nat, 2);
    lemma_padded_safe((tod / 3600) as nat, 2);
    lemma_padded_safe(((tod % 3600) / 60) as nat, 2);
    lemma_padded_safe((tod % 60) as nat, 2);
    let dash = seq!['-'];
    let tee = seq!['T'];
    let zed = seq!['Z'];
    assert(is_filename_safe(dash));
    assert(is_filename_safe(tee));
    assert(is_filename_safe(zed));
    lemma_safe_concat(p0, dash);
    lemma_safe_concat(p0 + dash, p1);
    lemma_safe_concat(p0 + dash + p1, dash);
    lemma_safe_concat(p0 + dash + p1 + dash, p2);
    lemma_safe_concat(p0 + dash + p1 + dash + p2, tee);
    lemma_safe_concat(p0 + dash + p1 + dash + p2 + tee, p3);
    lemma_safe_concat(p0 + dash + p1 + dash + p2 + tee + p3, dash);
    lemma_safe_concat(p0 + dash + p1 + dash + p2 + tee + p3 + dash, p4);
    lemma_safe_concat(p0 + dash + p1 + dash + p2 + tee + p3 + dash + p4, dash);
    lemma_safe_concat(p0 + dash + p1 + dash + p2 + tee + p3 + dash + p4 + dash, p5);
    let stamp = p0 + dash + p1 + dash + p2 + tee + p3 + dash + p4 + dash + p5 + zed;
    lemma_safe_concat(p0 + dash + p1 + dash + p2 + tee + p3 + dash + p4 + dash + p5, zed);
    assert(stamp =~= clock_text(secs, '-'));
    lemma_safe_concat(stamp, dash);
    lemma_safe_concat(stamp + dash, host);
    assert(run_id_text(secs, host) =~= stamp + dash + host);
}

} // verus!
