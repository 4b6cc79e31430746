//! Decisions taken from the machine's environment: the hardware class that
//! keeps runs from different machines off the same chart, CI detection, and
//! the filesystem-safe host label used in result filenames. The environment
//! itself is read by the caller.
use vstd::prelude::*;
use vstd::string::StrSliceExecFns;
use vstd::string::StringExecFns;
use crate::strings::contains_str;
use crate::strings::contains_text;
use crate::strings::trim_text;
use crate::strings::trim_ws;
use crate::text::push_char;
use crate::text::str_eq;

verus! {

/// The hardware class: an explicit non-blank label wins (trimmed); on CI the
/// architecture decides; otherwise an M3 Max CPU is `local-m3max` and any
/// other machine `local-other`.
pub open spec fn hardware_class_text(explicit: Option<Seq<char>>, arch: Seq<char>, cpu: Seq<char>, is_ci: bool) -> Seq<char> {
    if explicit is Some && trim_text(explicit->0).len() > 0 {
        trim_text(explicit->0)
    } else if is_ci {
        if arch == "x86_64"@ {
            "ci-x86"@
        } else if arch == "aarch64"@ {
            "ci-arm"@
        } else {
            "ci-"@ + arch
        }
    } else if contains_text(cpu, "M3 Max"@) {
        "local-m3max"@
    } else {
        "local-other"@
    }
}

/// Classifies the machine from the explicit `PQB_HARDWARE_CLASS` label (if
/// set), the target architecture, the CPU brand string and whether this is a
/// CI run.
pub fn hardware_class_from(explicit: Option<&str>, arch: &str, cpu: &str, is_ci: bool) -> (r: String)
    ensures
        r@ == hardware_class_text(
            match explicit { Some(e) => Some(e@), None => None },
            arch@,
            cpu@,
            is_ci,
        ),
{
    if let Some(e) = explicit {
        let trimmed = trim_ws(e);
        if trimmed.unicode_len() > 0 {
            return trimmed.to_owned();
        }
    }
    if is_ci {
        if str_eq(arch, "x86_64") {
            "ci-x86".to_owned()
        } else if str_eq(arch, "aarch64") {
            "ci-arm".to_owned()
        } else {
            let mut s = "ci-".to_owned();
            s.append(arch);
            s
        }
    } else if contains_str(cpu, "M3 Max") {
        "local-m3max".to_owned()
    } else {
        "local-other".to_owned()
    }
}

/// Whether `explicit` is a label that is not blank.
pub open spec fn has_explicit_label(explicit: Option<Seq<char>>) -> bool {
    explicit is Some && trim_text(explicit->0).len() > 0
}

/// How a machine is classed. A non-blank explicit label wins, trimmed.
/// Otherwise a CI run is classed by its architecture alone, whatever its CPU
/// (`ci-x86`, `ci-arm`, or `ci-` and the architecture), so two CI runs on one
/// architecture share a class; and a local run is `local-m3max` exactly when
/// its CPU brand mentions `M3 Max`, `local-other` otherwise.
pub proof fn lemma_hardware_class_rules(explicit: Option<Seq<char>>, arch: Seq<char>, cpu: Seq<char>, other_cpu: Seq<char>, is_ci: bool)
    ensures
        has_explicit_label(explicit) ==> hardware_class_text(explicit, arch, cpu, is_ci) == trim_text(explicit->0),
        !has_explicit_label(explicit) && is_ci ==> hardware_class_text(explicit, arch, cpu, true)
            == hardware_class_text(explicit, arch, other_cpu, true),
        !has_explicit_label(explicit) && is_ci && arch == "x86_64"@ ==> hardware_class_text(explicit, arch, cpu, is_ci) == "ci-x86"@,
        !has_explicit_label(explicit) && is_ci && arch == "aarch64"@ ==> hardware_class_text(explicit, arch, cpu, is_ci) == "ci-arm"@,
        !has_explicit_label(explicit) && is_ci && arch != "x86_64"@ && arch != "aarch64"@
            ==> hardware_class_text(explicit, arch, cpu, is_ci) == "ci-"@ + arch,
        !has_explicit_label(explicit) && !is_ci ==> (hardware_class_text(explicit, arch, cpu, is_ci) == "local-m3max"@
            <==> contains_text(cpu, "M3 Max"@)),
        !has_explicit_label(explicit) && !is_ci && !contains_text(cpu, "M3 Max"@)
            ==> hardware_class_text(explicit, arch, cpu, is_ci) == "local-other"@,
{
    reveal_strlit("local-m3max");
    reveal_strlit("local-other");
    reveal_strlit("x86_64");
    reveal_strlit("aarch64");
    assert("local-other"@[6] != "local-m3max"@[6]);
    assert("aarch64"@[0] != "x86_64"@[0]);
}

/// A CI run: `CI` is `true` or `1`, or `GITHUB_ACTIONS` is set.
pub fn is_ci_from(ci: Option<&str>, github_actions_set: bool) -> (r: bool)
    ensures
        r == ((match ci { Some(v) => v@ == "true"@ || v@ == "1"@, None => false }) || github_actions_set),
{
    let from_ci = match ci {
        Some(v) => str_eq(v, "true") || str_eq(v, "1"),
        None => false,
    };
    from_ci || github_actions_set
}

/// ASCII letter or digit.
pub open spec fn is_ascii_alnum(c: char) -> bool {
    ('0' <= c <= '9') || ('a' <= c <= 'z') || ('A' <= c <= 'Z')
}

/// ASCII lower-casing: `A..=Z` to `a..=z`, every other character unchanged.
pub open spec fn ascii_lower(c: char) -> char {
    if 'A' <= c <= 'Z' { ((c as u32) + 32) as char } else { c }
}

/// `s` with every character that is not an ASCII letter or digit made `-`.
pub open spec fn dashed_text(s: Seq<char>) -> Seq<char> {
    Seq::new(s.len(), |i: int| if is_ascii_alnum(s[i]) { s[i] } else { '-' })
}

/// `s` without leading and trailing `c`.
pub open spec fn trim_char_text(s: Seq<char>, c: char) -> Seq<char>
    decreases s.len(),
{
    if s.len() > 0 && s[0] == c {
        trim_char_text(s.drop_first(), c)
    } else if s.len() > 0 && s.last() == c {
        trim_char_text(s.drop_last(), c)
    } else {
        s
    }
}

/// The host label of a raw host name: non-alphanumerics made `-`, leading and
/// trailing `-` removed, then lower-cased.
pub open spec fn host_label_text(raw: Seq<char>) -> Seq<char> {
    trim_char_text(dashed_text(raw), '-').map_values(|c: char| ascii_lower(c))
}

proof fn lemma_trim_char_is_window(s: Seq<char>, c: char)
    ensures
        exists|i: int, j: int| 0 <= i <= j <= s.len() && trim_char_text(s, c) == s.subrange(i, j),
        trim_char_text(s, c).len() > 0 ==> trim_char_text(s, c)[0] != c && trim_char_text(s, c).last() != c,
    decreases s.len(),
{
    if s.len() > 0 && s[0] == c {
        lemma_trim_char_is_window(s.drop_first(), c);
        let (i, j) = choose|i: int, j: int| 0 <= i <= j <= s.drop_first().len() && trim_char_text(s.drop_first(), c) == s.drop_first().subrange(i, j);
        assert(s.drop_first().subrange(i, j) =~= s.subrange(i + 1, j + 1));
    } else if s.len() > 0 && s.last() == c {
        lemma_trim_char_is_window(s.drop_last(), c);
        let (i, j) = choose|i: int, j: int| 0 <= i <= j <= s.drop_last().len() && trim_char_text(s.drop_last(), c) == s.drop_last().subrange(i, j);
        assert(s.drop_last().subrange(i, j) =~= s.subrange(i, j));
    } else {
        assert(s.subrange(0, s.len() as int) =~= s);
    }
}

/// A host label is filesystem safe: only ASCII lower-case letters, digits and
/// `-`, and it neither starts nor ends with `-`.
pub proof fn lemma_host_label_is_filesystem_safe(raw: Seq<char>)
    ensures
        forall|k: int| 0 <= k < host_label_text(raw).len() ==> {
            let c = #[trigger] host_label_text(raw)[k];
            ('0' <= c <= '9') || ('a' <= c <= 'z') || c == '-'
        },
        host_label_text(raw).len() > 0 ==> host_label_text(raw)[0] != '-' && host_label_text(raw).last() != '-',
{
    let d = dashed_text(raw);
    let t = trim_char_text(d, '-');
    lemma_trim_char_is_window(d, '-');
    let (i, j) = choose|i: int, j: int| 0 <= i <= j <= d.len() && t == d.subrange(i, j);
    assert forall|k: int| 0 <= k < t.len() implies is_ascii_alnum(#[trigger] t[k]) || t[k] == '-' by {
        assert(t[k] == d[i + k]);
    }
    let l = host_label_text(raw);
    assert forall|k: int| 0 <= k < l.len() implies {
        let c = #[trigger] l[k];
        ('0' <= c <= '9') || ('a' <= c <= 'z') || c == '-'
    } by {
        assert(l[k] == ascii_lower(t[k]));
    }
}

fn ascii_lower_char(c: char) -> (r: char)
    ensures
        r == ascii_lower(c),
{
    if 'A' <= c && c <= 'Z' {
        ((c as u8) + 32) as char
    } else {
        c
    }
}

fn is_ascii_alnum_char(c: char) -> (r: bool)
    ensures
        r == is_ascii_alnum(c),
{
    ('0' <= c && c <= '9') || ('a' <= c && c <= 'z') || ('A' <= c && c <= 'Z')
}

proof fn lemma_trim_char_bounds(s: Seq<char>, c: char, i: int, j: int)
    requires
        0 <= i <= j <= s.len(),
        forall|k: int| 0 <= k < i ==> s[k] == c,
        forall|k: int| j <= k < s.len() ==> s[k] == c,
        i < j ==> s[i] != c && s[j - 1] != c,
        i == j ==> forall|k: int| 0 <= k < s.len() ==> s[k] == c,
    ensures
        trim_char_text(s, c) == s.subrange(i, j),
    decreases s.len(),
{
    if s.len() > 0 && s[0] == c {
        if i > 0 {
            lemma_trim_char_bounds(s.drop_first(), c, i - 1, j - 1);
            assert(s.drop_first().subrange(i - 1, j - 1) =~= s.subrange(i, j));
        } else {
            // i == 0 and s[0] == c forces i == j: everything is c
            assert(i == j);
            lemma_trim_char_bounds(s.drop_first(), c, 0, 0);
            assert(s.drop_first().subrange(0, 0) =~= s.subrange(i, j));
        }
    } else if s.len() > 0 && s.last() == c {
        if j < s.len() {
            lemma_trim_char_bounds(s.drop_last(), c, i, j);
            assert(s.drop_last().subrange(i, j) =~= s.subrange(i, j));
        } else {
            assert(i == j);
            lemma_trim_char_bounds(s.drop_last(), c, i, i);
            assert(s.drop_last().subrange(i, i) =~= s.subrange(i, j));
        }
    } else {
        if s.len() > 0 {
            assert(i == 0 && j == s.len()) by {
                if i == j {
                    assert(s[0] == c);
                }
            }
        }
        assert(s.subrange(i, j) =~= s);
    }
}

/// The filesystem-safe label of a raw host name: every character that is not
/// an ASCII letter or digit becomes `-`, leading and trailing `-` go, and the
/// rest is lower-cased.
pub fn host_label_from(raw: &str) -> (r: String)
    ensures
        r@ == host_label_text(raw@),
{
    let n = raw.unicode_len();
    let mut dashed: Vec<char> = Vec::new();
    let mut k: usize = 0;
    while k < n
        invariant
            n == raw@.len(),
            k <= n,
            dashed@ =~= dashed_text(raw@).subrange(0, k as int),
        decreases n - k,
    {
        let c = raw.get_char(k);
        dashed.push(if is_ascii_alnum_char(c) { c } else { '-' });
        k = k + 1;
    }
    let ghost d = dashed_text(raw@);
    assert(dashed@ =~= d);
    let mut i: usize = 0;
    while i < n && dashed[i] == '-'
        invariant
            n == dashed@.len(),
            i <= n,
            forall|q: int| 0 <= q < i ==> dashed@[q] == '-',
        decreases n - i,
    {
        i = i + 1;
    }
    let mut j: usize = n;
    while j > i && dashed[j - 1] == '-'
        invariant
            n == dashed@.len(),
            i <= j <= n,
            forall|q: int| j <= q < n ==> dashed@[q] == '-',
        decreases j - i,
    {
        j = j - 1;
    }
    proof {
        lemma_trim_char_bounds(d, '-', i as int, j as int);
    }
    let mut out = String::new();
    let mut p: usize = i;
    while p < j
        invariant
            i <= p <= j <= n,
            n == dashed@.len(),
            dashed@ == d,
            out@ =~= d.subrange(i as int, p as int).map_values(|c: char| ascii_lower(c)),
        decreases j - p,
    {
        push_char(&mut out, ascii_lower_char(dashed[p]));
        p = p + 1;
    }
    out
}

/// The raw host name: what `hostname` printed, trimmed, or `unknown-host`
/// when it printed nothing but white space or could not be run.
pub open spec fn host_name_text(stdout: Option<Seq<char>>) -> Seq<char> {
    match stdout {
        Some(out) => if trim_text(out).len() > 0 { trim_text(out) } else { "unknown-host"@ },
        None => "unknown-host"@,
    }
}

/// The filesystem-safe host label from what `hostname` printed (`None` when
/// it could not be run or its output was not UTF-8).
pub fn host_label_of(hostname_stdout: Option<&str>) -> (r: String)
    ensures
        r@ == host_label_text(host_name_text(match hostname_stdout { Some(o) => Some(o@), None => None })),
{
    match hostname_stdout {
        Some(out) => {
            let t = trim_ws(out);
            if t.unicode_len() > 0 {
                host_label_from(t)
            } else {
                host_label_from("unknown-host")
            }
        },
        None => host_label_from("unknown-host"),
    }
}

} // verus!
