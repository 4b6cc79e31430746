use pq_stark_bench::env::host_label_of;
use pq_stark_bench::probe::colon_value;
use pq_stark_bench::probe::cpu_from;
use pq_stark_bench::probe::first_line;
use pq_stark_bench::probe::first_line_containing;
use pq_stark_bench::probe::last_field;
use pq_stark_bench::probe::mem_total_field;
use pq_stark_bench::probe::second_field;
use pq_stark_bench::probe::sysctl_value;
use pq_stark_bench::probe::tool_version_from;
use pq_stark_bench::probe::tool_candidates;
use pq_stark_bench::probe::version_line;
use pq_stark_bench::probe::version_or_unknown;

const CPUINFO: &str = "processor\t: 0\nvendor_id\t: GenuineIntel\nmodel name\t: Intel(R) Xeon(R) CPU @ 2.20GHz\nmodel name\t: second\n";

#[test]
fn first_matching_line_is_found() {
    assert_eq!(
        first_line_containing(CPUINFO, "model name").as_deref(),
        Some("model name\t: Intel(R) Xeon(R) CPU @ 2.20GHz")
    );
    assert_eq!(first_line_containing(CPUINFO, "flags"), None);
    assert_eq!(first_line_containing("", ""), None);
    assert_eq!(first_line_containing("\n", "").as_deref(), Some(""));
    assert_eq!(first_line_containing("a\r\nb c\r\n", "b").as_deref(), Some("b c"));
    assert_eq!(first_line_containing("a\nb\r", "b").as_deref(), Some("b\r"));
}

#[test]
fn lines_match_the_standard_library() {
    for text in ["", "x", "x\n", "x\r\ny", "\n\nz", "a\rb\nc", "tail\r"] {
        assert_eq!(first_line(text), text.lines().next().unwrap_or(""));
        for needle in ["", "x", "y", "z", "b", "c", "\r", "tail"] {
            let expected = text.lines().find(|l| l.contains(needle)).map(|l| l.to_string());
            assert_eq!(first_line_containing(text, needle), expected, "{text:?} {needle:?}");
        }
    }
}

#[test]
fn cpu_description_prefers_the_brand_string() {
    assert_eq!(cpu_from(Some("Apple M3 Max"), Some(CPUINFO)), "Apple M3 Max");
    assert_eq!(cpu_from(None, Some(CPUINFO)), "Intel(R) Xeon(R) CPU @ 2.20GHz");
    assert_eq!(cpu_from(None, Some("model name without colon\n")), "unknown");
    assert_eq!(cpu_from(None, Some("processor: 0\n")), "unknown");
    assert_eq!(cpu_from(None, None), "unknown");
    assert_eq!(colon_value("a: b: c "), Some("b: c"));
    assert_eq!(colon_value("none"), None);
}

#[test]
fn command_output_is_trimmed() {
    assert_eq!(sysctl_value("  17179869184\n").as_deref(), Some("17179869184"));
    assert_eq!(sysctl_value(" \n\t"), None);
    assert_eq!(version_line("r0vm 3.0.6\nextra\n").as_deref(), Some("r0vm 3.0.6"));
    assert_eq!(version_line("\nsecond line"), None);
    assert_eq!(version_line(""), None);
}

#[test]
fn fields_match_split_whitespace() {
    for text in ["", "  ", "one", " one two ", "MemTotal:       16318360 kB", "a\tb\u{3000}c"] {
        assert_eq!(last_field(text), text.split_whitespace().last());
        assert_eq!(second_field(text), text.split_whitespace().nth(1));
    }
    assert_eq!(version_or_unknown("risc0-r0vm 3.0.6"), "3.0.6");
    assert_eq!(version_or_unknown("   "), "unknown");
}

#[test]
fn mem_total_is_read_in_kilobytes() {
    let meminfo = "MemFree: 1 kB\nMemTotal:       16318360 kB\nMemAvailable: 2 kB\n";
    assert_eq!(mem_total_field("MemTotal: 5 kB\nMemTotal: 7 kB").as_deref(), Some("5"));
    assert_eq!(mem_total_field(meminfo).as_deref(), Some("16318360"));
    assert_eq!(mem_total_field("MemTotal:\n"), None);
    assert_eq!(mem_total_field("nothing here"), None);
}

#[test]
fn host_label_falls_back_to_unknown_host() {
    assert_eq!(host_label_of(Some("  My.Laptop_01 \n")), "my-laptop-01");
    assert_eq!(host_label_of(Some(" \n")), "unknown-host");
    assert_eq!(host_label_of(None), "unknown-host");
}

#[test]
fn tool_version_takes_the_first_candidate_that_answers() {
    let outputs = vec![
        None,
        Some("  \nignored\n".to_string()),
        Some("r0vm 3.0.6\n".to_string()),
        Some("later 9.9\n".to_string()),
    ];
    assert_eq!(tool_version_from(&outputs), "r0vm 3.0.6");
    assert_eq!(tool_version_from(&[None, Some(String::new())]), "unknown");
    assert_eq!(tool_version_from(&[]), "unknown");
}

#[test]
fn tool_candidates_are_tried_in_order() {
    assert_eq!(
        tool_candidates("/home/u", "r0vm"),
        vec![
            "/home/u/.risc0/bin/r0vm".to_string(),
            "/home/u/.cargo/bin/r0vm".to_string(),
            "r0vm".to_string(),
        ]
    );
}
