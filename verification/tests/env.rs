use pq_stark_bench::env::hardware_class_from;
use pq_stark_bench::env::host_label_from;
use pq_stark_bench::env::is_ci_from;
use pq_stark_bench::strings::contains_str;
use pq_stark_bench::strings::trim_ws;

#[test]
fn explicit_hardware_class_wins() {
    let c = hardware_class_from(None, "aarch64", "Apple M3 Max", false);
    assert_eq!(c, "local-m3max");
    assert!(hardware_class_from(None, "x86_64", "Some Xeon", true).starts_with("ci-"));
    assert_eq!(hardware_class_from(Some("  cloud-x86-cuda \n"), "x86_64", "Some Xeon", true), "cloud-x86-cuda");
    assert_eq!(hardware_class_from(Some("   "), "x86_64", "Some Xeon", false), "local-other");
}

#[test]
fn ci_class_follows_the_architecture() {
    assert_eq!(hardware_class_from(None, "x86_64", "", true), "ci-x86");
    assert_eq!(hardware_class_from(None, "aarch64", "", true), "ci-arm");
    assert_eq!(hardware_class_from(None, "riscv64", "", true), "ci-riscv64");
}

#[test]
fn ci_detection() {
    assert!(is_ci_from(Some("true"), false));
    assert!(is_ci_from(Some("1"), false));
    assert!(!is_ci_from(Some("yes"), false));
    assert!(!is_ci_from(None, false));
    assert!(is_ci_from(None, true));
}

#[test]
fn host_label_is_filesystem_safe() {
    let h = host_label_from("My_Mac.local");
    assert_eq!(h, "my-mac-local");
    assert!(h.chars().all(|c| c.is_ascii_alphanumeric() || c == '-'));
    assert_eq!(host_label_from("--Box 7--"), "box-7");
    assert_eq!(host_label_from("ünï"), "n");
    assert_eq!(host_label_from("---"), "");
}

#[test]
fn trimming_and_searching_follow_std() {
    for s in ["  a b  ", "\u{3000}x\u{85}", "", "   ", "\tq\r\n"] {
        assert_eq!(trim_ws(s), s.trim());
    }
    assert!(contains_str("Apple M3 Max", "M3 Max"));
    assert!(!contains_str("Apple M3", "M3 Max"));
    assert!(contains_str("abc", ""));
}
