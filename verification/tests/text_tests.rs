use logswise_cli::perf::{OperationContext, Timer};
use logswise_cli::text::{
    date_part, heading_str, is_blank, join_with, lower_str, repeat_str, split_lines, str_eq,
    trim_str, u32_string, usize_string,
};

#[test]
fn lowercasing_is_ascii_only() {
    assert_eq!(lower_str("Nomic-Embed-TEXT"), "nomic-embed-text");
    assert_eq!(lower_str("déjà"), "déjà");
}

#[test]
fn trimming_strips_surrounding_whitespace() {
    assert_eq!(trim_str("  hello world \t\n"), "hello world");
    assert_eq!(trim_str("inner  space"), "inner  space");
    assert_eq!(trim_str("   "), "");
    assert!(is_blank("  \t "));
    assert!(!is_blank(" . "));
}

#[test]
fn line_splitting_matches_line_endings() {
    assert_eq!(split_lines("a\nb"), vec!["a".to_string(), "b".to_string()]);
    assert_eq!(split_lines("a\r\nb\n"), vec!["a".to_string(), "b".to_string()]);
    assert_eq!(
        split_lines("a\n\nb"),
        vec!["a".to_string(), String::new(), "b".to_string()]
    );
    assert!(split_lines("").is_empty());
}

#[test]
fn decimal_rendering_is_exact() {
    assert_eq!(u32_string(0), "0");
    assert_eq!(u32_string(7), "7");
    assert_eq!(u32_string(10), "10");
    assert_eq!(u32_string(4294967295), "4294967295");
    assert_eq!(usize_string(12345), "12345");
}

#[test]
fn joining_and_repeating() {
    let parts = vec!["a".to_string(), "b".to_string(), "c".to_string()];
    assert_eq!(join_with(&parts, ", "), "a, b, c");
    assert_eq!(join_with(&vec!["solo".to_string()], " + "), "solo");
    assert_eq!(join_with(&Vec::new(), ", "), "");
    assert_eq!(repeat_str("ab", 3), "ababab");
    assert_eq!(repeat_str("x", 0), "");
}

#[test]
fn headings_upper_case_and_replace_separators() {
    assert_eq!(heading_str("short-term", '-'), "SHORT TERM");
    assert_eq!(heading_str("project_work", '_'), "PROJECT WORK");
}

#[test]
fn date_part_cuts_at_the_time_marker() {
    assert_eq!(date_part("2025-06-05T12:00:00Z"), "2025-06-05");
    assert_eq!(date_part("unknown time"), "unknown time");
    assert_eq!(date_part("T rest"), "");
}

#[test]
fn string_equality_helper() {
    assert!(str_eq("same", "same"));
    assert!(!str_eq("same", "other"));
    assert!(!str_eq("same", "sam"));
}

#[test]
fn operation_context_formats_errors_with_details() {
    let mut ctx = OperationContext::new("load profile");
    assert_eq!(
        ctx.format_error("file missing"),
        "\u{274c} Failed to load profile: file missing"
    );
    ctx.add_detail("path: ~/.logswise/setup.json");
    ctx.add_detail("run setup first");
    assert_eq!(
        ctx.format_error("file missing"),
        "\u{274c} Failed to load profile: file missing\n   Context:\n   \u{2022} path: ~/.logswise/setup.json\n   \u{2022} run setup first"
    );
}

#[test]
fn timer_carries_its_operation_name() {
    let t = Timer::new("embedding call");
    assert_eq!(t.operation, "embedding call");
    let _elapsed = t.elapsed();
}
