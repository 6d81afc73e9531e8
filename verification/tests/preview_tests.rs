use repo_sweeper::numfmt::format_u64;
use repo_sweeper::preview::{preview_lines, sample_positions, spaces};

fn items(names: &[&str]) -> Vec<String> {
    names.iter().map(|s| s.to_string()).collect()
}

#[test]
fn decimal_rendering_is_exact() {
    assert_eq!(format_u64(0), "0");
    assert_eq!(format_u64(9), "9");
    assert_eq!(format_u64(10), "10");
    assert_eq!(format_u64(105), "105");
    assert_eq!(format_u64(12345), "12345");
    assert_eq!(format_u64(u64::MAX), "18446744073709551615");
}

#[test]
fn spaces_builds_the_indent() {
    assert_eq!(spaces(0), "");
    assert_eq!(spaces(1), " ");
    assert_eq!(spaces(4), "    ");
}

#[test]
fn short_list_is_shown_whole_in_order_with_no_marker() {
    let findings = items(&["a", "b", "c"]);
    let lines = preview_lines(&findings, 5, 2, 42);
    assert_eq!(lines, vec!["  a".to_string(), "  b".to_string(), "  c".to_string()]);
}

#[test]
fn list_at_the_cap_has_no_marker() {
    let findings = items(&["a", "b", "c"]);
    let lines = preview_lines(&findings, 3, 0, 42);
    assert_eq!(lines, vec!["a".to_string(), "b".to_string(), "c".to_string()]);
}

#[test]
fn long_list_shows_exactly_the_cap_plus_one_marker() {
    let findings = items(&["a", "b", "c", "d", "e", "f", "g"]);
    let cap = 5;
    let lines = preview_lines(&findings, cap, 2, 42);
    assert_eq!(lines.len(), cap + 1);
    for line in &lines[..cap] {
        assert!(line.starts_with("  "));
        let shown = &line[2..];
        assert!(findings.iter().any(|f| f == shown), "unexpected line {:?}", line);
    }
    assert_eq!(lines[cap], "  ... 2 more");
    let mut shown: Vec<&str> = lines[..cap].iter().map(|l| &l[2..]).collect();
    shown.sort();
    shown.dedup();
    assert_eq!(shown.len(), cap, "sampled findings must be distinct");
}

#[test]
fn marker_counts_the_hidden_findings() {
    let findings = items(&["a", "b", "c", "d", "e", "f", "g", "h", "i"]);
    let lines = preview_lines(&findings, 2, 0, 7);
    assert_eq!(lines.len(), 3);
    assert_eq!(lines[2], "... 7 more");
}

#[test]
fn fixed_seed_gives_a_reproducible_preview() {
    let findings = items(&["a", "b", "c", "d", "e", "f", "g"]);
    let first = preview_lines(&findings, 3, 0, 1234);
    let second = preview_lines(&findings, 3, 0, 1234);
    assert_eq!(first, second);
}

#[test]
fn sample_positions_are_distinct_and_in_range() {
    let sample = sample_positions(10, 6, 99);
    assert_eq!(sample.len(), 6);
    for &p in &sample {
        assert!(p < 10);
    }
    let mut sorted = sample.clone();
    sorted.sort();
    sorted.dedup();
    assert_eq!(sorted.len(), 6);
}

#[test]
fn sample_of_the_whole_range_is_a_permutation() {
    let mut sample = sample_positions(5, 5, 3);
    sample.sort();
    assert_eq!(sample, vec![0, 1, 2, 3, 4]);
}
