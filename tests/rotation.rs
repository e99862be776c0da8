use logger_rust::log_file::rotation_target;
use logger_rust::log_rotator::{
    decimal_string, next_rotated_name, next_rotation_index, rotated_file_name, should_rotate,
    trim_log,
};
use logger_rust::{FileMeta, LogRotatorConfig};

fn policy(max_size: u64, max_time_ms: u64) -> LogRotatorConfig {
    LogRotatorConfig::new("/var/log".to_string(), max_size, max_time_ms)
}

#[test]
fn policy_keeps_its_fields() {
    let p = policy(5 * 1024 * 1024, 2000);
    assert_eq!(p.log_path, "/var/log");
    assert_eq!(p.max_size, 5242880);
    assert_eq!(p.max_time_ms, 2000);
}

#[test]
fn size_over_limit_rotates() {
    let p = policy(100, 60_000);
    assert!(should_rotate(&FileMeta { size: 101, age_ms: Some(0) }, &p));
    assert!(!should_rotate(&FileMeta { size: 100, age_ms: Some(0) }, &p));
}

#[test]
fn age_over_limit_rotates_under_size() {
    let p = policy(100, 60_000);
    assert!(should_rotate(&FileMeta { size: 1, age_ms: Some(60_001) }, &p));
    assert!(!should_rotate(&FileMeta { size: 1, age_ms: Some(60_000) }, &p));
    assert!(!should_rotate(&FileMeta { size: 1, age_ms: None }, &p));
}

#[test]
fn trims_trailing_log_suffixes() {
    assert_eq!(trim_log("2024-01-01.log"), "2024-01-01");
    assert_eq!(trim_log("a.log.log"), "a");
    assert_eq!(trim_log("plain"), "plain");
    assert_eq!(trim_log(".log"), "");
    assert_eq!(trim_log("log"), "log");
}

#[test]
fn renders_decimal() {
    assert_eq!(decimal_string(0), "0");
    assert_eq!(decimal_string(7), "7");
    assert_eq!(decimal_string(10), "10");
    assert_eq!(decimal_string(1234), "1234");
}

#[test]
fn rotated_names() {
    assert_eq!(rotated_file_name("logs/2024-01-01.log", 1), "logs/2024-01-01_rot-1.log");
    assert_eq!(rotated_file_name("2024-01-01.log", 12), "2024-01-01_rot-12.log");
}

#[test]
fn first_rotation_is_rot_one() {
    let existing = vec!["2024-01-01.log".to_string()];
    assert_eq!(next_rotation_index("2024-01-01.log", &existing), 1);
    assert_eq!(next_rotated_name("2024-01-01.log", &existing), "2024-01-01_rot-1.log");
    assert_eq!(next_rotated_name("x.log", &Vec::new()), "x_rot-1.log");
}

#[test]
fn second_rotation_is_rot_two() {
    let mut existing = vec!["d/2024-01-01.log".to_string()];
    let first = next_rotated_name("d/2024-01-01.log", &existing);
    assert_eq!(first, "d/2024-01-01_rot-1.log");
    existing.push(first);
    let second = next_rotated_name("d/2024-01-01.log", &existing);
    assert_eq!(second, "d/2024-01-01_rot-2.log");
}

#[test]
fn rotation_fills_the_first_gap() {
    let existing = vec![
        "a_rot-1.log".to_string(),
        "a_rot-3.log".to_string(),
        "b_rot-2.log".to_string(),
    ];
    assert_eq!(next_rotation_index("a.log", &existing), 2);
    assert_eq!(next_rotated_name("b.log", &existing), "b_rot-1.log");
}

#[test]
fn rotation_target_without_policy_is_none() {
    let meta = Some(FileMeta { size: u64::MAX, age_ms: Some(u64::MAX) });
    assert_eq!(rotation_target(&None, "a.log", &meta, &Vec::new()), None);
}

#[test]
fn rotation_target_without_metadata_is_none() {
    assert_eq!(rotation_target(&Some(policy(1, 1)), "a.log", &None, &Vec::new()), None);
}

#[test]
fn rotation_target_for_oversized_file() {
    let meta = Some(FileMeta { size: 11, age_ms: Some(5) });
    let existing = vec!["logs/a.log".to_string(), "logs/a_rot-1.log".to_string()];
    assert_eq!(
        rotation_target(&Some(policy(10, 1000)), "logs/a.log", &meta, &existing),
        Some("logs/a_rot-2.log".to_string())
    );
    let small = Some(FileMeta { size: 10, age_ms: Some(5) });
    assert_eq!(rotation_target(&Some(policy(10, 1000)), "logs/a.log", &small, &existing), None);
}

#[test]
fn rotation_target_for_old_file() {
    let meta = Some(FileMeta { size: 0, age_ms: Some(3000) });
    assert_eq!(
        rotation_target(&Some(policy(10, 2000)), "a.log", &meta, &Vec::new()),
        Some("a_rot-1.log".to_string())
    );
}
