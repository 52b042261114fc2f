use std::collections::HashSet;

use open_digger_cli::download::{download_file_name, Decision, DownloadTarget};
use open_digger_cli::metric::Metric;
use open_digger_cli::text::push_decimal;
use open_digger_cli::CliError;

#[test]
fn file_name_with_a_month() {
    assert_eq!(
        download_file_name("X-lab2017/open-digger", &Metric::BusFactor, 0, Some("2023-01")),
        "X-lab2017/open-digger-bus_factor_0-2023-01.json"
    );
}

#[test]
fn file_name_without_a_month() {
    assert_eq!(
        download_file_name("a/b", &Metric::Stars, 0, None),
        "a/b-stars_0-alltime.json"
    );
}

#[test]
fn file_name_carries_the_tag_in_decimal() {
    assert_eq!(
        download_file_name("a/b", &Metric::Stars, 7, None),
        "a/b-stars_7-alltime.json"
    );
    assert_eq!(
        download_file_name("a/b", &Metric::Stars, 10, None),
        "a/b-stars_10-alltime.json"
    );
    assert_eq!(
        download_file_name("a/b", &Metric::Stars, 1234567890, Some("2020-02")),
        "a/b-stars_1234567890-2020-02.json"
    );
    assert_eq!(
        download_file_name("a/b", &Metric::Stars, u64::MAX, None),
        "a/b-stars_18446744073709551615-alltime.json"
    );
}

#[test]
fn decimal_numerals() {
    for n in [0u64, 1, 9, 10, 11, 99, 100, 101, 4096, 65535, u64::MAX - 1, u64::MAX] {
        let mut out = String::from("n=");
        push_decimal(&mut out, n);
        assert_eq!(out, format!("n={}", n));
    }
}

#[test]
fn search_starts_at_tag_zero() {
    let target = DownloadTarget::new("a/b", &Metric::IssueAge, Some("2023-05"));
    assert_eq!(target.tag(), 0);
    assert_eq!(target.file_name(), "a/b-issue_age_0-2023-05.json");
}

#[test]
fn vacant_path_is_written_to() {
    let mut target = DownloadTarget::new("a/b", &Metric::IssueAge, None);
    assert!(matches!(target.decide(true, false), Decision::Write));
    assert_eq!(target.tag(), 0);
    assert_eq!(target.file_name(), "a/b-issue_age_0-alltime.json");
}

#[test]
fn occupied_path_raises_the_tag() {
    let mut target = DownloadTarget::new("a/b", &Metric::IssueAge, None);
    assert!(matches!(target.decide(true, true), Decision::Retry));
    assert_eq!(target.tag(), 1);
    assert_eq!(target.file_name(), "a/b-issue_age_1-alltime.json");
    assert!(matches!(target.decide(true, true), Decision::Retry));
    assert_eq!(target.tag(), 2);
    assert!(matches!(target.decide(true, false), Decision::Write));
    assert_eq!(target.file_name(), "a/b-issue_age_2-alltime.json");
}

#[test]
fn relative_path_is_rejected() {
    let mut target = DownloadTarget::new("a/b", &Metric::IssueAge, None);
    for occupied in [false, true] {
        match target.decide(false, occupied) {
            Decision::Reject(CliError::String(message)) => {
                assert_eq!(message, "invalid download path")
            }
            other => panic!("unexpected decision: {:?}", other),
        }
        assert_eq!(target.tag(), 0);
    }
}

fn write_once(
    existing: &mut HashSet<String>,
    repo: &str,
    metric: &Metric,
    month: Option<&str>,
) -> String {
    let mut target = DownloadTarget::new(repo, metric, month);
    loop {
        let name = target.file_name();
        match target.decide(true, existing.contains(&name)) {
            Decision::Write => {
                assert!(existing.insert(name.clone()));
                return name;
            }
            Decision::Retry => (),
            Decision::Reject(error) => panic!("unexpected rejection: {:?}", error),
        }
    }
}

#[test]
fn writing_twice_gives_two_files_with_rising_tags() {
    let mut existing = HashSet::new();
    let first = write_once(&mut existing, "a/b", &Metric::BusFactor, Some("2023-01"));
    let second = write_once(&mut existing, "a/b", &Metric::BusFactor, Some("2023-01"));
    let third = write_once(&mut existing, "a/b", &Metric::BusFactor, Some("2023-01"));
    assert_eq!(first, "a/b-bus_factor_0-2023-01.json");
    assert_eq!(second, "a/b-bus_factor_1-2023-01.json");
    assert_eq!(third, "a/b-bus_factor_2-2023-01.json");
    assert_eq!(existing.len(), 3);
}

#[test]
fn other_metric_or_month_starts_at_zero_again() {
    let mut existing = HashSet::new();
    write_once(&mut existing, "a/b", &Metric::BusFactor, Some("2023-01"));
    assert_eq!(
        write_once(&mut existing, "a/b", &Metric::Stars, Some("2023-01")),
        "a/b-stars_0-2023-01.json"
    );
    assert_eq!(
        write_once(&mut existing, "a/b", &Metric::BusFactor, None),
        "a/b-bus_factor_0-alltime.json"
    );
}

#[test]
fn different_tags_give_different_names() {
    let mut names = HashSet::new();
    for tag in 0..200u64 {
        assert!(names.insert(download_file_name("a/b", &Metric::Stars, tag, Some("1"))));
    }
}
