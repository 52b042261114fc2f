use std::str::FromStr;

use open_digger_cli::metric::Metric;
use open_digger_cli::text::camel_to_snake_case;
use open_digger_cli::url_builder::UrlBuilder;
use open_digger_cli::CliError;

#[test]
fn test_enum() {
    let metric = Metric::ActiveDatesAndTimes;
    assert_eq!(metric.to_string().as_str(), "active_dates_and_times");
}

#[test]
fn test_url_builder() {
    let repo_name = "test/test";
    let url_builder = UrlBuilder::new(repo_name);
    let url = url_builder.build_url_with_metric(&Metric::BusFactor);
    assert_eq!(
        url.as_str(),
        "https://oss.x-lab.info/open-digger/github/test/test/bus_factor.json"
    );
}

#[test]
fn canonical_names_of_the_whole_catalog() {
    let expected = vec![
        "active_dates_and_times",
        "stars",
        "technical_fork",
        "participants",
        "new_contributors",
        "new_contributors_detail",
        "inactive_contributors",
        "bus_factor",
        "bus_factor_detail",
        "issues_new",
        "issues_closed",
        "issue_comments",
        "issue_response_time",
        "issue_resolution_duration",
        "issue_age",
        "code_change_lines_add",
        "code_change_lines_remove",
        "code_change_lines_sum",
        "change_requests",
        "change_requests_accepted",
        "change_requests_reviews",
        "change_request_response_time",
        "change_request_resolution_duration",
        "change_request_age",
        "activity_details",
    ];
    let metrics = Metric::valid_metrics();
    assert_eq!(metrics.len(), expected.len());
    assert_eq!(metrics.len(), 25);
    for (metric, name) in metrics.iter().zip(expected.iter()) {
        assert_eq!(metric.to_string().as_str(), *name);
    }
}

#[test]
fn canonical_names_are_lowercase_words_joined_by_underscores() {
    for metric in Metric::valid_metrics() {
        let name = metric.to_string();
        assert!(!name.is_empty());
        assert!(name.chars().all(|c| c.is_ascii_lowercase() || c == '_'));
        assert!(!name.starts_with('_'));
        assert!(!name.ends_with('_'));
        assert!(!name.contains("__"));
        assert_eq!(name.replace('_', ""), metric.name().to_lowercase());
    }
}

#[test]
fn catalog_starts_and_ends_as_declared() {
    let metrics = Metric::valid_metrics();
    assert_eq!(metrics[0], Metric::ActiveDatesAndTimes);
    assert_eq!(metrics[1], Metric::Stars);
    assert_eq!(metrics[7], Metric::BusFactor);
    assert_eq!(metrics[24], Metric::ActivityDetails);
}

#[test]
fn declared_names_are_camel_case() {
    assert_eq!(Metric::BusFactor.name(), "BusFactor");
    assert_eq!(Metric::Stars.name(), "Stars");
    assert_eq!(
        Metric::ChangeRequestResolutionDuration.name(),
        "ChangeRequestResolutionDuration"
    );
}

#[test]
fn camel_to_snake_case_on_plain_names() {
    assert_eq!(camel_to_snake_case("BusFactor"), "bus_factor");
    assert_eq!(camel_to_snake_case("Stars"), "stars");
    assert_eq!(camel_to_snake_case("stars"), "stars");
    assert_eq!(camel_to_snake_case(""), "");
    assert_eq!(camel_to_snake_case("A"), "a");
    assert_eq!(camel_to_snake_case("ABC"), "a_b_c");
    assert_eq!(camel_to_snake_case("issue2New"), "issue2_new");
    assert_eq!(camel_to_snake_case("already_snake"), "already_snake");
}

#[test]
fn camel_to_snake_case_beyond_ascii() {
    assert_eq!(camel_to_snake_case("ÉcoleÀParis"), "école_à_paris");
    assert_eq!(camel_to_snake_case("ΔeltaΣum"), "δelta_σum");
}

#[test]
fn from_str_ignores_letter_case() {
    assert_eq!(Metric::from_str("BusFactor").unwrap(), Metric::BusFactor);
    assert_eq!(Metric::from_str("busfactor").unwrap(), Metric::BusFactor);
    assert_eq!(Metric::from_str("BUSFACTOR").unwrap(), Metric::BusFactor);
    assert_eq!(Metric::from_str("stars").unwrap(), Metric::Stars);
    assert_eq!(
        Metric::from_str("activitydetails").unwrap(),
        Metric::ActivityDetails
    );
}

#[test]
fn from_str_finds_every_metric_by_its_declared_name() {
    for metric in Metric::valid_metrics() {
        assert_eq!(Metric::from_str(metric.name()).unwrap(), metric);
        assert_eq!(
            Metric::from_str(&metric.name().to_uppercase()).unwrap(),
            metric
        );
    }
}

#[test]
fn from_str_rejects_what_is_no_metric() {
    match Metric::from_str("bus_factor") {
        Err(CliError::String(message)) => assert_eq!(message, "invalid variant: bus_factor"),
        other => panic!("unexpected outcome: {:?}", other),
    }
    match Metric::from_str("") {
        Err(CliError::String(message)) => assert_eq!(message, "invalid variant: "),
        other => panic!("unexpected outcome: {:?}", other),
    }
    assert!(Metric::from_str("BusFactors").is_err());
}

#[test]
fn parse_through_str() {
    assert_eq!("issuesnew".parse::<Metric>().unwrap(), Metric::IssuesNew);
    assert!(matches!(
        "nothing".parse::<Metric>(),
        Err(CliError::String(_))
    ));
}
