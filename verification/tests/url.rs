use open_digger_cli::metric::Metric;
use open_digger_cli::url_builder::{UrlBuilder, ROOT};
use open_digger_cli::CliError;

#[test]
fn url_is_root_repo_slash_name_and_extension() {
    let builder = UrlBuilder::new("X-lab2017/open-digger");
    for metric in Metric::valid_metrics() {
        let expected = format!("{}{}/{}.json", ROOT, "X-lab2017/open-digger", metric.to_string());
        assert_eq!(builder.build_url_with_metric(&metric), expected);
    }
}

#[test]
fn url_of_a_known_metric() {
    let builder = UrlBuilder::new("X-lab2017/open-digger");
    assert_eq!(
        builder.build_url_with_metric(&Metric::IssueResponseTime),
        "https://oss.x-lab.info/open-digger/github/X-lab2017/open-digger/issue_response_time.json"
    );
}

#[test]
fn repository_identifier_is_not_interpreted() {
    let builder = UrlBuilder::new("no slash here?");
    assert_eq!(
        builder.build_url_with_metric(&Metric::Stars),
        "https://oss.x-lab.info/open-digger/github/no slash here?/stars.json"
    );
    let empty = UrlBuilder::new("");
    assert_eq!(
        empty.build_url_with_metric(&Metric::Stars),
        "https://oss.x-lab.info/open-digger/github//stars.json"
    );
}

#[test]
fn url_without_a_metric_is_refused() {
    let builder = UrlBuilder::new("test/test");
    match builder.build_url(None) {
        Err(CliError::String(message)) => assert_eq!(message, "metric required"),
        other => panic!("unexpected outcome: {:?}", other),
    }
}

#[test]
fn url_with_a_metric_is_built() {
    let builder = UrlBuilder::new("test/test");
    assert_eq!(
        builder.build_url(Some(&Metric::BusFactor)).unwrap(),
        "https://oss.x-lab.info/open-digger/github/test/test/bus_factor.json"
    );
}
