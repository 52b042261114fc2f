use open_digger_cli::dispatch::{plan_requests, requested_metrics, Collector, FetchAction};
use open_digger_cli::metric::Metric;
use open_digger_cli::CliError;

#[test]
fn one_metric_is_requested_alone() {
    assert_eq!(
        requested_metrics(Some(&Metric::BusFactor)),
        vec![Metric::BusFactor]
    );
}

#[test]
fn no_metric_requests_the_catalog() {
    assert_eq!(requested_metrics(None), Metric::valid_metrics());
    assert_eq!(requested_metrics(None).len(), 25);
}

#[test]
fn one_request_per_metric_in_order() {
    let metrics = vec![Metric::Stars, Metric::BusFactor, Metric::IssueAge];
    let requests = plan_requests("a/b", &metrics);
    assert_eq!(requests.len(), 3);
    assert_eq!(requests[0].metric, Metric::Stars);
    assert_eq!(
        requests[0].url,
        "https://oss.x-lab.info/open-digger/github/a/b/stars.json"
    );
    assert_eq!(requests[1].metric, Metric::BusFactor);
    assert_eq!(
        requests[1].url,
        "https://oss.x-lab.info/open-digger/github/a/b/bus_factor.json"
    );
    assert_eq!(requests[2].metric, Metric::IssueAge);
    assert_eq!(
        requests[2].url,
        "https://oss.x-lab.info/open-digger/github/a/b/issue_age.json"
    );
    assert!(plan_requests("a/b", &Vec::new()).is_empty());
}

#[test]
fn results_come_out_in_request_order_when_they_arrive_reversed() {
    let metrics = Metric::valid_metrics();
    let count = metrics.len();
    let mut collector = Collector::new(metrics.clone());
    let mut delivered = None;
    for index in (0..count).rev() {
        let action = collector.step(index, Ok(format!("data {}", index)));
        if index > 0 {
            assert!(matches!(action, FetchAction::Wait));
        } else {
            match action {
                FetchAction::Deliver(results) => delivered = Some(results),
                other => panic!("unexpected action: {:?}", other),
            }
        }
    }
    let results = delivered.unwrap();
    assert_eq!(results.len(), count);
    for (index, (metric, data)) in results.iter().enumerate() {
        assert_eq!(*metric, metrics[index]);
        assert_eq!(*data, format!("data {}", index));
    }
}

#[test]
fn results_come_out_in_request_order_when_they_arrive_shuffled() {
    let metrics = vec![Metric::Stars, Metric::BusFactor, Metric::IssueAge, Metric::IssuesNew];
    let mut collector = Collector::new(metrics);
    assert!(matches!(collector.step(2, Ok(String::from("c"))), FetchAction::Wait));
    assert!(matches!(collector.step(0, Ok(String::from("a"))), FetchAction::Wait));
    assert!(matches!(collector.step(3, Ok(String::from("d"))), FetchAction::Wait));
    match collector.step(1, Ok(String::from("b"))) {
        FetchAction::Deliver(results) => assert_eq!(
            results,
            vec![
                (Metric::Stars, String::from("a")),
                (Metric::BusFactor, String::from("b")),
                (Metric::IssueAge, String::from("c")),
                (Metric::IssuesNew, String::from("d")),
            ]
        ),
        other => panic!("unexpected action: {:?}", other),
    }
}

#[test]
fn one_failure_aborts_the_query() {
    let mut collector = Collector::new(vec![Metric::Stars, Metric::BusFactor]);
    assert!(matches!(collector.step(1, Ok(String::from("b"))), FetchAction::Wait));
    match collector.step(0, Err(CliError::String(String::from("boom")))) {
        FetchAction::Abort(CliError::String(message)) => assert_eq!(message, "boom"),
        other => panic!("unexpected action: {:?}", other),
    }
    assert!(!collector.is_complete());
    assert!(collector.results().is_none());
}

#[test]
fn a_result_for_no_request_or_a_second_one_is_dropped() {
    let mut collector = Collector::new(vec![Metric::Stars, Metric::BusFactor]);
    assert!(!collector.accept(2, String::from("x")));
    assert!(collector.accept(0, String::from("a")));
    assert!(!collector.accept(0, String::from("other")));
    assert!(!collector.is_complete());
    assert!(collector.accept(1, String::from("b")));
    assert!(collector.is_complete());
    assert_eq!(
        collector.results().unwrap(),
        vec![
            (Metric::Stars, String::from("a")),
            (Metric::BusFactor, String::from("b")),
        ]
    );
}

#[test]
fn a_query_for_nothing_is_complete_at_once() {
    let collector = Collector::new(Vec::new());
    assert!(collector.is_complete());
    assert_eq!(collector.results().unwrap(), Vec::new());
}
