use open_digger_cli::document::{fetch_result, filter_data, Document};
use open_digger_cli::metric::Metric;
use open_digger_cli::CliError;

#[test]
fn bus_factor_of_one_month() {
    let body = "{\"2023-01\": 4.2, \"2023-02\": 5.0}";
    let result = fetch_result(&Metric::BusFactor, body, Some("2023-01")).unwrap();
    assert_eq!(result, (Metric::BusFactor, String::from("4.2")));
}

#[test]
fn no_month_gives_the_whole_document() {
    let body = "{\"2023-01\":4.2,\"2023-02\":5.0}";
    assert_eq!(filter_data(body, None).unwrap(), body);
}

#[test]
fn whole_document_is_serialized_compactly() {
    let body = " { \"2023-02\" : [1, 2] ,\n \"2023-01\" : { \"a\" : null } } ";
    assert_eq!(
        filter_data(body, None).unwrap(),
        "{\"2023-01\":{\"a\":null},\"2023-02\":[1,2]}"
    );
}

#[test]
fn absent_month_gives_null() {
    let body = "{\"2023-01\": 4.2, \"2023-02\": 5.0}";
    assert_eq!(filter_data(body, Some("2024-12")).unwrap(), "NULL");
    assert_eq!(filter_data("{}", Some("2023-01")).unwrap(), "NULL");
}

#[test]
fn month_of_a_document_that_is_no_object_gives_null() {
    assert_eq!(filter_data("[1, 2, 3]", Some("2023-01")).unwrap(), "NULL");
    assert_eq!(filter_data("42", Some("2023-01")).unwrap(), "NULL");
    assert_eq!(filter_data("[1, 2, 3]", None).unwrap(), "[1,2,3]");
}

#[test]
fn member_is_serialized_as_json() {
    let body = "{\"2023-01\": \"text\", \"2023-02\": {\"b\": [true, false]}, \"2023-03\": null}";
    assert_eq!(filter_data(body, Some("2023-01")).unwrap(), "\"text\"");
    assert_eq!(
        filter_data(body, Some("2023-02")).unwrap(),
        "{\"b\":[true,false]}"
    );
    assert_eq!(filter_data(body, Some("2023-03")).unwrap(), "null");
}

#[test]
fn body_that_is_no_json_is_a_parse_failure() {
    assert!(matches!(
        filter_data("not json", None),
        Err(CliError::Sled(_))
    ));
    assert!(matches!(
        filter_data("{\"2023-01\": ", Some("2023-01")),
        Err(CliError::Sled(_))
    ));
    assert!(matches!(
        fetch_result(&Metric::Stars, "", None),
        Err(CliError::Sled(_))
    ));
    assert!(matches!(Document::parse("{"), Err(CliError::Sled(_))));
}

#[test]
fn select_on_a_document_written_by_hand() {
    let document = Document::new(
        String::from("{\"2023-01\":4.2,\"2023-02\":5.0}"),
        vec![
            (String::from("2023-01"), String::from("4.2")),
            (String::from("2023-02"), String::from("5.0")),
        ],
    );
    assert_eq!(document.select(None), "{\"2023-01\":4.2,\"2023-02\":5.0}");
    assert_eq!(document.select(Some("2023-01")), "4.2");
    assert_eq!(document.select(Some("2023-02")), "5.0");
    assert_eq!(document.select(Some("2023-03")), "NULL");
    assert_eq!(document.select(Some("")), "NULL");
}

#[test]
fn select_takes_the_first_member_of_a_key() {
    let document = Document::new(
        String::from("{}"),
        vec![
            (String::from("k"), String::from("1")),
            (String::from("k"), String::from("2")),
        ],
    );
    assert_eq!(document.select(Some("k")), "1");
}

#[test]
fn parsed_document_agrees_with_filter() {
    let body = "{\"2023-02\": 5.0, \"2023-01\": 4.2}";
    let document = Document::parse(body).unwrap();
    assert_eq!(document.select(None), "{\"2023-01\":4.2,\"2023-02\":5.0}");
    assert_eq!(document.select(Some("2023-02")), "5.0");
    assert_eq!(document.select(Some("2023")), "NULL");
}
