use open_digger_cli::metric::Metric;
use open_digger_cli::table::{
    is_drawable, is_free_of_escape, render_rows, render_table, table_rows,
};

fn cells(row: &[&str]) -> Vec<String> {
    row.iter().map(|cell| String::from(*cell)).collect()
}

#[test]
fn rows_with_a_month() {
    let results = vec![
        (Metric::BusFactor, String::from("4.2")),
        (Metric::Stars, String::from("17")),
    ];
    assert_eq!(
        table_rows(&results, Some("2023-01")),
        vec![
            cells(&["Month", "Metric", "Data"]),
            cells(&["2023-01", "bus_factor", "4.2"]),
            cells(&["2023-01", "stars", "17"]),
        ]
    );
}

#[test]
fn rows_without_a_month() {
    let results = vec![(Metric::IssuesNew, String::from("{\"2023-01\":3}"))];
    assert_eq!(
        table_rows(&results, None),
        vec![
            cells(&["Month", "Metric", "Data"]),
            cells(&["ALL MONTH", "issues_new", "{\"2023-01\":3}"]),
        ]
    );
}

#[test]
fn rows_of_no_result_are_the_header_alone() {
    assert_eq!(
        table_rows(&Vec::new(), None),
        vec![cells(&["Month", "Metric", "Data"])]
    );
}

#[test]
fn table_is_drawn_with_box_characters() {
    let results = vec![(Metric::BusFactor, String::from("4.2"))];
    let expected = "\
┌─────────┬────────────┬──────┐
│ Month   │ Metric     │ Data │
├─────────┼────────────┼──────┤
│ 2023-01 │ bus_factor │ 4.2  │
└─────────┴────────────┴──────┘
";
    assert_eq!(render_table(&results, Some("2023-01")), expected);
}

#[test]
fn table_without_a_month_says_all_month_in_every_row() {
    let results = vec![
        (Metric::Stars, String::from("1")),
        (Metric::IssueAge, String::from("2")),
    ];
    let expected = "\
┌───────────┬───────────┬──────┐
│ Month     │ Metric    │ Data │
├───────────┼───────────┼──────┤
│ ALL MONTH │ stars     │ 1    │
├───────────┼───────────┼──────┤
│ ALL MONTH │ issue_age │ 2    │
└───────────┴───────────┴──────┘
";
    assert_eq!(render_table(&results, None), expected);
}

#[test]
fn rendering_rows_agrees_with_rendering_results() {
    let results = vec![(Metric::Stars, String::from("1"))];
    let rows = table_rows(&results, Some("2020-10"));
    assert_eq!(render_rows(&rows), render_table(&results, Some("2020-10")));
    assert_ne!(render_rows(&rows), "");
}

#[test]
fn cell_of_several_lines_is_drawn_line_by_line() {
    let rows = vec![
        cells(&["Month", "Metric", "Data"]),
        cells(&["m", "stars", "a\nbb"]),
    ];
    assert!(is_drawable(&rows));
    let expected = "\
┌───────┬────────┬──────┐
│ Month │ Metric │ Data │
├───────┼────────┼──────┤
│ m     │ stars  │ a    │
│       │        │ bb   │
└───────┴────────┴──────┘
";
    assert_eq!(render_rows(&rows), expected);
}

#[test]
fn line_end_at_the_end_of_a_cell_is_not_drawn() {
    let with = vec![cells(&["4.2\n", "x\r\n"])];
    let without = vec![cells(&["4.2", "x"])];
    assert_eq!(render_rows(&with), render_rows(&without));
    assert_eq!(render_rows(&without), "┌─────┬───┐\n│ 4.2 │ x │\n└─────┴───┘\n");
}

#[test]
fn text_with_an_escape_character_is_told_apart() {
    assert!(is_free_of_escape(""));
    assert!(is_free_of_escape("2023-01"));
    assert!(is_free_of_escape("[31m"));
    assert!(!is_free_of_escape("\u{1b}"));
    assert!(!is_free_of_escape("\u{1b}[31mred\u{1b}[0m"));
    assert!(!is_free_of_escape("2023\u{1b}"));
}

#[test]
fn rows_with_an_escape_character_are_not_drawable() {
    assert!(is_drawable(&Vec::new()));
    assert!(is_drawable(&vec![cells(&["Month", "Metric", "Data"])]));
    assert!(!is_drawable(&vec![
        cells(&["Month", "Metric", "Data"]),
        cells(&["ok", "stars", "\u{1b}[\u{644}\u{627}\u{644}\u{627}"]),
    ]));
    let results = vec![(Metric::Stars, String::from("1"))];
    assert!(is_drawable(&table_rows(&results, Some("2023-01"))));
    assert!(!is_drawable(&table_rows(&results, Some("\u{1b}[1m2023-01"))));
}
