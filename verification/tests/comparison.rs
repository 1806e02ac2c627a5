use lib::comparison::{artifact_candidate, csv_field, last_csv_row, CsvError};

#[test]
fn parses_flat_metrics_without_external_csv_dependency() {
    let row = last_csv_row("a,b\n1.5,2\n").unwrap();
    assert_eq!(csv_field(&row, "a").as_deref(), Some("1.5"));
    assert_eq!(csv_field(&row, "b").as_deref(), Some("2"));
    assert_eq!(csv_field(&row, "c"), None);
}

#[test]
fn last_nonblank_row_wins_and_shapes_must_agree() {
    let row = last_csv_row("step,loss\r\n1,0.5\r\n2,0.25\r\n   \n").unwrap();
    assert_eq!(row, vec![("step".to_owned(), "2".to_owned()), ("loss".to_owned(), "0.25".to_owned())]);
    assert_eq!(last_csv_row(""), Err(CsvError::NoHeader));
    assert_eq!(last_csv_row("a,b\n\n  \n"), Err(CsvError::NoDataRows));
    assert_eq!(last_csv_row("a,b\n1\n"), Err(CsvError::LengthMismatch));
    let dup = last_csv_row("x,x\n1,2").unwrap();
    assert_eq!(csv_field(&dup, "x").as_deref(), Some("2"));
}

#[test]
fn run_artifacts_are_found_by_prefix_and_extension() {
    assert!(artifact_candidate("runs/titan_image_metrics_v8_a.csv", "titan_image_metrics_v8", "csv"));
    assert!(!artifact_candidate("runs/titan_image_metrics_v8_a.CSV", "titan_image_metrics_v8", "csv"));
    assert!(!artifact_candidate("runs/other.csv", "titan_image_metrics_v8", "csv"));
}
