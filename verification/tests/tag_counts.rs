use crs_exif_cleaner::{
    count_tags_arguments, count_tags_exiftool, count_tags_in_records, strip_metadata_arguments,
    strip_metadata_exiftool, CleanError,
};

fn strings(keys: &[&str]) -> Vec<String> {
    keys.iter().map(|key| key.to_string()).collect()
}

#[test]
fn counts_first_record_without_file_keys() {
    let stdout = br#"[{"SourceFile":"a.png","ImageSize":"10x10","Megapixels":0.0001,"Make":"Apple","Model":"iPhone","UserComment":"Test"}]"#;
    assert_eq!(count_tags_exiftool(true, stdout, "").unwrap(), 3);
}

#[test]
fn counts_only_the_first_record() {
    let stdout = br#"[{"A":1,"B":2},{"A":1,"B":2,"C":3,"D":4}]"#;
    assert_eq!(count_tags_exiftool(true, stdout, "").unwrap(), 2);
}

#[test]
fn no_record_counts_zero() {
    assert_eq!(count_tags_exiftool(true, b"[]", "").unwrap(), 0);
}

#[test]
fn record_with_only_file_keys_counts_zero() {
    let stdout = br#"[{"SourceFile":"a.png","ImageSize":"1x1","Megapixels":0}]"#;
    assert_eq!(count_tags_exiftool(true, stdout, "").unwrap(), 0);
}

#[test]
fn json_with_whitespace_and_nested_values_is_counted() {
    let stdout = b"[\n  {\n    \"SourceFile\": \"x.jpg\",\n    \"GPS\": {\"Lat\": 1},\n    \"Keywords\": [\"a\", \"b\"]\n  }\n]\n";
    assert_eq!(count_tags_exiftool(true, stdout, "").unwrap(), 2);
}

#[test]
fn unreadable_json_is_an_error() {
    match count_tags_exiftool(true, b"not json", "") {
        Err(CleanError::BadJson { cause }) => assert!(!cause.is_empty()),
        _ => panic!("expected a JSON error"),
    }
    assert!(matches!(
        count_tags_exiftool(true, br#"{"Make":"Apple"}"#, ""),
        Err(CleanError::BadJson { .. })
    ));
    assert!(matches!(
        count_tags_exiftool(true, br#"[1, 2]"#, ""),
        Err(CleanError::BadJson { .. })
    ));
}

#[test]
fn failed_listing_reports_trimmed_stderr() {
    match count_tags_exiftool(false, b"[]", "  Error: File not found - x.png \n") {
        Err(CleanError::ReadFailed { stderr }) => assert_eq!(stderr, "Error: File not found - x.png"),
        _ => panic!("expected a read failure"),
    }
}

#[test]
fn counts_parsed_records() {
    let records = vec![strings(&["Make", "SourceFile", "Megapixels", "Model"]), strings(&["X"])];
    assert_eq!(count_tags_in_records(&records), 2);
    assert_eq!(count_tags_in_records(&Vec::new()), 0);
    assert_eq!(count_tags_in_records(&vec![Vec::new()]), 0);
}

#[test]
fn strip_outcome() {
    assert!(strip_metadata_exiftool(true, "ignored").is_ok());
    match strip_metadata_exiftool(false, "\tWarning: read-only\n") {
        Err(CleanError::CleanFailed { stderr }) => assert_eq!(stderr, "Warning: read-only"),
        _ => panic!("expected a clean failure"),
    }
}

#[test]
fn exiftool_arguments() {
    assert_eq!(
        count_tags_arguments(),
        vec!["--File:all", "--ExifToolVersion", "-json", "-s", "-charset", "filename=UTF8"]
    );
    assert_eq!(
        strip_metadata_arguments(),
        vec!["-all=", "-overwrite_original", "-charset", "filename=UTF8", "-P"]
    );
}

#[test]
fn unreadable_json_error_reads_plainly_as_its_context() {
    match count_tags_exiftool(true, b"not json", "") {
        Err(error) => {
            assert_eq!(error.context(), "Could not parse ExifTool JSON output");
            assert!(error.message().starts_with("Could not parse ExifTool JSON output: "));
        }
        Ok(_) => panic!("expected a JSON error"),
    }
}

#[test]
fn unreadable_json_error_carries_the_parser_text() {
    for stdout in [&b"not json"[..], br#"{"Make":"Apple"}"#, b"[1, 2]", b"[{\"A\":1}"] {
        let expected = serde_json::from_slice::<
            Vec<std::collections::BTreeMap<String, serde_json::Value>>,
        >(stdout)
        .unwrap_err()
        .to_string();
        match count_tags_exiftool(true, stdout, "") {
            Err(CleanError::BadJson { cause }) => assert_eq!(cause, expected),
            _ => panic!("expected a JSON error"),
        }
    }
}
