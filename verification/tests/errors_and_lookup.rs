use crs_exif_cleaner::{
    exiftool_candidates, find_exiftool, first_existing, CleanError, ExiftoolCandidate,
    ExiftoolLocation,
};

fn all_errors() -> Vec<CleanError> {
    vec![
        CleanError::NotAFile,
        CleanError::ExiftoolNotFound,
        CleanError::CouldNotRun {
            program: "/opt/exiftool".to_string(),
            cause: "No such file or directory (os error 2)".to_string(),
        },
        CleanError::ReadFailed { stderr: "bad file".to_string() },
        CleanError::CleanFailed { stderr: "locked".to_string() },
        CleanError::BadJson { cause: "expected value at line 1 column 1".to_string() },
    ]
}

#[test]
fn error_messages() {
    let messages: Vec<String> = all_errors().iter().map(|error| error.message()).collect();
    assert_eq!(
        messages,
        vec![
            "Only individual files are supported",
            "ExifTool not found. Expected resources/exiftool/exiftool next to the app.",
            "Could not run /opt/exiftool: No such file or directory (os error 2)",
            "ExifTool could not read metadata: bad file",
            "ExifTool could not clean metadata: locked",
            "Could not parse ExifTool JSON output: expected value at line 1 column 1",
        ]
    );
}

#[test]
fn error_contexts() {
    let contexts: Vec<String> = all_errors().iter().map(|error| error.context()).collect();
    assert_eq!(
        contexts,
        vec![
            "Only individual files are supported",
            "ExifTool not found. Expected resources/exiftool/exiftool next to the app.",
            "Could not run /opt/exiftool",
            "ExifTool could not read metadata: bad file",
            "ExifTool could not clean metadata: locked",
            "Could not parse ExifTool JSON output",
        ]
    );
}

fn describe(candidates: Vec<ExiftoolCandidate<String>>) -> Vec<String> {
    candidates
        .into_iter()
        .map(|candidate| match candidate {
            ExiftoolCandidate::Custom(path) => format!("custom {}", path),
            ExiftoolCandidate::NearApp(relative) => format!("app {}", relative),
            ExiftoolCandidate::InSourceTree(relative) => format!("tree {}", relative),
        })
        .collect()
}

#[test]
fn candidates_in_order() {
    assert_eq!(
        describe(exiftool_candidates(Some("/my/exiftool".to_string()), true, true)),
        vec![
            "custom /my/exiftool",
            "app exiftool",
            "app resources/exiftool/exiftool",
            "app ../Resources/exiftool/exiftool",
            "app ../Resources/resources/exiftool/exiftool",
            "tree resources/exiftool/exiftool",
        ]
    );
    assert_eq!(
        describe(exiftool_candidates(None, false, true)),
        vec!["tree resources/exiftool/exiftool"]
    );
    assert!(exiftool_candidates::<String>(None, false, false).is_empty());
}

#[test]
fn the_first_existing_candidate_is_chosen() {
    assert_eq!(first_existing(&vec![false, true, true]), Some(1));
    assert_eq!(first_existing(&vec![true, true]), Some(0));
    assert_eq!(first_existing(&vec![false, false]), None);
    assert_eq!(first_existing(&Vec::new()), None);
}

#[test]
fn a_found_candidate_wins() {
    let found = find_exiftool(Some("/app/exiftool".to_string()), Some("/usr/bin/exiftool\n".to_string()));
    assert!(matches!(found, Ok(ExiftoolLocation::Candidate(path)) if path == "/app/exiftool"));
}

#[test]
fn path_lookup_output_is_trimmed() {
    let found = find_exiftool::<String>(None, Some("  /usr/local/bin/exiftool\n".to_string()));
    assert!(matches!(found, Ok(ExiftoolLocation::OnPath(path)) if path == "/usr/local/bin/exiftool"));
}

#[test]
fn blank_or_missing_lookup_means_not_found() {
    assert!(matches!(
        find_exiftool::<String>(None, Some(" \n".to_string())),
        Err(CleanError::ExiftoolNotFound)
    ));
    assert!(matches!(
        find_exiftool::<String>(None, Some(String::new())),
        Err(CleanError::ExiftoolNotFound)
    ));
    assert!(matches!(find_exiftool::<String>(None, None), Err(CleanError::ExiftoolNotFound)));
}
