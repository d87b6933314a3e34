use crs_exif_cleaner::{clean_file, CleanError, CleanEvent, CleanStep};

fn run(events: Vec<CleanEvent<String>>) -> CleanStep<String> {
    let mut step = CleanStep::CheckFile;
    for event in events {
        assert!(step.expects(&event));
        step = clean_file(step, event);
    }
    step
}

#[test]
fn successful_cleaning_reports_both_counts() {
    let step = run(vec![
        CleanEvent::FileChecked(true),
        CleanEvent::ExiftoolLocated(Ok("/usr/bin/exiftool".to_string())),
        CleanEvent::TagsCounted(Ok(45)),
        CleanEvent::MetadataStripped(Ok(())),
        CleanEvent::TagsCounted(Ok(7)),
    ]);
    assert!(matches!(step, CleanStep::Finished(Ok((45, 7)))));
    assert!(!step.expects(&CleanEvent::FileChecked(true)));
}

#[test]
fn steps_carry_the_exiftool_path() {
    let step = run(vec![
        CleanEvent::FileChecked(true),
        CleanEvent::ExiftoolLocated(Ok("/x/exiftool".to_string())),
        CleanEvent::TagsCounted(Ok(3)),
    ]);
    match step {
        CleanStep::StripMetadata { exiftool, before } => {
            assert_eq!(exiftool, "/x/exiftool");
            assert_eq!(before, 3);
        }
        _ => panic!("expected the strip step"),
    }
}

#[test]
fn non_files_are_refused_first() {
    let step = run(vec![CleanEvent::FileChecked(false)]);
    assert!(matches!(step, CleanStep::Finished(Err(CleanError::NotAFile))));
}

#[test]
fn missing_exiftool_ends_cleaning() {
    let step = run(vec![
        CleanEvent::FileChecked(true),
        CleanEvent::ExiftoolLocated(Err(CleanError::ExiftoolNotFound)),
    ]);
    assert!(matches!(step, CleanStep::Finished(Err(CleanError::ExiftoolNotFound))));
}

#[test]
fn failed_strip_ends_cleaning() {
    let step = run(vec![
        CleanEvent::FileChecked(true),
        CleanEvent::ExiftoolLocated(Ok("exiftool".to_string())),
        CleanEvent::TagsCounted(Ok(10)),
        CleanEvent::MetadataStripped(Err(CleanError::CleanFailed { stderr: "locked".to_string() })),
    ]);
    match step {
        CleanStep::Finished(Err(CleanError::CleanFailed { stderr })) => assert_eq!(stderr, "locked"),
        _ => panic!("expected the strip failure"),
    }
}

#[test]
fn failed_recount_ends_cleaning() {
    let step = run(vec![
        CleanEvent::FileChecked(true),
        CleanEvent::ExiftoolLocated(Ok("exiftool".to_string())),
        CleanEvent::TagsCounted(Ok(10)),
        CleanEvent::MetadataStripped(Ok(())),
        CleanEvent::TagsCounted(Err(CleanError::BadJson { cause: "eof".to_string() })),
    ]);
    assert!(matches!(step, CleanStep::Finished(Err(CleanError::BadJson { .. }))));
}

#[test]
fn steps_expect_only_their_own_answer() {
    assert!(!CleanStep::<String>::CheckFile.expects(&CleanEvent::TagsCounted(Ok(1))));
    assert!(!CleanStep::<String>::LocateExiftool.expects(&CleanEvent::FileChecked(true)));
    let strip = CleanStep::StripMetadata { exiftool: "e".to_string(), before: 1 };
    assert!(strip.expects(&CleanEvent::MetadataStripped(Ok(()))));
    assert!(!strip.expects(&CleanEvent::TagsCounted(Ok(1))));
}
