use vstd::prelude::*;

use crate::error::CleanError;

verus! {

/// How far the cleaning of one file has come, and what is to be done next; `P` is how the
/// path of ExifTool is held. Cleaning
/// checks that the item is a file, looks for ExifTool, counts the tags, removes them all,
/// and counts again; the first failure ends it.
#[derive(Debug)]
pub enum CleanStep<P> {
    /// Check that the dropped item is a regular file.
    CheckFile,
    /// Look for the ExifTool program.
    LocateExiftool,
    /// Count the file's tags with the ExifTool at `exiftool`.
    CountBefore { exiftool: P },
    /// Remove the file's metadata; `before` tags were counted.
    StripMetadata { exiftool: P, before: usize },
    /// Count the file's tags again; `before` tags were counted first.
    CountAfter { exiftool: P, before: usize },
    /// Cleaning is over: the tag counts before and after, or why it failed.
    Finished(Result<(usize, usize), CleanError>),
}

/// What came of the work that a step asked for; `P` is how the path of ExifTool is held.
#[derive(Debug)]
pub enum CleanEvent<P> {
    /// Whether the item is a regular file.
    FileChecked(bool),
    /// The path of ExifTool, or why it was not found.
    ExiftoolLocated(Result<P, CleanError>),
    /// The number of tags counted, or why counting failed.
    TagsCounted(Result<usize, CleanError>),
    /// Whether removing the metadata succeeded.
    MetadataStripped(Result<(), CleanError>),
}

/// Whether `event` answers the work that `step` asks for. A finished cleaning asks for none.
pub open spec fn expects<P>(step: CleanStep<P>, event: CleanEvent<P>) -> bool {
    match step {
        CleanStep::CheckFile => event is FileChecked,
        CleanStep::LocateExiftool => event is ExiftoolLocated,
        CleanStep::CountBefore { .. } => event is TagsCounted,
        CleanStep::StripMetadata { .. } => event is MetadataStripped,
        CleanStep::CountAfter { .. } => event is TagsCounted,
        CleanStep::Finished(_) => false,
    }
}

/// The step that follows `step` once `event` has come in.
pub open spec fn next_step<P>(step: CleanStep<P>, event: CleanEvent<P>) -> CleanStep<P> {
    match (step, event) {
        (CleanStep::CheckFile, CleanEvent::FileChecked(is_file)) => if is_file {
            CleanStep::LocateExiftool
        } else {
            CleanStep::Finished(Err(CleanError::NotAFile))
        },
        (CleanStep::LocateExiftool, CleanEvent::ExiftoolLocated(located)) => match located {
            Ok(exiftool) => CleanStep::CountBefore { exiftool },
            Err(error) => CleanStep::Finished(Err(error)),
        },
        (CleanStep::CountBefore { exiftool }, CleanEvent::TagsCounted(counted)) => match counted {
            Ok(before) => CleanStep::StripMetadata { exiftool, before },
            Err(error) => CleanStep::Finished(Err(error)),
        },
        (CleanStep::StripMetadata { exiftool, before }, CleanEvent::MetadataStripped(stripped)) =>
            match stripped {
            Ok(()) => CleanStep::CountAfter { exiftool, before },
            Err(error) => CleanStep::Finished(Err(error)),
        },
        (CleanStep::CountAfter { exiftool, before }, CleanEvent::TagsCounted(counted)) =>
            match counted {
            Ok(after) => CleanStep::Finished(Ok((before, after))),
            Err(error) => CleanStep::Finished(Err(error)),
        },
        (step, _) => step,
    }
}

/// How many pieces of outside work a cleaning at `step` can still ask for.
pub open spec fn steps_left<P>(step: CleanStep<P>) -> nat {
    match step {
        CleanStep::CheckFile => 5,
        CleanStep::LocateExiftool => 4,
        CleanStep::CountBefore { .. } => 3,
        CleanStep::StripMetadata { .. } => 2,
        CleanStep::CountAfter { .. } => 1,
        CleanStep::Finished(_) => 0,
    }
}

impl<P> CleanStep<P> {
    /// Whether `event` answers the work that this step asks for.
    pub fn expects(&self, event: &CleanEvent<P>) -> (answers: bool)
        ensures
            answers == expects(*self, *event),
    {
        match self {
            CleanStep::CheckFile => matches!(event, CleanEvent::FileChecked(_)),
            CleanStep::LocateExiftool => matches!(event, CleanEvent::ExiftoolLocated(_)),
            CleanStep::CountBefore { .. } => matches!(event, CleanEvent::TagsCounted(_)),
            CleanStep::StripMetadata { .. } => matches!(event, CleanEvent::MetadataStripped(_)),
            CleanStep::CountAfter { .. } => matches!(event, CleanEvent::TagsCounted(_)),
            CleanStep::Finished(_) => false,
        }
    }
}

/// Advances the cleaning of one file by the outcome of the work its step asked for: a
/// dropped item that is not a file is refused before ExifTool is looked for; any failure
/// ends the cleaning with its error; the counts of the two countings are the result.
pub fn clean_file<P>(step: CleanStep<P>, event: CleanEvent<P>) -> (next: CleanStep<P>)
    requires
        expects(step, event),
    ensures
        next == next_step(step, event),
{
    match (step, event) {
        (CleanStep::CheckFile, CleanEvent::FileChecked(is_file)) => if is_file {
            CleanStep::LocateExiftool
        } else {
            CleanStep::Finished(Err(CleanError::NotAFile))
        },
        (CleanStep::LocateExiftool, CleanEvent::ExiftoolLocated(located)) => match located {
            Ok(exiftool) => CleanStep::CountBefore { exiftool },
            Err(error) => CleanStep::Finished(Err(error)),
        },
        (CleanStep::CountBefore { exiftool }, CleanEvent::TagsCounted(counted)) => match counted {
            Ok(before) => CleanStep::StripMetadata { exiftool, before },
            Err(error) => CleanStep::Finished(Err(error)),
        },
        (CleanStep::StripMetadata { exiftool, before }, CleanEvent::MetadataStripped(stripped)) =>
            match stripped {
            Ok(()) => CleanStep::CountAfter { exiftool, before },
            Err(error) => CleanStep::Finished(Err(error)),
        },
        (CleanStep::CountAfter { exiftool, before }, CleanEvent::TagsCounted(counted)) =>
            match counted {
            Ok(after) => CleanStep::Finished(Ok((before, after))),
            Err(error) => CleanStep::Finished(Err(error)),
        },
        (step, _) => step,
    }
}

/// A cleaning whose every piece of outside work succeeds asks for exactly five of them
/// (check, locate, count, strip, count) and ends with the two counts.
pub proof fn lemma_successful_cleaning<P>(exiftool: P, before: usize, after: usize)
    ensures
        ({
            let located = next_step(CleanStep::<P>::CheckFile, CleanEvent::FileChecked(true));
            let counted = next_step(located, CleanEvent::ExiftoolLocated(Ok(exiftool)));
            let stripped = next_step(counted, CleanEvent::TagsCounted(Ok(before)));
            let recounted = next_step(stripped, CleanEvent::MetadataStripped(Ok(())));
            let finished = next_step(recounted, CleanEvent::TagsCounted(Ok(after)));
            &&& expects(CleanStep::<P>::CheckFile, CleanEvent::FileChecked(true))
            &&& expects(located, CleanEvent::ExiftoolLocated(Ok(exiftool)))
            &&& expects(counted, CleanEvent::TagsCounted(Ok(before)))
            &&& expects(stripped, CleanEvent::MetadataStripped(Ok(())))
            &&& expects(recounted, CleanEvent::TagsCounted(Ok(after)))
            &&& finished == CleanStep::<P>::Finished(Ok((before, after)))
        }),
{
}

/// Every unfinished step takes every outcome of the work it asks for, failures as well as
/// successes; a finished cleaning takes none.
pub proof fn lemma_steps_take_every_outcome<P>(
    exiftool: P,
    before: usize,
    is_file: bool,
    located: Result<P, CleanError>,
    counted: Result<usize, CleanError>,
    stripped: Result<(), CleanError>,
    result: Result<(usize, usize), CleanError>,
    any: CleanEvent<P>,
)
    ensures
        expects(CleanStep::<P>::CheckFile, CleanEvent::FileChecked(is_file)),
        expects(CleanStep::<P>::LocateExiftool, CleanEvent::ExiftoolLocated(located)),
        expects(CleanStep::CountBefore { exiftool }, CleanEvent::TagsCounted(counted)),
        expects(CleanStep::StripMetadata { exiftool, before }, CleanEvent::MetadataStripped(stripped)),
        expects(CleanStep::CountAfter { exiftool, before }, CleanEvent::TagsCounted(counted)),
        !expects(CleanStep::Finished(result), any),
{
}

/// Whether `event` reports that the work it answers failed, with `error`.
pub open spec fn reports_failure<P>(event: CleanEvent<P>, error: CleanError) -> bool {
    match event {
        CleanEvent::FileChecked(is_file) => !is_file && error == CleanError::NotAFile,
        CleanEvent::ExiftoolLocated(located) => located == Err::<P, CleanError>(error),
        CleanEvent::TagsCounted(counted) => counted == Err::<usize, CleanError>(error),
        CleanEvent::MetadataStripped(stripped) => stripped == Err::<(), CleanError>(error),
    }
}

/// The first failure ends the cleaning with its error, and nothing more is asked for.
pub proof fn lemma_failure_ends_cleaning<P>(
    step: CleanStep<P>,
    event: CleanEvent<P>,
    error: CleanError,
)
    requires
        expects(step, event),
        reports_failure(event, error),
    ensures
        next_step(step, event) == CleanStep::<P>::Finished(Err::<(usize, usize), CleanError>(error)),
        forall|later: CleanEvent<P>| !expects(next_step(step, event), later),
{
}

/// Every answered step brings the cleaning closer to its end, so a cleaning asks for at
/// most five pieces of outside work.
pub proof fn lemma_cleaning_progresses<P>(step: CleanStep<P>, event: CleanEvent<P>)
    requires
        expects(step, event),
    ensures
        steps_left(next_step(step, event)) < steps_left(step),
        steps_left(step) <= 5,
{
}

} // verus!
