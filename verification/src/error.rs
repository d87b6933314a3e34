use vstd::prelude::*;

verus! {

/// Why cleaning a file failed.
#[derive(Debug)]
pub enum CleanError {
    /// The dropped item is not a single regular file (a folder, say).
    NotAFile,
    /// No ExifTool program was found.
    ExiftoolNotFound,
    /// ExifTool could not be started: `program` is its path, `cause` why it did not run.
    CouldNotRun { program: String, cause: String },
    /// ExifTool failed while reading tags; `stderr` is what it printed, trimmed.
    ReadFailed { stderr: String },
    /// ExifTool failed while removing tags; `stderr` is what it printed, trimmed.
    CleanFailed { stderr: String },
    /// ExifTool's JSON output could not be read; `cause` says why.
    BadJson { cause: String },
}

impl CleanError {
    /// The error's own text, without its cause: what the error says when printed plainly.
    pub open spec fn spec_context(&self) -> Seq<char> {
        match self {
            CleanError::NotAFile => "Only individual files are supported"@,
            CleanError::ExiftoolNotFound =>
                "ExifTool not found. Expected resources/exiftool/exiftool next to the app."@,
            CleanError::CouldNotRun { program, .. } => "Could not run "@ + program@,
            CleanError::ReadFailed { stderr } => "ExifTool could not read metadata: "@ + stderr@,
            CleanError::CleanFailed { stderr } => "ExifTool could not clean metadata: "@
                + stderr@,
            CleanError::BadJson { .. } => "Could not parse ExifTool JSON output"@,
        }
    }

    /// The error's own text, without its cause, as printed plainly. Only a failure to
    /// start ExifTool and unreadable JSON have a cause, which `message` adds.
    pub fn context(&self) -> (text: String)
        ensures
            text@ == self.spec_context(),
    {
        match self {
            CleanError::NotAFile => "Only individual files are supported".to_owned(),
            CleanError::ExiftoolNotFound => {
                "ExifTool not found. Expected resources/exiftool/exiftool next to the app.".to_owned()
            },
            CleanError::CouldNotRun { program, .. } => {
                let mut text = "Could not run ".to_owned();
                text.append(program.as_str());
                text
            },
            CleanError::ReadFailed { stderr } => {
                let mut text = "ExifTool could not read metadata: ".to_owned();
                text.append(stderr.as_str());
                text
            },
            CleanError::CleanFailed { stderr } => {
                let mut text = "ExifTool could not clean metadata: ".to_owned();
                text.append(stderr.as_str());
                text
            },
            CleanError::BadJson { .. } => "Could not parse ExifTool JSON output".to_owned(),
        }
    }

    /// The text shown for this error in full: its own text, then, where it has one, its
    /// cause after a colon.
    pub open spec fn spec_message(&self) -> Seq<char> {
        match self {
            CleanError::NotAFile => "Only individual files are supported"@,
            CleanError::ExiftoolNotFound =>
                "ExifTool not found. Expected resources/exiftool/exiftool next to the app."@,
            CleanError::CouldNotRun { program, cause } => "Could not run "@ + program@ + ": "@
                + cause@,
            CleanError::ReadFailed { stderr } => "ExifTool could not read metadata: "@ + stderr@,
            CleanError::CleanFailed { stderr } => "ExifTool could not clean metadata: "@
                + stderr@,
            CleanError::BadJson { cause } => "Could not parse ExifTool JSON output: "@ + cause@,
        }
    }

    /// The text shown for this error in full, as the window shows it.
    pub fn message(&self) -> (text: String)
        ensures
            text@ == self.spec_message(),
    {
        match self {
            CleanError::NotAFile => "Only individual files are supported".to_owned(),
            CleanError::ExiftoolNotFound => {
                "ExifTool not found. Expected resources/exiftool/exiftool next to the app.".to_owned()
            },
            CleanError::CouldNotRun { program, cause } => {
                let mut text = "Could not run ".to_owned();
                text.append(program.as_str());
                text.append(": ");
                text.append(cause.as_str());
                text
            },
            CleanError::ReadFailed { stderr } => {
                let mut text = "ExifTool could not read metadata: ".to_owned();
                text.append(stderr.as_str());
                text
            },
            CleanError::CleanFailed { stderr } => {
                let mut text = "ExifTool could not clean metadata: ".to_owned();
                text.append(stderr.as_str());
                text
            },
            CleanError::BadJson { cause } => {
                let mut text = "Could not parse ExifTool JSON output: ".to_owned();
                text.append(cause.as_str());
                text
            },
        }
    }
}

/// The full text of an error is its own text, followed, for a failed start of ExifTool
/// and for unreadable JSON, by a colon and the cause.
pub proof fn lemma_message_extends_context(error: CleanError)
    ensures
        error.spec_message() == match error {
            CleanError::CouldNotRun { cause, .. } => error.spec_context() + ": "@ + cause@,
            CleanError::BadJson { cause } => error.spec_context() + ": "@ + cause@,
            _ => error.spec_context(),
        },
{
    match error {
        CleanError::CouldNotRun { program, cause } => {
            assert(error.spec_context() == "Could not run "@ + program@);
            assert(error.spec_message() == "Could not run "@ + program@ + ": "@ + cause@);
        },
        CleanError::BadJson { cause } => {
            reveal_strlit("Could not parse ExifTool JSON output: ");
            reveal_strlit("Could not parse ExifTool JSON output");
            reveal_strlit(": ");
            assert("Could not parse ExifTool JSON output: "@ =~= "Could not parse ExifTool JSON output"@
                + ": "@);
        },
        _ => {},
    }
}

} // verus!
