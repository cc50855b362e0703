//! The ways in which a measurement can fail.

use vstd::prelude::*;
use vstd::string::StringExecFns;

verus! {

/// Which of the two markers a value belongs to.
#[derive(Clone, Copy, Debug, PartialEq, Eq, Structural)]
pub enum Side {
    From,
    To,
}

/// Why no duration could be reported.
#[derive(Clone, Debug, PartialEq, Eq)]
pub enum ScanError {
    /// The regex engine refuses `pattern`, for the `reason` it gave.
    InvalidPattern { pattern: String, reason: String },
    /// A first-match and a last-match pattern were both given for one side.
    ConflictingModes { side: Side },
    /// Neither a first-match nor a last-match pattern was given for one side.
    MissingPattern { side: Side },
    /// Nothing exists under `path`.
    NoSuchFile { path: String },
    /// What exists under `path` is not a regular file.
    NotAFile { path: String },
    /// No line that was scanned matched `pattern`.
    NotFound { pattern: String },
    /// A marker was found, but none of its lines gave a timestamp.
    MissingTimestamp,
    /// A text matched the `pattern` that it must not contain.
    Forbidden { pattern: String },
    /// `text` does not spell a timestamp in the fixed layout.
    Unparsable { text: String },
}

/// A `ScanError` with its strings taken as character sequences.
pub enum ScanFailure {
    InvalidPattern { pattern: Seq<char>, reason: Seq<char> },
    ConflictingModes { side: Side },
    MissingPattern { side: Side },
    NoSuchFile { path: Seq<char> },
    NotAFile { path: Seq<char> },
    NotFound { pattern: Seq<char> },
    MissingTimestamp,
    Forbidden { pattern: Seq<char> },
    Unparsable { text: Seq<char> },
}

impl View for ScanError {
    type V = ScanFailure;

    open spec fn view(&self) -> ScanFailure {
        match *self {
            ScanError::InvalidPattern { pattern, reason } => ScanFailure::InvalidPattern {
                pattern: pattern@,
                reason: reason@,
            },
            ScanError::ConflictingModes { side } => ScanFailure::ConflictingModes { side },
            ScanError::MissingPattern { side } => ScanFailure::MissingPattern { side },
            ScanError::NoSuchFile { path } => ScanFailure::NoSuchFile { path: path@ },
            ScanError::NotAFile { path } => ScanFailure::NotAFile { path: path@ },
            ScanError::NotFound { pattern } => ScanFailure::NotFound { pattern: pattern@ },
            ScanError::MissingTimestamp => ScanFailure::MissingTimestamp,
            ScanError::Forbidden { pattern } => ScanFailure::Forbidden { pattern: pattern@ },
            ScanError::Unparsable { text } => ScanFailure::Unparsable { text: text@ },
        }
    }
}

/// A result with its error taken by its view.
pub open spec fn viewed<T>(r: Result<T, ScanError>) -> Result<T, ScanFailure> {
    match r {
        Ok(value) => Ok(value),
        Err(e) => Err(e@),
    }
}

/// The words that name a side in a message.
pub open spec fn side_text(side: Side) -> Seq<char> {
    match side {
        Side::From => "from"@,
        Side::To => "to"@,
    }
}

/// The message that a failure is reported with.
pub open spec fn failure_text(f: ScanFailure) -> Seq<char> {
    match f {
        ScanFailure::InvalidPattern { pattern, reason } => "'"@ + pattern
            + "' is not a valid regex: "@ + reason,
        ScanFailure::ConflictingModes { side } => "the "@ + side_text(side)
            + " pattern was given in both modes"@,
        ScanFailure::MissingPattern { side } => "the "@ + side_text(side)
            + " pattern was not given"@,
        ScanFailure::NoSuchFile { path } => path + " does not exist"@,
        ScanFailure::NotAFile { path } => path + " is not a file"@,
        ScanFailure::NotFound { pattern } => "Did not find '"@ + pattern + "'"@,
        ScanFailure::MissingTimestamp => "Could not parse a timestamp"@,
        ScanFailure::Forbidden { pattern } => "Must not contain: "@ + pattern,
        ScanFailure::Unparsable { text } => "could not parse "@ + text,
    }
}

fn side_word(side: Side) -> (word: &'static str)
    ensures
        word@ == side_text(side),
{
    match side {
        Side::From => "from",
        Side::To => "to",
    }
}

impl ScanError {
    /// The message for the user.
    pub fn message(&self) -> (text: String)
        ensures
            text@ == failure_text(self@),
    {
        match self {
            ScanError::InvalidPattern { pattern, reason } => {
                let mut text = String::from_str("'");
                text.append(pattern.as_str());
                text.append("' is not a valid regex: ");
                text.append(reason.as_str());
                text
            },
            ScanError::ConflictingModes { side } => {
                let mut text = String::from_str("the ");
                text.append(side_word(*side));
                text.append(" pattern was given in both modes");
                text
            },
            ScanError::MissingPattern { side } => {
                let mut text = String::from_str("the ");
                text.append(side_word(*side));
                text.append(" pattern was not given");
                text
            },
            ScanError::NoSuchFile { path } => {
                let mut text = path.clone();
                text.append(" does not exist");
                text
            },
            ScanError::NotAFile { path } => {
                let mut text = path.clone();
                text.append(" is not a file");
                text
            },
            ScanError::NotFound { pattern } => {
                let mut text = String::from_str("Did not find '");
                text.append(pattern.as_str());
                text.append("'");
                text
            },
            ScanError::MissingTimestamp => String::from_str("Could not parse a timestamp"),
            ScanError::Forbidden { pattern } => {
                let mut text = String::from_str("Must not contain: ");
                text.append(pattern.as_str());
                text
            },
            ScanError::Unparsable { text } => {
                let mut message = String::from_str("could not parse ");
                message.append(text.as_str());
                message
            },
        }
    }
}

} // verus!
