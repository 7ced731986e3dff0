//! Errors of the FFmpeg and FFprobe builders.
use vstd::prelude::*;
use crate::text::{owned, concat};

verus! {

/// Errors that can occur when building FFmpeg/FFprobe commands.
#[derive(Debug, Clone, PartialEq)]
pub enum BuilderError {
    /// No input file was specified.
    NoInput,
    /// No output file was specified.
    NoOutput,
    /// An option is not valid here.
    InvalidOption(String),
    /// Two options cannot be used together.
    IncompatibleOptions(String),
    /// A time value is malformed.
    InvalidTimeFormat(String),
    /// A resolution value is malformed.
    InvalidResolution(String),
    /// A bitrate value is malformed.
    InvalidBitrate(String),
    /// The requested hardware acceleration is not available.
    HardwareAccelNotAvailable(String),
    /// A filter is malformed.
    FilterError(String),
    /// Running the command failed.
    ExecutionError(String),
    /// The command's output could not be parsed.
    ParseError(String),
}

impl BuilderError {
    /// The human-readable message of this error.
    pub open spec fn message_text(self) -> Seq<char> {
        match self {
            BuilderError::NoInput => "No input file specified"@,
            BuilderError::NoOutput => "No output file specified"@,
            BuilderError::InvalidOption(s) => "Invalid option: "@ + s@,
            BuilderError::IncompatibleOptions(s) => "Incompatible options: "@ + s@,
            BuilderError::InvalidTimeFormat(s) => "Invalid time format: "@ + s@,
            BuilderError::InvalidResolution(s) => "Invalid resolution format: "@ + s@
                + ". Expected format like '1920x1080' or '1920:1080'"@,
            BuilderError::InvalidBitrate(s) => "Invalid bitrate format: "@ + s@
                + ". Expected format like '2M' or '128k'"@,
            BuilderError::HardwareAccelNotAvailable(s) => "Hardware acceleration not available: "@ + s@,
            BuilderError::FilterError(s) => "Filter error: "@ + s@,
            BuilderError::ExecutionError(s) => "Execution error: "@ + s@,
            BuilderError::ParseError(s) => "Parse error: "@ + s@,
        }
    }

    /// The human-readable message of this error.
    pub fn message(&self) -> (res: String)
        ensures
            res@ == self.message_text(),
    {
        match self {
            BuilderError::NoInput => owned("No input file specified"),
            BuilderError::NoOutput => owned("No output file specified"),
            BuilderError::InvalidOption(s) => concat("Invalid option: ", s.as_str()),
            BuilderError::IncompatibleOptions(s) => concat("Incompatible options: ", s.as_str()),
            BuilderError::InvalidTimeFormat(s) => concat("Invalid time format: ", s.as_str()),
            BuilderError::InvalidResolution(s) => {
                let a = concat("Invalid resolution format: ", s.as_str());
                concat(a.as_str(), ". Expected format like '1920x1080' or '1920:1080'")
            },
            BuilderError::InvalidBitrate(s) => {
                let a = concat("Invalid bitrate format: ", s.as_str());
                concat(a.as_str(), ". Expected format like '2M' or '128k'")
            },
            BuilderError::HardwareAccelNotAvailable(s) => concat(
                "Hardware acceleration not available: ",
                s.as_str(),
            ),
            BuilderError::FilterError(s) => concat("Filter error: ", s.as_str()),
            BuilderError::ExecutionError(s) => concat("Execution error: ", s.as_str()),
            BuilderError::ParseError(s) => concat("Parse error: ", s.as_str()),
        }
    }
}

/// The message of each builder error: `No input file specified`, `No output file
/// specified`, and for the others their kind (`Invalid option: `, `Parse error: `, ...)
/// followed by the detail.
pub proof fn builder_error_messages(s: String)
    ensures
        BuilderError::NoInput.message_text() == "No input file specified"@,
        BuilderError::NoOutput.message_text() == "No output file specified"@,
        BuilderError::InvalidOption(s).message_text() == "Invalid option: "@ + s@,
        BuilderError::IncompatibleOptions(s).message_text() == "Incompatible options: "@ + s@,
        BuilderError::InvalidTimeFormat(s).message_text() == "Invalid time format: "@ + s@,
        BuilderError::InvalidResolution(s).message_text() == "Invalid resolution format: "@ + s@
            + ". Expected format like '1920x1080' or '1920:1080'"@,
        BuilderError::InvalidBitrate(s).message_text() == "Invalid bitrate format: "@ + s@
            + ". Expected format like '2M' or '128k'"@,
        BuilderError::HardwareAccelNotAvailable(s).message_text() == "Hardware acceleration not available: "@ + s@,
        BuilderError::FilterError(s).message_text() == "Filter error: "@ + s@,
        BuilderError::ExecutionError(s).message_text() == "Execution error: "@ + s@,
        BuilderError::ParseError(s).message_text() == "Parse error: "@ + s@,
{
}

} // verus!
