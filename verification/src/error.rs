//! The ways in which a command can fail.

use vstd::prelude::*;
use vstd::string::StringExecFns;

verus! {

/// Why a command was given up. A wrong answer or an exceeded time limit is
/// no such failure: it is a verdict, and judging goes on.
#[derive(Debug, PartialEq, Eq)]
pub enum HelperError {
    /// The file at `path` could not be created, read, written or removed.
    IOError { path: String },
    /// The metadata document of a corpus is no JSON document, has no sample
    /// list, or lists a sample with a missing or ill-typed field.
    CorruptCorpus,
    /// The compiler could not be launched.
    CompileError,
    /// The problem page could not be retrieved.
    FetchError,
    /// The problem page could not be parsed.
    ParseError,
}

/// The text that describes each failure.
pub open spec fn spec_message(error: HelperError) -> Seq<char> {
    match error {
        HelperError::IOError { path } => "Cannot access file: "@ + path@,
        HelperError::CorruptCorpus =>
            "The configuration of the sample list is broken. Please check the samples_info.json."@,
        HelperError::CompileError => "Failed to compile the program. Stopped. (CE(0))"@,
        HelperError::FetchError => "Error occured while fetching samples: cannot retrieve the page"@,
        HelperError::ParseError => "Error occured while fetching samples: cannot parse the page"@,
    }
}

impl HelperError {
    /// A description of the failure for the user.
    pub fn message(&self) -> (text: String)
        ensures
            text@ == spec_message(*self),
    {
        match self {
            HelperError::IOError { path } => {
                let mut text = String::from_str("Cannot access file: ");
                text.append(path.as_str());
                text
            },
            HelperError::CorruptCorpus => String::from_str(
                "The configuration of the sample list is broken. Please check the samples_info.json.",
            ),
            HelperError::CompileError => String::from_str(
                "Failed to compile the program. Stopped. (CE(0))",
            ),
            HelperError::FetchError => String::from_str(
                "Error occured while fetching samples: cannot retrieve the page",
            ),
            HelperError::ParseError => String::from_str(
                "Error occured while fetching samples: cannot parse the page",
            ),
        }
    }
}

} // verus!
