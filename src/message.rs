use vstd::prelude::*;
use vstd::string::*;

use crate::resolve::{CopyError, Failure};

verus! {

/// `Path '<p>'` followed by `rest`.
pub open spec fn about_path(p: Seq<char>, rest: Seq<char>) -> Seq<char> {
    "Path '"@ + p + rest
}

/// The one-line description of a failure.
pub open spec fn message_of(f: Failure) -> Seq<char> {
    match f {
        Failure::Ambiguous => "COPIE_FROM, COPIE_TO and a file parameter was specified, copie could not copy because it is impossible to determine which file is to copy from or to."@,
        Failure::SourceMissing(p) => about_path(
            p,
            "' specified in variable COPIE_FROM does not exists!"@,
        ),
        Failure::SourceIsDirectory(p) => about_path(
            p,
            "' specified in variable COPIE_FROM is a directory, COPEE does not copy directories!"@,
        ),
        Failure::DestinationIsDirectory(p) => about_path(
            p,
            "' specified in variable COPIE_TO is a directory, COPEE does not copy directories!"@,
        ),
        Failure::DestinationExists(p) => about_path(
            p,
            "' specified in COPIE_TO already exists, COPEE does not replace files."@,
        ),
        Failure::ArgumentMissing(p) => about_path(
            p,
            "' specified in the command line does not exists!"@,
        ),
        Failure::ArgumentIsDirectory(p) => about_path(
            p,
            "' specified in the command line is a directory, COPEE does not copy directories!"@,
        ),
        Failure::CopyFailed(s, d, e) => "Failed to copy from '"@ + s + "' to '"@ + d + "': "@ + e,
        Failure::MissingFile => "Missing file to read or to replace."@,
        Failure::MissingVariable => "Missing environment variable COPIE_FROM or COPIE_TO!"@,
        Failure::Unknown => "Unknown error!"@,
    }
}

fn path_message(p: &String, rest: &str) -> (r: String)
    ensures
        r@ == about_path(p@, rest@),
{
    String::from_str("Path '").concat(p.as_str()).concat(rest)
}

impl CopyError {
    /// The one-line description of this failure, naming the paths involved.
    pub fn message(&self) -> (r: String)
        ensures
            r@ == message_of(self@),
    {
        match self {
            CopyError::Ambiguous => String::from_str(
                "COPIE_FROM, COPIE_TO and a file parameter was specified, copie could not copy because it is impossible to determine which file is to copy from or to.",
            ),
            CopyError::SourceMissing(p) => path_message(
                p,
                "' specified in variable COPIE_FROM does not exists!",
            ),
            CopyError::SourceIsDirectory(p) => path_message(
                p,
                "' specified in variable COPIE_FROM is a directory, COPEE does not copy directories!",
            ),
            CopyError::DestinationIsDirectory(p) => path_message(
                p,
                "' specified in variable COPIE_TO is a directory, COPEE does not copy directories!",
            ),
            CopyError::DestinationExists(p) => path_message(
                p,
                "' specified in COPIE_TO already exists, COPEE does not replace files.",
            ),
            CopyError::ArgumentMissing(p) => path_message(
                p,
                "' specified in the command line does not exists!",
            ),
            CopyError::ArgumentIsDirectory(p) => path_message(
                p,
                "' specified in the command line is a directory, COPEE does not copy directories!",
            ),
            CopyError::CopyFailed(s, d, e) => String::from_str("Failed to copy from '").concat(
                s.as_str(),
            ).concat("' to '").concat(d.as_str()).concat("': ").concat(e.as_str()),
            CopyError::MissingFile => String::from_str("Missing file to read or to replace."),
            CopyError::MissingVariable => String::from_str(
                "Missing environment variable COPIE_FROM or COPIE_TO!",
            ),
            CopyError::Unknown => String::from_str("Unknown error!"),
        }
    }
}

} // verus!
