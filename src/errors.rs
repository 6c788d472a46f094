//! The ways a lookup fails, and the message and exit status each ends with.

use vstd::prelude::*;
use vstd::string::*;

verus! {

/// Exit status of the process after any reported failure.
pub const FAILURE_EXIT_CODE: i32 = 1;

/// Failures met while resolving a package, each with a fixed message.
#[derive(Clone, Copy, Debug, PartialEq, Eq, Structural)]
pub enum ResolvingError {
    CrateNotFound,
    RequestError,
    VersionsParseError,
}

impl ResolvingError {
    pub open spec fn message_text(self) -> Seq<char> {
        match self {
            ResolvingError::CrateNotFound => "Crate with this name is not found"@,
            ResolvingError::RequestError => "Check internet connection"@,
            ResolvingError::VersionsParseError => "Failed to parse versions for crate. Check crate name!"@,
        }
    }

    /// The fixed message of this failure.
    pub fn message(&self) -> (r: String)
        ensures
            r@ == self.message_text(),
    {
        match self {
            ResolvingError::CrateNotFound => String::from_str("Crate with this name is not found"),
            ResolvingError::RequestError => String::from_str("Check internet connection"),
            ResolvingError::VersionsParseError => String::from_str(
                "Failed to parse versions for crate. Check crate name!",
            ),
        }
    }
}

/// A failure as it is reported: the message printed after the error prefix,
/// and the status the process exits with.
pub struct Failure {
    pub message: String,
    pub exit_code: i32,
}

/// `f` reports `message` and ends the process with the failure status.
pub open spec fn fails_with(f: Failure, message: Seq<char>) -> bool {
    f.message@ == message && f.exit_code == FAILURE_EXIT_CODE
}

/// `Crate with name '<name>' does not exist`.
pub open spec fn missing_crate_text(name: Seq<char>) -> Seq<char> {
    "Crate with name '"@ + name + "' does not exist"@
}

pub open spec fn no_stable_text() -> Seq<char> {
    "No stable version was found for crate!"@
}

pub open spec fn error_prefix_text() -> Seq<char> {
    "[ERROR]:"@
}

/// The one way every failure is reported: `message`, then the failure status.
pub fn fail(message: String) -> (r: Failure)
    ensures
        fails_with(r, message@),
{
    Failure { message, exit_code: FAILURE_EXIT_CODE }
}

/// The failure of a resolving step, with that step's fixed message.
pub fn resolving_failure(e: ResolvingError) -> (r: Failure)
    ensures
        fails_with(r, e.message_text()),
{
    fail(e.message())
}

/// The failure reported when the registry does not know `name`.
pub fn missing_crate(name: &str) -> (r: Failure)
    ensures
        fails_with(r, missing_crate_text(name@)),
{
    let mut m = String::from_str("Crate with name '");
    m.append(name);
    m.append("' does not exist");
    fail(m)
}

/// The failure reported when every version of the package was yanked.
pub fn no_stable_version() -> (r: Failure)
    ensures
        fails_with(r, no_stable_text()),
{
    fail(String::from_str("No stable version was found for crate!"))
}

/// The prefix printed before every failure message.
pub fn error_prefix() -> (r: String)
    ensures
        r@ == error_prefix_text(),
{
    String::from_str("[ERROR]:")
}

} // verus!
