//! The errors that end the scheduler.

use std::io::Error as IoError;
use vstd::prelude::*;
use vstd::std_specs::convert::FromSpecImpl;
use vstd::string::to_string_from_display_ensures;
use vstd::string::StringExecFns;

verus! {

/// std's I/O error, declared so that it can be carried in [`Error`].
#[verifier::external_type_specification]
#[verifier::external_body]
pub struct ExIoError(IoError);

/// What can go wrong while the scheduler runs. Either ends the loop.
#[derive(Debug)]
pub enum Error {
    /// The application has no queue for exit events. This is a mistake in
    /// how the application was put together, not a fault of the terminal.
    MissingExitEventQueue,
    /// Asking the terminal for events failed.
    PollFailed(IoError),
}

impl From<IoError> for Error {
    fn from(err: IoError) -> (error: Self) {
        Error::PollFailed(err)
    }
}

impl FromSpecImpl<IoError> for Error {
    open spec fn obeys_from_spec() -> bool {
        true
    }

    open spec fn from_spec(err: IoError) -> Self {
        Error::PollFailed(err)
    }
}

impl Error {
    /// What [`Error::message`] starts with for a failed poll.
    pub open spec fn poll_failed_prefix() -> Seq<char> {
        "failed to poll terminal: "@
    }

    /// Describes the error in words. For a failed poll, the I/O error's own
    /// description, as `to_string` gives it, follows the prefix.
    pub fn message(&self) -> (text: String)
        ensures
            self is MissingExitEventQueue ==> text@ == "missing AppExit event queue in world"@,
            self is PollFailed ==> Self::poll_failed_prefix().is_prefix_of(text@),
            self matches Error::PollFailed(err) ==> exists|detail: String| #[trigger]
                to_string_from_display_ensures::<IoError>(&err, detail) && text@
                    == Self::poll_failed_prefix() + detail@,
    {
        match self {
            Error::MissingExitEventQueue => String::from_str(
                "missing AppExit event queue in world",
            ),
            Error::PollFailed(err) => {
                let detail = err.to_string();
                let text = String::from_str("failed to poll terminal: ").concat(detail.as_str());
                assert(Self::poll_failed_prefix() =~= text@.subrange(
                    0,
                    Self::poll_failed_prefix().len() as int,
                ));
                text
            },
        }
    }

    /// The I/O error behind this error, if there is one.
    pub fn source(&self) -> (cause: Option<&IoError>)
        ensures
            match *self {
                Error::MissingExitEventQueue => cause is None,
                Error::PollFailed(err) => cause == Some(&err),
            },
    {
        match self {
            Error::MissingExitEventQueue => None,
            Error::PollFailed(err) => Some(err),
        }
    }
}

} // verus!
