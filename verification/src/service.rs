use vstd::prelude::*;
use vstd::string::StringExecFns;
use crate::error::{Error, JoinError};

verus! {

/// Why a service loop ended, in words.
pub open spec fn exit_reason(rv: Result<Result<(), Error>, JoinError>) -> Seq<char> {
    match rv {
        Ok(Ok(())) => "no specific reason"@,
        Ok(Err(e)) => "app-error: "@ + e.message@,
        Err(e) => "join-error: "@ + e.message@,
    }
}

/// The message of the error that a service loop's end is reported with.
pub open spec fn termination_message(label: Seq<char>, reason: Seq<char>) -> Seq<char> {
    "service loop terminated: label="@ + label + ", reason="@ + reason
}

/// Turns the end of the service loop named `label` into an error: a service loop is
/// meant to run forever, so its end is a failure whatever the loop returned.
pub fn handle_rv(label: &str, rv: Result<Result<(), Error>, JoinError>) -> (r: Result<(), Error>)
    ensures
        r matches Err(e) && e.message@ == termination_message(label@, exit_reason(rv)),
{
    let reason = match &rv {
        Ok(Ok(())) => String::from_str("no specific reason"),
        Ok(Err(e)) => String::from_str("app-error: ").concat(e.message.as_str()),
        Err(e) => String::from_str("join-error: ").concat(e.message.as_str()),
    };
    let message = String::from_str("service loop terminated: label=")
        .concat(label)
        .concat(", reason=")
        .concat(reason.as_str());
    Err(Error { message })
}

} // verus!
