//! Relaying one accepted submission to the webhook endpoint.
//!
//! The surrounding I/O — deserialising the request body, reading the
//! endpoint address, delivering the payload — happens outside the library;
//! this module fixes the decisions along that path: which field contents
//! are accepted, and which error each failed step produces.

use vstd::prelude::*;

verus! {

/// A form type that knows the reference-code prefix of its submissions.
pub trait Form {
    fn prefix() -> String;
}

/// Conversion of an accepted submission into an outbound payload, tagged
/// with its reference code.
pub trait IntoPayload<T> {
    fn into(self, id: &str) -> T;
}

/// A form type that knows the webhook endpoint its payloads go to.
pub trait Webhook {
    fn webhook() -> String;
}

/// An error while relaying a submission, carrying a fixed human-readable
/// message.
#[derive(Debug)]
pub struct ProcessError<'a>(&'a str);

impl<'a> ProcessError<'a> {
    /// The message carried by the error.
    pub closed spec fn spec_message(&self) -> Seq<char> {
        self.0@
    }

    /// Wraps a message as a relay error.
    pub fn new(message: &'a str) -> (r: Self)
        ensures
            r.spec_message() == message@,
    {
        ProcessError(message)
    }

    /// The message carried by the error.
    pub fn message(&self) -> (r: &'a str)
        ensures
            r@ == self.spec_message(),
    {
        self.0
    }
}

/// The outcome of relaying one submission, decided by whether the request
/// body parsed as the form and whether the webhook delivery succeeded.
/// Parsing is attempted first, so a parse failure hides a delivery failure.
pub fn process_outcome<'a>(parsed: bool, delivered: bool) -> (r: Result<(), ProcessError<'a>>)
    ensures
        r is Ok <==> parsed && delivered,
        !parsed ==> r is Err && r->Err_0.spec_message() == "Error while parsing request"@,
        parsed && !delivered ==> r is Err && r->Err_0.spec_message()
            == "Error while sending webhook"@,
{
    if !parsed {
        Err(ProcessError::new("Error while parsing request"))
    } else if !delivered {
        Err(ProcessError::new("Error while sending webhook"))
    } else {
        Ok(())
    }
}

} // verus!
