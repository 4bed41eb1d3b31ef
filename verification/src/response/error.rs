use crate::field::{outcome, required_text, with_text, DecodeError};
use crate::wire::{lemma_slot_push, Members, Payload};
use vstd::prelude::*;

verus! {

/// `String::from` on a string slice, which std documents as the conversion of the
/// slice into an owned string: the result holds the same text. Not proved.
/// [`ErrorResponse::new`] reaches it through `Into` when it is given a slice.
pub assume_specification<'a, 'b>[ <String as From<&'a str>>::from ](text: &'b str) -> (r: String)
    ensures
        r@ == text@,
;

/// Generic error response with an error message indicating what went wrong.
///
/// Clients should use the error message in combination with the HTTP return type to determine
/// how to handle the error.
#[derive(Clone, Debug, PartialEq, Eq)]
pub struct ErrorResponse {
    /// Message describing the error.
    pub error: String,
}

/// A [`ErrorResponse`] as contracts speak of it.
pub struct ErrorResponseView {
    pub error: Seq<char>,
}

impl View for ErrorResponse {
    type V = ErrorResponseView;

    open spec fn view(&self) -> ErrorResponseView {
        ErrorResponseView { error: self.error@ }
    }
}

impl ErrorResponseView {
    /// The payload that writes the response.
    pub open spec fn encoded(self) -> Members {
        let members = Seq::empty();
        let members = with_text(members, "error"@, self.error);
        members
    }
}

impl ErrorResponse {
    /// Construct a new `ErrorResponse` from a given error message: the message is
    /// what the conversion into a `String` makes of it, for a string slice its text.
    pub fn new<S: Into<String>>(err: S) -> (r: Self)
        ensures
            call_ensures(<S as Into<String>>::into, (err,), r.error),
    {
        Self { error: err.into() }
    }

    /// Utility function to return a generic "Internal server error".
    ///
    /// This is usually used in production to hide potentially sensitive error details.
    pub fn internal_server_error() -> (r: Self)
        ensures
            r.error@ == "Internal server error"@,
    {
        Self::new("Internal server error")
    }

    /// Utility function to return a generic "Not implemented yet" error.
    pub fn not_implemented() -> (r: Self)
        ensures
            r.error@ == "Not implemented yet"@,
    {
        Self::new("Not implemented yet")
    }

    /// Utility function to return a generic "Unauthorized" error.
    pub fn unauthorized() -> (r: Self)
        ensures
            r.error@ == "Unauthorized"@,
    {
        Self::new("Unauthorized")
    }

    /// What the members of a payload say: the value of each field, or the fault of the
    /// first field, in the order of declaration, that has one.
    pub open spec fn decoded(members: Members) -> Result<
        ErrorResponseView,
        DecodeError,
    > {
        let error = required_text(members, "error");
        if error is Err {
            Err(error->Err_0)
        } else {
            Ok(ErrorResponseView { error: error->Ok_0 })
        }
    }

    /// Reads the response out of a payload. Members with a key that it does not declare
    /// are passed over.
    pub fn decode(payload: &Payload) -> (r: Result<Self, DecodeError>)
        ensures
            outcome(r) == Self::decoded(payload@),
    {
        let error = match payload.required_text("error") {
            Ok(v) => v,
            Err(e) => return Err(e),
        };
        Ok(ErrorResponse { error })
    }

    /// Writes the response as a payload, which [`Self::decode`] reads back as the same
    /// response.
    pub fn encode(&self) -> (payload: Payload)
        ensures
            payload@ == self@.encoded(),
            Self::decoded(payload@) == Ok::<ErrorResponseView, DecodeError>(self@),
    {
        let mut payload = Payload::new();
        payload.put_text("error", self.error.as_str());
        proof {
            Self::lemma_round_trip(self@);
        }
        payload
    }

    /// Reading what was written gives the value back.
    pub proof fn lemma_round_trip(c: ErrorResponseView)
        ensures
            Self::decoded(c.encoded()) == Ok::<ErrorResponseView, DecodeError>(c),
    {
        broadcast use lemma_slot_push;

    }
}
} // verus!
