pub mod category;
pub mod error;
pub mod transaction;
pub mod user;
pub mod wallet;

pub use crate::response::category::{CategoryResponse, CategoryResponseView};
pub use crate::response::error::{ErrorResponse, ErrorResponseView};
pub use crate::response::transaction::{TransactionResponse, TransactionResponseView};
pub use crate::response::user::{
    TokenResponse, TokenResponseView, UserResponse, UserResponseView,
};
pub use crate::response::wallet::{WalletResponse, WalletResponseView};

use crate::field::{outcome, required_text, with_text, DecodeError};
use crate::wire::{lemma_slot_push, Members, Payload};
use vstd::prelude::*;

verus! {

/// Response containing the version of the backend.
///
/// Clients usually use this to conditionally enable a feature if the backend's version is high
/// enough to support it.
#[derive(Clone, Debug, PartialEq, Eq)]
pub struct VersionResponse {
    /// Version of the backend in the form MAJOR.MINOR.PATCH.
    pub version: String,
}

/// A [`VersionResponse`] as contracts speak of it.
pub struct VersionResponseView {
    pub version: Seq<char>,
}

impl View for VersionResponse {
    type V = VersionResponseView;

    open spec fn view(&self) -> VersionResponseView {
        VersionResponseView { version: self.version@ }
    }
}

impl VersionResponseView {
    /// The payload that writes the response.
    pub open spec fn encoded(self) -> Members {
        let members = Seq::empty();
        let members = with_text(members, "version"@, self.version);
        members
    }
}

impl VersionResponse {
    /// What the members of a payload say: the value of each field, or the fault of the
    /// first field, in the order of declaration, that has one.
    pub open spec fn decoded(members: Members) -> Result<
        VersionResponseView,
        DecodeError,
    > {
        let version = required_text(members, "version");
        if version is Err {
            Err(version->Err_0)
        } else {
            Ok(VersionResponseView { version: version->Ok_0 })
        }
    }

    /// Reads the response out of a payload. Members with a key that it does not declare
    /// are passed over.
    pub fn decode(payload: &Payload) -> (r: Result<Self, DecodeError>)
        ensures
            outcome(r) == Self::decoded(payload@),
    {
        let version = match payload.required_text("version") {
            Ok(v) => v,
            Err(e) => return Err(e),
        };
        Ok(VersionResponse { version })
    }

    /// Writes the response as a payload, which [`Self::decode`] reads back as the same
    /// response.
    pub fn encode(&self) -> (payload: Payload)
        ensures
            payload@ == self@.encoded(),
            Self::decoded(payload@) == Ok::<VersionResponseView, DecodeError>(self@),
    {
        let mut payload = Payload::new();
        payload.put_text("version", self.version.as_str());
        proof {
            Self::lemma_round_trip(self@);
        }
        payload
    }

    /// Reading what was written gives the value back.
    pub proof fn lemma_round_trip(c: VersionResponseView)
        ensures
            Self::decoded(c.encoded()) == Ok::<VersionResponseView, DecodeError>(c),
    {
        broadcast use lemma_slot_push;

    }
}
} // verus!
