use crate::field::{
    outcome, reads_back, required_text, required_timestamp, with_text, with_timestamp, DecodeError,
};
use crate::timestamp::{DateTimeFields, Timestamp};
use crate::wire::{lemma_slot_push, Members, Payload};
use vstd::prelude::*;

verus! {

proof fn lemma_keys_differ()
    ensures
        "email"@ != "username"@,
        "email"@ != "created_at"@,
        "username"@ != "created_at"@,
{
    reveal_strlit("email");
    reveal_strlit("username");
    reveal_strlit("created_at");
    assert("email"@.len() == 5);
    assert("username"@.len() == 8);
    assert("created_at"@.len() == 10);
}

/// Response containing the requested authentication token.
#[derive(Clone, Debug, PartialEq, Eq)]
pub struct TokenResponse {
    /// Authentication token.
    pub token: String,
}

/// A [`TokenResponse`] as contracts speak of it.
pub struct TokenResponseView {
    pub token: Seq<char>,
}

impl View for TokenResponse {
    type V = TokenResponseView;

    open spec fn view(&self) -> TokenResponseView {
        TokenResponseView { token: self.token@ }
    }
}

impl TokenResponseView {
    /// The payload that writes the response.
    pub open spec fn encoded(self) -> Members {
        let members = Seq::empty();
        let members = with_text(members, "token"@, self.token);
        members
    }
}

impl TokenResponse {
    /// What the members of a payload say: the value of each field, or the fault of the
    /// first field, in the order of declaration, that has one.
    pub open spec fn decoded(members: Members) -> Result<
        TokenResponseView,
        DecodeError,
    > {
        let token = required_text(members, "token");
        if token is Err {
            Err(token->Err_0)
        } else {
            Ok(TokenResponseView { token: token->Ok_0 })
        }
    }

    /// Reads the response out of a payload. Members with a key that it does not declare
    /// are passed over.
    pub fn decode(payload: &Payload) -> (r: Result<Self, DecodeError>)
        ensures
            outcome(r) == Self::decoded(payload@),
    {
        let token = match payload.required_text("token") {
            Ok(v) => v,
            Err(e) => return Err(e),
        };
        Ok(TokenResponse { token })
    }

    /// Writes the response as a payload, which [`Self::decode`] reads back as the same
    /// response.
    pub fn encode(&self) -> (payload: Payload)
        ensures
            payload@ == self@.encoded(),
            Self::decoded(payload@) == Ok::<TokenResponseView, DecodeError>(self@),
    {
        let mut payload = Payload::new();
        payload.put_text("token", self.token.as_str());
        proof {
            Self::lemma_round_trip(self@);
        }
        payload
    }

    /// Reading what was written gives the value back.
    pub proof fn lemma_round_trip(c: TokenResponseView)
        ensures
            Self::decoded(c.encoded()) == Ok::<TokenResponseView, DecodeError>(c),
    {
        broadcast use lemma_slot_push;

    }
}

/// Response containing details of a user.
#[derive(Clone, Debug, PartialEq, Eq)]
pub struct UserResponse {
    /// User's current email address.
    pub email: String,
    /// User's current username.
    pub username: String,
    /// Creation timestamp of the user's account.
    pub created_at: Timestamp,
}

/// A [`UserResponse`] as contracts speak of it.
pub struct UserResponseView {
    pub email: Seq<char>,
    pub username: Seq<char>,
    pub created_at: DateTimeFields,
}

impl View for UserResponse {
    type V = UserResponseView;

    open spec fn view(&self) -> UserResponseView {
        UserResponseView {
            email: self.email@,
            username: self.username@,
            created_at: self.created_at@,
        }
    }
}

impl UserResponseView {
    /// Whether every date and time in it is valid and is read back from its text.
    pub open spec fn reads_back(self) -> bool {
        reads_back(Some(self.created_at))
    }

    /// The payload that writes the response.
    pub open spec fn encoded(self) -> Members {
        let members = Seq::empty();
        let members = with_text(members, "email"@, self.email);
        let members = with_text(members, "username"@, self.username);
        let members = with_timestamp(members, "created_at"@, self.created_at);
        members
    }
}

impl UserResponse {
    /// What the members of a payload say: the value of each field, or the fault of the
    /// first field, in the order of declaration, that has one.
    pub open spec fn decoded(members: Members) -> Result<
        UserResponseView,
        DecodeError,
    > {
        let email = required_text(members, "email");
        let username = required_text(members, "username");
        let created_at = required_timestamp(members, "created_at");
        if email is Err {
            Err(email->Err_0)
        } else if username is Err {
            Err(username->Err_0)
        } else if created_at is Err {
            Err(created_at->Err_0)
        } else {
            Ok(
                UserResponseView {
                    email: email->Ok_0,
                    username: username->Ok_0,
                    created_at: created_at->Ok_0,
                },
            )
        }
    }

    /// Reads the response out of a payload. Members with a key that it does not declare
    /// are passed over.
    pub fn decode(payload: &Payload) -> (r: Result<Self, DecodeError>)
        ensures
            outcome(r) == Self::decoded(payload@),
    {
        let email = match payload.required_text("email") {
            Ok(v) => v,
            Err(e) => return Err(e),
        };
        let username = match payload.required_text("username") {
            Ok(v) => v,
            Err(e) => return Err(e),
        };
        let created_at = match payload.required_timestamp("created_at") {
            Ok(v) => v,
            Err(e) => return Err(e),
        };
        Ok(UserResponse { email, username, created_at })
    }

    /// Writes the response as a payload, which [`Self::decode`] reads back as the same
    /// response.
    pub fn encode(&self) -> (payload: Payload)
        ensures
            payload@ == self@.encoded(),
            Self::decoded(payload@) == Ok::<UserResponseView, DecodeError>(self@),
    {
        let mut payload = Payload::new();
        payload.put_text("email", self.email.as_str());
        payload.put_text("username", self.username.as_str());
        payload.put_timestamp("created_at", &self.created_at);
        proof {
            Self::lemma_round_trip(self@);
        }
        payload
    }

    /// Reading what was written gives the value back, as long as chrono reads each date
    /// and time back from its text. [`Self::encode`] writes only such values.
    pub proof fn lemma_round_trip(c: UserResponseView)
        requires
            c.reads_back(),
        ensures
            Self::decoded(c.encoded()) == Ok::<UserResponseView, DecodeError>(c),
    {
        broadcast use lemma_slot_push;

        lemma_keys_differ();
    }
}
} // verus!
