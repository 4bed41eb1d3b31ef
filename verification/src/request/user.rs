use crate::field::{
    optional_text, outcome, required_text, with_optional_text, with_text, DecodeError, Optionality,
};
use crate::update::UpdateContract;
use crate::wire::{lemma_slot_permutation, lemma_slot_push, slot, Members, Payload, Slot, ValueView};
use vstd::prelude::*;

verus! {

proof fn lemma_keys_differ()
    ensures
        "email"@ != "password"@,
        "email"@ != "name"@,
        "password"@ != "name"@,
{
    reveal_strlit("email");
    reveal_strlit("password");
    reveal_strlit("name");
    assert("email"@.len() == 5);
    assert("password"@.len() == 8);
    assert("name"@.len() == 4);
}

/// Request to create a new user account.
#[derive(Clone, Debug, PartialEq, Eq)]
pub struct UserCreationRequest {
    /// Email address that the user entered.
    pub email: String,
    /// Password that the user entered.
    pub password: String,
    /// The name that the user entered.
    ///
    /// May be `None`, in which case the email is used as the name.
    pub name: Option<String>,
}

/// A [`UserCreationRequest`] as contracts speak of it.
pub struct UserCreationRequestView {
    pub email: Seq<char>,
    pub password: Seq<char>,
    pub name: Option<Seq<char>>,
}

impl View for UserCreationRequest {
    type V = UserCreationRequestView;

    open spec fn view(&self) -> UserCreationRequestView {
        UserCreationRequestView {
            email: self.email@,
            password: self.password@,
            name: self.name.deep_view(),
        }
    }
}

impl UserCreationRequestView {
    /// The name that the account gets: the one that was entered, or else the email
    /// address.
    pub open spec fn resolved_name(self) -> Seq<char> {
        match self.name {
            Some(name) => name,
            None => self.email,
        }
    }

    /// The payload that writes the request: every key, `null` for no name.
    pub open spec fn encoded(self) -> Members {
        let members = Seq::empty();
        let members = with_text(members, "email"@, self.email);
        let members = with_text(members, "password"@, self.password);
        let members = with_optional_text(members, "name"@, self.name, Optionality::Nullable);
        members
    }
}

impl UserCreationRequest {
    /// Construct a new `UserCreationRequest` with all fields set.
    pub fn new(email: String, password: String, name: Option<String>) -> (r: Self)
        ensures
            r.email == email,
            r.password == password,
            r.name == name,
    {
        Self { email, password, name }
    }

    /// Construct a new `UserCreationRequest` without giving a name.
    pub fn without_name(email: String, password: String) -> (r: Self)
        ensures
            r.email == email,
            r.password == password,
            r.name is None,
    {
        Self::new(email, password, None)
    }

    /// The name that the account gets: the one that was entered, or else the email
    /// address.
    pub fn resolved_name(&self) -> (name: String)
        ensures
            name@ == self@.resolved_name(),
    {
        match &self.name {
            Some(name) => name.clone(),
            None => self.email.clone(),
        }
    }

    /// What the members of a payload say: the value of each field, or the fault of the
    /// first field, in the order of declaration, that has one.
    pub open spec fn decoded(members: Members) -> Result<
        UserCreationRequestView,
        DecodeError,
    > {
        let email = required_text(members, "email");
        let password = required_text(members, "password");
        let name = optional_text(members, "name", Optionality::Nullable);
        if email is Err {
            Err(email->Err_0)
        } else if password is Err {
            Err(password->Err_0)
        } else if name is Err {
            Err(name->Err_0)
        } else {
            Ok(
                UserCreationRequestView {
                    email: email->Ok_0,
                    password: password->Ok_0,
                    name: name->Ok_0,
                },
            )
        }
    }

    /// Reads the request out of a payload. Members with a key that it does not declare
    /// are passed over.
    pub fn decode(payload: &Payload) -> (r: Result<Self, DecodeError>)
        ensures
            outcome(r) == Self::decoded(payload@),
    {
        let email = match payload.required_text("email") {
            Ok(v) => v,
            Err(e) => return Err(e),
        };
        let password = match payload.required_text("password") {
            Ok(v) => v,
            Err(e) => return Err(e),
        };
        let name = match payload.optional_text("name", Optionality::Nullable) {
            Ok(v) => v,
            Err(e) => return Err(e),
        };
        Ok(UserCreationRequest { email, password, name })
    }

    /// Writes the request as a payload, which [`Self::decode`] reads back as the same
    /// request.
    pub fn encode(&self) -> (payload: Payload)
        ensures
            payload@ == self@.encoded(),
            Self::decoded(payload@) == Ok::<UserCreationRequestView, DecodeError>(self@),
    {
        let mut payload = Payload::new();
        payload.put_text("email", self.email.as_str());
        payload.put_text("password", self.password.as_str());
        payload.put_optional_text("name", &self.name, Optionality::Nullable);
        proof {
            Self::lemma_round_trip(self@);
        }
        payload
    }

    /// A payload without the key `name` that holds a request gives the account the
    /// email address it supplies as its name.
    pub proof fn lemma_name_defaults_to_email(members: Members)
        requires
            slot(members, "name"@) is Absent,
            Self::decoded(members) is Ok,
        ensures
            Self::decoded(members)->Ok_0.name is None,
            Self::decoded(members)->Ok_0.resolved_name() == Self::decoded(members)->Ok_0.email,
            required_text(members, "email") == Ok::<Seq<char>, DecodeError>(
                Self::decoded(members)->Ok_0.resolved_name(),
            ),
    {
    }

    /// Reading what was written gives the value back.
    pub proof fn lemma_round_trip(c: UserCreationRequestView)
        ensures
            Self::decoded(c.encoded()) == Ok::<UserCreationRequestView, DecodeError>(c),
    {
        broadcast use lemma_slot_push;

        lemma_keys_differ();
    }
}

/// Request to update an existing user account.
///
/// Every field may be left out, which leaves it as it is. At least one field has to change for
/// the request to be valid.
#[derive(Clone, Debug, PartialEq, Eq)]
pub struct UserUpdateRequest {
    /// The new email address of the user, or `None` if the email address should remain
    /// unchanged.
    pub email: Option<String>,
    /// The new password of the user, or `None` if the password should remain unchanged.
    pub password: Option<String>,
    /// The new name of the user, or `None` if the name should remain unchanged.
    pub name: Option<String>,
}

/// A [`UserUpdateRequest`] as contracts speak of it.
pub struct UserUpdateRequestView {
    pub email: Option<Seq<char>>,
    pub password: Option<Seq<char>>,
    pub name: Option<Seq<char>>,
}

impl View for UserUpdateRequest {
    type V = UserUpdateRequestView;

    open spec fn view(&self) -> UserUpdateRequestView {
        UserUpdateRequestView {
            email: self.email.deep_view(),
            password: self.password.deep_view(),
            name: self.name.deep_view(),
        }
    }
}

impl UserUpdateRequestView {
    /// Whether the request changes at least one field.
    pub open spec fn is_valid(self) -> bool {
        !(self.email is None && self.password is None && self.name is None)
    }

    /// The payload that writes the request: a key for each field that changes.
    pub open spec fn encoded(self) -> Members {
        let members = Seq::empty();
        let members = with_optional_text(members, "email"@, self.email, Optionality::TwoState);
        let members = with_optional_text(
            members,
            "password"@,
            self.password,
            Optionality::TwoState,
        );
        let members = with_optional_text(members, "name"@, self.name, Optionality::TwoState);
        members
    }
}

impl UpdateContract for UserUpdateRequest {
    open spec fn changes(&self) -> Seq<bool> {
        seq![self.email is Some, self.password is Some, self.name is Some]
    }

    fn field_count(&self) -> (n: usize) {
        3
    }

    fn changes_field(&self, index: usize) -> (b: bool) {
        if index == 0 {
            self.email.is_some()
        } else if index == 1 {
            self.password.is_some()
        } else {
            self.name.is_some()
        }
    }
}

impl UserUpdateRequest {
    /// Checks whether the request is valid, i.e., at least one field changes.
    pub fn is_valid(&self) -> (ok: bool)
        ensures
            ok == self@.is_valid(),
    {
        let ok = crate::update::is_valid(self);
        proof {
            if self@.is_valid() {
                let i: int = if self.email is Some {
                    0
                } else if self.password is Some {
                    1
                } else {
                    2
                };
                assert(self.changes()[i]);
            }
        }
        ok
    }

    /// What the members of a payload say: the value of each field, or the fault of the
    /// first field, in the order of declaration, that has one.
    pub open spec fn decoded(members: Members) -> Result<
        UserUpdateRequestView,
        DecodeError,
    > {
        let email = optional_text(members, "email", Optionality::TwoState);
        let password = optional_text(members, "password", Optionality::TwoState);
        let name = optional_text(members, "name", Optionality::TwoState);
        if email is Err {
            Err(email->Err_0)
        } else if password is Err {
            Err(password->Err_0)
        } else if name is Err {
            Err(name->Err_0)
        } else {
            Ok(
                UserUpdateRequestView {
                    email: email->Ok_0,
                    password: password->Ok_0,
                    name: name->Ok_0,
                },
            )
        }
    }

    /// Reads the request out of a payload. Members with a key that it does not declare
    /// are passed over.
    pub fn decode(payload: &Payload) -> (r: Result<Self, DecodeError>)
        ensures
            outcome(r) == Self::decoded(payload@),
    {
        let email = match payload.optional_text("email", Optionality::TwoState) {
            Ok(v) => v,
            Err(e) => return Err(e),
        };
        let password = match payload.optional_text("password", Optionality::TwoState) {
            Ok(v) => v,
            Err(e) => return Err(e),
        };
        let name = match payload.optional_text("name", Optionality::TwoState) {
            Ok(v) => v,
            Err(e) => return Err(e),
        };
        Ok(UserUpdateRequest { email, password, name })
    }

    /// Writes the request as a payload, which [`Self::decode`] reads back as the same
    /// request.
    pub fn encode(&self) -> (payload: Payload)
        ensures
            payload@ == self@.encoded(),
            Self::decoded(payload@) == Ok::<UserUpdateRequestView, DecodeError>(self@),
    {
        let mut payload = Payload::new();
        payload.put_optional_text("email", &self.email, Optionality::TwoState);
        payload.put_optional_text("password", &self.password, Optionality::TwoState);
        payload.put_optional_text("name", &self.name, Optionality::TwoState);
        proof {
            Self::lemma_round_trip(self@);
        }
        payload
    }

    /// Reading what was written gives the value back.
    pub proof fn lemma_round_trip(c: UserUpdateRequestView)
        ensures
            Self::decoded(c.encoded()) == Ok::<UserUpdateRequestView, DecodeError>(c),
    {
        broadcast use lemma_slot_push;

        lemma_keys_differ();
    }

    /// Every field of this update is either left out or given a value: a payload that gives
    /// `null` to one holds no request.
    pub proof fn lemma_null_is_refused(members: Members, key: Seq<char>)
        requires
            key == "email"@ || key == "password"@ || key == "name"@,
            slot(members, key) == Slot::One(ValueView::Null),
        ensures
            Self::decoded(members) is Err,
    {
    }

    /// A request that was read from a payload is invalid exactly when the payload has
    /// none of the keys that the request declares.
    pub proof fn lemma_invalid_iff_no_key(members: Members)
        requires
            Self::decoded(members) is Ok,
        ensures
            !Self::decoded(members)->Ok_0.is_valid() <==> (slot(members, "email"@) is Absent
                && slot(members, "password"@) is Absent
                && slot(members, "name"@) is Absent),
    {
    }

    /// A payload holds the same request, or has the same fault, in whatever order its
    /// members stand. So the order decides nothing about validity either.
    pub proof fn lemma_order_independent(
        a: Members,
        b: Members,
    )
        requires
            a.to_multiset() == b.to_multiset(),
        ensures
            Self::decoded(a) == Self::decoded(b),
            Self::decoded(a) matches Ok(u) ==> Self::decoded(b) matches Ok(w) && u.is_valid()
                == w.is_valid(),
    {
        lemma_slot_permutation(a, b, "email"@);
        lemma_slot_permutation(a, b, "password"@);
        lemma_slot_permutation(a, b, "name"@);
    }
}

/// Request for an authentication token.
///
/// As the backend uses tokens for all API resources, a user must first obtain a token from
/// email and password before performing any action.
#[derive(Clone, Debug, PartialEq, Eq)]
pub struct TokenRequest {
    /// The email address of the user that wishes to authenticate.
    pub email: String,
    /// The password of the user that wishes to authenticate.
    pub password: String,
}

/// A [`TokenRequest`] as contracts speak of it.
pub struct TokenRequestView {
    pub email: Seq<char>,
    pub password: Seq<char>,
}

impl View for TokenRequest {
    type V = TokenRequestView;

    open spec fn view(&self) -> TokenRequestView {
        TokenRequestView { email: self.email@, password: self.password@ }
    }
}

impl TokenRequestView {
    /// The payload that writes the request.
    pub open spec fn encoded(self) -> Members {
        let members = Seq::empty();
        let members = with_text(members, "email"@, self.email);
        let members = with_text(members, "password"@, self.password);
        members
    }
}

impl TokenRequest {
    /// What the members of a payload say: the value of each field, or the fault of the
    /// first field, in the order of declaration, that has one.
    pub open spec fn decoded(members: Members) -> Result<
        TokenRequestView,
        DecodeError,
    > {
        let email = required_text(members, "email");
        let password = required_text(members, "password");
        if email is Err {
            Err(email->Err_0)
        } else if password is Err {
            Err(password->Err_0)
        } else {
            Ok(TokenRequestView { email: email->Ok_0, password: password->Ok_0 })
        }
    }

    /// Reads the request out of a payload. Members with a key that it does not declare
    /// are passed over.
    pub fn decode(payload: &Payload) -> (r: Result<Self, DecodeError>)
        ensures
            outcome(r) == Self::decoded(payload@),
    {
        let email = match payload.required_text("email") {
            Ok(v) => v,
            Err(e) => return Err(e),
        };
        let password = match payload.required_text("password") {
            Ok(v) => v,
            Err(e) => return Err(e),
        };
        Ok(TokenRequest { email, password })
    }

    /// Writes the request as a payload, which [`Self::decode`] reads back as the same
    /// request.
    pub fn encode(&self) -> (payload: Payload)
        ensures
            payload@ == self@.encoded(),
            Self::decoded(payload@) == Ok::<TokenRequestView, DecodeError>(self@),
    {
        let mut payload = Payload::new();
        payload.put_text("email", self.email.as_str());
        payload.put_text("password", self.password.as_str());
        proof {
            Self::lemma_round_trip(self@);
        }
        payload
    }

    /// Reading what was written gives the value back.
    pub proof fn lemma_round_trip(c: TokenRequestView)
        ensures
            Self::decoded(c.encoded()) == Ok::<TokenRequestView, DecodeError>(c),
    {
        broadcast use lemma_slot_push;

        lemma_keys_differ();
    }
}
} // verus!
