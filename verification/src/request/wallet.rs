use crate::field::{
    optional_int, optional_text, outcome, required_text, with_optional_int, with_optional_text,
    with_text, DecodeError, Optionality,
};
use crate::update::UpdateContract;
use crate::wire::{lemma_slot_permutation, lemma_slot_push, slot, Members, Payload, Slot, ValueView};
use vstd::prelude::*;

verus! {

proof fn lemma_keys_differ()
    ensures
        "name"@ != "wallet_type"@,
        "name"@ != "balance"@,
        "name"@ != "color"@,
        "wallet_type"@ != "balance"@,
        "wallet_type"@ != "color"@,
        "balance"@ != "color"@,
{
    reveal_strlit("name");
    reveal_strlit("wallet_type");
    reveal_strlit("balance");
    reveal_strlit("color");
    assert("name"@.len() == 4);
    assert("wallet_type"@.len() == 11);
    assert("balance"@.len() == 7);
    assert("color"@.len() == 5);
}

/// Request to create a new wallet.
#[derive(Clone, Debug, PartialEq, Eq)]
pub struct WalletCreationRequest {
    /// Name of the wallet to create.
    pub name: String,
    /// Type of the wallet to create. The set of types is open.
    pub wallet_type: String,
    /// Initial balance of the wallet to create, in the smallest unit of the currency.
    ///
    /// May be `None`, in which case the wallet starts with a balance of zero.
    pub balance: Option<i64>,
    /// (Background) color of the wallet to create.
    ///
    /// May be `None`, in which case a random color is assigned.
    pub color: Option<String>,
}

/// A [`WalletCreationRequest`] as contracts speak of it.
pub struct WalletCreationRequestView {
    pub name: Seq<char>,
    pub wallet_type: Seq<char>,
    pub balance: Option<i64>,
    pub color: Option<Seq<char>>,
}

impl View for WalletCreationRequest {
    type V = WalletCreationRequestView;

    open spec fn view(&self) -> WalletCreationRequestView {
        WalletCreationRequestView {
            name: self.name@,
            wallet_type: self.wallet_type@,
            balance: self.balance,
            color: self.color.deep_view(),
        }
    }
}

impl WalletCreationRequestView {
    /// The balance that the wallet starts with: the one that was given, or else zero.
    pub open spec fn resolved_balance(self) -> i64 {
        match self.balance {
            Some(balance) => balance,
            None => 0,
        }
    }

    /// The color that the wallet gets: the one that was given, or else the one that
    /// the caller has picked for it.
    pub open spec fn resolved_color(self, picked: Seq<char>) -> Seq<char> {
        match self.color {
            Some(color) => color,
            None => picked,
        }
    }

    /// The payload that writes the request: every key, `null` for what was not given.
    pub open spec fn encoded(self) -> Members {
        let members = Seq::empty();
        let members = with_text(members, "name"@, self.name);
        let members = with_text(members, "wallet_type"@, self.wallet_type);
        let members = with_optional_int(members, "balance"@, self.balance, Optionality::Nullable);
        let members = with_optional_text(members, "color"@, self.color, Optionality::Nullable);
        members
    }
}

impl WalletCreationRequest {
    /// The balance that the wallet starts with: the one that was given, or else zero.
    pub fn resolved_balance(&self) -> (balance: i64)
        ensures
            balance == self@.resolved_balance(),
    {
        match self.balance {
            Some(balance) => balance,
            None => 0,
        }
    }

    /// The color that the wallet gets: the one that was given, or else the one that
    /// the caller has picked for it.
    pub fn resolved_color(&self, picked: &str) -> (color: String)
        ensures
            color@ == self@.resolved_color(picked@),
    {
        match &self.color {
            Some(color) => color.clone(),
            None => picked.to_owned(),
        }
    }

    /// What the members of a payload say: the value of each field, or the fault of the
    /// first field, in the order of declaration, that has one.
    pub open spec fn decoded(members: Members) -> Result<
        WalletCreationRequestView,
        DecodeError,
    > {
        let name = required_text(members, "name");
        let wallet_type = required_text(members, "wallet_type");
        let balance = optional_int(members, "balance", Optionality::Nullable);
        let color = optional_text(members, "color", Optionality::Nullable);
        if name is Err {
            Err(name->Err_0)
        } else if wallet_type is Err {
            Err(wallet_type->Err_0)
        } else if balance is Err {
            Err(balance->Err_0)
        } else if color is Err {
            Err(color->Err_0)
        } else {
            Ok(
                WalletCreationRequestView {
                    name: name->Ok_0,
                    wallet_type: wallet_type->Ok_0,
                    balance: balance->Ok_0,
                    color: color->Ok_0,
                },
            )
        }
    }

    /// Reads the request out of a payload. Members with a key that it does not declare
    /// are passed over.
    pub fn decode(payload: &Payload) -> (r: Result<Self, DecodeError>)
        ensures
            outcome(r) == Self::decoded(payload@),
    {
        let name = match payload.required_text("name") {
            Ok(v) => v,
            Err(e) => return Err(e),
        };
        let wallet_type = match payload.required_text("wallet_type") {
            Ok(v) => v,
            Err(e) => return Err(e),
        };
        let balance = match payload.optional_int("balance", Optionality::Nullable) {
            Ok(v) => v,
            Err(e) => return Err(e),
        };
        let color = match payload.optional_text("color", Optionality::Nullable) {
            Ok(v) => v,
            Err(e) => return Err(e),
        };
        Ok(WalletCreationRequest { name, wallet_type, balance, color })
    }

    /// Writes the request as a payload, which [`Self::decode`] reads back as the same
    /// request.
    pub fn encode(&self) -> (payload: Payload)
        ensures
            payload@ == self@.encoded(),
            Self::decoded(payload@) == Ok::<WalletCreationRequestView, DecodeError>(self@),
    {
        let mut payload = Payload::new();
        payload.put_text("name", self.name.as_str());
        payload.put_text("wallet_type", self.wallet_type.as_str());
        payload.put_optional_int("balance", self.balance, Optionality::Nullable);
        payload.put_optional_text("color", &self.color, Optionality::Nullable);
        proof {
            Self::lemma_round_trip(self@);
        }
        payload
    }

    /// A payload without the key `balance` that holds a request starts the wallet
    /// with a balance of zero.
    pub proof fn lemma_balance_defaults_to_zero(members: Members)
        requires
            slot(members, "balance"@) is Absent,
            Self::decoded(members) is Ok,
        ensures
            Self::decoded(members)->Ok_0.balance is None,
            Self::decoded(members)->Ok_0.resolved_balance() == 0,
    {
    }

    /// Reading what was written gives the value back.
    pub proof fn lemma_round_trip(c: WalletCreationRequestView)
        ensures
            Self::decoded(c.encoded()) == Ok::<WalletCreationRequestView, DecodeError>(c),
    {
        broadcast use lemma_slot_push;

        lemma_keys_differ();
    }
}

/// Request to update an existing wallet.
///
/// Every field may be left out, which leaves it as it is. At least one field has to change for
/// the request to be valid.
#[derive(Clone, Debug, PartialEq, Eq)]
pub struct WalletUpdateRequest {
    /// The new name of the wallet, or `None` if the name should remain unchanged.
    pub name: Option<String>,
    /// The new type of the wallet, or `None` if the type should remain unchanged.
    pub wallet_type: Option<String>,
    /// The new color of the wallet, or `None` if the color should remain unchanged.
    pub color: Option<String>,
}

/// A [`WalletUpdateRequest`] as contracts speak of it.
pub struct WalletUpdateRequestView {
    pub name: Option<Seq<char>>,
    pub wallet_type: Option<Seq<char>>,
    pub color: Option<Seq<char>>,
}

impl View for WalletUpdateRequest {
    type V = WalletUpdateRequestView;

    open spec fn view(&self) -> WalletUpdateRequestView {
        WalletUpdateRequestView {
            name: self.name.deep_view(),
            wallet_type: self.wallet_type.deep_view(),
            color: self.color.deep_view(),
        }
    }
}

impl WalletUpdateRequestView {
    /// Whether the request changes at least one field.
    pub open spec fn is_valid(self) -> bool {
        !(self.name is None && self.wallet_type is None && self.color is None)
    }

    /// The payload that writes the request: a key for each field that changes.
    pub open spec fn encoded(self) -> Members {
        let members = Seq::empty();
        let members = with_optional_text(members, "name"@, self.name, Optionality::TwoState);
        let members = with_optional_text(
            members,
            "wallet_type"@,
            self.wallet_type,
            Optionality::TwoState,
        );
        let members = with_optional_text(members, "color"@, self.color, Optionality::TwoState);
        members
    }
}

impl UpdateContract for WalletUpdateRequest {
    open spec fn changes(&self) -> Seq<bool> {
        seq![self.name is Some, self.wallet_type is Some, self.color is Some]
    }

    fn field_count(&self) -> (n: usize) {
        3
    }

    fn changes_field(&self, index: usize) -> (b: bool) {
        if index == 0 {
            self.name.is_some()
        } else if index == 1 {
            self.wallet_type.is_some()
        } else {
            self.color.is_some()
        }
    }
}

impl WalletUpdateRequest {
    /// Checks whether the request is valid, i.e., at least one field changes.
    pub fn is_valid(&self) -> (ok: bool)
        ensures
            ok == self@.is_valid(),
    {
        let ok = crate::update::is_valid(self);
        proof {
            if self@.is_valid() {
                let i: int = if self.name is Some {
                    0
                } else if self.wallet_type is Some {
                    1
                } else {
                    2
                };
                assert(self.changes()[i]);
            }
        }
        ok
    }

    /// What the members of a payload say: the value of each field, or the fault of the
    /// first field, in the order of declaration, that has one.
    pub open spec fn decoded(members: Members) -> Result<
        WalletUpdateRequestView,
        DecodeError,
    > {
        let name = optional_text(members, "name", Optionality::TwoState);
        let wallet_type = optional_text(members, "wallet_type", Optionality::TwoState);
        let color = optional_text(members, "color", Optionality::TwoState);
        if name is Err {
            Err(name->Err_0)
        } else if wallet_type is Err {
            Err(wallet_type->Err_0)
        } else if color is Err {
            Err(color->Err_0)
        } else {
            Ok(
                WalletUpdateRequestView {
                    name: name->Ok_0,
                    wallet_type: wallet_type->Ok_0,
                    color: color->Ok_0,
                },
            )
        }
    }

    /// Reads the request out of a payload. Members with a key that it does not declare
    /// are passed over.
    pub fn decode(payload: &Payload) -> (r: Result<Self, DecodeError>)
        ensures
            outcome(r) == Self::decoded(payload@),
    {
        let name = match payload.optional_text("name", Optionality::TwoState) {
            Ok(v) => v,
            Err(e) => return Err(e),
        };
        let wallet_type = match payload.optional_text("wallet_type", Optionality::TwoState) {
            Ok(v) => v,
            Err(e) => return Err(e),
        };
        let color = match payload.optional_text("color", Optionality::TwoState) {
            Ok(v) => v,
            Err(e) => return Err(e),
        };
        Ok(WalletUpdateRequest { name, wallet_type, color })
    }

    /// Writes the request as a payload, which [`Self::decode`] reads back as the same
    /// request.
    pub fn encode(&self) -> (payload: Payload)
        ensures
            payload@ == self@.encoded(),
            Self::decoded(payload@) == Ok::<WalletUpdateRequestView, DecodeError>(self@),
    {
        let mut payload = Payload::new();
        payload.put_optional_text("name", &self.name, Optionality::TwoState);
        payload.put_optional_text("wallet_type", &self.wallet_type, Optionality::TwoState);
        payload.put_optional_text("color", &self.color, Optionality::TwoState);
        proof {
            Self::lemma_round_trip(self@);
        }
        payload
    }

    /// Reading what was written gives the value back.
    pub proof fn lemma_round_trip(c: WalletUpdateRequestView)
        ensures
            Self::decoded(c.encoded()) == Ok::<WalletUpdateRequestView, DecodeError>(c),
    {
        broadcast use lemma_slot_push;

        lemma_keys_differ();
    }

    /// Every field of this update is either left out or given a value: a payload that gives
    /// `null` to one holds no request.
    pub proof fn lemma_null_is_refused(members: Members, key: Seq<char>)
        requires
            key == "name"@ || key == "wallet_type"@ || key == "color"@,
            slot(members, key) == Slot::One(ValueView::Null),
        ensures
            Self::decoded(members) is Err,
    {
    }

    /// A request that was read from a payload is invalid exactly when the payload has
    /// none of the keys that the request declares.
    pub proof fn lemma_invalid_iff_no_key(members: Members)
        requires
            Self::decoded(members) is Ok,
        ensures
            !Self::decoded(members)->Ok_0.is_valid() <==> (slot(members, "name"@) is Absent
                && slot(members, "wallet_type"@) is Absent
                && slot(members, "color"@) is Absent),
    {
    }

    /// A payload holds the same request, or has the same fault, in whatever order its
    /// members stand. So the order decides nothing about validity either.
    pub proof fn lemma_order_independent(
        a: Members,
        b: Members,
    )
        requires
            a.to_multiset() == b.to_multiset(),
        ensures
            Self::decoded(a) == Self::decoded(b),
            Self::decoded(a) matches Ok(u) ==> Self::decoded(b) matches Ok(w) && u.is_valid()
                == w.is_valid(),
    {
        lemma_slot_permutation(a, b, "name"@);
        lemma_slot_permutation(a, b, "wallet_type"@);
        lemma_slot_permutation(a, b, "color"@);
    }
}
} // verus!
