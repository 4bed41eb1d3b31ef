use crate::field::{
    optional_int, optional_text, optional_timestamp, outcome, reads_back, required_int,
    required_text, with_int, with_optional_int, with_optional_text, with_optional_timestamp,
    with_text, DecodeError, Optionality,
};
use crate::timestamp::{DateTimeFields, Timestamp};
use crate::update::UpdateContract;
use crate::wire::{lemma_slot_permutation, lemma_slot_push, slot, Members, Payload, Slot, ValueView};
use vstd::prelude::*;

verus! {

proof fn lemma_keys_differ()
    ensures
        "name"@ != "wallet_id"@,
        "name"@ != "category_id"@,
        "name"@ != "amount"@,
        "name"@ != "ts"@,
        "wallet_id"@ != "category_id"@,
        "wallet_id"@ != "amount"@,
        "wallet_id"@ != "ts"@,
        "category_id"@ != "amount"@,
        "category_id"@ != "ts"@,
        "amount"@ != "ts"@,
{
    reveal_strlit("name");
    reveal_strlit("wallet_id");
    reveal_strlit("category_id");
    reveal_strlit("amount");
    reveal_strlit("ts");
    assert("name"@.len() == 4);
    assert("wallet_id"@.len() == 9);
    assert("category_id"@.len() == 11);
    assert("amount"@.len() == 6);
    assert("ts"@.len() == 2);
}

/// Request to create a new transaction in the given wallet.
#[derive(Clone, Debug, PartialEq, Eq)]
pub struct TransactionCreationRequest {
    /// Name of the new transaction.
    pub name: String,
    /// Id of the wallet that the new transaction belongs to.
    pub wallet_id: i64,
    /// Id of the category that the new transaction belongs to.
    pub category_id: i64,
    /// Currency amount that this transaction represents, in the smallest unit of the currency,
    /// e.g. cent for euro and dollar.
    pub amount: i64,
    /// Timestamp of the new transaction, or `None` if the current time should be used.
    pub ts: Option<Timestamp>,
}

/// A [`TransactionCreationRequest`] as contracts speak of it.
pub struct TransactionCreationRequestView {
    pub name: Seq<char>,
    pub wallet_id: i64,
    pub category_id: i64,
    pub amount: i64,
    pub ts: Option<DateTimeFields>,
}

impl View for TransactionCreationRequest {
    type V = TransactionCreationRequestView;

    open spec fn view(&self) -> TransactionCreationRequestView {
        TransactionCreationRequestView {
            name: self.name@,
            wallet_id: self.wallet_id,
            category_id: self.category_id,
            amount: self.amount,
            ts: self.ts.deep_view(),
        }
    }
}

impl TransactionCreationRequestView {
    /// The moment of the transaction: the one that was given, or else the current
    /// time as the caller has read it.
    pub open spec fn resolved_ts(self, now: DateTimeFields) -> DateTimeFields {
        match self.ts {
            Some(ts) => ts,
            None => now,
        }
    }

    /// Whether every date and time in it is valid and is read back from its text.
    pub open spec fn reads_back(self) -> bool {
        reads_back(self.ts)
    }

    /// The payload that writes the request: every key, `null` for no timestamp.
    pub open spec fn encoded(self) -> Members {
        let members = Seq::empty();
        let members = with_text(members, "name"@, self.name);
        let members = with_int(members, "wallet_id"@, self.wallet_id);
        let members = with_int(members, "category_id"@, self.category_id);
        let members = with_int(members, "amount"@, self.amount);
        let members = with_optional_timestamp(members, "ts"@, self.ts, Optionality::Nullable);
        members
    }
}

impl TransactionCreationRequest {
    /// The moment of the transaction: the one that was given, or else the current
    /// time as the caller has read it.
    pub fn resolved_ts(&self, now: Timestamp) -> (ts: Timestamp)
        ensures
            ts@ == self@.resolved_ts(now@),
    {
        match self.ts {
            Some(ts) => ts,
            None => now,
        }
    }

    /// What the members of a payload say: the value of each field, or the fault of the
    /// first field, in the order of declaration, that has one.
    pub open spec fn decoded(members: Members) -> Result<
        TransactionCreationRequestView,
        DecodeError,
    > {
        let name = required_text(members, "name");
        let wallet_id = required_int(members, "wallet_id");
        let category_id = required_int(members, "category_id");
        let amount = required_int(members, "amount");
        let ts = optional_timestamp(members, "ts", Optionality::Nullable);
        if name is Err {
            Err(name->Err_0)
        } else if wallet_id is Err {
            Err(wallet_id->Err_0)
        } else if category_id is Err {
            Err(category_id->Err_0)
        } else if amount is Err {
            Err(amount->Err_0)
        } else if ts is Err {
            Err(ts->Err_0)
        } else {
            Ok(
                TransactionCreationRequestView {
                    name: name->Ok_0,
                    wallet_id: wallet_id->Ok_0,
                    category_id: category_id->Ok_0,
                    amount: amount->Ok_0,
                    ts: ts->Ok_0,
                },
            )
        }
    }

    /// Reads the request out of a payload. Members with a key that it does not declare
    /// are passed over.
    pub fn decode(payload: &Payload) -> (r: Result<Self, DecodeError>)
        ensures
            outcome(r) == Self::decoded(payload@),
    {
        let name = match payload.required_text("name") {
            Ok(v) => v,
            Err(e) => return Err(e),
        };
        let wallet_id = match payload.required_int("wallet_id") {
            Ok(v) => v,
            Err(e) => return Err(e),
        };
        let category_id = match payload.required_int("category_id") {
            Ok(v) => v,
            Err(e) => return Err(e),
        };
        let amount = match payload.required_int("amount") {
            Ok(v) => v,
            Err(e) => return Err(e),
        };
        let ts = match payload.optional_timestamp("ts", Optionality::Nullable) {
            Ok(v) => v,
            Err(e) => return Err(e),
        };
        Ok(TransactionCreationRequest { name, wallet_id, category_id, amount, ts })
    }

    /// Writes the request as a payload, which [`Self::decode`] reads back as the same
    /// request.
    pub fn encode(&self) -> (payload: Payload)
        ensures
            payload@ == self@.encoded(),
            Self::decoded(payload@) == Ok::<TransactionCreationRequestView, DecodeError>(self@),
    {
        let mut payload = Payload::new();
        payload.put_text("name", self.name.as_str());
        payload.put_int("wallet_id", self.wallet_id);
        payload.put_int("category_id", self.category_id);
        payload.put_int("amount", self.amount);
        payload.put_optional_timestamp("ts", &self.ts, Optionality::Nullable);
        proof {
            Self::lemma_round_trip(self@);
        }
        payload
    }

    /// Reading what was written gives the value back, as long as chrono reads each date
    /// and time back from its text. [`Self::encode`] writes only such values.
    pub proof fn lemma_round_trip(c: TransactionCreationRequestView)
        requires
            c.reads_back(),
        ensures
            Self::decoded(c.encoded()) == Ok::<TransactionCreationRequestView, DecodeError>(c),
    {
        broadcast use lemma_slot_push;

        lemma_keys_differ();
    }
}

/// Request to update an existing transaction.
///
/// Every field may be left out, which leaves it as it is. At least one field has to change for
/// the request to be valid.
#[derive(Clone, Debug, PartialEq, Eq)]
pub struct TransactionUpdateRequest {
    /// The new name of the transaction, or `None` if the name should remain unchanged.
    pub name: Option<String>,
    /// The new id of the wallet the transaction belongs to, or `None` if the id should remain
    /// unchanged.
    pub wallet_id: Option<i64>,
    /// The new id of the category the transaction belongs to, or `None` if the id should
    /// remain unchanged.
    pub category_id: Option<i64>,
    /// The new currency amount the transaction represents, or `None` if the amount should
    /// remain unchanged.
    pub amount: Option<i64>,
    /// The new timestamp of the transaction, or `None` if the timestamp should remain
    /// unchanged.
    pub ts: Option<Timestamp>,
}

/// A [`TransactionUpdateRequest`] as contracts speak of it.
pub struct TransactionUpdateRequestView {
    pub name: Option<Seq<char>>,
    pub wallet_id: Option<i64>,
    pub category_id: Option<i64>,
    pub amount: Option<i64>,
    pub ts: Option<DateTimeFields>,
}

impl View for TransactionUpdateRequest {
    type V = TransactionUpdateRequestView;

    open spec fn view(&self) -> TransactionUpdateRequestView {
        TransactionUpdateRequestView {
            name: self.name.deep_view(),
            wallet_id: self.wallet_id,
            category_id: self.category_id,
            amount: self.amount,
            ts: self.ts.deep_view(),
        }
    }
}

impl TransactionUpdateRequestView {
    /// Whether the request changes at least one field.
    pub open spec fn is_valid(self) -> bool {
        !(self.name is None
            && self.wallet_id is None
            && self.category_id is None
            && self.amount is None
            && self.ts is None)
    }

    /// Whether every date and time in it is valid and is read back from its text.
    pub open spec fn reads_back(self) -> bool {
        reads_back(self.ts)
    }

    /// The payload that writes the request: a key for each field that changes.
    pub open spec fn encoded(self) -> Members {
        let members = Seq::empty();
        let members = with_optional_text(members, "name"@, self.name, Optionality::TwoState);
        let members = with_optional_int(
            members,
            "wallet_id"@,
            self.wallet_id,
            Optionality::TwoState,
        );
        let members = with_optional_int(
            members,
            "category_id"@,
            self.category_id,
            Optionality::TwoState,
        );
        let members = with_optional_int(members, "amount"@, self.amount, Optionality::TwoState);
        let members = with_optional_timestamp(members, "ts"@, self.ts, Optionality::TwoState);
        members
    }
}

impl UpdateContract for TransactionUpdateRequest {
    open spec fn changes(&self) -> Seq<bool> {
        seq![
            self.name is Some,
            self.wallet_id is Some,
            self.category_id is Some,
            self.amount is Some,
            self.ts is Some,
        ]
    }

    fn field_count(&self) -> (n: usize) {
        5
    }

    fn changes_field(&self, index: usize) -> (b: bool) {
        if index == 0 {
            self.name.is_some()
        } else if index == 1 {
            self.wallet_id.is_some()
        } else if index == 2 {
            self.category_id.is_some()
        } else if index == 3 {
            self.amount.is_some()
        } else {
            self.ts.is_some()
        }
    }
}

impl TransactionUpdateRequest {
    /// Checks whether the request is valid, i.e., at least one field changes.
    pub fn is_valid(&self) -> (ok: bool)
        ensures
            ok == self@.is_valid(),
    {
        let ok = crate::update::is_valid(self);
        proof {
            if self@.is_valid() {
                let i: int = if self.name is Some {
                    0
                } else if self.wallet_id is Some {
                    1
                } else if self.category_id is Some {
                    2
                } else if self.amount is Some {
                    3
                } else {
                    4
                };
                assert(self.changes()[i]);
            }
        }
        ok
    }

    /// What the members of a payload say: the value of each field, or the fault of the
    /// first field, in the order of declaration, that has one.
    pub open spec fn decoded(members: Members) -> Result<
        TransactionUpdateRequestView,
        DecodeError,
    > {
        let name = optional_text(members, "name", Optionality::TwoState);
        let wallet_id = optional_int(members, "wallet_id", Optionality::TwoState);
        let category_id = optional_int(members, "category_id", Optionality::TwoState);
        let amount = optional_int(members, "amount", Optionality::TwoState);
        let ts = optional_timestamp(members, "ts", Optionality::TwoState);
        if name is Err {
            Err(name->Err_0)
        } else if wallet_id is Err {
            Err(wallet_id->Err_0)
        } else if category_id is Err {
            Err(category_id->Err_0)
        } else if amount is Err {
            Err(amount->Err_0)
        } else if ts is Err {
            Err(ts->Err_0)
        } else {
            Ok(
                TransactionUpdateRequestView {
                    name: name->Ok_0,
                    wallet_id: wallet_id->Ok_0,
                    category_id: category_id->Ok_0,
                    amount: amount->Ok_0,
                    ts: ts->Ok_0,
                },
            )
        }
    }

    /// Reads the request out of a payload. Members with a key that it does not declare
    /// are passed over.
    pub fn decode(payload: &Payload) -> (r: Result<Self, DecodeError>)
        ensures
            outcome(r) == Self::decoded(payload@),
    {
        let name = match payload.optional_text("name", Optionality::TwoState) {
            Ok(v) => v,
            Err(e) => return Err(e),
        };
        let wallet_id = match payload.optional_int("wallet_id", Optionality::TwoState) {
            Ok(v) => v,
            Err(e) => return Err(e),
        };
        let category_id = match payload.optional_int("category_id", Optionality::TwoState) {
            Ok(v) => v,
            Err(e) => return Err(e),
        };
        let amount = match payload.optional_int("amount", Optionality::TwoState) {
            Ok(v) => v,
            Err(e) => return Err(e),
        };
        let ts = match payload.optional_timestamp("ts", Optionality::TwoState) {
            Ok(v) => v,
            Err(e) => return Err(e),
        };
        Ok(TransactionUpdateRequest { name, wallet_id, category_id, amount, ts })
    }

    /// Writes the request as a payload, which [`Self::decode`] reads back as the same
    /// request.
    pub fn encode(&self) -> (payload: Payload)
        ensures
            payload@ == self@.encoded(),
            Self::decoded(payload@) == Ok::<TransactionUpdateRequestView, DecodeError>(self@),
    {
        let mut payload = Payload::new();
        payload.put_optional_text("name", &self.name, Optionality::TwoState);
        payload.put_optional_int("wallet_id", self.wallet_id, Optionality::TwoState);
        payload.put_optional_int("category_id", self.category_id, Optionality::TwoState);
        payload.put_optional_int("amount", self.amount, Optionality::TwoState);
        payload.put_optional_timestamp("ts", &self.ts, Optionality::TwoState);
        proof {
            Self::lemma_round_trip(self@);
        }
        payload
    }

    /// Reading what was written gives the value back, as long as chrono reads each date
    /// and time back from its text. [`Self::encode`] writes only such values.
    pub proof fn lemma_round_trip(c: TransactionUpdateRequestView)
        requires
            c.reads_back(),
        ensures
            Self::decoded(c.encoded()) == Ok::<TransactionUpdateRequestView, DecodeError>(c),
    {
        broadcast use lemma_slot_push;

        lemma_keys_differ();
    }

    /// Every field of this update is either left out or given a value: a payload that gives
    /// `null` to one holds no request.
    pub proof fn lemma_null_is_refused(members: Members, key: Seq<char>)
        requires
            key == "name"@
                || key == "wallet_id"@
                || key == "category_id"@
                || key == "amount"@
                || key == "ts"@,
            slot(members, key) == Slot::One(ValueView::Null),
        ensures
            Self::decoded(members) is Err,
    {
    }

    /// A request that was read from a payload is invalid exactly when the payload has
    /// none of the keys that the request declares.
    pub proof fn lemma_invalid_iff_no_key(members: Members)
        requires
            Self::decoded(members) is Ok,
        ensures
            !Self::decoded(members)->Ok_0.is_valid() <==> (slot(members, "name"@) is Absent
                && slot(members, "wallet_id"@) is Absent
                && slot(members, "category_id"@) is Absent
                && slot(members, "amount"@) is Absent
                && slot(members, "ts"@) is Absent),
    {
    }

    /// A payload holds the same request, or has the same fault, in whatever order its
    /// members stand. So the order decides nothing about validity either.
    pub proof fn lemma_order_independent(
        a: Members,
        b: Members,
    )
        requires
            a.to_multiset() == b.to_multiset(),
        ensures
            Self::decoded(a) == Self::decoded(b),
            Self::decoded(a) matches Ok(u) ==> Self::decoded(b) matches Ok(w) && u.is_valid()
                == w.is_valid(),
    {
        lemma_slot_permutation(a, b, "name"@);
        lemma_slot_permutation(a, b, "wallet_id"@);
        lemma_slot_permutation(a, b, "category_id"@);
        lemma_slot_permutation(a, b, "amount"@);
        lemma_slot_permutation(a, b, "ts"@);
    }
}
} // verus!
