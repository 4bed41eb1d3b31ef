use crate::field::{
    outcome, reads_back, required_int, required_text, required_timestamp, with_int, with_text,
    with_timestamp, DecodeError,
};
use crate::timestamp::{DateTimeFields, Timestamp};
use crate::wire::{lemma_slot_push, Members, Payload};
use vstd::prelude::*;

verus! {

proof fn lemma_keys_differ()
    ensures
        "id"@ != "name"@,
        "id"@ != "wallet_id"@,
        "id"@ != "category_id"@,
        "id"@ != "amount"@,
        "id"@ != "ts"@,
        "name"@ != "wallet_id"@,
        "name"@ != "category_id"@,
        "name"@ != "amount"@,
        "name"@ != "ts"@,
        "wallet_id"@ != "category_id"@,
        "wallet_id"@ != "amount"@,
        "wallet_id"@ != "ts"@,
        "category_id"@ != "amount"@,
        "category_id"@ != "ts"@,
        "amount"@ != "ts"@,
{
    reveal_strlit("id");
    reveal_strlit("name");
    reveal_strlit("wallet_id");
    reveal_strlit("category_id");
    reveal_strlit("amount");
    reveal_strlit("ts");
    assert("id"@.len() == 2);
    assert("name"@.len() == 4);
    assert("wallet_id"@.len() == 9);
    assert("category_id"@.len() == 11);
    assert("amount"@.len() == 6);
    assert("ts"@.len() == 2);
    assert("id"@[0] != "ts"@[0]);
}

/// Response containing details of a transaction.
#[derive(Clone, Debug, PartialEq, Eq)]
pub struct TransactionResponse {
    /// (Database) id of the transaction.
    ///
    /// Clients need this to reference the transaction in a request.
    pub id: i64,
    /// Human readable name of the transaction.
    pub name: String,
    /// (Database) id of the wallet this transaction belongs to.
    pub wallet_id: i64,
    /// (Database) id of the category this transaction belongs to.
    pub category_id: i64,
    /// Amount of money the transaction represents (in the smallest currency unit).
    pub amount: i64,
    /// Timestamp when the transaction was or will be executed.
    pub ts: Timestamp,
}

/// A [`TransactionResponse`] as contracts speak of it.
pub struct TransactionResponseView {
    pub id: i64,
    pub name: Seq<char>,
    pub wallet_id: i64,
    pub category_id: i64,
    pub amount: i64,
    pub ts: DateTimeFields,
}

impl View for TransactionResponse {
    type V = TransactionResponseView;

    open spec fn view(&self) -> TransactionResponseView {
        TransactionResponseView {
            id: self.id,
            name: self.name@,
            wallet_id: self.wallet_id,
            category_id: self.category_id,
            amount: self.amount,
            ts: self.ts@,
        }
    }
}

impl TransactionResponseView {
    /// Whether every date and time in it is valid and is read back from its text.
    pub open spec fn reads_back(self) -> bool {
        reads_back(Some(self.ts))
    }

    /// The payload that writes the response.
    pub open spec fn encoded(self) -> Members {
        let members = Seq::empty();
        let members = with_int(members, "id"@, self.id);
        let members = with_text(members, "name"@, self.name);
        let members = with_int(members, "wallet_id"@, self.wallet_id);
        let members = with_int(members, "category_id"@, self.category_id);
        let members = with_int(members, "amount"@, self.amount);
        let members = with_timestamp(members, "ts"@, self.ts);
        members
    }
}

impl TransactionResponse {
    /// What the members of a payload say: the value of each field, or the fault of the
    /// first field, in the order of declaration, that has one.
    pub open spec fn decoded(members: Members) -> Result<
        TransactionResponseView,
        DecodeError,
    > {
        let id = required_int(members, "id");
        let name = required_text(members, "name");
        let wallet_id = required_int(members, "wallet_id");
        let category_id = required_int(members, "category_id");
        let amount = required_int(members, "amount");
        let ts = required_timestamp(members, "ts");
        if id is Err {
            Err(id->Err_0)
        } else if name is Err {
            Err(name->Err_0)
        } else if wallet_id is Err {
            Err(wallet_id->Err_0)
        } else if category_id is Err {
            Err(category_id->Err_0)
        } else if amount is Err {
            Err(amount->Err_0)
        } else if ts is Err {
            Err(ts->Err_0)
        } else {
            Ok(
                TransactionResponseView {
                    id: id->Ok_0,
                    name: name->Ok_0,
                    wallet_id: wallet_id->Ok_0,
                    category_id: category_id->Ok_0,
                    amount: amount->Ok_0,
                    ts: ts->Ok_0,
                },
            )
        }
    }

    /// Reads the response out of a payload. Members with a key that it does not declare
    /// are passed over.
    pub fn decode(payload: &Payload) -> (r: Result<Self, DecodeError>)
        ensures
            outcome(r) == Self::decoded(payload@),
    {
        let id = match payload.required_int("id") {
            Ok(v) => v,
            Err(e) => return Err(e),
        };
        let name = match payload.required_text("name") {
            Ok(v) => v,
            Err(e) => return Err(e),
        };
        let wallet_id = match payload.required_int("wallet_id") {
            Ok(v) => v,
            Err(e) => return Err(e),
        };
        let category_id = match payload.required_int("category_id") {
            Ok(v) => v,
            Err(e) => return Err(e),
        };
        let amount = match payload.required_int("amount") {
            Ok(v) => v,
            Err(e) => return Err(e),
        };
        let ts = match payload.required_timestamp("ts") {
            Ok(v) => v,
            Err(e) => return Err(e),
        };
        Ok(TransactionResponse { id, name, wallet_id, category_id, amount, ts })
    }

    /// Writes the response as a payload, which [`Self::decode`] reads back as the same
    /// response.
    pub fn encode(&self) -> (payload: Payload)
        ensures
            payload@ == self@.encoded(),
            Self::decoded(payload@) == Ok::<TransactionResponseView, DecodeError>(self@),
    {
        let mut payload = Payload::new();
        payload.put_int("id", self.id);
        payload.put_text("name", self.name.as_str());
        payload.put_int("wallet_id", self.wallet_id);
        payload.put_int("category_id", self.category_id);
        payload.put_int("amount", self.amount);
        payload.put_timestamp("ts", &self.ts);
        proof {
            Self::lemma_round_trip(self@);
        }
        payload
    }

    /// Reading what was written gives the value back, as long as chrono reads each date
    /// and time back from its text. [`Self::encode`] writes only such values.
    pub proof fn lemma_round_trip(c: TransactionResponseView)
        requires
            c.reads_back(),
        ensures
            Self::decoded(c.encoded()) == Ok::<TransactionResponseView, DecodeError>(c),
    {
        broadcast use lemma_slot_push;

        lemma_keys_differ();
    }
}
} // verus!
