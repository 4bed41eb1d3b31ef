use crate::field::{
    outcome, reads_back, required_int, required_text, required_timestamp, with_int, with_text,
    with_timestamp, DecodeError,
};
use crate::timestamp::{DateTimeFields, Timestamp};
use crate::wire::{lemma_slot_push, Members, Payload};
use vstd::prelude::*;

verus! {

proof fn lemma_keys_differ()
    ensures
        "id"@ != "name"@,
        "id"@ != "wallet_type"@,
        "id"@ != "current_balance"@,
        "id"@ != "color"@,
        "id"@ != "created_at"@,
        "name"@ != "wallet_type"@,
        "name"@ != "current_balance"@,
        "name"@ != "color"@,
        "name"@ != "created_at"@,
        "wallet_type"@ != "current_balance"@,
        "wallet_type"@ != "color"@,
        "wallet_type"@ != "created_at"@,
        "current_balance"@ != "color"@,
        "current_balance"@ != "created_at"@,
        "color"@ != "created_at"@,
{
    reveal_strlit("id");
    reveal_strlit("name");
    reveal_strlit("wallet_type");
    reveal_strlit("current_balance");
    reveal_strlit("color");
    reveal_strlit("created_at");
    assert("id"@.len() == 2);
    assert("name"@.len() == 4);
    assert("wallet_type"@.len() == 11);
    assert("current_balance"@.len() == 15);
    assert("color"@.len() == 5);
    assert("created_at"@.len() == 10);
}

/// Response containing details of a wallet.
#[derive(Clone, Debug, PartialEq, Eq)]
pub struct WalletResponse {
    /// (Database) id of the wallet.
    ///
    /// Clients need this to reference the wallet in a request.
    pub id: i64,
    /// User chosen name of the wallet.
    pub name: String,
    /// Type of the wallet, e.g., credit-card, checking account etc.
    pub wallet_type: String,
    /// Current balance of the wallet.
    pub current_balance: i64,
    /// User chosen color of the wallet to represent it in client applications.
    pub color: String,
    /// Timestamp when the wallet was created.
    pub created_at: Timestamp,
}

/// A [`WalletResponse`] as contracts speak of it.
pub struct WalletResponseView {
    pub id: i64,
    pub name: Seq<char>,
    pub wallet_type: Seq<char>,
    pub current_balance: i64,
    pub color: Seq<char>,
    pub created_at: DateTimeFields,
}

impl View for WalletResponse {
    type V = WalletResponseView;

    open spec fn view(&self) -> WalletResponseView {
        WalletResponseView {
            id: self.id,
            name: self.name@,
            wallet_type: self.wallet_type@,
            current_balance: self.current_balance,
            color: self.color@,
            created_at: self.created_at@,
        }
    }
}

impl WalletResponseView {
    /// Whether every date and time in it is valid and is read back from its text.
    pub open spec fn reads_back(self) -> bool {
        reads_back(Some(self.created_at))
    }

    /// The payload that writes the response.
    pub open spec fn encoded(self) -> Members {
        let members = Seq::empty();
        let members = with_int(members, "id"@, self.id);
        let members = with_text(members, "name"@, self.name);
        let members = with_text(members, "wallet_type"@, self.wallet_type);
        let members = with_int(members, "current_balance"@, self.current_balance);
        let members = with_text(members, "color"@, self.color);
        let members = with_timestamp(members, "created_at"@, self.created_at);
        members
    }
}

impl WalletResponse {
    /// What the members of a payload say: the value of each field, or the fault of the
    /// first field, in the order of declaration, that has one.
    pub open spec fn decoded(members: Members) -> Result<
        WalletResponseView,
        DecodeError,
    > {
        let id = required_int(members, "id");
        let name = required_text(members, "name");
        let wallet_type = required_text(members, "wallet_type");
        let current_balance = required_int(members, "current_balance");
        let color = required_text(members, "color");
        let created_at = required_timestamp(members, "created_at");
        if id is Err {
            Err(id->Err_0)
        } else if name is Err {
            Err(name->Err_0)
        } else if wallet_type is Err {
            Err(wallet_type->Err_0)
        } else if current_balance is Err {
            Err(current_balance->Err_0)
        } else if color is Err {
            Err(color->Err_0)
        } else if created_at is Err {
            Err(created_at->Err_0)
        } else {
            Ok(
                WalletResponseView {
                    id: id->Ok_0,
                    name: name->Ok_0,
                    wallet_type: wallet_type->Ok_0,
                    current_balance: current_balance->Ok_0,
                    color: color->Ok_0,
                    created_at: created_at->Ok_0,
                },
            )
        }
    }

    /// Reads the response out of a payload. Members with a key that it does not declare
    /// are passed over.
    pub fn decode(payload: &Payload) -> (r: Result<Self, DecodeError>)
        ensures
            outcome(r) == Self::decoded(payload@),
    {
        let id = match payload.required_int("id") {
            Ok(v) => v,
            Err(e) => return Err(e),
        };
        let name = match payload.required_text("name") {
            Ok(v) => v,
            Err(e) => return Err(e),
        };
        let wallet_type = match payload.required_text("wallet_type") {
            Ok(v) => v,
            Err(e) => return Err(e),
        };
        let current_balance = match payload.required_int("current_balance") {
            Ok(v) => v,
            Err(e) => return Err(e),
        };
        let color = match payload.required_text("color") {
            Ok(v) => v,
            Err(e) => return Err(e),
        };
        let created_at = match payload.required_timestamp("created_at") {
            Ok(v) => v,
            Err(e) => return Err(e),
        };
        Ok(WalletResponse { id, name, wallet_type, current_balance, color, created_at })
    }

    /// Writes the response as a payload, which [`Self::decode`] reads back as the same
    /// response.
    pub fn encode(&self) -> (payload: Payload)
        ensures
            payload@ == self@.encoded(),
            Self::decoded(payload@) == Ok::<WalletResponseView, DecodeError>(self@),
    {
        let mut payload = Payload::new();
        payload.put_int("id", self.id);
        payload.put_text("name", self.name.as_str());
        payload.put_text("wallet_type", self.wallet_type.as_str());
        payload.put_int("current_balance", self.current_balance);
        payload.put_text("color", self.color.as_str());
        payload.put_timestamp("created_at", &self.created_at);
        proof {
            Self::lemma_round_trip(self@);
        }
        payload
    }

    /// Reading what was written gives the value back, as long as chrono reads each date
    /// and time back from its text. [`Self::encode`] writes only such values.
    pub proof fn lemma_round_trip(c: WalletResponseView)
        requires
            c.reads_back(),
        ensures
            Self::decoded(c.encoded()) == Ok::<WalletResponseView, DecodeError>(c),
    {
        broadcast use lemma_slot_push;

        lemma_keys_differ();
    }
}
} // verus!
