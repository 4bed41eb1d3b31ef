use crate::field::{
    optional_int, outcome, reads_back, required_int, required_text, required_timestamp, with_int,
    with_optional_int, with_text, with_timestamp, DecodeError, Optionality,
};
use crate::timestamp::{DateTimeFields, Timestamp};
use crate::wire::{lemma_slot_push, Members, Payload};
use vstd::prelude::*;

verus! {

proof fn lemma_keys_differ()
    ensures
        "id"@ != "parent_id"@,
        "id"@ != "user_id"@,
        "id"@ != "name"@,
        "id"@ != "color"@,
        "id"@ != "created_at"@,
        "parent_id"@ != "user_id"@,
        "parent_id"@ != "name"@,
        "parent_id"@ != "color"@,
        "parent_id"@ != "created_at"@,
        "user_id"@ != "name"@,
        "user_id"@ != "color"@,
        "user_id"@ != "created_at"@,
        "name"@ != "color"@,
        "name"@ != "created_at"@,
        "color"@ != "created_at"@,
{
    reveal_strlit("id");
    reveal_strlit("parent_id");
    reveal_strlit("user_id");
    reveal_strlit("name");
    reveal_strlit("color");
    reveal_strlit("created_at");
    assert("id"@.len() == 2);
    assert("parent_id"@.len() == 9);
    assert("user_id"@.len() == 7);
    assert("name"@.len() == 4);
    assert("color"@.len() == 5);
    assert("created_at"@.len() == 10);
}

/// Response containing details of a category.
#[derive(Clone, Debug, PartialEq, Eq)]
pub struct CategoryResponse {
    /// (Database) id of the category.
    ///
    /// Clients need this to reference the category in a request.
    pub id: i64,
    /// (Database) id of the parent category; `None` for a root category.
    pub parent_id: Option<i64>,
    /// (Database) id of the user which created the category, or `None` if it is a default
    /// category shared by all users.
    pub user_id: Option<i64>,
    /// Name of the category.
    pub name: String,
    /// Color of the category. Mainly used for charts and reports.
    pub color: String,
    /// Timestamp when the category was created.
    pub created_at: Timestamp,
}

/// A [`CategoryResponse`] as contracts speak of it.
pub struct CategoryResponseView {
    pub id: i64,
    pub parent_id: Option<i64>,
    pub user_id: Option<i64>,
    pub name: Seq<char>,
    pub color: Seq<char>,
    pub created_at: DateTimeFields,
}

impl View for CategoryResponse {
    type V = CategoryResponseView;

    open spec fn view(&self) -> CategoryResponseView {
        CategoryResponseView {
            id: self.id,
            parent_id: self.parent_id,
            user_id: self.user_id,
            name: self.name@,
            color: self.color@,
            created_at: self.created_at@,
        }
    }
}

impl CategoryResponseView {
    /// Whether every date and time in it is valid and is read back from its text.
    pub open spec fn reads_back(self) -> bool {
        reads_back(Some(self.created_at))
    }

    /// The payload that writes the response: every key, `null` for an id that is not there.
    pub open spec fn encoded(self) -> Members {
        let members = Seq::empty();
        let members = with_int(members, "id"@, self.id);
        let members = with_optional_int(
            members,
            "parent_id"@,
            self.parent_id,
            Optionality::Nullable,
        );
        let members = with_optional_int(members, "user_id"@, self.user_id, Optionality::Nullable);
        let members = with_text(members, "name"@, self.name);
        let members = with_text(members, "color"@, self.color);
        let members = with_timestamp(members, "created_at"@, self.created_at);
        members
    }
}

impl CategoryResponse {
    /// What the members of a payload say: the value of each field, or the fault of the
    /// first field, in the order of declaration, that has one.
    pub open spec fn decoded(members: Members) -> Result<
        CategoryResponseView,
        DecodeError,
    > {
        let id = required_int(members, "id");
        let parent_id = optional_int(members, "parent_id", Optionality::Nullable);
        let user_id = optional_int(members, "user_id", Optionality::Nullable);
        let name = required_text(members, "name");
        let color = required_text(members, "color");
        let created_at = required_timestamp(members, "created_at");
        if id is Err {
            Err(id->Err_0)
        } else if parent_id is Err {
            Err(parent_id->Err_0)
        } else if user_id is Err {
            Err(user_id->Err_0)
        } else if name is Err {
            Err(name->Err_0)
        } else if color is Err {
            Err(color->Err_0)
        } else if created_at is Err {
            Err(created_at->Err_0)
        } else {
            Ok(
                CategoryResponseView {
                    id: id->Ok_0,
                    parent_id: parent_id->Ok_0,
                    user_id: user_id->Ok_0,
                    name: name->Ok_0,
                    color: color->Ok_0,
                    created_at: created_at->Ok_0,
                },
            )
        }
    }

    /// Reads the response out of a payload. Members with a key that it does not declare
    /// are passed over.
    pub fn decode(payload: &Payload) -> (r: Result<Self, DecodeError>)
        ensures
            outcome(r) == Self::decoded(payload@),
    {
        let id = match payload.required_int("id") {
            Ok(v) => v,
            Err(e) => return Err(e),
        };
        let parent_id = match payload.optional_int("parent_id", Optionality::Nullable) {
            Ok(v) => v,
            Err(e) => return Err(e),
        };
        let user_id = match payload.optional_int("user_id", Optionality::Nullable) {
            Ok(v) => v,
            Err(e) => return Err(e),
        };
        let name = match payload.required_text("name") {
            Ok(v) => v,
            Err(e) => return Err(e),
        };
        let color = match payload.required_text("color") {
            Ok(v) => v,
            Err(e) => return Err(e),
        };
        let created_at = match payload.required_timestamp("created_at") {
            Ok(v) => v,
            Err(e) => return Err(e),
        };
        Ok(CategoryResponse { id, parent_id, user_id, name, color, created_at })
    }

    /// Writes the response as a payload, which [`Self::decode`] reads back as the same
    /// response.
    pub fn encode(&self) -> (payload: Payload)
        ensures
            payload@ == self@.encoded(),
            Self::decoded(payload@) == Ok::<CategoryResponseView, DecodeError>(self@),
    {
        let mut payload = Payload::new();
        payload.put_int("id", self.id);
        payload.put_optional_int("parent_id", self.parent_id, Optionality::Nullable);
        payload.put_optional_int("user_id", self.user_id, Optionality::Nullable);
        payload.put_text("name", self.name.as_str());
        payload.put_text("color", self.color.as_str());
        payload.put_timestamp("created_at", &self.created_at);
        proof {
            Self::lemma_round_trip(self@);
        }
        payload
    }

    /// Reading what was written gives the value back, as long as chrono reads each date
    /// and time back from its text. [`Self::encode`] writes only such values.
    pub proof fn lemma_round_trip(c: CategoryResponseView)
        requires
            c.reads_back(),
        ensures
            Self::decoded(c.encoded()) == Ok::<CategoryResponseView, DecodeError>(c),
    {
        broadcast use lemma_slot_push;

        lemma_keys_differ();
    }
}
} // verus!
