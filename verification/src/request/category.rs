use crate::field::{
    optional_int, optional_text, outcome, required_text, with_optional_int, with_optional_text,
    with_text, DecodeError, Optionality,
};
use crate::tristate::TriState;
use crate::update::UpdateContract;
use crate::wire::{lemma_slot_permutation, lemma_slot_push, slot, Members, Payload, Slot, ValueView};
use vstd::prelude::*;

verus! {

proof fn lemma_keys_differ()
    ensures
        "name"@ != "parent_id"@,
        "name"@ != "color"@,
        "parent_id"@ != "color"@,
{
    reveal_strlit("name");
    reveal_strlit("parent_id");
    reveal_strlit("color");
    assert("name"@.len() == 4);
    assert("parent_id"@.len() == 9);
    assert("color"@.len() == 5);
}

/// Request to create a new transaction category.
#[derive(Clone, Debug, PartialEq, Eq)]
pub struct CategoryCreationRequest {
    /// Name of the category to create.
    pub name: String,
    /// Id of the parent category that should contain the new category, or `None` if the new
    /// category should be a root category.
    pub parent_id: Option<i64>,
    /// The color of the category to create.
    pub color: String,
}

/// A [`CategoryCreationRequest`] as contracts speak of it.
pub struct CategoryCreationRequestView {
    pub name: Seq<char>,
    pub parent_id: Option<i64>,
    pub color: Seq<char>,
}

impl View for CategoryCreationRequest {
    type V = CategoryCreationRequestView;

    open spec fn view(&self) -> CategoryCreationRequestView {
        CategoryCreationRequestView {
            name: self.name@,
            parent_id: self.parent_id,
            color: self.color@,
        }
    }
}

impl CategoryCreationRequestView {
    /// The payload that writes the request: every key, `null` for no parent.
    pub open spec fn encoded(self) -> Members {
        let members = Seq::empty();
        let members = with_text(members, "name"@, self.name);
        let members = with_optional_int(
            members,
            "parent_id"@,
            self.parent_id,
            Optionality::Nullable,
        );
        let members = with_text(members, "color"@, self.color);
        members
    }
}

impl CategoryCreationRequest {
    /// What the members of a payload say: the value of each field, or the fault of the
    /// first field, in the order of declaration, that has one.
    pub open spec fn decoded(members: Members) -> Result<
        CategoryCreationRequestView,
        DecodeError,
    > {
        let name = required_text(members, "name");
        let parent_id = optional_int(members, "parent_id", Optionality::Nullable);
        let color = required_text(members, "color");
        if name is Err {
            Err(name->Err_0)
        } else if parent_id is Err {
            Err(parent_id->Err_0)
        } else if color is Err {
            Err(color->Err_0)
        } else {
            Ok(
                CategoryCreationRequestView {
                    name: name->Ok_0,
                    parent_id: parent_id->Ok_0,
                    color: color->Ok_0,
                },
            )
        }
    }

    /// Reads the request out of a payload. Members with a key that it does not declare
    /// are passed over.
    pub fn decode(payload: &Payload) -> (r: Result<Self, DecodeError>)
        ensures
            outcome(r) == Self::decoded(payload@),
    {
        let name = match payload.required_text("name") {
            Ok(v) => v,
            Err(e) => return Err(e),
        };
        let parent_id = match payload.optional_int("parent_id", Optionality::Nullable) {
            Ok(v) => v,
            Err(e) => return Err(e),
        };
        let color = match payload.required_text("color") {
            Ok(v) => v,
            Err(e) => return Err(e),
        };
        Ok(CategoryCreationRequest { name, parent_id, color })
    }

    /// Writes the request as a payload, which [`Self::decode`] reads back as the same
    /// request.
    pub fn encode(&self) -> (payload: Payload)
        ensures
            payload@ == self@.encoded(),
            Self::decoded(payload@) == Ok::<CategoryCreationRequestView, DecodeError>(self@),
    {
        let mut payload = Payload::new();
        payload.put_text("name", self.name.as_str());
        payload.put_optional_int("parent_id", self.parent_id, Optionality::Nullable);
        payload.put_text("color", self.color.as_str());
        proof {
            Self::lemma_round_trip(self@);
        }
        payload
    }

    /// Reading what was written gives the value back.
    pub proof fn lemma_round_trip(c: CategoryCreationRequestView)
        ensures
            Self::decoded(c.encoded()) == Ok::<CategoryCreationRequestView, DecodeError>(c),
    {
        broadcast use lemma_slot_push;

        lemma_keys_differ();
    }
}

/// Request to update an existing transaction category.
///
/// Every field may be left out, which leaves it as it is. At least one field has to change for
/// the request to be valid.
#[derive(Clone, Debug, PartialEq, Eq)]
pub struct CategoryUpdateRequest {
    /// The new name of the category, or `None` if the name should remain unchanged.
    pub name: Option<String>,
    /// What becomes of the parent: left as it is, removed (the category becomes a root
    /// category), or replaced by the category with the given id.
    pub parent_id: TriState<i64>,
    /// The new color of the category, or `None` if the color should remain unchanged.
    pub color: Option<String>,
}

/// A [`CategoryUpdateRequest`] as contracts speak of it.
pub struct CategoryUpdateRequestView {
    pub name: Option<Seq<char>>,
    pub parent_id: TriState<i64>,
    pub color: Option<Seq<char>>,
}

impl View for CategoryUpdateRequest {
    type V = CategoryUpdateRequestView;

    open spec fn view(&self) -> CategoryUpdateRequestView {
        CategoryUpdateRequestView {
            name: self.name.deep_view(),
            parent_id: self.parent_id,
            color: self.color.deep_view(),
        }
    }
}

impl CategoryUpdateRequestView {
    /// Whether the request changes at least one field.
    pub open spec fn is_valid(self) -> bool {
        !(self.name is None && self.parent_id is Unchanged && self.color is None)
    }

    /// The payload that writes the request: a key for each field that changes, with `null` for
    /// a parent that is removed.
    pub open spec fn encoded(self) -> Members {
        let members = Seq::empty();
        let members = with_optional_text(members, "name"@, self.name, Optionality::TwoState);
        let members = members + self.parent_id.encoded("parent_id"@);
        let members = with_optional_text(members, "color"@, self.color, Optionality::TwoState);
        members
    }
}

impl UpdateContract for CategoryUpdateRequest {
    open spec fn changes(&self) -> Seq<bool> {
        seq![self.name is Some, !(self.parent_id is Unchanged), self.color is Some]
    }

    fn field_count(&self) -> (n: usize) {
        3
    }

    fn changes_field(&self, index: usize) -> (b: bool) {
        if index == 0 {
            self.name.is_some()
        } else if index == 1 {
            !self.parent_id.is_unchanged()
        } else {
            self.color.is_some()
        }
    }
}

impl CategoryUpdateRequest {
    /// Checks whether the request is valid, i.e., at least one field changes.
    pub fn is_valid(&self) -> (ok: bool)
        ensures
            ok == self@.is_valid(),
    {
        let ok = crate::update::is_valid(self);
        proof {
            if self@.is_valid() {
                let i: int = if self.name is Some {
                    0
                } else if !(self.parent_id is Unchanged) {
                    1
                } else {
                    2
                };
                assert(self.changes()[i]);
            }
        }
        ok
    }

    /// What the members of a payload say: the value of each field, or the fault of the
    /// first field, in the order of declaration, that has one.
    pub open spec fn decoded(members: Members) -> Result<
        CategoryUpdateRequestView,
        DecodeError,
    > {
        let name = optional_text(members, "name", Optionality::TwoState);
        let parent_id = TriState::<i64>::decoded(members, "parent_id");
        let color = optional_text(members, "color", Optionality::TwoState);
        if name is Err {
            Err(name->Err_0)
        } else if parent_id is Err {
            Err(parent_id->Err_0)
        } else if color is Err {
            Err(color->Err_0)
        } else {
            Ok(
                CategoryUpdateRequestView {
                    name: name->Ok_0,
                    parent_id: parent_id->Ok_0,
                    color: color->Ok_0,
                },
            )
        }
    }

    /// Reads the request out of a payload. Members with a key that it does not declare
    /// are passed over.
    pub fn decode(payload: &Payload) -> (r: Result<Self, DecodeError>)
        ensures
            outcome(r) == Self::decoded(payload@),
    {
        let name = match payload.optional_text("name", Optionality::TwoState) {
            Ok(v) => v,
            Err(e) => return Err(e),
        };
        let parent_id = match TriState::<i64>::decode(payload, "parent_id") {
            Ok(v) => v,
            Err(e) => return Err(e),
        };
        let color = match payload.optional_text("color", Optionality::TwoState) {
            Ok(v) => v,
            Err(e) => return Err(e),
        };
        Ok(CategoryUpdateRequest { name, parent_id, color })
    }

    /// Writes the request as a payload, which [`Self::decode`] reads back as the same
    /// request.
    pub fn encode(&self) -> (payload: Payload)
        ensures
            payload@ == self@.encoded(),
            Self::decoded(payload@) == Ok::<CategoryUpdateRequestView, DecodeError>(self@),
    {
        let mut payload = Payload::new();
        payload.put_optional_text("name", &self.name, Optionality::TwoState);
        payload.append(self.parent_id.encode("parent_id"));
        payload.put_optional_text("color", &self.color, Optionality::TwoState);
        proof {
            Self::lemma_round_trip(self@);
        }
        payload
    }

    /// Reading what was written gives the value back.
    pub proof fn lemma_round_trip(c: CategoryUpdateRequestView)
        ensures
            Self::decoded(c.encoded()) == Ok::<CategoryUpdateRequestView, DecodeError>(c),
    {
        broadcast use lemma_slot_push;

        lemma_keys_differ();
        let members = Seq::empty();
        let members = with_optional_text(members, "name"@, c.name, Optionality::TwoState);
        c.parent_id.lemma_round_trip(members, "parent_id");
        match c.parent_id {
            TriState::Unchanged => {
                assert(members + c.parent_id.encoded("parent_id"@) == members);
            },
            TriState::Clear => {
                assert(members + c.parent_id.encoded("parent_id"@) == members.push(
                    ("parent_id"@, ValueView::Null),
                ));
            },
            TriState::SetTo(n) => {
                assert(members + c.parent_id.encoded("parent_id"@) == members.push(
                    ("parent_id"@, ValueView::Int(n)),
                ));
            },
        }
    }

    /// The name and the color are either left out or given a value: a payload that gives
    /// `null` to one holds no request.
    pub proof fn lemma_null_is_refused(members: Members, key: Seq<char>)
        requires
            key == "name"@ || key == "color"@,
            slot(members, key) == Slot::One(ValueView::Null),
        ensures
            Self::decoded(members) is Err,
    {
    }

    /// A request that was read from a payload is invalid exactly when the payload has
    /// none of the keys that the request declares.
    pub proof fn lemma_invalid_iff_no_key(members: Members)
        requires
            Self::decoded(members) is Ok,
        ensures
            !Self::decoded(members)->Ok_0.is_valid() <==> (slot(members, "name"@) is Absent
                && slot(members, "parent_id"@) is Absent
                && slot(members, "color"@) is Absent),
    {
    }

    /// A payload holds the same request, or has the same fault, in whatever order its
    /// members stand. So the order decides nothing about validity either.
    pub proof fn lemma_order_independent(
        a: Members,
        b: Members,
    )
        requires
            a.to_multiset() == b.to_multiset(),
        ensures
            Self::decoded(a) == Self::decoded(b),
            Self::decoded(a) matches Ok(u) ==> Self::decoded(b) matches Ok(w) && u.is_valid()
                == w.is_valid(),
    {
        lemma_slot_permutation(a, b, "name"@);
        lemma_slot_permutation(a, b, "parent_id"@);
        lemma_slot_permutation(a, b, "color"@);
    }
}
} // verus!
