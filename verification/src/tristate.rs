use crate::field::{fault, DecodeError, Fault};
use crate::wire::{lemma_slot_push, slot, Members, Payload, Slot, Value, ValueView};
use vstd::prelude::*;

verus! {

/// What an update asks for a field whose stored value may itself be empty.
#[derive(Clone, Copy, Debug, PartialEq, Eq)]
pub enum TriState<V> {
    /// The key was left out: the stored value stays.
    Unchanged,
    /// The key was there with `null`: the stored value is emptied.
    Clear,
    /// The key was there with a value, which replaces the stored one.
    SetTo(V),
}

impl<V> TriState<V> {
    pub fn is_unchanged(&self) -> (b: bool)
        ensures
            b == (*self is Unchanged),
    {
        match self {
            TriState::Unchanged => true,
            _ => false,
        }
    }

    /// The state written with two nested options: the outer one says whether the
    /// field changes, the inner one what it changes to.
    pub open spec fn nested(self) -> Option<Option<V>> {
        match self {
            TriState::Unchanged => None,
            TriState::Clear => Some(None),
            TriState::SetTo(v) => Some(Some(v)),
        }
    }

    pub fn into_nested(self) -> (r: Option<Option<V>>)
        ensures
            r == self.nested(),
    {
        match self {
            TriState::Unchanged => None,
            TriState::Clear => Some(None),
            TriState::SetTo(v) => Some(Some(v)),
        }
    }

    pub fn from_nested(nested: Option<Option<V>>) -> (r: Self)
        ensures
            r.nested() == nested,
    {
        match nested {
            None => TriState::Unchanged,
            Some(None) => TriState::Clear,
            Some(Some(v)) => TriState::SetTo(v),
        }
    }

    /// The value that is stored once the update has been applied.
    pub open spec fn applied(self, stored: Option<V>) -> Option<V> {
        match self {
            TriState::Unchanged => stored,
            TriState::Clear => None,
            TriState::SetTo(v) => Some(v),
        }
    }

    pub fn apply(self, stored: Option<V>) -> (r: Option<V>)
        ensures
            r == self.applied(stored),
    {
        match self {
            TriState::Unchanged => stored,
            TriState::Clear => None,
            TriState::SetTo(v) => Some(v),
        }
    }
}

impl TriState<i64> {
    /// The state that a payload gives to a key. Whether the key is there is looked at
    /// before its value: a key with `null` is there.
    pub open spec fn decoded(members: Members, key: &'static str) -> Result<
        TriState<i64>,
        DecodeError,
    > {
        match slot(members, key@) {
            Slot::Absent => Ok(TriState::Unchanged),
            Slot::Repeated => Err(fault(key, Fault::Duplicate)),
            Slot::One(ValueView::Null) => Ok(TriState::Clear),
            Slot::One(ValueView::Int(n)) => Ok(TriState::SetTo(n)),
            Slot::One(_) => Err(fault(key, Fault::WrongType)),
        }
    }

    pub fn decode(payload: &Payload, key: &'static str) -> (r: Result<TriState<i64>, DecodeError>)
        ensures
            r == Self::decoded(payload@, key),
    {
        match payload.lookup(key) {
            Slot::Absent => Ok(TriState::Unchanged),
            Slot::Repeated => Err(DecodeError { field: key, fault: Fault::Duplicate }),
            Slot::One(Value::Null) => Ok(TriState::Clear),
            Slot::One(Value::Int(n)) => Ok(TriState::SetTo(*n)),
            Slot::One(_) => Err(DecodeError { field: key, fault: Fault::WrongType }),
        }
    }

    /// The members that write the state under a key: none, the key with `null`, or
    /// the key with the value.
    pub open spec fn encoded(self, key: Seq<char>) -> Members {
        match self {
            TriState::Unchanged => Seq::empty(),
            TriState::Clear => seq![(key, ValueView::Null)],
            TriState::SetTo(n) => seq![(key, ValueView::Int(n))],
        }
    }

    pub fn encode(&self, key: &str) -> (fragment: Payload)
        ensures
            fragment@ == self.encoded(key@),
    {
        let mut fragment = Payload::new();
        match self {
            TriState::Unchanged => {},
            TriState::Clear => fragment.put(key, Value::Null),
            TriState::SetTo(n) => fragment.put(key, Value::Int(*n)),
        }
        fragment
    }

    /// Writing a state after any members that do not hold the key, and reading the
    /// key again, gives the state back.
    pub proof fn lemma_round_trip(
        self,
        before: Members,
        key: &'static str,
    )
        requires
            slot(before, key@) is Absent,
        ensures
            Self::decoded(before + self.encoded(key@), key) == Ok::<TriState<i64>, DecodeError>(
                self,
            ),
    {
        broadcast use lemma_slot_push;

        match self {
            TriState::Unchanged => {
                assert(before + self.encoded(key@) == before);
            },
            TriState::Clear => {
                assert(before + self.encoded(key@) == before.push((key@, ValueView::Null)));
            },
            TriState::SetTo(n) => {
                assert(before + self.encoded(key@) == before.push((key@, ValueView::Int(n))));
            },
        }
    }

    /// Two states are written alike only if they are the same state.
    pub proof fn lemma_encoded_injective(self, other: TriState<i64>, key: &'static str)
        requires
            self.encoded(key@) == other.encoded(key@),
        ensures
            self == other,
    {
        let empty = Seq::<(Seq<char>, ValueView)>::empty();
        self.lemma_round_trip(empty, key);
        other.lemma_round_trip(empty, key);
    }
}

} // verus!
