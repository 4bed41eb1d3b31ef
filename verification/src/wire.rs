use vstd::prelude::*;
use vstd::seq_lib::{commutative_foldl, lemma_fold_left_permutation};

verus! {

/// A value of a JSON object, as far as the contracts tell values apart.
#[derive(Clone, Debug, PartialEq, Eq)]
pub enum Value {
    /// The `null` marker.
    Null,
    /// A whole number that fits 64 bits with a sign.
    Int(i64),
    /// A string.
    Text(String),
    /// Anything else: a boolean, a number with a fraction or beyond 64 bits, an
    /// array, an object. No field of a contract takes one.
    Other,
}

/// A [`Value`] as contracts speak of it.
pub enum ValueView {
    Null,
    Int(i64),
    Text(Seq<char>),
    Other,
}

impl View for Value {
    type V = ValueView;

    open spec fn view(&self) -> ValueView {
        match self {
            Value::Null => ValueView::Null,
            Value::Int(n) => ValueView::Int(*n),
            Value::Text(s) => ValueView::Text(s@),
            Value::Other => ValueView::Other,
        }
    }
}

/// A key of a JSON object with its value.
#[derive(Clone, Debug, PartialEq, Eq)]
pub struct Member {
    pub key: String,
    pub value: Value,
}

impl View for Member {
    type V = (Seq<char>, ValueView);

    open spec fn view(&self) -> (Seq<char>, ValueView) {
        (self.key@, self.value@)
    }
}

/// What a payload holds, as contracts speak of it: its members in the order in
/// which they stand, each a key and the view of its value.
pub type Members = Seq<(Seq<char>, ValueView)>;

/// A JSON object as it came over the wire, before any contract has read it: the
/// members in the order in which they stand. A key may stand more than once, and a
/// key with `null` is there like any other.
#[derive(Clone, Debug, PartialEq, Eq)]
pub struct Payload {
    pub members: Vec<Member>,
}

impl View for Payload {
    type V = Members;

    open spec fn view(&self) -> Members {
        Seq::new(self.members@.len(), |i: int| self.members@[i]@)
    }
}

/// How a key stands in a payload.
#[derive(Clone, Copy, Debug, PartialEq, Eq)]
pub enum Slot<T> {
    /// No member has the key.
    Absent,
    /// One member has the key, with this value.
    One(T),
    /// More than one member has the key.
    Repeated,
}

/// What one more member makes of the state of a key.
pub open spec fn step(
    key: Seq<char>,
    before: Slot<ValueView>,
    member: (Seq<char>, ValueView),
) -> Slot<ValueView> {
    if member.0 == key {
        match before {
            Slot::Absent => Slot::One(member.1),
            _ => Slot::Repeated,
        }
    } else {
        before
    }
}

/// How a key stands among the members of a payload.
pub open spec fn slot(members: Members, key: Seq<char>) -> Slot<ValueView>
    decreases members.len(),
{
    if members.len() == 0 {
        Slot::Absent
    } else {
        step(key, slot(members.drop_last(), key), members.last())
    }
}

/// The state that [`Payload::lookup`] hands out, as contracts speak of it.
pub open spec fn slot_view(s: Slot<&Value>) -> Slot<ValueView> {
    match s {
        Slot::Absent => Slot::Absent,
        Slot::One(v) => Slot::One(v@),
        Slot::Repeated => Slot::Repeated,
    }
}

/// One more member at the end changes the state of a key by one step.
pub broadcast proof fn lemma_slot_push(
    members: Members,
    member: (Seq<char>, ValueView),
    key: Seq<char>,
)
    ensures
        #[trigger] slot(members.push(member), key) == step(key, slot(members, key), member),
{
    assert(members.push(member).drop_last() == members);
}

proof fn lemma_slot_is_fold(members: Members, key: Seq<char>)
    ensures
        slot(members, key) == members.fold_left(
            Slot::Absent,
            |s: Slot<ValueView>, m: (Seq<char>, ValueView)| step(key, s, m),
        ),
    decreases members.len(),
{
    if members.len() > 0 {
        lemma_slot_is_fold(members.drop_last(), key);
    }
}

/// How a key stands does not depend on the order of the members.
pub proof fn lemma_slot_permutation(a: Members, b: Members, key: Seq<char>)
    requires
        a.to_multiset() == b.to_multiset(),
    ensures
        slot(a, key) == slot(b, key),
{
    let f = |s: Slot<ValueView>, m: (Seq<char>, ValueView)| step(key, s, m);
    lemma_slot_is_fold(a, key);
    lemma_slot_is_fold(b, key);
    assert(commutative_foldl(f));
    lemma_fold_left_permutation(a, b, f, Slot::Absent);
}

impl Payload {
    /// A payload without members.
    pub fn new() -> (p: Payload)
        ensures
            p@ == Members::empty(),
    {
        Payload { members: Vec::new() }
    }

    /// Adds a member behind those that are there.
    pub fn put(&mut self, key: &str, value: Value)
        ensures
            final(self)@ == old(self)@.push((key@, value@)),
    {
        self.members.push(Member { key: key.to_owned(), value });
    }

    /// Adds the members of another payload behind those that are there.
    pub fn append(&mut self, other: Payload)
        ensures
            final(self)@ == old(self)@ + other@,
    {
        let mut other = other;
        self.members.append(&mut other.members);
    }

    /// Tells how a key stands in the payload. Every member is looked at, so that a
    /// key that stands twice is not taken for one that stands once.
    pub fn lookup(&self, key: &str) -> (r: Slot<&Value>)
        ensures
            slot_view(r) == slot(self@, key@),
    {
        let wanted = key.to_owned();
        let mut found: Slot<&Value> = Slot::Absent;
        let mut i: usize = 0;
        while i < self.members.len()
            invariant
                i <= self.members.len(),
                wanted@ == key@,
                slot_view(found) == slot(self@.take(i as int), key@),
            decreases self.members.len() - i,
        {
            let member = &self.members[i];
            proof {
                assert(self@.take(i + 1).drop_last() == self@.take(i as int));
                assert(self@.take(i + 1).last() == member@);
            }
            if member.key == wanted {
                found = match found {
                    Slot::Absent => Slot::One(&member.value),
                    _ => Slot::Repeated,
                };
            }
            i += 1;
        }
        proof {
            assert(self@.take(i as int) == self@);
        }
        found
    }
}

} // verus!
