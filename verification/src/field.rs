use crate::timestamp::{text_of_fields, DateTimeFields, Timestamp};
use crate::wire::{slot, Members, Payload, Slot, Value, ValueView};
use vstd::prelude::*;

verus! {

/// What is wrong with a field of a payload.
#[derive(Clone, Copy, Debug, PartialEq, Eq)]
pub enum Fault {
    /// A key that must be there is not.
    Missing,
    /// The key stands more than once.
    Duplicate,
    /// The value is of a kind the field does not take; `null` counts where the
    /// field has no empty state.
    WrongType,
    /// The value is text, but not a date and time.
    BadTimestamp,
}

/// Why a payload is not the contract it was read as: the key of the field and
/// what is wrong with it.
#[derive(Clone, Copy, Debug, PartialEq, Eq)]
pub struct DecodeError {
    pub field: &'static str,
    pub fault: Fault,
}

/// The two kinds of field that a payload may leave out.
#[derive(Clone, Copy, Debug, PartialEq, Eq)]
pub enum Optionality {
    /// The field has an empty state: `null` says the same as leaving the key out,
    /// and the empty state is written as `null`.
    Nullable,
    /// The field of an update that is either left out or given a value: `null` is a
    /// value of the wrong type, and the empty state is written by leaving the key out.
    TwoState,
}

pub open spec fn fault(key: &'static str, fault: Fault) -> DecodeError {
    DecodeError { field: key, fault }
}

/// The outcome of a decoding step, told by the view of what was decoded.
pub open spec fn outcome<T: View>(r: Result<T, DecodeError>) -> Result<T::V, DecodeError> {
    match r {
        Ok(t) => Ok(t@),
        Err(e) => Err(e),
    }
}

/// The outcome of a decoding step for a field that may be empty.
pub open spec fn deep_outcome<T: DeepView>(r: Result<T, DecodeError>) -> Result<T::V, DecodeError> {
    match r {
        Ok(t) => Ok(t.deep_view()),
        Err(e) => Err(e),
    }
}

/// The value of a key that has to be there, once.
pub open spec fn required(members: Members, key: &'static str) -> Result<ValueView, DecodeError> {
    match slot(members, key@) {
        Slot::Absent => Err(fault(key, Fault::Missing)),
        Slot::Repeated => Err(fault(key, Fault::Duplicate)),
        Slot::One(v) => Ok(v),
    }
}

/// The value of a key that may be left out, if it has one. Whether the key is there
/// is settled before its value is looked at; only a nullable field then takes
/// `null` for no value.
pub open spec fn optional(members: Members, key: &'static str, kind: Optionality) -> Result<
    Option<ValueView>,
    DecodeError,
> {
    match slot(members, key@) {
        Slot::Absent => Ok(None),
        Slot::Repeated => Err(fault(key, Fault::Duplicate)),
        Slot::One(v) => if v is Null && kind is Nullable {
            Ok(None)
        } else {
            Ok(Some(v))
        },
    }
}

pub open spec fn text_of(v: ValueView, key: &'static str) -> Result<Seq<char>, DecodeError> {
    match v {
        ValueView::Text(s) => Ok(s),
        _ => Err(fault(key, Fault::WrongType)),
    }
}

pub open spec fn int_of(v: ValueView, key: &'static str) -> Result<i64, DecodeError> {
    match v {
        ValueView::Int(n) => Ok(n),
        _ => Err(fault(key, Fault::WrongType)),
    }
}

/// A date and time is written as text, which has to read as a valid one.
pub open spec fn timestamp_of(v: ValueView, key: &'static str) -> Result<
    DateTimeFields,
    DecodeError,
> {
    match v {
        ValueView::Text(s) => match Timestamp::parsed(s) {
            Some(f) => Ok(f),
            None => Err(fault(key, Fault::BadTimestamp)),
        },
        _ => Err(fault(key, Fault::WrongType)),
    }
}

pub open spec fn required_text(members: Members, key: &'static str) -> Result<
    Seq<char>,
    DecodeError,
> {
    match required(members, key) {
        Ok(v) => text_of(v, key),
        Err(e) => Err(e),
    }
}

pub open spec fn required_int(members: Members, key: &'static str) -> Result<i64, DecodeError> {
    match required(members, key) {
        Ok(v) => int_of(v, key),
        Err(e) => Err(e),
    }
}

pub open spec fn required_timestamp(members: Members, key: &'static str) -> Result<
    DateTimeFields,
    DecodeError,
> {
    match required(members, key) {
        Ok(v) => timestamp_of(v, key),
        Err(e) => Err(e),
    }
}

pub open spec fn optional_text(members: Members, key: &'static str, kind: Optionality) -> Result<
    Option<Seq<char>>,
    DecodeError,
> {
    match optional(members, key, kind) {
        Ok(Some(v)) => match text_of(v, key) {
            Ok(s) => Ok(Some(s)),
            Err(e) => Err(e),
        },
        Ok(None) => Ok(None),
        Err(e) => Err(e),
    }
}

pub open spec fn optional_int(members: Members, key: &'static str, kind: Optionality) -> Result<
    Option<i64>,
    DecodeError,
> {
    match optional(members, key, kind) {
        Ok(Some(v)) => match int_of(v, key) {
            Ok(n) => Ok(Some(n)),
            Err(e) => Err(e),
        },
        Ok(None) => Ok(None),
        Err(e) => Err(e),
    }
}

pub open spec fn optional_timestamp(
    members: Members,
    key: &'static str,
    kind: Optionality,
) -> Result<Option<DateTimeFields>, DecodeError> {
    match optional(members, key, kind) {
        Ok(Some(v)) => match timestamp_of(v, key) {
            Ok(t) => Ok(Some(t)),
            Err(e) => Err(e),
        },
        Ok(None) => Ok(None),
        Err(e) => Err(e),
    }
}

fn read_text(v: &Value, key: &'static str) -> (r: Result<String, DecodeError>)
    ensures
        outcome(r) == text_of(v@, key),
{
    match v {
        Value::Text(s) => Ok(s.clone()),
        _ => Err(DecodeError { field: key, fault: Fault::WrongType }),
    }
}

fn read_int(v: &Value, key: &'static str) -> (r: Result<i64, DecodeError>)
    ensures
        outcome(r) == int_of(v@, key),
{
    match v {
        Value::Int(n) => Ok(*n),
        _ => Err(DecodeError { field: key, fault: Fault::WrongType }),
    }
}

fn read_timestamp(v: &Value, key: &'static str) -> (r: Result<Timestamp, DecodeError>)
    ensures
        outcome(r) == timestamp_of(v@, key),
{
    match v {
        Value::Text(s) => match Timestamp::parse(s.as_str()) {
            Some(t) => Ok(t),
            None => Err(DecodeError { field: key, fault: Fault::BadTimestamp }),
        },
        _ => Err(DecodeError { field: key, fault: Fault::WrongType }),
    }
}

impl Payload {
    fn required(&self, key: &'static str) -> (r: Result<&Value, DecodeError>)
        ensures
            outcome(r) == required(self@, key),
    {
        match self.lookup(key) {
            Slot::Absent => Err(DecodeError { field: key, fault: Fault::Missing }),
            Slot::Repeated => Err(DecodeError { field: key, fault: Fault::Duplicate }),
            Slot::One(v) => Ok(v),
        }
    }

    fn optional(&self, key: &'static str, kind: Optionality) -> (r: Result<
        Option<&Value>,
        DecodeError,
    >)
        ensures
            match r {
                Ok(Some(v)) => optional(self@, key, kind) == Ok::<Option<ValueView>, DecodeError>(
                    Some(v@),
                ),
                Ok(None) => optional(self@, key, kind) == Ok::<Option<ValueView>, DecodeError>(
                    None,
                ),
                Err(e) => optional(self@, key, kind) == Err::<Option<ValueView>, DecodeError>(e),
            },
    {
        match self.lookup(key) {
            Slot::Absent => Ok(None),
            Slot::Repeated => Err(DecodeError { field: key, fault: Fault::Duplicate }),
            Slot::One(v) => match (v, kind) {
                (Value::Null, Optionality::Nullable) => Ok(None),
                _ => Ok(Some(v)),
            },
        }
    }

    /// Reads a text that has to be there.
    pub fn required_text(&self, key: &'static str) -> (r: Result<String, DecodeError>)
        ensures
            outcome(r) == required_text(self@, key),
    {
        match self.required(key) {
            Ok(v) => read_text(v, key),
            Err(e) => Err(e),
        }
    }

    /// Reads a whole number that has to be there.
    pub fn required_int(&self, key: &'static str) -> (r: Result<i64, DecodeError>)
        ensures
            outcome(r) == required_int(self@, key),
    {
        match self.required(key) {
            Ok(v) => read_int(v, key),
            Err(e) => Err(e),
        }
    }

    /// Reads a date and time that has to be there.
    pub fn required_timestamp(&self, key: &'static str) -> (r: Result<Timestamp, DecodeError>)
        ensures
            outcome(r) == required_timestamp(self@, key),
    {
        match self.required(key) {
            Ok(v) => read_timestamp(v, key),
            Err(e) => Err(e),
        }
    }

    /// Reads a text that may be left out.
    pub fn optional_text(&self, key: &'static str, kind: Optionality) -> (r: Result<
        Option<String>,
        DecodeError,
    >)
        ensures
            deep_outcome(r) == optional_text(self@, key, kind),
    {
        match self.optional(key, kind) {
            Ok(Some(v)) => match read_text(v, key) {
                Ok(s) => Ok(Some(s)),
                Err(e) => Err(e),
            },
            Ok(None) => Ok(None),
            Err(e) => Err(e),
        }
    }

    /// Reads a whole number that may be left out.
    pub fn optional_int(&self, key: &'static str, kind: Optionality) -> (r: Result<
        Option<i64>,
        DecodeError,
    >)
        ensures
            deep_outcome(r) == optional_int(self@, key, kind),
    {
        match self.optional(key, kind) {
            Ok(Some(v)) => match read_int(v, key) {
                Ok(n) => Ok(Some(n)),
                Err(e) => Err(e),
            },
            Ok(None) => Ok(None),
            Err(e) => Err(e),
        }
    }

    /// Reads a date and time that may be left out.
    pub fn optional_timestamp(&self, key: &'static str, kind: Optionality) -> (r: Result<
        Option<Timestamp>,
        DecodeError,
    >)
        ensures
            deep_outcome(r) == optional_timestamp(self@, key, kind),
    {
        match self.optional(key, kind) {
            Ok(Some(v)) => match read_timestamp(v, key) {
                Ok(t) => Ok(Some(t)),
                Err(e) => Err(e),
            },
            Ok(None) => Ok(None),
            Err(e) => Err(e),
        }
    }
}

pub open spec fn with_text(members: Members, key: Seq<char>, text: Seq<char>) -> Members {
    members.push((key, ValueView::Text(text)))
}

pub open spec fn with_int(members: Members, key: Seq<char>, n: i64) -> Members {
    members.push((key, ValueView::Int(n)))
}

pub open spec fn with_timestamp(members: Members, key: Seq<char>, t: DateTimeFields) -> Members {
    members.push((key, ValueView::Text(text_of_fields(t))))
}

/// The members with one more field that may be empty: the empty state is written
/// as the field's kind asks.
pub open spec fn with_optional(
    members: Members,
    key: Seq<char>,
    value: Option<ValueView>,
    kind: Optionality,
) -> Members {
    match value {
        Some(v) => members.push((key, v)),
        None => match kind {
            Optionality::Nullable => members.push((key, ValueView::Null)),
            Optionality::TwoState => members,
        },
    }
}

pub open spec fn with_optional_text(
    members: Members,
    key: Seq<char>,
    text: Option<Seq<char>>,
    kind: Optionality,
) -> Members {
    with_optional(
        members,
        key,
        match text {
            Some(s) => Some(ValueView::Text(s)),
            None => None,
        },
        kind,
    )
}

pub open spec fn with_optional_int(
    members: Members,
    key: Seq<char>,
    n: Option<i64>,
    kind: Optionality,
) -> Members {
    with_optional(
        members,
        key,
        match n {
            Some(n) => Some(ValueView::Int(n)),
            None => None,
        },
        kind,
    )
}

pub open spec fn with_optional_timestamp(
    members: Members,
    key: Seq<char>,
    t: Option<DateTimeFields>,
    kind: Optionality,
) -> Members {
    with_optional(
        members,
        key,
        match t {
            Some(t) => Some(ValueView::Text(text_of_fields(t))),
            None => None,
        },
        kind,
    )
}

/// Whether a date and time, where there is one, is valid and is read back from
/// the text that is written for it.
pub open spec fn reads_back(t: Option<DateTimeFields>) -> bool {
    t matches Some(f) ==> f.is_valid() && Timestamp::parsed(text_of_fields(f)) == Some(f)
}

impl Payload {
    fn put_optional(&mut self, key: &str, value: Option<Value>, kind: Optionality)
        ensures
            final(self)@ == with_optional(
                old(self)@,
                key@,
                match value {
                    Some(v) => Some(v@),
                    None => None,
                },
                kind,
            ),
    {
        match value {
            Some(v) => self.put(key, v),
            None => match kind {
                Optionality::Nullable => self.put(key, Value::Null),
                Optionality::TwoState => {},
            },
        }
    }

    /// Writes a text under a key.
    pub fn put_text(&mut self, key: &str, text: &str)
        ensures
            final(self)@ == with_text(old(self)@, key@, text@),
    {
        self.put(key, Value::Text(text.to_owned()));
    }

    /// Writes a whole number under a key.
    pub fn put_int(&mut self, key: &str, n: i64)
        ensures
            final(self)@ == with_int(old(self)@, key@, n),
    {
        self.put(key, Value::Int(n));
    }

    /// Writes a date and time under a key, as the text that reads back as it.
    pub fn put_timestamp(&mut self, key: &str, t: &Timestamp)
        ensures
            final(self)@ == with_timestamp(old(self)@, key@, t@),
            reads_back(Some(t@)),
    {
        self.put(key, Value::Text(t.to_text()));
    }

    /// Writes a text that may be empty.
    pub fn put_optional_text(&mut self, key: &str, text: &Option<String>, kind: Optionality)
        ensures
            final(self)@ == with_optional_text(old(self)@, key@, text.deep_view(), kind),
    {
        let value = match text {
            Some(s) => Some(Value::Text(s.clone())),
            None => None,
        };
        self.put_optional(key, value, kind);
    }

    /// Writes a whole number that may be empty.
    pub fn put_optional_int(&mut self, key: &str, n: Option<i64>, kind: Optionality)
        ensures
            final(self)@ == with_optional_int(old(self)@, key@, n, kind),
    {
        let value = match n {
            Some(n) => Some(Value::Int(n)),
            None => None,
        };
        self.put_optional(key, value, kind);
    }

    /// Writes a date and time that may be empty.
    pub fn put_optional_timestamp(&mut self, key: &str, t: &Option<Timestamp>, kind: Optionality)
        ensures
            final(self)@ == with_optional_timestamp(old(self)@, key@, t.deep_view(), kind),
            reads_back(t.deep_view()),
    {
        let value = match t {
            Some(t) => Some(Value::Text(t.to_text())),
            None => None,
        };
        self.put_optional(key, value, kind);
    }
}

} // verus!
