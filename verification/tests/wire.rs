use kapitalist_types::field::{DecodeError, Fault, Optionality};
use kapitalist_types::timestamp::{DateTimeFields, Timestamp};
use kapitalist_types::wire::{Member, Payload, Slot, Value};

fn wire_payload(members: Vec<(&str, Value)>) -> Payload {
    let mut payload = Payload::new();
    for (key, value) in members {
        payload.put(key, value);
    }
    payload
}

fn wire_text(s: &str) -> Value {
    Value::Text(s.to_string())
}

fn wire_fault(field: &'static str, fault: Fault) -> DecodeError {
    DecodeError { field, fault }
}

#[test]
fn new_payload_is_empty() {
    assert!(Payload::new().members.is_empty());
}

#[test]
fn put_keeps_the_order_of_the_members() {
    let payload = wire_payload(vec![("b", Value::Int(1)), ("a", Value::Null), ("b", Value::Other)]);
    assert_eq!(
        payload.members,
        vec![
            Member { key: "b".to_string(), value: Value::Int(1) },
            Member { key: "a".to_string(), value: Value::Null },
            Member { key: "b".to_string(), value: Value::Other },
        ]
    );
}

#[test]
fn append_adds_behind() {
    let mut payload = wire_payload(vec![("a", Value::Int(1))]);
    payload.append(wire_payload(vec![("b", Value::Int(2)), ("c", Value::Int(3))]));
    assert_eq!(
        payload,
        wire_payload(vec![("a", Value::Int(1)), ("b", Value::Int(2)), ("c", Value::Int(3))])
    );
    payload.append(Payload::new());
    assert_eq!(payload.members.len(), 3);
}

#[test]
fn lookup_tells_absent_from_null() {
    let payload = wire_payload(vec![("a", Value::Null), ("b", Value::Int(5))]);
    assert_eq!(payload.lookup("a"), Slot::One(&Value::Null));
    assert_eq!(payload.lookup("b"), Slot::One(&Value::Int(5)));
    assert_eq!(payload.lookup("c"), Slot::Absent);
    assert_eq!(Payload::new().lookup("a"), Slot::Absent);
}

#[test]
fn lookup_sees_a_repeated_key() {
    let payload = wire_payload(vec![("a", Value::Int(1)), ("b", Value::Int(2)), ("a", Value::Int(1))]);
    assert_eq!(payload.lookup("a"), Slot::Repeated);
    assert_eq!(payload.lookup("b"), Slot::One(&Value::Int(2)));
    let thrice = wire_payload(vec![("a", Value::Null), ("a", Value::Null), ("a", Value::Null)]);
    assert_eq!(thrice.lookup("a"), Slot::Repeated);
}

#[test]
fn lookup_compares_whole_keys() {
    let payload = wire_payload(vec![("name", Value::Int(1)), ("Name", Value::Int(2))]);
    assert_eq!(payload.lookup("name"), Slot::One(&Value::Int(1)));
    assert_eq!(payload.lookup("Name"), Slot::One(&Value::Int(2)));
    assert_eq!(payload.lookup("nam"), Slot::Absent);
    assert_eq!(payload.lookup("name "), Slot::Absent);
    assert_eq!(payload.lookup(""), Slot::Absent);
}

#[test]
fn required_text_reads_text_only() {
    let payload = wire_payload(vec![
        ("t", wire_text("hello")),
        ("n", Value::Int(3)),
        ("z", Value::Null),
        ("o", Value::Other),
        ("d", wire_text("x")),
        ("d", wire_text("x")),
    ]);
    assert_eq!(payload.required_text("t"), Ok("hello".to_string()));
    assert_eq!(payload.required_text("n"), Err(wire_fault("n", Fault::WrongType)));
    assert_eq!(payload.required_text("z"), Err(wire_fault("z", Fault::WrongType)));
    assert_eq!(payload.required_text("o"), Err(wire_fault("o", Fault::WrongType)));
    assert_eq!(payload.required_text("d"), Err(wire_fault("d", Fault::Duplicate)));
    assert_eq!(payload.required_text("m"), Err(wire_fault("m", Fault::Missing)));
}

#[test]
fn required_int_reads_whole_numbers_only() {
    let payload = wire_payload(vec![
        ("t", wire_text("7")),
        ("n", Value::Int(-3)),
        ("big", Value::Int(i64::MAX)),
        ("small", Value::Int(i64::MIN)),
        ("z", Value::Null),
        ("o", Value::Other),
        ("d", Value::Int(1)),
        ("d", Value::Int(2)),
    ]);
    assert_eq!(payload.required_int("n"), Ok(-3));
    assert_eq!(payload.required_int("big"), Ok(i64::MAX));
    assert_eq!(payload.required_int("small"), Ok(i64::MIN));
    assert_eq!(payload.required_int("t"), Err(wire_fault("t", Fault::WrongType)));
    assert_eq!(payload.required_int("z"), Err(wire_fault("z", Fault::WrongType)));
    assert_eq!(payload.required_int("o"), Err(wire_fault("o", Fault::WrongType)));
    assert_eq!(payload.required_int("d"), Err(wire_fault("d", Fault::Duplicate)));
    assert_eq!(payload.required_int("m"), Err(wire_fault("m", Fault::Missing)));
}

#[test]
fn required_timestamp_reads_a_date_and_time() {
    let payload = wire_payload(vec![
        ("good", wire_text("2019-03-09T18:30:05")),
        ("bad", wire_text("yesterday")),
        ("day", wire_text("2019-02-29T00:00:00")),
        ("n", Value::Int(1552156205)),
        ("z", Value::Null),
        ("d", wire_text("2019-03-09T18:30:05")),
        ("d", wire_text("2019-03-09T18:30:05")),
    ]);
    let expected = Timestamp::new(DateTimeFields {
        year: 2019,
        month: 3,
        day: 9,
        hour: 18,
        minute: 30,
        second: 5,
        nanosecond: 0,
    })
    .unwrap();
    assert_eq!(payload.required_timestamp("good"), Ok(expected));
    assert_eq!(payload.required_timestamp("bad"), Err(wire_fault("bad", Fault::BadTimestamp)));
    assert_eq!(payload.required_timestamp("day"), Err(wire_fault("day", Fault::BadTimestamp)));
    assert_eq!(payload.required_timestamp("n"), Err(wire_fault("n", Fault::WrongType)));
    assert_eq!(payload.required_timestamp("z"), Err(wire_fault("z", Fault::WrongType)));
    assert_eq!(payload.required_timestamp("d"), Err(wire_fault("d", Fault::Duplicate)));
    assert_eq!(payload.required_timestamp("m"), Err(wire_fault("m", Fault::Missing)));
}

#[test]
fn nullable_field_takes_null_for_nothing() {
    let payload = wire_payload(vec![
        ("t", wire_text("hello")),
        ("n", Value::Int(3)),
        ("z", Value::Null),
        ("when", wire_text("2019-03-09T18:30:05")),
        ("d", Value::Null),
        ("d", Value::Null),
    ]);
    let kind = Optionality::Nullable;
    assert_eq!(payload.optional_text("t", kind), Ok(Some("hello".to_string())));
    assert_eq!(payload.optional_text("z", kind), Ok(None));
    assert_eq!(payload.optional_text("m", kind), Ok(None));
    assert_eq!(payload.optional_text("n", kind), Err(wire_fault("n", Fault::WrongType)));
    assert_eq!(payload.optional_text("d", kind), Err(wire_fault("d", Fault::Duplicate)));
    assert_eq!(payload.optional_int("n", kind), Ok(Some(3)));
    assert_eq!(payload.optional_int("z", kind), Ok(None));
    assert_eq!(payload.optional_int("m", kind), Ok(None));
    assert_eq!(payload.optional_int("t", kind), Err(wire_fault("t", Fault::WrongType)));
    assert_eq!(payload.optional_int("d", kind), Err(wire_fault("d", Fault::Duplicate)));
    assert_eq!(payload.optional_timestamp("z", kind), Ok(None));
    assert_eq!(payload.optional_timestamp("m", kind), Ok(None));
    assert_eq!(
        payload.optional_timestamp("when", kind).map(|t| t.map(|t| t.to_text())),
        Ok(Some("2019-03-09T18:30:05".to_string()))
    );
    assert_eq!(payload.optional_timestamp("t", kind), Err(wire_fault("t", Fault::BadTimestamp)));
    assert_eq!(payload.optional_timestamp("n", kind), Err(wire_fault("n", Fault::WrongType)));
}

#[test]
fn two_state_field_refuses_null() {
    let payload = wire_payload(vec![
        ("t", wire_text("hello")),
        ("n", Value::Int(3)),
        ("z", Value::Null),
        ("when", wire_text("2019-03-09T18:30:05")),
        ("d", wire_text("a")),
        ("d", wire_text("b")),
    ]);
    let kind = Optionality::TwoState;
    assert_eq!(payload.optional_text("t", kind), Ok(Some("hello".to_string())));
    assert_eq!(payload.optional_text("m", kind), Ok(None));
    assert_eq!(payload.optional_text("z", kind), Err(wire_fault("z", Fault::WrongType)));
    assert_eq!(payload.optional_text("d", kind), Err(wire_fault("d", Fault::Duplicate)));
    assert_eq!(payload.optional_int("n", kind), Ok(Some(3)));
    assert_eq!(payload.optional_int("m", kind), Ok(None));
    assert_eq!(payload.optional_int("z", kind), Err(wire_fault("z", Fault::WrongType)));
    assert_eq!(payload.optional_timestamp("m", kind), Ok(None));
    assert_eq!(payload.optional_timestamp("z", kind), Err(wire_fault("z", Fault::WrongType)));
    assert_eq!(
        payload.optional_timestamp("when", kind).map(|t| t.map(|t| t.to_text())),
        Ok(Some("2019-03-09T18:30:05".to_string()))
    );
}

#[test]
fn put_text_and_int_write_one_member() {
    let mut payload = Payload::new();
    payload.put_text("name", "Groceries");
    payload.put_int("amount", -250);
    assert_eq!(
        payload,
        wire_payload(vec![("name", wire_text("Groceries")), ("amount", Value::Int(-250))])
    );
}

#[test]
fn put_timestamp_writes_the_text_of_it() {
    let t = Timestamp::parse("2016-11-15T07:39:24.5").unwrap();
    let mut payload = Payload::new();
    payload.put_timestamp("ts", &t);
    assert_eq!(payload, wire_payload(vec![("ts", wire_text("2016-11-15T07:39:24.500"))]));
    assert_eq!(payload.required_timestamp("ts"), Ok(t));
}

#[test]
fn empty_nullable_field_is_written_as_null() {
    let mut payload = Payload::new();
    payload.put_optional_text("a", &None, Optionality::Nullable);
    payload.put_optional_int("b", None, Optionality::Nullable);
    payload.put_optional_timestamp("c", &None, Optionality::Nullable);
    payload.put_optional_text("d", &Some("x".to_string()), Optionality::Nullable);
    payload.put_optional_int("e", Some(4), Optionality::Nullable);
    payload.put_optional_timestamp(
        "f",
        &Timestamp::parse("2016-11-15T07:39:24"),
        Optionality::Nullable,
    );
    assert_eq!(
        payload,
        wire_payload(vec![
            ("a", Value::Null),
            ("b", Value::Null),
            ("c", Value::Null),
            ("d", wire_text("x")),
            ("e", Value::Int(4)),
            ("f", wire_text("2016-11-15T07:39:24")),
        ])
    );
}

#[test]
fn empty_two_state_field_is_left_out() {
    let mut payload = Payload::new();
    payload.put_optional_text("a", &None, Optionality::TwoState);
    payload.put_optional_int("b", None, Optionality::TwoState);
    payload.put_optional_timestamp("c", &None, Optionality::TwoState);
    assert_eq!(payload, Payload::new());
    payload.put_optional_text("d", &Some("x".to_string()), Optionality::TwoState);
    payload.put_optional_int("e", Some(4), Optionality::TwoState);
    payload.put_optional_timestamp(
        "f",
        &Timestamp::parse("2016-11-15T07:39:24"),
        Optionality::TwoState,
    );
    assert_eq!(
        payload,
        wire_payload(vec![
            ("d", wire_text("x")),
            ("e", Value::Int(4)),
            ("f", wire_text("2016-11-15T07:39:24")),
        ])
    );
}
