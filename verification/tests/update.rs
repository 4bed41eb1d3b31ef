use kapitalist_types::request::{
    CategoryUpdateRequest, TransactionUpdateRequest, UserUpdateRequest, WalletUpdateRequest,
};
use kapitalist_types::timestamp::Timestamp;
use kapitalist_types::tristate::TriState;
use kapitalist_types::update::{is_valid, validate, UpdateContract, ValidationError};
use kapitalist_types::wire::{Payload, Value};

fn upd_text(s: &str) -> Option<String> {
    Some(s.to_string())
}

fn upd_permutations(n: usize) -> Vec<Vec<usize>> {
    if n == 0 {
        return vec![vec![]];
    }
    let mut all = Vec::new();
    for shorter in upd_permutations(n - 1) {
        for at in 0..=shorter.len() {
            let mut longer = shorter.clone();
            longer.insert(at, n - 1);
            all.push(longer);
        }
    }
    all
}

fn upd_reordered(members: &[(&str, Value)], order: &[usize]) -> Payload {
    let mut payload = Payload::new();
    for &i in order {
        payload.put(members[i].0, members[i].1.clone());
    }
    payload
}

#[test]
fn user_update_is_valid_iff_a_field_is_set() {
    for email in [None, upd_text("a@b.co")] {
        for password in [None, upd_text("hunter2")] {
            for name in [None, upd_text("Ann")] {
                let expected = email.is_some() || password.is_some() || name.is_some();
                let update = UserUpdateRequest {
                    email: email.clone(),
                    password: password.clone(),
                    name: name.clone(),
                };
                assert_eq!(update.is_valid(), expected);
                assert_eq!(is_valid(&update), expected);
            }
        }
    }
}

#[test]
fn wallet_update_is_valid_iff_a_field_is_set() {
    for name in [None, upd_text("Cash")] {
        for wallet_type in [None, upd_text("cash")] {
            for color in [None, upd_text("#ffffff")] {
                let expected = name.is_some() || wallet_type.is_some() || color.is_some();
                let update = WalletUpdateRequest {
                    name: name.clone(),
                    wallet_type: wallet_type.clone(),
                    color: color.clone(),
                };
                assert_eq!(update.is_valid(), expected);
            }
        }
    }
}

#[test]
fn category_update_is_valid_iff_a_field_changes() {
    for name in [None, upd_text("Food")] {
        for parent_id in [TriState::Unchanged, TriState::Clear, TriState::SetTo(1)] {
            for color in [None, upd_text("#ffffff")] {
                let expected =
                    name.is_some() || parent_id != TriState::Unchanged || color.is_some();
                let update =
                    CategoryUpdateRequest { name: name.clone(), parent_id, color: color.clone() };
                assert_eq!(update.is_valid(), expected);
            }
        }
    }
}

#[test]
fn transaction_update_is_valid_iff_a_field_is_set() {
    let ts = Timestamp::parse("2019-03-09T12:30:00");
    assert!(ts.is_some());
    for bits in 0..32u32 {
        let update = TransactionUpdateRequest {
            name: if bits & 1 != 0 { upd_text("Lunch") } else { None },
            wallet_id: if bits & 2 != 0 { Some(1) } else { None },
            category_id: if bits & 4 != 0 { Some(2) } else { None },
            amount: if bits & 8 != 0 { Some(0) } else { None },
            ts: if bits & 16 != 0 { ts } else { None },
        };
        assert_eq!(update.is_valid(), bits != 0);
    }
}

#[test]
fn update_reports_each_field() {
    let update = CategoryUpdateRequest {
        name: None,
        parent_id: TriState::Clear,
        color: upd_text("#ffffff"),
    };
    assert_eq!(update.field_count(), 3);
    assert!(!update.changes_field(0));
    assert!(update.changes_field(1));
    assert!(update.changes_field(2));
    let update = TransactionUpdateRequest {
        name: None,
        wallet_id: None,
        category_id: None,
        amount: Some(5),
        ts: None,
    };
    assert_eq!(update.field_count(), 5);
    let flags: Vec<bool> = (0..5).map(|i| update.changes_field(i)).collect();
    assert_eq!(flags, vec![false, false, false, true, false]);
}

#[test]
fn validate_turns_away_an_update_without_changes() {
    let nothing = UserUpdateRequest { email: None, password: None, name: None };
    assert_eq!(validate(nothing), Err(ValidationError::NoFieldsSet));
    let something = UserUpdateRequest { email: None, password: None, name: upd_text("Ann") };
    assert_eq!(validate(something.clone()), Ok(something));
    let clear = CategoryUpdateRequest { name: None, parent_id: TriState::Clear, color: None };
    assert_eq!(validate(clear.clone()), Ok(clear));
    let empty = CategoryUpdateRequest::decode(&Payload::new()).unwrap();
    assert_eq!(validate(empty), Err(ValidationError::NoFieldsSet));
}

#[test]
fn order_of_members_decides_nothing_for_category_update() {
    let members = [
        ("name", Value::Text("Food".to_string())),
        ("parent_id", Value::Null),
        ("color", Value::Text("#00ff00".to_string())),
        ("extra", Value::Other),
    ];
    let first = CategoryUpdateRequest::decode(&upd_reordered(&members, &[0, 1, 2, 3]));
    assert!(first.is_ok());
    for order in upd_permutations(4) {
        let decoded = CategoryUpdateRequest::decode(&upd_reordered(&members, &order));
        assert_eq!(decoded, first);
        assert!(decoded.unwrap().is_valid());
    }
}

#[test]
fn order_of_members_decides_nothing_for_faults() {
    let members = [
        ("name", Value::Null),
        ("wallet_type", Value::Text("cash".to_string())),
        ("color", Value::Int(3)),
        ("color", Value::Int(3)),
    ];
    let first = WalletUpdateRequest::decode(&upd_reordered(&members, &[0, 1, 2, 3]));
    assert!(first.is_err());
    for order in upd_permutations(4) {
        assert_eq!(WalletUpdateRequest::decode(&upd_reordered(&members, &order)), first);
    }
}

#[test]
fn order_of_members_decides_nothing_for_transaction_update() {
    let members = [
        ("ts", Value::Text("2019-03-09T12:30:00".to_string())),
        ("amount", Value::Int(12)),
        ("name", Value::Text("Lunch".to_string())),
        ("wallet_id", Value::Int(1)),
        ("category_id", Value::Int(2)),
    ];
    let first = TransactionUpdateRequest::decode(&upd_reordered(&members, &[0, 1, 2, 3, 4]));
    assert!(first.is_ok());
    for order in upd_permutations(5) {
        let decoded = TransactionUpdateRequest::decode(&upd_reordered(&members, &order));
        assert_eq!(decoded, first);
        assert!(decoded.unwrap().is_valid());
    }
    let unknown_only = [("a", Value::Null), ("b", Value::Int(1)), ("c", Value::Other)];
    for order in upd_permutations(3) {
        let decoded = UserUpdateRequest::decode(&upd_reordered(&unknown_only, &order)).unwrap();
        assert!(!decoded.is_valid());
    }
}
