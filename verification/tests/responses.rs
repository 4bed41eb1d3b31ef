use kapitalist_types::field::{DecodeError, Fault};
use kapitalist_types::response::{
    CategoryResponse, ErrorResponse, TokenResponse, TransactionResponse, UserResponse,
    VersionResponse, WalletResponse,
};
use kapitalist_types::timestamp::Timestamp;
use kapitalist_types::wire::{Payload, Value};

fn resp_payload(members: Vec<(&str, Value)>) -> Payload {
    let mut payload = Payload::new();
    for (key, value) in members {
        payload.put(key, value);
    }
    payload
}

fn resp_text(s: &str) -> Value {
    Value::Text(s.to_string())
}

fn resp_fault<T>(field: &'static str, fault: Fault) -> Result<T, DecodeError> {
    Err(DecodeError { field, fault })
}

fn resp_time(s: &str) -> Timestamp {
    Timestamp::parse(s).unwrap()
}

#[test]
fn error_response_fixed_messages() {
    assert_eq!(ErrorResponse::internal_server_error().error, "Internal server error");
    assert_eq!(ErrorResponse::not_implemented().error, "Not implemented yet");
    assert_eq!(ErrorResponse::unauthorized().error, "Unauthorized");
}

#[test]
fn error_response_new_takes_slices_and_strings() {
    assert_eq!(ErrorResponse::new("no such wallet").error, "no such wallet");
    assert_eq!(ErrorResponse::new(String::from("no such wallet")).error, "no such wallet");
    assert_eq!(ErrorResponse::new("").error, "");
}

#[test]
fn error_response_is_one_key() {
    let response = ErrorResponse::unauthorized();
    assert_eq!(response.encode(), resp_payload(vec![("error", resp_text("Unauthorized"))]));
    assert_eq!(ErrorResponse::decode(&response.encode()), Ok(response));
    assert_eq!(ErrorResponse::decode(&Payload::new()), resp_fault("error", Fault::Missing));
    assert_eq!(
        ErrorResponse::decode(&resp_payload(vec![("error", Value::Int(500))])),
        resp_fault("error", Fault::WrongType)
    );
}

#[test]
fn version_response_round_trip() {
    let response = VersionResponse { version: "0.3.1".to_string() };
    assert_eq!(response.encode(), resp_payload(vec![("version", resp_text("0.3.1"))]));
    assert_eq!(VersionResponse::decode(&response.encode()), Ok(response));
    assert_eq!(VersionResponse::decode(&Payload::new()), resp_fault("version", Fault::Missing));
}

#[test]
fn token_response_round_trip() {
    let response = TokenResponse { token: "SECRET-REDACTED".to_string() };
    assert_eq!(response.encode(), resp_payload(vec![("token", resp_text("SECRET-REDACTED"))]));
    assert_eq!(TokenResponse::decode(&response.encode()), Ok(response));
    assert_eq!(
        TokenResponse::decode(&resp_payload(vec![("token", Value::Null)])),
        resp_fault("token", Fault::WrongType)
    );
}

#[test]
fn user_response_round_trip() {
    let response = UserResponse {
        email: "a@b.co".to_string(),
        username: "Ann".to_string(),
        created_at: resp_time("2019-01-02T03:04:05"),
    };
    assert_eq!(
        response.encode(),
        resp_payload(vec![
            ("email", resp_text("a@b.co")),
            ("username", resp_text("Ann")),
            ("created_at", resp_text("2019-01-02T03:04:05")),
        ])
    );
    assert_eq!(UserResponse::decode(&response.encode()), Ok(response));
}

#[test]
fn user_response_faults() {
    let payload = resp_payload(vec![
        ("email", resp_text("a@b.co")),
        ("username", resp_text("Ann")),
        ("created_at", resp_text("2019-01-02")),
    ]);
    assert_eq!(UserResponse::decode(&payload), resp_fault("created_at", Fault::BadTimestamp));
    let payload = resp_payload(vec![("email", resp_text("a@b.co")), ("username", resp_text("Ann"))]);
    assert_eq!(UserResponse::decode(&payload), resp_fault("created_at", Fault::Missing));
    let payload = resp_payload(vec![
        ("email", resp_text("a@b.co")),
        ("username", resp_text("Ann")),
        ("created_at", Value::Null),
    ]);
    assert_eq!(UserResponse::decode(&payload), resp_fault("created_at", Fault::WrongType));
}

#[test]
fn wallet_response_round_trip() {
    let response = WalletResponse {
        id: 12,
        name: "Cash".to_string(),
        wallet_type: "cash".to_string(),
        current_balance: -4200,
        color: "#a0b1c2".to_string(),
        created_at: resp_time("2019-01-02T03:04:05.678"),
    };
    assert_eq!(
        response.encode(),
        resp_payload(vec![
            ("id", Value::Int(12)),
            ("name", resp_text("Cash")),
            ("wallet_type", resp_text("cash")),
            ("current_balance", Value::Int(-4200)),
            ("color", resp_text("#a0b1c2")),
            ("created_at", resp_text("2019-01-02T03:04:05.678")),
        ])
    );
    assert_eq!(WalletResponse::decode(&response.encode()), Ok(response));
}

#[test]
fn wallet_response_faults() {
    let payload = resp_payload(vec![
        ("id", Value::Int(12)),
        ("name", resp_text("Cash")),
        ("wallet_type", resp_text("cash")),
        ("color", resp_text("#a0b1c2")),
        ("created_at", resp_text("2019-01-02T03:04:05")),
    ]);
    assert_eq!(WalletResponse::decode(&payload), resp_fault("current_balance", Fault::Missing));
    let payload = resp_payload(vec![
        ("id", resp_text("12")),
        ("name", resp_text("Cash")),
        ("wallet_type", resp_text("cash")),
        ("current_balance", Value::Int(0)),
        ("color", resp_text("#a0b1c2")),
        ("created_at", resp_text("2019-01-02T03:04:05")),
    ]);
    assert_eq!(WalletResponse::decode(&payload), resp_fault("id", Fault::WrongType));
}

#[test]
fn category_response_round_trip() {
    let root = CategoryResponse {
        id: 1,
        parent_id: None,
        user_id: None,
        name: "Food".to_string(),
        color: "#00ff00".to_string(),
        created_at: resp_time("2019-01-02T03:04:05"),
    };
    assert_eq!(
        root.encode(),
        resp_payload(vec![
            ("id", Value::Int(1)),
            ("parent_id", Value::Null),
            ("user_id", Value::Null),
            ("name", resp_text("Food")),
            ("color", resp_text("#00ff00")),
            ("created_at", resp_text("2019-01-02T03:04:05")),
        ])
    );
    assert_eq!(CategoryResponse::decode(&root.encode()), Ok(root.clone()));
    let child = CategoryResponse { id: 2, parent_id: Some(1), user_id: Some(77), ..root };
    assert_eq!(CategoryResponse::decode(&child.encode()), Ok(child));
}

#[test]
fn category_response_reads_missing_ids_as_none() {
    let payload = resp_payload(vec![
        ("created_at", resp_text("2019-01-02T03:04:05")),
        ("color", resp_text("#00ff00")),
        ("name", resp_text("Food")),
        ("id", Value::Int(1)),
    ]);
    let response = CategoryResponse::decode(&payload).unwrap();
    assert_eq!(response.parent_id, None);
    assert_eq!(response.user_id, None);
    assert_eq!(response.id, 1);
}

#[test]
fn transaction_response_round_trip() {
    let response = TransactionResponse {
        id: 5,
        name: "Lunch".to_string(),
        wallet_id: 1,
        category_id: 2,
        amount: -950,
        ts: resp_time("2015-06-30T23:59:60"),
    };
    assert_eq!(
        response.encode(),
        resp_payload(vec![
            ("id", Value::Int(5)),
            ("name", resp_text("Lunch")),
            ("wallet_id", Value::Int(1)),
            ("category_id", Value::Int(2)),
            ("amount", Value::Int(-950)),
            ("ts", resp_text("2015-06-30T23:59:60")),
        ])
    );
    assert_eq!(TransactionResponse::decode(&response.encode()), Ok(response));
}

#[test]
fn transaction_response_faults() {
    let payload = resp_payload(vec![
        ("id", Value::Int(5)),
        ("name", resp_text("Lunch")),
        ("wallet_id", Value::Int(1)),
        ("category_id", Value::Int(2)),
        ("amount", Value::Other),
        ("ts", resp_text("2015-06-30T23:59:60")),
    ]);
    assert_eq!(TransactionResponse::decode(&payload), resp_fault("amount", Fault::WrongType));
    let payload = resp_payload(vec![
        ("id", Value::Int(5)),
        ("name", resp_text("Lunch")),
        ("wallet_id", Value::Int(1)),
        ("category_id", Value::Int(2)),
        ("amount", Value::Int(1)),
        ("ts", resp_text("2015-06-31T00:00:00")),
    ]);
    assert_eq!(TransactionResponse::decode(&payload), resp_fault("ts", Fault::BadTimestamp));
}
