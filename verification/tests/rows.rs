use pali_server::models::{ApiKey, KeyType, Todo};
use pali_server::rows::{
    decode_flag, decode_key_type, decode_timestamp, encode_flag, encode_key_type,
    encode_timestamp, key_type_from_lowercase, ApiKeyRow, SqlValue, TodoRow,
};

fn sample_key(active: bool, last_used: Option<i64>, key_type: KeyType) -> ApiKey {
    ApiKey {
        id: "7f9c24e8-3b12-4fa7-9d0e-2a1b5c6d7e8f".to_string(),
        key_hash: "ab".repeat(32),
        client_name: "laptop".to_string(),
        key_type,
        last_used,
        created_at: 1_700_000_000,
        active,
    }
}

#[test]
fn flags_are_written_as_zero_and_one() {
    assert_eq!(encode_flag(true), 1);
    assert_eq!(encode_flag(false), 0);
}

#[test]
fn any_non_zero_integer_reads_as_a_set_flag() {
    assert!(!decode_flag(0));
    assert!(decode_flag(1));
    assert!(decode_flag(2));
    assert!(decode_flag(-1));
    assert!(decode_flag(i32::MIN));
}

#[test]
fn flag_round_trip_keeps_the_flag() {
    assert!(decode_flag(encode_flag(true)));
    assert!(!decode_flag(encode_flag(false)));
}

#[test]
fn absent_timestamp_is_written_as_null_not_zero() {
    assert_eq!(encode_timestamp(None), SqlValue::Null);
    assert_eq!(encode_timestamp(Some(0)), SqlValue::Integer(0));
    assert_ne!(encode_timestamp(None), encode_timestamp(Some(0)));
    assert_eq!(encode_timestamp(Some(1_700_000_000)), SqlValue::Integer(1_700_000_000));
    assert_eq!(encode_timestamp(Some(-5)), SqlValue::Integer(-5));
}

#[test]
fn timestamp_round_trip_keeps_absence_and_value() {
    assert_eq!(decode_timestamp(&encode_timestamp(None)), Some(None));
    assert_eq!(decode_timestamp(&encode_timestamp(Some(0))), Some(Some(0)));
    assert_eq!(decode_timestamp(&encode_timestamp(Some(42))), Some(Some(42)));
    assert_eq!(decode_timestamp(&encode_timestamp(Some(i64::MAX))), Some(Some(i64::MAX)));
}

#[test]
fn a_text_is_no_timestamp() {
    assert_eq!(decode_timestamp(&SqlValue::Text(String::new())), None);
    assert_eq!(decode_timestamp(&SqlValue::Text("0".to_string())), None);
}

#[test]
fn roles_are_written_as_lowercase_words() {
    assert_eq!(encode_key_type(KeyType::Admin), "admin");
    assert_eq!(encode_key_type(KeyType::Client), "client");
}

#[test]
fn role_words_are_read_whatever_their_case() {
    assert_eq!(decode_key_type("admin"), KeyType::Admin);
    assert_eq!(decode_key_type("ADMIN"), KeyType::Admin);
    assert_eq!(decode_key_type("Admin"), KeyType::Admin);
    assert_eq!(decode_key_type("client"), KeyType::Client);
    assert_eq!(decode_key_type("CLIENT"), KeyType::Client);
}

#[test]
fn unknown_role_words_read_as_client() {
    assert_eq!(decode_key_type(""), KeyType::Client);
    assert_eq!(decode_key_type("root"), KeyType::Client);
    assert_eq!(decode_key_type("admin "), KeyType::Client);
    assert_eq!(decode_key_type("administrator"), KeyType::Client);
}

#[test]
fn key_type_from_lowercase_accepts_only_the_exact_word() {
    assert_eq!(key_type_from_lowercase("admin"), KeyType::Admin);
    assert_eq!(key_type_from_lowercase("ADMIN"), KeyType::Client);
    assert_eq!(key_type_from_lowercase("client"), KeyType::Client);
}

#[test]
fn role_round_trip_keeps_the_role() {
    assert_eq!(decode_key_type(&encode_key_type(KeyType::Admin)), KeyType::Admin);
    assert_eq!(decode_key_type(&encode_key_type(KeyType::Client)), KeyType::Client);
}

#[test]
fn credential_row_decodes_flags_and_roles() {
    let row = ApiKeyRow {
        id: "id-1".to_string(),
        key_hash: "h".to_string(),
        client_name: "ci".to_string(),
        key_type: "AdMiN".to_string(),
        last_used: Some(12),
        created_at: 7,
        active: 0,
    };
    let key = ApiKey::from(row);
    assert_eq!(
        key,
        ApiKey {
            id: "id-1".to_string(),
            key_hash: "h".to_string(),
            client_name: "ci".to_string(),
            key_type: KeyType::Admin,
            last_used: Some(12),
            created_at: 7,
            active: false,
        }
    );
}

#[test]
fn credential_round_trip_keeps_a_cleared_active_flag() {
    let key = sample_key(false, None, KeyType::Admin);
    let row = ApiKeyRow::encode(&key);
    assert_eq!(row.active, 0);
    assert_eq!(row.key_type, "admin");
    assert_eq!(ApiKey::from(row), key);
}

#[test]
fn credential_round_trip_keeps_an_absent_last_use() {
    let key = sample_key(true, None, KeyType::Client);
    let row = ApiKeyRow::encode(&key);
    assert_eq!(row.last_used, None);
    assert_eq!(row.active, 1);
    assert_eq!(ApiKey::from(row), key);
}

#[test]
fn credential_round_trip_keeps_a_present_last_use() {
    for t in [0i64, 1, 1_700_000_123, -1] {
        let key = sample_key(true, Some(t), KeyType::Client);
        assert_eq!(ApiKey::from(ApiKeyRow::encode(&key)), key);
    }
}

#[test]
fn todo_row_decodes_the_completion_flag() {
    let row = TodoRow {
        id: "t-1".to_string(),
        title: "write".to_string(),
        description: None,
        completed: 1,
        priority: 3,
        due_date: None,
        created_at: 10,
        updated_at: 11,
    };
    let todo = Todo::from(row);
    assert!(todo.completed);
    assert_eq!(todo.description, None);
    assert_eq!(todo.due_date, None);
    assert_eq!(todo.priority, 3);
}

#[test]
fn todo_round_trip_keeps_every_field() {
    let todo = Todo {
        id: "t-2".to_string(),
        title: "read".to_string(),
        description: Some(String::new()),
        completed: false,
        priority: -1,
        due_date: Some(0),
        created_at: 10,
        updated_at: 20,
    };
    let row = TodoRow::encode(&todo);
    assert_eq!(row.completed, 0);
    assert_eq!(row.due_date, Some(0));
    assert_eq!(Todo::from(row), todo);
}
