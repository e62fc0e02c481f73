use pali_server::db::{decode_key, decode_todo, new_api_key, new_todo, Database};
use pali_server::models::{
    ApiKey, CreateTodoRequest, KeyType, Todo, UpdateTodoRequest,
};
use pali_server::rows::{ApiKeyRow, SqlValue, TodoRow};
use pali_server::statements::{encode_description, flag_value, text_value, Duty, Statement};
use pali_server::store::{Revocation, StoreError};

fn text(s: &str) -> SqlValue {
    SqlValue::Text(s.to_string())
}

fn todo_request(title: &str, description: Option<&str>, due_date: Option<i64>) -> CreateTodoRequest {
    CreateTodoRequest {
        title: title.to_string(),
        description: description.map(|d| d.to_string()),
        priority: None,
        due_date,
    }
}

fn key_row(id: &str, hash: &str, key_type: &str, active: i32) -> ApiKeyRow {
    ApiKeyRow {
        id: id.to_string(),
        key_hash: hash.to_string(),
        client_name: "n".to_string(),
        key_type: key_type.to_string(),
        last_used: None,
        created_at: 1,
        active,
    }
}

fn todo_row(id: &str) -> TodoRow {
    TodoRow {
        id: id.to_string(),
        title: "t".to_string(),
        description: None,
        completed: 0,
        priority: 2,
        due_date: None,
        created_at: 1,
        updated_at: 1,
    }
}

#[test]
fn values_are_bound_by_their_kind() {
    assert_eq!(text_value("abc"), text("abc"));
    assert_eq!(text_value(""), text(""));
    assert_eq!(flag_value(true), SqlValue::Integer(1));
    assert_eq!(flag_value(false), SqlValue::Integer(0));
    assert_eq!(encode_description(&None), SqlValue::Null);
    assert_eq!(encode_description(&Some(String::new())), text(""));
    assert_eq!(encode_description(&Some("d".to_string())), text("d"));
}

#[test]
fn select_statements_bind_nothing() {
    assert_eq!(
        Statement::select_keys(),
        Statement {
            sql: "SELECT id, key_hash, client_name, key_type, last_used, created_at, active FROM api_keys"
                .to_string(),
            bindings: vec![],
            duty: Duty::Required,
        }
    );
    assert_eq!(
        Statement::select_todos(),
        Statement {
            sql: "SELECT * FROM todos".to_string(),
            bindings: vec![],
            duty: Duty::Required,
        }
    );
}

#[test]
fn insert_key_binds_five_values_in_order() {
    let key = new_api_key(
        "id-1".to_string(),
        "hash-1".to_string(),
        "laptop".to_string(),
        KeyType::Admin,
        1_700_000_000,
    );
    assert_eq!(
        Statement::insert_key(&key),
        Statement {
            sql: "INSERT INTO api_keys (id, key_hash, client_name, key_type, created_at, active) VALUES (?1, ?2, ?3, ?4, ?5, 1)"
                .to_string(),
            bindings: vec![
                text("id-1"),
                text("hash-1"),
                text("laptop"),
                text("admin"),
                SqlValue::Integer(1_700_000_000),
            ],
            duty: Duty::Required,
        }
    );
    let client = ApiKey { key_type: KeyType::Client, ..key };
    assert_eq!(Statement::insert_key(&client).bindings[3], text("client"));
}

#[test]
fn credential_updates_bind_their_keys() {
    assert_eq!(
        Statement::touch("h", 55),
        Statement {
            sql: "UPDATE api_keys SET last_used = ?1 WHERE key_hash = ?2".to_string(),
            bindings: vec![SqlValue::Integer(55), text("h")],
            duty: Duty::BestEffort,
        }
    );
    assert_eq!(
        Statement::revoke("id-9"),
        Statement {
            sql: "UPDATE api_keys SET active = 0 WHERE id = ?1".to_string(),
            bindings: vec![text("id-9")],
            duty: Duty::Required,
        }
    );
    assert_eq!(
        Statement::revoke_admins(),
        Statement {
            sql: "UPDATE api_keys SET active = 0 WHERE key_type = 'admin'".to_string(),
            bindings: vec![],
            duty: Duty::Required,
        }
    );
    assert_eq!(
        Statement::revoke_admin_hash("old"),
        Statement {
            sql: "UPDATE api_keys SET active = 0 WHERE key_hash = ?1 AND key_type = 'admin'"
                .to_string(),
            bindings: vec![text("old")],
            duty: Duty::Required,
        }
    );
}

#[test]
fn insert_todo_binds_absent_description_and_due_date_as_null() {
    let todo = new_todo("t-1".to_string(), todo_request("write", None, None), 9);
    assert_eq!(
        Statement::insert_todo(&todo),
        Statement {
            sql: "INSERT INTO todos (id, title, description, completed, priority, due_date, created_at, updated_at) VALUES (?1, ?2, ?3, 0, ?4, ?5, ?6, ?7)"
                .to_string(),
            bindings: vec![
                text("t-1"),
                text("write"),
                SqlValue::Null,
                SqlValue::Integer(2),
                SqlValue::Null,
                SqlValue::Integer(9),
                SqlValue::Integer(9),
            ],
            duty: Duty::Required,
        }
    );
}

#[test]
fn insert_todo_binds_a_due_date_at_the_epoch_as_zero() {
    let todo = new_todo("t-1".to_string(), todo_request("write", Some("d"), Some(0)), 9);
    let statement = Statement::insert_todo(&todo);
    assert_eq!(statement.bindings[2], text("d"));
    assert_eq!(statement.bindings[4], SqlValue::Integer(0));
}

#[test]
fn update_and_toggle_bind_flags_as_integers() {
    let todo = Todo {
        id: "t-1".to_string(),
        title: "write".to_string(),
        description: None,
        completed: true,
        priority: -7,
        due_date: Some(100),
        created_at: 1,
        updated_at: 2,
    };
    assert_eq!(
        Statement::update_todo(&todo),
        Statement {
            sql: "UPDATE todos SET title = ?1, description = ?2, completed = ?3, priority = ?4, due_date = ?5, updated_at = ?6 WHERE id = ?7"
                .to_string(),
            bindings: vec![
                text("write"),
                SqlValue::Null,
                SqlValue::Integer(1),
                SqlValue::Integer(-7),
                SqlValue::Integer(100),
                SqlValue::Integer(2),
                text("t-1"),
            ],
            duty: Duty::Required,
        }
    );
    assert_eq!(
        Statement::toggle_todo(&todo),
        Statement {
            sql: "UPDATE todos SET completed = ?1, updated_at = ?2 WHERE id = ?3".to_string(),
            bindings: vec![SqlValue::Integer(1), SqlValue::Integer(2), text("t-1")],
            duty: Duty::Required,
        }
    );
    assert_eq!(
        Statement::delete_todo("t-1"),
        Statement {
            sql: "DELETE FROM todos WHERE id = ?1".to_string(),
            bindings: vec![text("t-1")],
            duty: Duty::Required,
        }
    );
}

#[test]
fn journal_records_each_write_in_order() {
    let mut db = Database::new();
    assert!(db.take_journal().is_empty());
    assert_eq!(db.initialize_with_admin_key_at("a".to_string(), "ha".to_string(), 1), Ok(()));
    assert!(db.validate_api_key_at("ha", 2).is_some());
    assert!(db.validate_api_key_at("unknown", 3).is_none());
    assert_eq!(db.revoke_api_key("missing"), Revocation::Unknown);
    let journal = db.take_journal();
    let key = new_api_key(
        "a".to_string(),
        "ha".to_string(),
        "Initial Admin Key".to_string(),
        KeyType::Admin,
        1,
    );
    assert_eq!(
        journal,
        vec![
            Statement::insert_first_admin(&key),
            Statement::touch("ha", 2),
            Statement::revoke("missing"),
        ]
    );
    assert!(db.take_journal().is_empty());
    assert_eq!(db.list_api_keys().len(), 1);
}

#[test]
fn refused_writes_record_nothing() {
    let mut db = Database::new();
    assert_eq!(
        db.reinitialize_admin_keys_at("a".to_string(), "h".to_string(), 1),
        Err(StoreError::NotInitialized)
    );
    assert_eq!(db.initialize_with_admin_key_at("a".to_string(), "h".to_string(), 1), Ok(()));
    assert_eq!(db.take_journal().len(), 1);
    assert_eq!(
        db.initialize_with_admin_key_at("b".to_string(), "h2".to_string(), 2),
        Err(StoreError::AlreadyInitialized)
    );
    assert_eq!(
        db.create_api_key_at("c".to_string(), "h".to_string(), "x".to_string(), KeyType::Client, 3),
        Err(StoreError::DuplicateKeyHash)
    );
    assert_eq!(
        db.rotate_admin_key_at("h", "a".to_string(), "h3".to_string(), 4),
        Err(StoreError::DuplicateId)
    );
    assert!(db.create_todo_at("t".to_string(), todo_request("x", None, None), 5).is_ok());
    assert_eq!(db.take_journal().len(), 1);
    assert_eq!(
        db.create_todo_at("t".to_string(), todo_request("y", None, None), 6),
        Err(StoreError::DuplicateId)
    );
    assert_eq!(db.update_todo_at("nope", UpdateTodoRequest {
        title: None, description: None, completed: None, priority: None, due_date: None,
    }, 7), None);
    assert_eq!(db.toggle_todo_at("nope", 7), None);
    assert!(db.get_todo("t").is_some());
    assert_eq!(db.list_todos(None).len(), 1);
    assert_eq!(db.search_todos("x").len(), 1);
    assert!(db.is_initialized());
    assert!(db.take_journal().is_empty());
}

#[test]
fn reissue_and_rotation_record_two_statements() {
    let mut db = Database::new();
    assert_eq!(db.initialize_with_admin_key_at("a".to_string(), "h".to_string(), 1), Ok(()));
    let _ = db.take_journal();
    assert_eq!(db.reinitialize_admin_keys_at("b".to_string(), "h2".to_string(), 2), Ok(()));
    let fresh = new_api_key(
        "b".to_string(),
        "h2".to_string(),
        "Reinitialized Admin Key".to_string(),
        KeyType::Admin,
        2,
    );
    assert_eq!(db.take_journal(), vec![Statement::revoke_admins(), Statement::insert_key(&fresh)]);

    assert_eq!(db.rotate_admin_key_at("h2", "c".to_string(), "h3".to_string(), 3), Ok(()));
    let rotated = new_api_key(
        "c".to_string(),
        "h3".to_string(),
        "Rotated Admin Key".to_string(),
        KeyType::Admin,
        3,
    );
    assert_eq!(
        db.take_journal(),
        vec![Statement::revoke_admin_hash("h2"), Statement::insert_key(&rotated)]
    );
}

#[test]
fn todo_writes_are_recorded() {
    let mut db = Database::new();
    let created = db.create_todo_at("t".to_string(), todo_request("x", None, None), 5).unwrap();
    let change = UpdateTodoRequest {
        title: Some("y".to_string()),
        description: None,
        completed: None,
        priority: None,
        due_date: None,
    };
    let updated = db.update_todo_at("t", change, 6).unwrap();
    let toggled = db.toggle_todo_at("t", 7).unwrap();
    assert!(db.delete_todo("t"));
    assert!(!db.delete_todo("t"));
    assert_eq!(
        db.take_journal(),
        vec![
            Statement::insert_todo(&created),
            Statement::update_todo(&updated),
            Statement::toggle_todo(&toggled),
            Statement::delete_todo("t"),
            Statement::delete_todo("t"),
        ]
    );
    assert_eq!(updated.description, None);
    assert!(toggled.completed);
}

#[test]
fn rows_are_decoded_on_load() {
    let keys = vec![key_row("a", "ha", "ADMIN", 1), key_row("c", "hc", "client", 0)];
    let todos = vec![todo_row("t1"), todo_row("t2")];
    let mut db = Database::from_rows(&keys, &todos).unwrap();
    assert!(db.is_initialized());
    assert!(db.take_journal().is_empty());
    assert_eq!(db.validate_api_key_at("ha", 5).unwrap().key_type, KeyType::Admin);
    assert_eq!(db.validate_api_key_at("hc", 5), None);
    assert_eq!(db.get_todo("t2").unwrap().description, None);
    assert_eq!(db.list_todos(None).len(), 2);
    assert_eq!(decode_key(&keys[1]).active, false);
    assert_eq!(decode_key(&keys[0]), ApiKey::from(key_row("a", "ha", "ADMIN", 1)));
    assert_eq!(decode_todo(&todos[0]), Todo::from(todo_row("t1")));
}

#[test]
fn tables_that_break_uniqueness_are_refused() {
    let same_hash = vec![key_row("a", "h", "admin", 1), key_row("b", "h", "client", 1)];
    assert!(matches!(
        Database::from_rows(&same_hash, &vec![]),
        Err(StoreError::DuplicateKeyHash)
    ));
    let same_id = vec![key_row("a", "h1", "admin", 1), key_row("a", "h2", "client", 1)];
    assert!(matches!(Database::from_rows(&same_id, &vec![]), Err(StoreError::DuplicateId)));
    let both = vec![key_row("a", "h", "admin", 1), key_row("a", "h", "client", 1)];
    assert!(matches!(Database::from_rows(&both, &vec![]), Err(StoreError::DuplicateKeyHash)));
    let same_todo = vec![todo_row("t"), todo_row("u"), todo_row("t")];
    assert!(matches!(Database::from_rows(&vec![], &same_todo), Err(StoreError::DuplicateId)));
    assert!(Database::from_rows(&vec![], &vec![]).is_ok());
}

#[test]
fn first_admin_is_inserted_only_where_none_exists() {
    let key = new_api_key(
        "id-1".to_string(),
        "hash-1".to_string(),
        "Initial Admin Key".to_string(),
        KeyType::Admin,
        7,
    );
    let statement = Statement::insert_first_admin(&key);
    assert_eq!(
        statement.sql,
        "INSERT INTO api_keys (id, key_hash, client_name, key_type, created_at, active) SELECT ?1, ?2, ?3, ?4, ?5, 1 WHERE NOT EXISTS (SELECT 1 FROM api_keys WHERE key_type = 'admin')"
    );
    assert_eq!(statement.bindings, Statement::insert_key(&key).bindings);
    assert_eq!(statement.duty, Duty::MustChange);
}

#[test]
fn only_a_statement_that_must_change_can_lose_a_race() {
    assert!(Duty::MustChange.is_lost(Some(0)));
    assert!(!Duty::MustChange.is_lost(Some(1)));
    assert!(!Duty::MustChange.is_lost(None));
    assert!(!Duty::Required.is_lost(Some(0)));
    assert!(!Duty::BestEffort.is_lost(Some(0)));
}

#[test]
fn recording_a_use_is_best_effort() {
    assert_eq!(Statement::touch("h", 1).duty, Duty::BestEffort);
    assert_eq!(Statement::revoke("i").duty, Duty::Required);
    assert_eq!(Statement::revoke_admins().duty, Duty::Required);
    assert_eq!(Statement::delete_todo("t").duty, Duty::Required);
}
