use pali_server::auth::{validate_api_key_from_request, AuthContext, AuthError};
use pali_server::db::{Database, Env};
use pali_server::handlers::{
    backend_failure, create_api_key, create_todo, delete_todo, get_todo, health_check,
    initialize_server, lost_race, Endpoint,
    list_api_keys, list_todos, parse_flag, reinitialize_server, require_admin, require_client,
    revoke_api_key, root, rotate_admin_key, search_todos, show_todo, toggle_todo, update_todo,
};
use pali_server::keys::hash_api_key;
use pali_server::models::{
    ApiKeyInfo, ApiResponse, CreateApiKeyRequest, CreateTodoRequest, KeyType, Todo,
    UpdateTodoRequest,
};
use pali_server::reply::{store_failure, ErrorKind, Reply, OK};
use pali_server::store::StoreError;

const ADMIN: &str = "pali_admin_secret";
const CLIENT: &str = "pali_client_secret";

fn env_with_admin_and_client() -> Env {
    let mut db = Database::new();
    assert_eq!(
        db.create_api_key_at(
            "admin-id".to_string(),
            hash_api_key(ADMIN),
            "root".to_string(),
            KeyType::Admin,
            10,
        ),
        Ok(())
    );
    assert_eq!(
        db.create_api_key_at(
            "client-id".to_string(),
            hash_api_key(CLIENT),
            "ci".to_string(),
            KeyType::Client,
            20,
        ),
        Ok(())
    );
    Env::new(db)
}

fn failure<T>(status: u16, text: &str) -> Reply<T> {
    Reply {
        status,
        body: ApiResponse { success: false, data: None, error: Some(text.to_string()) },
    }
}

fn write(title: &str) -> Option<CreateTodoRequest> {
    Some(CreateTodoRequest {
        title: title.to_string(),
        description: None,
        priority: None,
        due_date: None,
    })
}

#[test]
fn root_and_health_check_answer_fixed_texts() {
    assert_eq!(root(), "Pali Server API v1.0 - Self-hosted todo management");
    assert_eq!(health_check(), "OK");
}

#[test]
fn error_kinds_map_to_statuses() {
    assert_eq!(OK, 200);
    assert_eq!(ErrorKind::Unauthenticated.status(), 401);
    assert_eq!(ErrorKind::Forbidden.status(), 403);
    assert_eq!(ErrorKind::Conflict.status(), 409);
    assert_eq!(ErrorKind::PreconditionFailed.status(), 400);
    assert_eq!(ErrorKind::NotFound.status(), 404);
    assert_eq!(ErrorKind::StoreUnavailable.status(), 500);
    assert_eq!(ErrorKind::InvalidInput.status(), 400);
    assert_eq!(ErrorKind::Gone.status(), 410);
}

#[test]
fn replies_fill_the_envelope() {
    assert_eq!(
        Reply::ok(7),
        Reply { status: 200, body: ApiResponse { success: true, data: Some(7), error: None } }
    );
    assert_eq!(
        Reply::<i32>::failure(ErrorKind::NotFound, "gone".to_string()),
        failure(404, "gone")
    );
    assert_eq!(
        ApiResponse::<i32>::error("bad".to_string()),
        ApiResponse { success: false, data: None, error: Some("bad".to_string()) }
    );
    assert_eq!(
        ApiResponse::success("x"),
        ApiResponse { success: true, data: Some("x"), error: None }
    );
}

#[test]
fn store_failure_names_attempt_and_report() {
    assert_eq!(
        store_failure("Failed to create API key", &StoreError::DuplicateKeyHash),
        "Failed to create API key: UNIQUE constraint failed: api_keys.key_hash"
    );
    assert_eq!(
        store_failure("Failed to list todos", &StoreError::Unavailable("D1 down".to_string())),
        "Failed to list todos: D1 down"
    );
}

#[test]
fn bootstrap_validate_revoke_validate() {
    let mut env = Env::new(Database::new());
    let reply = initialize_server(&mut env);
    assert_eq!(reply.status, 200);
    assert!(reply.body.success);
    assert_eq!(reply.body.error, None);
    let issued = reply.body.data.unwrap();
    assert_eq!(issued.client_name, "Initial Admin Key");
    assert_eq!(issued.key_type, KeyType::Admin);
    assert!(issued.api_key.starts_with("pali_"));
    assert_eq!(issued.api_key.len(), 69);
    let k1 = issued.api_key;

    assert_eq!(
        validate_api_key_from_request(&mut env, Some(&k1)),
        Some(AuthContext { key_type: KeyType::Admin, client_name: "Initial Admin Key".to_string() })
    );

    assert_eq!(revoke_api_key(&mut env, Some(&k1), Some(&issued.id)), Reply::ok(()));

    assert_eq!(validate_api_key_from_request(&mut env, Some(&k1)), None);
    assert_eq!(
        list_api_keys(&mut env, Some(&k1)),
        failure(401, "Invalid or missing API key")
    );
}

#[test]
fn client_key_validates_but_is_forbidden_on_admin_endpoints() {
    let mut env = env_with_admin_and_client();
    let body = CreateApiKeyRequest { client_name: "phone".to_string(), key_type: KeyType::Client };
    let reply = create_api_key(&mut env, Some(ADMIN), Some(body));
    assert_eq!(reply.status, 200);
    let issued = reply.body.data.unwrap();
    assert_eq!(issued.client_name, "phone");
    assert_eq!(issued.key_type, KeyType::Client);
    let k2 = issued.api_key;

    assert_eq!(
        validate_api_key_from_request(&mut env, Some(&k2)),
        Some(AuthContext { key_type: KeyType::Client, client_name: "phone".to_string() })
    );
    assert_eq!(list_api_keys(&mut env, Some(&k2)), failure(403, "Admin privileges required"));
    assert_eq!(
        revoke_api_key(&mut env, Some(&k2), Some("admin-id")),
        failure(403, "Admin privileges required")
    );
    let again = CreateApiKeyRequest { client_name: "x".to_string(), key_type: KeyType::Admin };
    assert_eq!(
        create_api_key(&mut env, Some(&k2), Some(again)),
        failure(403, "Admin privileges required")
    );
    assert_eq!(env.db.unwrap().list_api_keys().len(), 3);
}

#[test]
fn second_initialization_is_a_conflict_and_changes_nothing() {
    let mut env = Env::new(Database::new());
    let first = initialize_server(&mut env);
    assert_eq!(first.status, 200);
    let before = env.db.as_ref().unwrap().list_api_keys();
    assert_eq!(initialize_server(&mut env), failure(409, "Server already initialized"));
    assert_eq!(env.db.as_ref().unwrap().list_api_keys(), before);
    assert_eq!(before.len(), 1);
    assert_eq!(before[0].key_hash, hash_api_key(&first.body.data.unwrap().api_key));
}

#[test]
fn initialization_without_a_store_is_unavailable() {
    let mut env = Env::unconfigured();
    assert_eq!(initialize_server(&mut env), failure(500, "Database not configured"));
    assert_eq!(reinitialize_server(&mut env), failure(500, "Database not configured"));
    assert!(env.db.is_none());
}

#[test]
fn reinitialization_before_initialization_is_refused() {
    let mut env = Env::new(Database::new());
    assert_eq!(
        reinitialize_server(&mut env),
        failure(400, "Server not initialized. Use POST /initialize first")
    );
    assert!(env.db.unwrap().list_api_keys().is_empty());
}

#[test]
fn reinitialization_replaces_every_admin_secret() {
    let mut env = env_with_admin_and_client();
    let reply = reinitialize_server(&mut env);
    assert_eq!(reply.status, 200);
    let issued = reply.body.data.unwrap();
    assert_eq!(issued.client_name, "Reinitialized Admin Key");
    assert_eq!(issued.key_type, KeyType::Admin);

    assert_eq!(validate_api_key_from_request(&mut env, Some(ADMIN)), None);
    assert_eq!(
        validate_api_key_from_request(&mut env, Some(&issued.api_key)),
        Some(AuthContext {
            key_type: KeyType::Admin,
            client_name: "Reinitialized Admin Key".to_string()
        })
    );
    let keys = env.db.unwrap().list_api_keys();
    let active_admins: Vec<&str> = keys
        .iter()
        .filter(|k| k.active && k.key_type == KeyType::Admin)
        .map(|k| k.id.as_str())
        .collect();
    assert_eq!(active_admins, vec![issued.id.as_str()]);
    assert!(keys.iter().any(|k| k.id == "client-id" && k.active));
}

#[test]
fn rotation_endpoint_is_gone() {
    assert_eq!(
        rotate_admin_key(),
        failure(410, "Use POST /reinitialize for admin key rotation")
    );
}

#[test]
fn admin_endpoints_need_a_valid_secret() {
    let mut env = env_with_admin_and_client();
    assert_eq!(list_api_keys(&mut env, None), failure(401, "Invalid or missing API key"));
    assert_eq!(
        list_api_keys(&mut env, Some("pali_wrong")),
        failure(401, "Invalid or missing API key")
    );
    assert_eq!(
        revoke_api_key(&mut env, None, Some("client-id")),
        failure(401, "Invalid or missing API key")
    );
    assert_eq!(create_api_key(&mut env, None, None), failure(401, "Invalid or missing API key"));
}

#[test]
fn guarded_endpoints_without_a_store_report_the_store() {
    let mut none = Env::unconfigured();
    let missing = "Database not configured";
    assert_eq!(list_api_keys(&mut none, Some(ADMIN)), failure(500, missing));
    assert_eq!(list_api_keys(&mut none, None), failure(500, missing));
    assert_eq!(create_api_key(&mut none, Some(ADMIN), None), failure(500, missing));
    assert_eq!(revoke_api_key(&mut none, Some(ADMIN), Some("x")), failure(500, missing));
    assert_eq!(create_todo(&mut none, Some(CLIENT), write("x")), failure(500, missing));
    assert_eq!(get_todo(&mut none, Some(CLIENT), Some("x")), failure(500, missing));
    assert_eq!(update_todo(&mut none, Some(CLIENT), Some("x"), None), failure(500, missing));
    assert_eq!(toggle_todo(&mut none, Some(CLIENT), Some("x")), failure(500, missing));
    assert_eq!(delete_todo(&mut none, Some(CLIENT), Some("x")), failure(500, missing));
    assert_eq!(list_todos(&mut none, Some(CLIENT), None), failure(500, missing));
    assert_eq!(search_todos(&mut none, Some(CLIENT), Some("x")), failure(500, missing));
    assert!(none.db.is_none());
}

#[test]
fn issuing_needs_a_readable_body() {
    let mut env = env_with_admin_and_client();
    assert_eq!(create_api_key(&mut env, Some(ADMIN), None), failure(400, "Invalid JSON body"));
    assert_eq!(env.db.unwrap().list_api_keys().len(), 2);
}

#[test]
fn listing_shows_every_credential_without_digest() {
    let mut env = env_with_admin_and_client();
    let reply = list_api_keys(&mut env, Some(ADMIN));
    assert_eq!(reply.status, 200);
    let infos = reply.body.data.unwrap();
    assert_eq!(infos.len(), 2);
    assert_eq!(
        infos[0],
        ApiKeyInfo {
            id: "client-id".to_string(),
            client_name: "ci".to_string(),
            key_type: KeyType::Client,
            last_used: None,
            created_at: 20,
            active: true,
        }
    );
    assert_eq!(infos[1].id, "admin-id");
    assert_eq!(infos[1].key_type, KeyType::Admin);
    assert!(infos[1].last_used.is_some());
}

#[test]
fn revoking_needs_an_identifier_and_is_idempotent() {
    let mut env = env_with_admin_and_client();
    assert_eq!(revoke_api_key(&mut env, Some(ADMIN), None), failure(400, "Missing key ID"));
    assert_eq!(revoke_api_key(&mut env, Some(ADMIN), Some("client-id")), Reply::ok(()));
    assert_eq!(revoke_api_key(&mut env, Some(ADMIN), Some("client-id")), Reply::ok(()));
    assert_eq!(revoke_api_key(&mut env, Some(ADMIN), Some("unknown")), Reply::ok(()));
    assert_eq!(validate_api_key_from_request(&mut env, Some(CLIENT)), None);
    assert!(validate_api_key_from_request(&mut env, Some(ADMIN)).is_some());
}

#[test]
fn require_admin_and_client_refuse_with_their_texts() {
    let admin = Ok(AuthContext { key_type: KeyType::Admin, client_name: "a".to_string() });
    let client = Ok(AuthContext { key_type: KeyType::Client, client_name: "c".to_string() });
    let refused = Some(failure(401, "Invalid or missing API key"));
    let no_store = Some(failure(500, "Database not configured"));
    assert_eq!(require_admin::<()>(&admin), None);
    assert_eq!(require_admin::<()>(&client), Some(failure(403, "Admin privileges required")));
    assert_eq!(require_admin::<()>(&Err(AuthError::Missing)), refused);
    assert_eq!(require_admin::<()>(&Err(AuthError::Invalid)), refused);
    assert_eq!(require_admin::<()>(&Err(AuthError::StoreUnavailable)), no_store);
    assert_eq!(require_client::<()>(&admin), None);
    assert_eq!(require_client::<()>(&client), None);
    assert_eq!(require_client::<()>(&Err(AuthError::Missing)), refused);
    assert_eq!(require_client::<()>(&Err(AuthError::Invalid)), refused);
    assert_eq!(require_client::<()>(&Err(AuthError::StoreUnavailable)), no_store);
}

#[test]
fn parse_flag_reads_only_exact_words() {
    assert_eq!(parse_flag("true"), Some(true));
    assert_eq!(parse_flag("false"), Some(false));
    assert_eq!(parse_flag("True"), None);
    assert_eq!(parse_flag("1"), None);
    assert_eq!(parse_flag(""), None);
    assert_eq!(parse_flag(" true"), None);
}

#[test]
fn show_todo_reports_a_missing_item() {
    assert_eq!(show_todo(None), failure(404, "Todo not found"));
}

#[test]
fn todo_endpoints_need_a_valid_secret() {
    let mut env = env_with_admin_and_client();
    let refused = failure::<Todo>(401, "Invalid or missing API key");
    assert_eq!(create_todo(&mut env, None, write("x")), refused);
    assert_eq!(get_todo(&mut env, Some("pali_wrong"), Some("t")), refused);
    assert_eq!(update_todo(&mut env, None, Some("t"), None), refused);
    assert_eq!(toggle_todo(&mut env, None, Some("t")), refused);
    assert_eq!(delete_todo(&mut env, None, Some("t")), failure(401, "Invalid or missing API key"));
    assert_eq!(list_todos(&mut env, None, None), failure(401, "Invalid or missing API key"));
    assert!(env.db.unwrap().list_todos(None).is_empty());
}

#[test]
fn todo_endpoints_check_their_inputs() {
    let mut env = env_with_admin_and_client();
    assert_eq!(create_todo(&mut env, Some(CLIENT), None), failure(400, "Invalid JSON body"));
    assert_eq!(get_todo(&mut env, Some(CLIENT), None), failure(400, "Missing todo ID"));
    assert_eq!(update_todo(&mut env, Some(CLIENT), None, None), failure(400, "Missing todo ID"));
    assert_eq!(
        update_todo(&mut env, Some(CLIENT), Some("t"), None),
        failure(400, "Invalid JSON body")
    );
    assert_eq!(toggle_todo(&mut env, Some(CLIENT), None), failure(400, "Missing todo ID"));
    assert_eq!(delete_todo(&mut env, Some(CLIENT), None), failure(400, "Missing todo ID"));
}

#[test]
fn todo_lifecycle_through_the_endpoints() {
    let mut env = env_with_admin_and_client();
    let created = create_todo(&mut env, Some(CLIENT), write("write tests"));
    assert_eq!(created.status, 200);
    let todo = created.body.data.unwrap();
    assert_eq!(todo.title, "write tests");
    assert_eq!(todo.priority, 2);
    assert!(!todo.completed);

    let shown = get_todo(&mut env, Some(CLIENT), Some(&todo.id));
    assert_eq!(shown.status, 200);
    let stored = shown.body.data.unwrap();
    assert_eq!(stored, todo);
    assert_eq!(stored.description, None);

    let change = UpdateTodoRequest {
        title: None,
        description: None,
        completed: Some(true),
        priority: None,
        due_date: None,
    };
    let updated = update_todo(&mut env, Some(CLIENT), Some(&todo.id), Some(change));
    assert_eq!(updated.status, 200);
    let changed = updated.body.data.unwrap();
    assert_eq!(changed, Todo { completed: true, updated_at: changed.updated_at, ..stored.clone() });

    let toggled = toggle_todo(&mut env, Some(ADMIN), Some(&todo.id));
    assert!(!toggled.body.data.unwrap().completed);

    assert_eq!(delete_todo(&mut env, Some(CLIENT), Some(&todo.id)), Reply::ok(()));
    assert_eq!(
        delete_todo(&mut env, Some(CLIENT), Some(&todo.id)),
        failure(404, "Todo not found")
    );
    assert_eq!(get_todo(&mut env, Some(CLIENT), Some(&todo.id)), failure(404, "Todo not found"));
    assert_eq!(toggle_todo(&mut env, Some(CLIENT), Some(&todo.id)), failure(404, "Todo not found"));
}

#[test]
fn todo_listing_applies_the_completion_filter() {
    let mut env = env_with_admin_and_client();
    let a = create_todo(&mut env, Some(CLIENT), write("a")).body.data.unwrap();
    let b = create_todo(&mut env, Some(CLIENT), write("b")).body.data.unwrap();
    assert!(toggle_todo(&mut env, Some(CLIENT), Some(&b.id)).body.success);

    let titles = |reply: Reply<Vec<Todo>>| -> Vec<String> {
        let mut titles: Vec<String> =
            reply.body.data.unwrap().into_iter().map(|t| t.title).collect();
        titles.sort();
        titles
    };
    assert_eq!(titles(list_todos(&mut env, Some(CLIENT), None)), vec!["a", "b"]);
    assert_eq!(titles(list_todos(&mut env, Some(CLIENT), Some("true"))), vec!["b"]);
    assert_eq!(titles(list_todos(&mut env, Some(CLIENT), Some("false"))), vec!["a"]);
    assert_eq!(titles(list_todos(&mut env, Some(CLIENT), Some("maybe"))), vec!["a", "b"]);
    assert_eq!(a.title, "a");
}

#[test]
fn search_endpoint_needs_a_query() {
    let mut env = env_with_admin_and_client();
    assert_eq!(
        search_todos(&mut env, Some(CLIENT), None),
        failure(400, "Missing 'q' query parameter")
    );
    assert_eq!(
        search_todos(&mut env, None, Some("x")),
        failure(401, "Invalid or missing API key")
    );
}

#[test]
fn search_endpoint_answers_the_matching_todos() {
    let mut env = env_with_admin_and_client();
    assert!(create_todo(&mut env, Some(CLIENT), write("Buy milk")).body.success);
    assert!(create_todo(&mut env, Some(CLIENT), write("Call bank")).body.success);
    let reply = search_todos(&mut env, Some(CLIENT), Some("MILK"));
    assert_eq!(reply.status, 200);
    let found = reply.body.data.unwrap();
    assert_eq!(found.len(), 1);
    assert_eq!(found[0].title, "Buy milk");
}

#[test]
fn backend_failures_name_the_attempt() {
    assert_eq!(
        backend_failure::<Todo>(Endpoint::CreateTodo, "D1 down".to_string()),
        failure(500, "Failed to create todo: D1 down")
    );
    assert_eq!(
        backend_failure::<()>(Endpoint::RevokeApiKey, String::new()),
        failure(500, "Failed to revoke API key: ")
    );
    let attempts = [
        (Endpoint::Initialize, "Failed to initialize server"),
        (Endpoint::Reinitialize, "Failed to reinitialize server"),
        (Endpoint::CreateApiKey, "Failed to create API key"),
        (Endpoint::ListApiKeys, "Failed to list API keys"),
        (Endpoint::RevokeApiKey, "Failed to revoke API key"),
        (Endpoint::CreateTodo, "Failed to create todo"),
        (Endpoint::ListTodos, "Failed to list todos"),
        (Endpoint::SearchTodos, "Failed to search todos"),
        (Endpoint::GetTodo, "Failed to get todo"),
        (Endpoint::UpdateTodo, "Failed to update todo"),
        (Endpoint::DeleteTodo, "Failed to delete todo"),
        (Endpoint::ToggleTodo, "Failed to toggle todo"),
    ];
    for (endpoint, text) in attempts {
        assert_eq!(endpoint.attempt(), text);
    }
}

#[test]
fn a_lost_race_is_a_conflict() {
    assert_eq!(lost_race::<()>(), failure(409, "Server already initialized"));
}

#[test]
fn issued_identifiers_are_hyphenated_version_four() {
    let mut env = Env::new(Database::new());
    let id = initialize_server(&mut env).body.data.unwrap().id;
    let chars: Vec<char> = id.chars().collect();
    assert_eq!(chars.len(), 36);
    for (i, c) in chars.iter().enumerate() {
        if [8, 13, 18, 23].contains(&i) {
            assert_eq!(*c, '-');
        } else {
            assert!(c.is_ascii_digit() || ('a'..='f').contains(c), "unexpected {c:?} at {i}");
        }
    }
    assert_eq!(chars[14], '4');
}

#[test]
fn only_todo_endpoints_read_todos() {
    for endpoint in [
        Endpoint::Initialize,
        Endpoint::Reinitialize,
        Endpoint::CreateApiKey,
        Endpoint::ListApiKeys,
        Endpoint::RevokeApiKey,
    ] {
        assert!(!endpoint.reads_todos());
    }
    for endpoint in [
        Endpoint::CreateTodo,
        Endpoint::ListTodos,
        Endpoint::SearchTodos,
        Endpoint::GetTodo,
        Endpoint::UpdateTodo,
        Endpoint::DeleteTodo,
        Endpoint::ToggleTodo,
    ] {
        assert!(endpoint.reads_todos());
    }
}

#[test]
fn endpoints_note_who_was_let_through() {
    let mut env = env_with_admin_and_client();
    assert!(list_todos(&mut env, Some(CLIENT), None).body.success);
    assert_eq!(env.seen.as_ref().map(|who| who.client_name.as_str()), Some("ci"));
    assert_eq!(list_todos(&mut env, Some("pali_wrong"), None).status, 401);
    assert_eq!(env.seen, None);
}
