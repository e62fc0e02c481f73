use pali_server::auth::{
    admin_only_middleware, auth_middleware, authenticate_at, identity, is_admin,
    validate_api_key_from_request, AuthContext, AuthError,
};
use pali_server::db::{new_api_key, Database, Env};
use pali_server::keys::hash_api_key;
use pali_server::models::KeyType;
use pali_server::store::Revocation;

fn env_with(secret: &str, id: &str, name: &str, key_type: KeyType) -> Env {
    let mut db = Database::new();
    assert_eq!(
        db.create_api_key_at(id.to_string(), hash_api_key(secret), name.to_string(), key_type, 1),
        Ok(())
    );
    Env::new(db)
}

#[test]
fn identity_carries_role_and_label() {
    let key = new_api_key("i".to_string(), "h".to_string(), "ci".to_string(), KeyType::Client, 1);
    assert_eq!(
        identity(&key),
        AuthContext { key_type: KeyType::Client, client_name: "ci".to_string() }
    );
}

#[test]
fn is_admin_tells_roles_apart() {
    assert!(is_admin(&AuthContext { key_type: KeyType::Admin, client_name: String::new() }));
    assert!(!is_admin(&AuthContext { key_type: KeyType::Client, client_name: String::new() }));
}

#[test]
fn validation_without_a_store_is_unavailable() {
    let mut env = Env::unconfigured();
    assert_eq!(authenticate_at(&mut env, Some("pali_x"), 5), Err(AuthError::StoreUnavailable));
    assert_eq!(authenticate_at(&mut env, None, 5), Err(AuthError::StoreUnavailable));
    assert_eq!(validate_api_key_from_request(&mut env, Some("pali_x")), None);
}

#[test]
fn validation_without_a_secret_is_missing() {
    let mut env = env_with("pali_a", "a", "root", KeyType::Admin);
    assert_eq!(authenticate_at(&mut env, None, 5), Err(AuthError::Missing));
    assert_eq!(auth_middleware(&mut env, None), Err(AuthError::Missing));
    assert_eq!(env.db.unwrap().list_api_keys()[0].last_used, None);
}

#[test]
fn validation_of_a_wrong_secret_is_invalid() {
    let mut env = env_with("pali_a", "a", "root", KeyType::Admin);
    assert_eq!(authenticate_at(&mut env, Some("pali_b"), 5), Err(AuthError::Invalid));
    assert_eq!(authenticate_at(&mut env, Some(""), 5), Err(AuthError::Invalid));
    assert_eq!(env.db.unwrap().list_api_keys()[0].last_used, None);
}

#[test]
fn validation_does_not_accept_the_digest_itself() {
    let mut env = env_with("pali_a", "a", "root", KeyType::Admin);
    let digest = hash_api_key("pali_a");
    assert_eq!(authenticate_at(&mut env, Some(&digest), 5), Err(AuthError::Invalid));
}

#[test]
fn validation_of_the_secret_answers_the_identity_and_records_the_use() {
    let mut env = env_with("pali_a", "a", "root", KeyType::Admin);
    assert_eq!(
        authenticate_at(&mut env, Some("pali_a"), 77),
        Ok(AuthContext { key_type: KeyType::Admin, client_name: "root".to_string() })
    );
    assert_eq!(env.db.unwrap().list_api_keys()[0].last_used, Some(77));
}

#[test]
fn revoked_and_unknown_secrets_are_not_told_apart() {
    let mut env = env_with("pali_c", "c", "ci", KeyType::Client);
    assert_eq!(env.db.as_mut().unwrap().revoke_api_key("c"), Revocation::Revoked);
    let revoked = authenticate_at(&mut env, Some("pali_c"), 5);
    let unknown = authenticate_at(&mut env, Some("pali_never_issued"), 5);
    assert_eq!(revoked, Err(AuthError::Invalid));
    assert_eq!(revoked, unknown);
    assert_eq!(env.db.unwrap().list_api_keys()[0].last_used, None);
}

#[test]
fn middleware_validates_against_the_current_time() {
    let mut env = env_with("pali_c", "c", "ci", KeyType::Client);
    let who = auth_middleware(&mut env, Some("pali_c")).unwrap();
    assert_eq!(who.key_type, KeyType::Client);
    assert_eq!(who.client_name, "ci");
    assert!(env.db.unwrap().list_api_keys()[0].last_used.unwrap() > 1_600_000_000);
}

#[test]
fn admin_only_lets_administrators_through() {
    let admin = AuthContext { key_type: KeyType::Admin, client_name: "root".to_string() };
    let client = AuthContext { key_type: KeyType::Client, client_name: "ci".to_string() };
    assert_eq!(admin_only_middleware(Some(&admin)), Ok(()));
    assert_eq!(admin_only_middleware(Some(&client)), Err(AuthError::Forbidden));
    assert_eq!(admin_only_middleware(None), Err(AuthError::Unauthenticated));
}

#[test]
fn auth_errors_map_to_statuses_and_texts() {
    assert_eq!(AuthError::StoreUnavailable.status(), 500);
    assert_eq!(AuthError::Missing.status(), 401);
    assert_eq!(AuthError::Invalid.status(), 401);
    assert_eq!(AuthError::Unauthenticated.status(), 401);
    assert_eq!(AuthError::Forbidden.status(), 403);
    assert_eq!(AuthError::StoreUnavailable.message(), "Database not configured");
    assert_eq!(AuthError::Missing.message(), "Missing API key");
    assert_eq!(AuthError::Invalid.message(), "Invalid API key");
    assert_eq!(AuthError::Unauthenticated.message(), "Authentication required");
    assert_eq!(AuthError::Forbidden.message(), "Admin access required");
}

#[test]
fn validation_notes_the_identity_it_found() {
    let mut env = env_with("pali_c", "c", "ci", KeyType::Client);
    assert_eq!(env.seen, None);
    assert!(authenticate_at(&mut env, Some("pali_c"), 5).is_ok());
    assert_eq!(
        env.seen,
        Some(AuthContext { key_type: KeyType::Client, client_name: "ci".to_string() })
    );
    assert!(authenticate_at(&mut env, Some("pali_wrong"), 6).is_err());
    assert_eq!(env.seen, None);
    assert!(authenticate_at(&mut env, Some("pali_c"), 7).is_ok());
    assert!(authenticate_at(&mut env, None, 8).is_err());
    assert_eq!(env.seen, None);
}
