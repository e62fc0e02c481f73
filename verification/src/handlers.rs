//! The endpoints: what each request is answered with, and what it does to
//! the store.

use vstd::prelude::*;
use vstd::string::*;
use crate::auth::{
    auth_middleware, auth_view, gate, is_admin, presented_text, AuthContext, AuthContextView,
    AuthError,
};
use crate::db::{
    bootstrapped, created_view, current_timestamp, initial_label, is_collision, is_random_id,
    issued, key_views, opt_todo_view, reinitialized_label, todo_views, Env, EnvView,
};
use crate::keys::{generate_api_key, hash_api_key, is_api_key, key_digest, same_text};
use crate::models::{
    info_of, ApiKeyInfo, ApiKeyInfoView, ApiKeyResponse, ApiKeyResponseView, ApiKeyView,
    CreateApiKeyRequest, CreateTodoRequest, KeyType, Todo, TodoView, UpdateTodoRequest,
};
use crate::order::{arranged, is_listing_order, is_selection};
use crate::reply::{store_failure, store_failure_text, ErrorKind, Reply, OK};
use crate::store::{
    create_outcome, deleted_in, find_todo, fresh_key, has_admin, key_ranks, knows_todo,
    reissued_in, revoked_in, search_filter, todo_filter, todo_ranks, toggle_outcome,
    update_outcome, Store, StoreError,
};

verus! {

/// Whether a request was sent back with a failure of the given kind and
/// text, and left everything as it was.
pub open spec fn refused<T>(
    before: EnvView,
    after: EnvView,
    reply: Reply<T>,
    kind: ErrorKind,
    text: Seq<char>,
) -> bool {
    after == before && reply.is_failure(kind, text)
}

/// Whether a request was sent back because a store operation was refused
/// for a collision: the text names what was attempted and the collision.
pub open spec fn collided<T>(
    before: EnvView,
    after: EnvView,
    reply: Reply<T>,
    attempt: Seq<char>,
) -> bool {
    exists|e: StoreError|
        is_collision(e) && refused(
            before,
            after,
            reply,
            ErrorKind::StoreUnavailable,
            #[trigger] store_failure_text(attempt, e),
        )
}

/// The mathematical values of a run of listing entries.
pub open spec fn info_views(infos: Seq<ApiKeyInfo>) -> Seq<ApiKeyInfoView> {
    Seq::new(infos.len(), |i: int| infos[i]@)
}

/// What a listing shows of a run of credentials.
pub open spec fn infos_of(keys: Seq<ApiKeyView>) -> Seq<ApiKeyInfoView> {
    Seq::new(keys.len(), |i: int| info_of(keys[i]))
}

/// The endpoints that work on the store.
#[derive(Clone, Copy, Debug, PartialEq, Eq, Structural)]
pub enum Endpoint {
    Initialize,
    Reinitialize,
    CreateApiKey,
    ListApiKeys,
    RevokeApiKey,
    CreateTodo,
    ListTodos,
    SearchTodos,
    GetTodo,
    UpdateTodo,
    DeleteTodo,
    ToggleTodo,
}

/// What an endpoint says it attempted when the store fails it.
pub open spec fn attempt_text(endpoint: Endpoint) -> Seq<char> {
    match endpoint {
        Endpoint::Initialize => "Failed to initialize server"@,
        Endpoint::Reinitialize => "Failed to reinitialize server"@,
        Endpoint::CreateApiKey => "Failed to create API key"@,
        Endpoint::ListApiKeys => "Failed to list API keys"@,
        Endpoint::RevokeApiKey => "Failed to revoke API key"@,
        Endpoint::CreateTodo => "Failed to create todo"@,
        Endpoint::ListTodos => "Failed to list todos"@,
        Endpoint::SearchTodos => "Failed to search todos"@,
        Endpoint::GetTodo => "Failed to get todo"@,
        Endpoint::UpdateTodo => "Failed to update todo"@,
        Endpoint::DeleteTodo => "Failed to delete todo"@,
        Endpoint::ToggleTodo => "Failed to toggle todo"@,
    }
}

/// Whether an endpoint reads or writes todo items. The others work on the
/// credentials alone, so that the todo items need not be loaded for them.
pub open spec fn works_on_todos(endpoint: Endpoint) -> bool {
    match endpoint {
        Endpoint::Initialize => false,
        Endpoint::Reinitialize => false,
        Endpoint::CreateApiKey => false,
        Endpoint::ListApiKeys => false,
        Endpoint::RevokeApiKey => false,
        Endpoint::CreateTodo => true,
        Endpoint::ListTodos => true,
        Endpoint::SearchTodos => true,
        Endpoint::GetTodo => true,
        Endpoint::UpdateTodo => true,
        Endpoint::DeleteTodo => true,
        Endpoint::ToggleTodo => true,
    }
}

impl Endpoint {
    /// Whether this endpoint reads or writes todo items.
    pub fn reads_todos(&self) -> (reads: bool)
        ensures
            reads == works_on_todos(*self),
    {
        match self {
            Endpoint::Initialize => false,
            Endpoint::Reinitialize => false,
            Endpoint::CreateApiKey => false,
            Endpoint::ListApiKeys => false,
            Endpoint::RevokeApiKey => false,
            Endpoint::CreateTodo => true,
            Endpoint::ListTodos => true,
            Endpoint::SearchTodos => true,
            Endpoint::GetTodo => true,
            Endpoint::UpdateTodo => true,
            Endpoint::DeleteTodo => true,
            Endpoint::ToggleTodo => true,
        }
    }

    /// What this endpoint says it attempted when the store fails it.
    pub fn attempt(&self) -> (text: &'static str)
        ensures
            text@ == attempt_text(*self),
    {
        match self {
            Endpoint::Initialize => "Failed to initialize server",
            Endpoint::Reinitialize => "Failed to reinitialize server",
            Endpoint::CreateApiKey => "Failed to create API key",
            Endpoint::ListApiKeys => "Failed to list API keys",
            Endpoint::RevokeApiKey => "Failed to revoke API key",
            Endpoint::CreateTodo => "Failed to create todo",
            Endpoint::ListTodos => "Failed to list todos",
            Endpoint::SearchTodos => "Failed to search todos",
            Endpoint::GetTodo => "Failed to get todo",
            Endpoint::UpdateTodo => "Failed to update todo",
            Endpoint::DeleteTodo => "Failed to delete todo",
            Endpoint::ToggleTodo => "Failed to toggle todo",
        }
    }
}

/// The answer of an endpoint whose request could not be served because the
/// backend failed: the failure is a fault of the store, and the text names
/// what was attempted and the report of the backend.
pub fn backend_failure<T>(endpoint: Endpoint, report: String) -> (reply: Reply<T>)
    ensures
        reply.is_failure(
            ErrorKind::StoreUnavailable,
            store_failure_text(attempt_text(endpoint), StoreError::Unavailable(report)),
        ),
{
    let e = StoreError::Unavailable(report);
    Reply::failure(ErrorKind::StoreUnavailable, store_failure(endpoint.attempt(), &e))
}

/// The answer of the first initialization where its statement changed no
/// row: another first initialization came first.
pub fn lost_race<T>() -> (reply: Reply<T>)
    ensures
        reply.is_failure(ErrorKind::Conflict, "Server already initialized"@),
{
    Reply::failure(ErrorKind::Conflict, String::from_str("Server already initialized"))
}

/// The name of the service, as the root of the API answers it.
pub fn root() -> (text: &'static str)
    ensures
        text@ == "Pali Server API v1.0 - Self-hosted todo management"@,
{
    "Pali Server API v1.0 - Self-hosted todo management"
}

/// The answer of the health check.
pub fn health_check() -> (text: &'static str)
    ensures
        text@ == "OK"@,
{
    "OK"
}

/// Whether `answer` reports the credential that a successful issuance
/// wrote: the table grew by one active credential with the answered
/// identifier, the given label and role, stored under the digest of the
/// answered secret, which has the shape of a secret of this system.
pub open spec fn reports_issue(
    before: Store,
    after: Store,
    answer: ApiKeyResponseView,
    label: Seq<char>,
    key_type: KeyType,
) -> bool {
    &&& is_api_key(answer.api_key)
    &&& is_random_id(answer.id)
    &&& answer.client_name == label
    &&& answer.key_type == key_type
    &&& issued(before, after, answer.id, key_digest(answer.api_key), label, key_type)
}

/// Whether `answer` reports the credential that a successful first
/// initialization wrote: the first administrator credential, stored under
/// the answered identifier and the digest of the answered secret.
pub open spec fn reports_bootstrap(before: Store, after: Store, answer: ApiKeyResponseView) -> bool {
    &&& is_api_key(answer.api_key)
    &&& is_random_id(answer.id)
    &&& answer.client_name == initial_label()
    &&& answer.key_type == KeyType::Admin
    &&& bootstrapped(before, after, answer.id, key_digest(answer.api_key))
}

/// What the first initialization answers and does.
pub open spec fn initialize_answers(
    before: EnvView,
    after: EnvView,
    reply: Reply<ApiKeyResponse>,
) -> bool {
    match before.db {
        None => refused(
            before,
            after,
            reply,
            ErrorKind::StoreUnavailable,
            "Database not configured"@,
        ),
        Some(store) => if has_admin(store.keys) {
            refused(before, after, reply, ErrorKind::Conflict, "Server already initialized"@)
        } else if reply.status == OK {
            &&& reply.is_ok()
            &&& after.db is Some
            &&& after.seen == before.seen
            &&& reports_bootstrap(store, after.db->0, reply.payload()@)
        } else {
            collided(before, after, reply, attempt_text(Endpoint::Initialize))
        },
    }
}

/// The first initialization: issues the first administrator credential
/// and answers with its secret, the only time the secret is shown. Refused
/// as a conflict once any administrator exists.
pub fn initialize_server(env: &mut Env) -> (reply: Reply<ApiKeyResponse>)
    requires
        old(env).wf(),
    ensures
        final(env).wf(),
        initialize_answers(old(env)@, final(env)@, reply),
        old(env)@.db is Some && old(env)@.db->0.keys.len() == 0 ==> reply.is_ok(),
{
    match &mut env.db {
        None => Reply::failure(
            ErrorKind::StoreUnavailable,
            String::from_str("Database not configured"),
        ),
        Some(db) => {
            if db.is_initialized() {
                return Reply::failure(
                    ErrorKind::Conflict,
                    String::from_str("Server already initialized"),
                );
            }
            let api_key = generate_api_key();
            let key_hash = hash_api_key(api_key.as_str());
            match db.initialize_with_admin_key(key_hash) {
                Ok(id) => Reply::ok(
                    ApiKeyResponse {
                        id,
                        client_name: String::from_str("Initial Admin Key"),
                        key_type: KeyType::Admin,
                        api_key,
                        created_at: current_timestamp(),
                    },
                ),
                Err(e) => {
                    let reply = Reply::failure(
                        ErrorKind::StoreUnavailable,
                        store_failure(Endpoint::Initialize.attempt(), &e),
                    );
                    assert(is_collision(e));
                    reply
                },
            }
        },
    }
}

/// Whether `answer` reports the credential that a successful emergency
/// reissue wrote: every administrator credential of the table was revoked,
/// and one new active administrator credential was added under the
/// answered identifier and the digest of the answered secret.
pub open spec fn reports_reissue(before: Store, after: Store, answer: ApiKeyResponseView) -> bool {
    &&& is_api_key(answer.api_key)
    &&& is_random_id(answer.id)
    &&& answer.client_name == reinitialized_label()
    &&& answer.key_type == KeyType::Admin
    &&& exists|now: i64|
        after == reissued_in(
            before,
            #[trigger] fresh_key(
                answer.id,
                key_digest(answer.api_key),
                reinitialized_label(),
                KeyType::Admin,
                now,
            ),
        )
}

/// What the emergency reissue answers and does.
pub open spec fn reinitialize_answers(
    before: EnvView,
    after: EnvView,
    reply: Reply<ApiKeyResponse>,
) -> bool {
    match before.db {
        None => refused(
            before,
            after,
            reply,
            ErrorKind::StoreUnavailable,
            "Database not configured"@,
        ),
        Some(store) => if !has_admin(store.keys) {
            refused(
                before,
                after,
                reply,
                ErrorKind::PreconditionFailed,
                "Server not initialized. Use POST /initialize first"@,
            )
        } else if reply.status == OK {
            &&& reply.is_ok()
            &&& after.db is Some
            &&& after.seen == before.seen
            &&& reports_reissue(store, after.db->0, reply.payload()@)
        } else {
            collided(before, after, reply, attempt_text(Endpoint::Reinitialize))
        },
    }
}

/// The emergency reissue: revokes every administrator credential, issues
/// one new one and answers with its secret. Refused before the first
/// initialization, in which case nothing is written.
pub fn reinitialize_server(env: &mut Env) -> (reply: Reply<ApiKeyResponse>)
    requires
        old(env).wf(),
    ensures
        final(env).wf(),
        reinitialize_answers(old(env)@, final(env)@, reply),
{
    match &mut env.db {
        None => Reply::failure(
            ErrorKind::StoreUnavailable,
            String::from_str("Database not configured"),
        ),
        Some(db) => {
            if !db.is_initialized() {
                return Reply::failure(
                    ErrorKind::PreconditionFailed,
                    String::from_str("Server not initialized. Use POST /initialize first"),
                );
            }
            let api_key = generate_api_key();
            let key_hash = hash_api_key(api_key.as_str());
            match db.reinitialize_admin_keys(key_hash) {
                Ok(id) => Reply::ok(
                    ApiKeyResponse {
                        id,
                        client_name: String::from_str("Reinitialized Admin Key"),
                        key_type: KeyType::Admin,
                        api_key,
                        created_at: current_timestamp(),
                    },
                ),
                Err(e) => {
                    let reply = Reply::failure(
                        ErrorKind::StoreUnavailable,
                        store_failure(Endpoint::Reinitialize.attempt(), &e),
                    );
                    assert(is_collision(e));
                    reply
                },
            }
        },
    }
}

/// The answer to a request for the withdrawn rotation endpoint.
pub fn rotate_admin_key() -> (reply: Reply<()>)
    ensures
        reply.is_failure(ErrorKind::Gone, "Use POST /reinitialize for admin key rotation"@),
{
    Reply::failure(
        ErrorKind::Gone,
        String::from_str("Use POST /reinitialize for admin key rotation"),
    )
}

/// Why a request may not use an operation that is reserved to
/// administrators, if it may not: the kind of the refusal and its text. A
/// missing store is a fault of the store; a missing or unaccepted secret
/// is told in one and the same way.
pub open spec fn admin_refusal(who: Result<AuthContextView, AuthError>) -> Option<
    (ErrorKind, Seq<char>),
> {
    match who {
        Err(AuthError::StoreUnavailable) => Some(
            (ErrorKind::StoreUnavailable, "Database not configured"@),
        ),
        Err(_) => Some((ErrorKind::Unauthenticated, "Invalid or missing API key"@)),
        Ok(w) => if w.key_type != KeyType::Admin {
            Some((ErrorKind::Forbidden, "Admin privileges required"@))
        } else {
            None
        },
    }
}

/// Why a request may not use an operation that is open to every
/// credential, if it may not.
pub open spec fn client_refusal(who: Result<AuthContextView, AuthError>) -> Option<
    (ErrorKind, Seq<char>),
> {
    match who {
        Err(AuthError::StoreUnavailable) => Some(
            (ErrorKind::StoreUnavailable, "Database not configured"@),
        ),
        Err(_) => Some((ErrorKind::Unauthenticated, "Invalid or missing API key"@)),
        Ok(_) => None,
    }
}

/// Checks that a request may use an operation that is reserved to
/// administrators.
pub fn require_admin<T>(auth: &Result<AuthContext, AuthError>) -> (refusal: Option<Reply<T>>)
    ensures
        match admin_refusal(auth_view(*auth)) {
            Some((kind, text)) => refusal is Some && refusal->0.is_failure(kind, text),
            None => refusal is None,
        },
{
    match auth {
        Err(AuthError::StoreUnavailable) => Some(
            Reply::failure(
                ErrorKind::StoreUnavailable,
                String::from_str("Database not configured"),
            ),
        ),
        Err(_) => Some(
            Reply::failure(
                ErrorKind::Unauthenticated,
                String::from_str("Invalid or missing API key"),
            ),
        ),
        Ok(who) => if is_admin(who) {
            None
        } else {
            Some(Reply::failure(ErrorKind::Forbidden, String::from_str("Admin privileges required")))
        },
    }
}

/// Checks that a request may use an operation that is open to every
/// credential.
pub fn require_client<T>(auth: &Result<AuthContext, AuthError>) -> (refusal: Option<Reply<T>>)
    ensures
        match client_refusal(auth_view(*auth)) {
            Some((kind, text)) => refusal is Some && refusal->0.is_failure(kind, text),
            None => refusal is None,
        },
{
    match auth {
        Err(AuthError::StoreUnavailable) => Some(
            Reply::failure(
                ErrorKind::StoreUnavailable,
                String::from_str("Database not configured"),
            ),
        ),
        Err(_) => Some(
            Reply::failure(
                ErrorKind::Unauthenticated,
                String::from_str("Invalid or missing API key"),
            ),
        ),
        Ok(_) => None,
    }
}

/// What an issuance answers and does, once the request was validated as
/// `who`.
pub open spec fn issue_answers(
    before: EnvView,
    who: Result<AuthContextView, AuthError>,
    body: Option<CreateApiKeyRequest>,
    after: EnvView,
    reply: Reply<ApiKeyResponse>,
) -> bool {
    match admin_refusal(who) {
        Some((kind, text)) => refused(before, after, reply, kind, text),
        None => match body {
            None => refused(before, after, reply, ErrorKind::InvalidInput, "Invalid JSON body"@),
            Some(request) => match before.db {
                None => false,
                Some(store) => if reply.status == OK {
                    &&& reply.is_ok()
                    &&& after.db is Some
                    &&& after.seen == before.seen
                    &&& reports_issue(
                        store,
                        after.db->0,
                        reply.payload()@,
                        request.client_name@,
                        request.key_type,
                    )
                } else {
                    collided(before, after, reply, attempt_text(Endpoint::CreateApiKey))
                },
            },
        },
    }
}

fn issue(env: &mut Env, auth: Result<AuthContext, AuthError>, body: Option<CreateApiKeyRequest>) -> (reply:
    Reply<ApiKeyResponse>)
    requires
        old(env).wf(),
        auth is Ok ==> old(env)@.db is Some,
    ensures
        final(env).wf(),
        issue_answers(old(env)@, auth_view(auth), body, final(env)@, reply),
{
    if let Some(refusal) = require_admin(&auth) {
        return refusal;
    }
    let request = match body {
        Some(request) => request,
        None => {
            return Reply::failure(ErrorKind::InvalidInput, String::from_str("Invalid JSON body"));
        },
    };
    match &mut env.db {
        // No request is let through without a store, so this arm is never taken.
        None => Reply::failure(
            ErrorKind::StoreUnavailable,
            String::from_str("Database not configured"),
        ),
        Some(db) => {
            let api_key = generate_api_key();
            let key_hash = hash_api_key(api_key.as_str());
            match db.create_api_key(key_hash, request.client_name.clone(), request.key_type) {
                Ok(id) => Reply::ok(
                    ApiKeyResponse {
                        id,
                        client_name: request.client_name,
                        key_type: request.key_type,
                        api_key,
                        created_at: current_timestamp(),
                    },
                ),
                Err(e) => {
                    let reply = Reply::failure(
                        ErrorKind::StoreUnavailable,
                        store_failure(Endpoint::CreateApiKey.attempt(), &e),
                    );
                    assert(is_collision(e));
                    reply
                },
            }
        },
    }
}

/// Issues a credential of the asked role on behalf of an administrator and
/// answers with its secret, the only time the secret is shown.
pub fn create_api_key(
    env: &mut Env,
    presented: Option<&str>,
    body: Option<CreateApiKeyRequest>,
) -> (reply: Reply<ApiKeyResponse>)
    requires
        old(env).wf(),
    ensures
        final(env).wf(),
        exists|mid: EnvView, who: Result<AuthContextView, AuthError>| #[trigger]
            gate(old(env)@, presented_text(presented), mid, who) && issue_answers(
                mid,
                who,
                body,
                final(env)@,
                reply,
            ),
{
    let auth = auth_middleware(env, presented);
    let ghost mid = env@;
    let ghost who = auth_view(auth);
    let reply = issue(env, auth, body);
    assert(gate(old(env)@, presented_text(presented), mid, who) && issue_answers(
        mid,
        who,
        body,
        env@,
        reply,
    ));
    reply
}

/// Whether the answer shows every credential of the table, newest first,
/// each without its digest.
pub open spec fn shows_keys(keys: Seq<ApiKeyView>, reply: Reply<Vec<ApiKeyInfo>>) -> bool {
    &&& reply.is_ok()
    &&& exists|order: Seq<usize>| #[trigger]
        is_listing_order(key_ranks(keys), order) && info_views(reply.payload()@) == infos_of(
            arranged(keys, order),
        )
}

/// What a listing of the credentials answers, once the request was
/// validated as `who`.
pub open spec fn listing_answers(
    before: EnvView,
    who: Result<AuthContextView, AuthError>,
    after: EnvView,
    reply: Reply<Vec<ApiKeyInfo>>,
) -> bool {
    match admin_refusal(who) {
        Some((kind, text)) => refused(before, after, reply, kind, text),
        None => match before.db {
            None => false,
            Some(store) => after == before && shows_keys(store.keys, reply),
        },
    }
}

fn listing(env: &Env, auth: Result<AuthContext, AuthError>) -> (reply: Reply<Vec<ApiKeyInfo>>)
    requires
        auth is Ok ==> env@.db is Some,
    ensures
        listing_answers(env@, auth_view(auth), env@, reply),
{
    if let Some(refusal) = require_admin(&auth) {
        return refusal;
    }
    match &env.db {
        // No request is let through without a store, so this arm is never taken.
        None => Reply::failure(
            ErrorKind::StoreUnavailable,
            String::from_str("Database not configured"),
        ),
        Some(db) => {
            let keys = db.list_api_keys();
            let n = keys.len();
            let mut infos: Vec<ApiKeyInfo> = Vec::new();
            let mut i: usize = 0;
            while i < n
                invariant
                    i <= n,
                    n == keys.len(),
                    infos.len() == i,
                    forall|j: int| 0 <= j < i ==> (#[trigger] infos[j])@ == info_of(keys[j]@),
                decreases n - i,
            {
                infos.push(keys[i].info());
                i = i + 1;
            }
            let reply = Reply::ok(infos);
            proof {
                let order = choose|order: Seq<usize>| #[trigger]
                    is_listing_order(key_ranks(db@.keys), order) && key_views(keys@) == arranged(
                        db@.keys,
                        order,
                    );
                assert forall|j: int| 0 <= j < n implies (#[trigger] info_views(
                    reply.payload()@,
                )[j]) == infos_of(arranged(db@.keys, order))[j] by {
                    assert(key_views(keys@)[j] == keys[j]@);
                }
                assert(is_listing_order(key_ranks(db@.keys), order) && info_views(
                    reply.payload()@,
                ) =~= infos_of(arranged(db@.keys, order)));
            }
            reply
        },
    }
}

/// Lists every credential for an administrator, newest first. No entry
/// holds a digest or a secret.
pub fn list_api_keys(env: &mut Env, presented: Option<&str>) -> (reply: Reply<Vec<ApiKeyInfo>>)
    requires
        old(env).wf(),
    ensures
        final(env).wf(),
        exists|who: Result<AuthContextView, AuthError>| #[trigger]
            gate(old(env)@, presented_text(presented), final(env)@, who) && listing_answers(
                final(env)@,
                who,
                final(env)@,
                reply,
            ),
{
    let auth = auth_middleware(env, presented);
    let ghost who = auth_view(auth);
    let reply = listing(env, auth);
    assert(gate(old(env)@, presented_text(presented), env@, who) && listing_answers(
        env@,
        who,
        env@,
        reply,
    ));
    reply
}

/// What a revocation answers and does, once the request was validated as
/// `who`.
pub open spec fn revocation_answers(
    before: EnvView,
    who: Result<AuthContextView, AuthError>,
    id: Option<Seq<char>>,
    after: EnvView,
    reply: Reply<()>,
) -> bool {
    match admin_refusal(who) {
        Some((kind, text)) => refused(before, after, reply, kind, text),
        None => match id {
            None => refused(before, after, reply, ErrorKind::InvalidInput, "Missing key ID"@),
            Some(wanted) => match before.db {
                None => false,
                Some(store) => {
                    &&& reply.is_ok()
                    &&& after.seen == before.seen
                    &&& after.db == Some(revoked_in(store, wanted))
                },
            },
        },
    }
}

fn revocation(env: &mut Env, auth: Result<AuthContext, AuthError>, id: Option<&str>) -> (reply: Reply<()>)
    requires
        old(env).wf(),
        auth is Ok ==> old(env)@.db is Some,
    ensures
        final(env).wf(),
        revocation_answers(old(env)@, auth_view(auth), presented_text(id), final(env)@, reply),
{
    if let Some(refusal) = require_admin(&auth) {
        return refusal;
    }
    let wanted = match id {
        Some(wanted) => wanted,
        None => {
            return Reply::failure(ErrorKind::InvalidInput, String::from_str("Missing key ID"));
        },
    };
    match &mut env.db {
        // No request is let through without a store, so this arm is never taken.
        None => Reply::failure(
            ErrorKind::StoreUnavailable,
            String::from_str("Database not configured"),
        ),
        Some(db) => {
            let _ = db.revoke_api_key(wanted);
            Reply::ok(())
        },
    }
}

/// Revokes the credential with the given identifier on behalf of an
/// administrator. Revoking a revoked or an unknown credential succeeds and
/// changes nothing.
pub fn revoke_api_key(env: &mut Env, presented: Option<&str>, id: Option<&str>) -> (reply: Reply<
    (),
>)
    requires
        old(env).wf(),
    ensures
        final(env).wf(),
        exists|mid: EnvView, who: Result<AuthContextView, AuthError>| #[trigger]
            gate(old(env)@, presented_text(presented), mid, who) && revocation_answers(
                mid,
                who,
                presented_text(id),
                final(env)@,
                reply,
            ),
{
    let auth = auth_middleware(env, presented);
    let ghost mid = env@;
    let ghost who = auth_view(auth);
    let reply = revocation(env, auth, id);
    assert(gate(old(env)@, presented_text(presented), mid, who) && revocation_answers(
        mid,
        who,
        presented_text(id),
        env@,
        reply,
    ));
    reply
}

/// Whether the table `after` and the answer `reply` are what the outcome
/// of a creation asks for.
pub open spec fn created(
    outcome: (Result<TodoView, StoreError>, Store),
    after: Store,
    reply: Reply<Todo>,
) -> bool {
    &&& after == outcome.1
    &&& match outcome.0 {
        Ok(todo) => reply.is_ok() && reply.payload()@ == todo,
        Err(e) => reply.is_failure(
            ErrorKind::StoreUnavailable,
            store_failure_text(attempt_text(Endpoint::CreateTodo), e),
        ),
    }
}

/// What creating a todo item under the fresh identifier `id` at the time
/// `now` answers and does, once the request was validated as `who`.
pub open spec fn creation_answers_at(
    before: EnvView,
    who: Result<AuthContextView, AuthError>,
    body: Option<CreateTodoRequest>,
    id: Seq<char>,
    now: i64,
    after: EnvView,
    reply: Reply<Todo>,
) -> bool {
    match client_refusal(who) {
        Some((kind, text)) => refused(before, after, reply, kind, text),
        None => match body {
            None => refused(before, after, reply, ErrorKind::InvalidInput, "Invalid JSON body"@),
            Some(request) => match before.db {
                None => false,
                Some(store) => {
                    &&& after.db is Some
                    &&& after.seen == before.seen
                    &&& is_random_id(id)
                    &&& created(create_outcome(store, id, request@, now), after.db->0, reply)
                },
            },
        },
    }
}

/// What creating a todo item answers and does, once the request was
/// validated as `who`: what it answers and does under some identifier at
/// some moment.
pub open spec fn creation_answers(
    before: EnvView,
    who: Result<AuthContextView, AuthError>,
    body: Option<CreateTodoRequest>,
    after: EnvView,
    reply: Reply<Todo>,
) -> bool {
    exists|id: Seq<char>, now: i64|
        #[trigger] creation_answers_at(before, who, body, id, now, after, reply)
}

fn creation(env: &mut Env, auth: Result<AuthContext, AuthError>, body: Option<CreateTodoRequest>) -> (reply:
    Reply<Todo>)
    requires
        old(env).wf(),
        auth is Ok ==> old(env)@.db is Some,
    ensures
        final(env).wf(),
        creation_answers(old(env)@, auth_view(auth), body, final(env)@, reply),
{
    let ghost who = auth_view(auth);
    let ghost mut moment = 0i64;
    let ghost mut named: Seq<char> = Seq::empty();
    let reply = if let Some(refusal) = require_client(&auth) {
        refusal
    } else {
        match body {
            None => Reply::failure(ErrorKind::InvalidInput, String::from_str("Invalid JSON body")),
            Some(request) => match &mut env.db {
                // No request is let through without a store, so this arm is never taken.
                None => Reply::failure(
                    ErrorKind::StoreUnavailable,
                    String::from_str("Database not configured"),
                ),
                Some(db) => {
                    let ghost before = db@;
                    let ghost asked = request@;
                    let res = db.create_todo(request);
                    proof {
                        let (id, now) = choose|id: Seq<char>, now: i64|
                            is_random_id(id) && (created_view(res), db@)
                                == #[trigger] create_outcome(
                                before,
                                id,
                                asked,
                                now,
                            );
                        moment = now;
                        named = id;
                    }
                    match res {
                        Ok(todo) => Reply::ok(todo),
                        Err(e) => Reply::failure(
                            ErrorKind::StoreUnavailable,
                            store_failure(Endpoint::CreateTodo.attempt(), &e),
                        ),
                    }
                },
            },
        }
    };
    assert(creation_answers_at(old(env)@, who, body, named, moment, env@, reply));
    reply
}

/// Creates a todo item for any validated caller and answers with it.
pub fn create_todo(env: &mut Env, presented: Option<&str>, body: Option<CreateTodoRequest>) -> (reply:
    Reply<Todo>)
    requires
        old(env).wf(),
    ensures
        final(env).wf(),
        exists|mid: EnvView, who: Result<AuthContextView, AuthError>| #[trigger]
            gate(old(env)@, presented_text(presented), mid, who) && creation_answers(
                mid,
                who,
                body,
                final(env)@,
                reply,
            ),
{
    let auth = auth_middleware(env, presented);
    let ghost mid = env@;
    let ghost who = auth_view(auth);
    let reply = creation(env, auth, body);
    assert(gate(old(env)@, presented_text(presented), mid, who) && creation_answers(
        mid,
        who,
        body,
        env@,
        reply,
    ));
    reply
}

/// Whether the answer shows the todo item that was found, or reports that
/// there is none.
pub open spec fn shows_todo(found: Option<TodoView>, reply: Reply<Todo>) -> bool {
    match found {
        Some(todo) => reply.is_ok() && reply.payload()@ == todo,
        None => reply.is_failure(ErrorKind::NotFound, "Todo not found"@),
    }
}

/// Answers with the todo item, or reports that there is none.
pub fn show_todo(found: Option<Todo>) -> (reply: Reply<Todo>)
    ensures
        shows_todo(opt_todo_view(found), reply),
{
    match found {
        Some(todo) => Reply::ok(todo),
        None => Reply::failure(ErrorKind::NotFound, String::from_str("Todo not found")),
    }
}

/// What a request for one todo item answers, once it was validated as
/// `who`.
pub open spec fn retrieval_answers(
    before: EnvView,
    who: Result<AuthContextView, AuthError>,
    id: Option<Seq<char>>,
    after: EnvView,
    reply: Reply<Todo>,
) -> bool {
    match client_refusal(who) {
        Some((kind, text)) => refused(before, after, reply, kind, text),
        None => match id {
            None => refused(before, after, reply, ErrorKind::InvalidInput, "Missing todo ID"@),
            Some(wanted) => match before.db {
                None => false,
                Some(store) => after == before && shows_todo(find_todo(store.todos, wanted), reply),
            },
        },
    }
}

fn retrieval(env: &Env, auth: Result<AuthContext, AuthError>, id: Option<&str>) -> (reply: Reply<Todo>)
    requires
        auth is Ok ==> env@.db is Some,
    ensures
        retrieval_answers(env@, auth_view(auth), presented_text(id), env@, reply),
{
    if let Some(refusal) = require_client(&auth) {
        return refusal;
    }
    let wanted = match id {
        Some(wanted) => wanted,
        None => {
            return Reply::failure(ErrorKind::InvalidInput, String::from_str("Missing todo ID"));
        },
    };
    match &env.db {
        // No request is let through without a store, so this arm is never taken.
        None => Reply::failure(
            ErrorKind::StoreUnavailable,
            String::from_str("Database not configured"),
        ),
        Some(db) => show_todo(db.get_todo(wanted)),
    }
}

/// Answers any validated caller with the todo item that has the given
/// identifier.
pub fn get_todo(env: &mut Env, presented: Option<&str>, id: Option<&str>) -> (reply: Reply<Todo>)
    requires
        old(env).wf(),
    ensures
        final(env).wf(),
        exists|who: Result<AuthContextView, AuthError>| #[trigger]
            gate(old(env)@, presented_text(presented), final(env)@, who) && retrieval_answers(
                final(env)@,
                who,
                presented_text(id),
                final(env)@,
                reply,
            ),
{
    let auth = auth_middleware(env, presented);
    let ghost who = auth_view(auth);
    let reply = retrieval(env, auth, id);
    assert(gate(old(env)@, presented_text(presented), env@, who) && retrieval_answers(
        env@,
        who,
        presented_text(id),
        env@,
        reply,
    ));
    reply
}

/// Whether the table `after` and the answer `reply` are what the outcome
/// of a change asks for.
pub open spec fn changed(outcome: (Option<TodoView>, Store), after: Store, reply: Reply<Todo>) -> bool {
    after == outcome.1 && shows_todo(outcome.0, reply)
}

/// What a change request at the time `now` answers and does, once it was
/// validated as `who`.
pub open spec fn update_answers_at(
    before: EnvView,
    who: Result<AuthContextView, AuthError>,
    id: Option<Seq<char>>,
    body: Option<UpdateTodoRequest>,
    now: i64,
    after: EnvView,
    reply: Reply<Todo>,
) -> bool {
    match client_refusal(who) {
        Some((kind, text)) => refused(before, after, reply, kind, text),
        None => match id {
            None => refused(before, after, reply, ErrorKind::InvalidInput, "Missing todo ID"@),
            Some(wanted) => match body {
                None => refused(
                    before,
                    after,
                    reply,
                    ErrorKind::InvalidInput,
                    "Invalid JSON body"@,
                ),
                Some(request) => match before.db {
                    None => false,
                    Some(store) => {
                        &&& after.db is Some
                        &&& after.seen == before.seen
                        &&& changed(
                            update_outcome(store, wanted, request@, now),
                            after.db->0,
                            reply,
                        )
                    },
                },
            },
        },
    }
}

/// What a change request answers and does, once it was validated as
/// `who`: what it answers and does at some moment.
pub open spec fn update_answers(
    before: EnvView,
    who: Result<AuthContextView, AuthError>,
    id: Option<Seq<char>>,
    body: Option<UpdateTodoRequest>,
    after: EnvView,
    reply: Reply<Todo>,
) -> bool {
    exists|now: i64|
        #[trigger] update_answers_at(before, who, id, body, now, after, reply)
}

fn update(
    env: &mut Env,
    auth: Result<AuthContext, AuthError>,
    id: Option<&str>,
    body: Option<UpdateTodoRequest>,
) -> (reply: Reply<Todo>)
    requires
        old(env).wf(),
        auth is Ok ==> old(env)@.db is Some,
    ensures
        final(env).wf(),
        update_answers(old(env)@, auth_view(auth), presented_text(id), body, final(env)@, reply),
{
    let ghost who = auth_view(auth);
    let ghost mut moment = 0i64;
    let reply = if let Some(refusal) = require_client(&auth) {
        refusal
    } else {
        match id {
            None => Reply::failure(ErrorKind::InvalidInput, String::from_str("Missing todo ID")),
            Some(wanted) => match body {
                None => Reply::failure(
                    ErrorKind::InvalidInput,
                    String::from_str("Invalid JSON body"),
                ),
                Some(request) => match &mut env.db {
                    // No request is let through without a store, so this arm is never taken.
                    None => Reply::failure(
                        ErrorKind::StoreUnavailable,
                        String::from_str("Database not configured"),
                    ),
                    Some(db) => {
                        let ghost before = db@;
                        let ghost asked = request@;
                        let res = db.update_todo(wanted, request);
                        proof {
                            moment = choose|now: i64|
                                (opt_todo_view(res), db@) == #[trigger] update_outcome(
                                    before,
                                    wanted@,
                                    asked,
                                    now,
                                );
                        }
                        show_todo(res)
                    },
                },
            },
        }
    };
    assert(update_answers_at(old(env)@, who, presented_text(id), body, moment, env@, reply));
    reply
}

/// Applies a change request to a todo item for any validated caller and
/// answers with the changed item. Fields that the request does not name
/// stay as they are.
pub fn update_todo(
    env: &mut Env,
    presented: Option<&str>,
    id: Option<&str>,
    body: Option<UpdateTodoRequest>,
) -> (reply: Reply<Todo>)
    requires
        old(env).wf(),
    ensures
        final(env).wf(),
        exists|mid: EnvView, who: Result<AuthContextView, AuthError>| #[trigger]
            gate(old(env)@, presented_text(presented), mid, who) && update_answers(
                mid,
                who,
                presented_text(id),
                body,
                final(env)@,
                reply,
            ),
{
    let auth = auth_middleware(env, presented);
    let ghost mid = env@;
    let ghost who = auth_view(auth);
    let reply = update(env, auth, id, body);
    assert(gate(old(env)@, presented_text(presented), mid, who) && update_answers(
        mid,
        who,
        presented_text(id),
        body,
        env@,
        reply,
    ));
    reply
}

/// What a request to flip the completion of a todo item at the time `now`
/// answers and does, once it was validated as `who`.
pub open spec fn toggle_answers_at(
    before: EnvView,
    who: Result<AuthContextView, AuthError>,
    id: Option<Seq<char>>,
    now: i64,
    after: EnvView,
    reply: Reply<Todo>,
) -> bool {
    match client_refusal(who) {
        Some((kind, text)) => refused(before, after, reply, kind, text),
        None => match id {
            None => refused(before, after, reply, ErrorKind::InvalidInput, "Missing todo ID"@),
            Some(wanted) => match before.db {
                None => false,
                Some(store) => {
                    &&& after.db is Some
                    &&& after.seen == before.seen
                    &&& changed(toggle_outcome(store, wanted, now), after.db->0, reply)
                },
            },
        },
    }
}

/// What a request to flip the completion of a todo item answers and does,
/// once it was validated as `who`: what it answers and does at some
/// moment.
pub open spec fn toggle_answers(
    before: EnvView,
    who: Result<AuthContextView, AuthError>,
    id: Option<Seq<char>>,
    after: EnvView,
    reply: Reply<Todo>,
) -> bool {
    exists|now: i64| #[trigger] toggle_answers_at(before, who, id, now, after, reply)
}

fn toggling(env: &mut Env, auth: Result<AuthContext, AuthError>, id: Option<&str>) -> (reply: Reply<Todo>)
    requires
        old(env).wf(),
        auth is Ok ==> old(env)@.db is Some,
    ensures
        final(env).wf(),
        toggle_answers(old(env)@, auth_view(auth), presented_text(id), final(env)@, reply),
{
    let ghost who = auth_view(auth);
    let ghost mut moment = 0i64;
    let reply = if let Some(refusal) = require_client(&auth) {
        refusal
    } else {
        match id {
            None => Reply::failure(ErrorKind::InvalidInput, String::from_str("Missing todo ID")),
            Some(wanted) => match &mut env.db {
                // No request is let through without a store, so this arm is never taken.
                None => Reply::failure(
                    ErrorKind::StoreUnavailable,
                    String::from_str("Database not configured"),
                ),
                Some(db) => {
                    let ghost before = db@;
                    let res = db.toggle_todo(wanted);
                    proof {
                        moment = choose|now: i64|
                            (opt_todo_view(res), db@) == #[trigger] toggle_outcome(
                                before,
                                wanted@,
                                now,
                            );
                    }
                    show_todo(res)
                },
            },
        }
    };
    assert(toggle_answers_at(old(env)@, who, presented_text(id), moment, env@, reply));
    reply
}

/// Flips the completion of a todo item for any validated caller and
/// answers with the changed item.
pub fn toggle_todo(env: &mut Env, presented: Option<&str>, id: Option<&str>) -> (reply: Reply<Todo>)
    requires
        old(env).wf(),
    ensures
        final(env).wf(),
        exists|mid: EnvView, who: Result<AuthContextView, AuthError>| #[trigger]
            gate(old(env)@, presented_text(presented), mid, who) && toggle_answers(
                mid,
                who,
                presented_text(id),
                final(env)@,
                reply,
            ),
{
    let auth = auth_middleware(env, presented);
    let ghost mid = env@;
    let ghost who = auth_view(auth);
    let reply = toggling(env, auth, id);
    assert(gate(old(env)@, presented_text(presented), mid, who) && toggle_answers(
        mid,
        who,
        presented_text(id),
        env@,
        reply,
    ));
    reply
}

/// What a request to delete a todo item answers and does, once it was
/// validated as `who`.
pub open spec fn deletion_answers(
    before: EnvView,
    who: Result<AuthContextView, AuthError>,
    id: Option<Seq<char>>,
    after: EnvView,
    reply: Reply<()>,
) -> bool {
    match client_refusal(who) {
        Some((kind, text)) => refused(before, after, reply, kind, text),
        None => match id {
            None => refused(before, after, reply, ErrorKind::InvalidInput, "Missing todo ID"@),
            Some(wanted) => match before.db {
                None => false,
                Some(store) => {
                    &&& after.seen == before.seen
                    &&& after.db == Some(deleted_in(store, wanted))
                    &&& if knows_todo(store.todos, wanted) {
                        reply.is_ok()
                    } else {
                        reply.is_failure(ErrorKind::NotFound, "Todo not found"@)
                    }
                },
            },
        },
    }
}

fn deletion(env: &mut Env, auth: Result<AuthContext, AuthError>, id: Option<&str>) -> (reply: Reply<()>)
    requires
        old(env).wf(),
        auth is Ok ==> old(env)@.db is Some,
    ensures
        final(env).wf(),
        deletion_answers(old(env)@, auth_view(auth), presented_text(id), final(env)@, reply),
{
    if let Some(refusal) = require_client(&auth) {
        return refusal;
    }
    let wanted = match id {
        Some(wanted) => wanted,
        None => {
            return Reply::failure(ErrorKind::InvalidInput, String::from_str("Missing todo ID"));
        },
    };
    match &mut env.db {
        // No request is let through without a store, so this arm is never taken.
        None => Reply::failure(
            ErrorKind::StoreUnavailable,
            String::from_str("Database not configured"),
        ),
        Some(db) => if db.delete_todo(wanted) {
            Reply::ok(())
        } else {
            Reply::failure(ErrorKind::NotFound, String::from_str("Todo not found"))
        },
    }
}

/// Deletes a todo item for any validated caller.
pub fn delete_todo(env: &mut Env, presented: Option<&str>, id: Option<&str>) -> (reply: Reply<()>)
    requires
        old(env).wf(),
    ensures
        final(env).wf(),
        exists|mid: EnvView, who: Result<AuthContextView, AuthError>| #[trigger]
            gate(old(env)@, presented_text(presented), mid, who) && deletion_answers(
                mid,
                who,
                presented_text(id),
                final(env)@,
                reply,
            ),
{
    let auth = auth_middleware(env, presented);
    let ghost mid = env@;
    let ghost who = auth_view(auth);
    let reply = deletion(env, auth, id);
    assert(gate(old(env)@, presented_text(presented), mid, who) && deletion_answers(
        mid,
        who,
        presented_text(id),
        env@,
        reply,
    ));
    reply
}

/// The flag that the text of a query parameter names: `true` or `false`,
/// spelled exactly so; any other text names none.
pub open spec fn text_flag(text: Seq<char>) -> Option<bool> {
    if text == "true"@ {
        Some(true)
    } else if text == "false"@ {
        Some(false)
    } else {
        None
    }
}

/// The completion filter that a request asks for: none where the
/// parameter is absent or names no flag.
pub open spec fn asked_filter(completed: Option<Seq<char>>) -> Option<bool> {
    match completed {
        Some(text) => text_flag(text),
        None => None,
    }
}

/// Reads the flag that the text of a query parameter names.
pub fn parse_flag(text: &str) -> (flag: Option<bool>)
    ensures
        flag == text_flag(text@),
{
    if same_text(text, "true") {
        Some(true)
    } else if same_text(text, "false") {
        Some(false)
    } else {
        None
    }
}

/// Whether the answer shows exactly the todo items that `wanted` marks,
/// highest priority first, among equals the newest first.
pub open spec fn shows_selection(
    todos: Seq<TodoView>,
    wanted: Seq<bool>,
    reply: Reply<Vec<Todo>>,
) -> bool {
    &&& reply.is_ok()
    &&& exists|picks: Seq<usize>| #[trigger]
        is_selection(todo_ranks(todos), wanted, picks) && todo_views(reply.payload()@)
            == arranged(todos, picks)
}

/// What a listing of the todo items answers, once the request was
/// validated as `who`: the items that the filter admits, highest priority
/// first, among equals the newest first.
pub open spec fn todo_listing_answers(
    before: EnvView,
    who: Result<AuthContextView, AuthError>,
    completed: Option<Seq<char>>,
    after: EnvView,
    reply: Reply<Vec<Todo>>,
) -> bool {
    match client_refusal(who) {
        Some((kind, text)) => refused(before, after, reply, kind, text),
        None => match before.db {
            None => false,
            Some(store) => after == before && shows_selection(
                store.todos,
                todo_filter(store.todos, asked_filter(completed)),
                reply,
            ),
        },
    }
}

fn todo_listing(env: &Env, auth: Result<AuthContext, AuthError>, completed: Option<&str>) -> (reply: Reply<
    Vec<Todo>,
>)
    requires
        auth is Ok ==> env@.db is Some,
    ensures
        todo_listing_answers(env@, auth_view(auth), presented_text(completed), env@, reply),
{
    if let Some(refusal) = require_client(&auth) {
        return refusal;
    }
    let filter = match completed {
        Some(text) => parse_flag(text),
        None => None,
    };
    match &env.db {
        // No request is let through without a store, so this arm is never taken.
        None => Reply::failure(
            ErrorKind::StoreUnavailable,
            String::from_str("Database not configured"),
        ),
        Some(db) => {
            let reply = Reply::ok(db.list_todos(filter));
            assert(shows_selection(db@.todos, todo_filter(db@.todos, filter), reply));
            reply
        },
    }
}

/// Lists the todo items for any validated caller, all of them or those
/// whose completion is as the query asks.
pub fn list_todos(env: &mut Env, presented: Option<&str>, completed: Option<&str>) -> (reply: Reply<
    Vec<Todo>,
>)
    requires
        old(env).wf(),
    ensures
        final(env).wf(),
        exists|who: Result<AuthContextView, AuthError>| #[trigger]
            gate(old(env)@, presented_text(presented), final(env)@, who) && todo_listing_answers(
                final(env)@,
                who,
                presented_text(completed),
                final(env)@,
                reply,
            ),
{
    let auth = auth_middleware(env, presented);
    let ghost who = auth_view(auth);
    let reply = todo_listing(env, auth, completed);
    assert(gate(old(env)@, presented_text(presented), env@, who) && todo_listing_answers(
        env@,
        who,
        presented_text(completed),
        env@,
        reply,
    ));
    reply
}

/// What a search answers, once the request was validated as `who`: the
/// todo items whose title or description holds the query, in the order of
/// a listing.
pub open spec fn search_answers(
    before: EnvView,
    who: Result<AuthContextView, AuthError>,
    query: Option<Seq<char>>,
    after: EnvView,
    reply: Reply<Vec<Todo>>,
) -> bool {
    match client_refusal(who) {
        Some((kind, text)) => refused(before, after, reply, kind, text),
        None => match query {
            None => refused(
                before,
                after,
                reply,
                ErrorKind::InvalidInput,
                "Missing 'q' query parameter"@,
            ),
            Some(wanted) => match before.db {
                None => false,
                Some(store) => after == before && shows_selection(
                    store.todos,
                    search_filter(store.todos, wanted),
                    reply,
                ),
            },
        },
    }
}

fn search(env: &Env, auth: Result<AuthContext, AuthError>, query: Option<&str>) -> (reply: Reply<Vec<Todo>>)
    requires
        auth is Ok ==> env@.db is Some,
    ensures
        search_answers(env@, auth_view(auth), presented_text(query), env@, reply),
{
    if let Some(refusal) = require_client(&auth) {
        return refusal;
    }
    let wanted = match query {
        Some(wanted) => wanted,
        None => {
            return Reply::failure(
                ErrorKind::InvalidInput,
                String::from_str("Missing 'q' query parameter"),
            );
        },
    };
    match &env.db {
        // No request is let through without a store, so this arm is never taken.
        None => Reply::failure(
            ErrorKind::StoreUnavailable,
            String::from_str("Database not configured"),
        ),
        Some(db) => {
            let reply = Reply::ok(db.search_todos(wanted));
            assert(shows_selection(db@.todos, search_filter(db@.todos, wanted@), reply));
            reply
        },
    }
}

/// Searches the todo items for any validated caller.
pub fn search_todos(env: &mut Env, presented: Option<&str>, query: Option<&str>) -> (reply: Reply<
    Vec<Todo>,
>)
    requires
        old(env).wf(),
    ensures
        final(env).wf(),
        exists|who: Result<AuthContextView, AuthError>| #[trigger]
            gate(old(env)@, presented_text(presented), final(env)@, who) && search_answers(
                final(env)@,
                who,
                presented_text(query),
                final(env)@,
                reply,
            ),
{
    let auth = auth_middleware(env, presented);
    let ghost who = auth_view(auth);
    let reply = search(env, auth, query);
    assert(gate(old(env)@, presented_text(presented), env@, who) && search_answers(
        env@,
        who,
        presented_text(query),
        env@,
        reply,
    ));
    reply
}

} // verus!
