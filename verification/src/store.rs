//! The credential table as a mathematical value, and what each statement of
//! the store does to it.

use vstd::prelude::*;
use vstd::string::*;
use crate::like::{containing, like};
use crate::statements::{
    delete_todo_statement, insert_first_admin_statement, insert_key_statement,
    insert_todo_statement, revoke_admin_hash_statement,
    revoke_admins_statement, revoke_statement, toggle_todo_statement, touch_statement,
    update_todo_statement, StatementView,
};
use crate::models::{
    ApiKeyView, CreateTodoRequestView, KeyType, TodoView, UpdateTodoRequestView,
};

verus! {

/// Everything the store holds, each table in insertion order, and the
/// statements that were issued against the backend and not yet sent.
pub struct Store {
    pub keys: Seq<ApiKeyView>,
    pub todos: Seq<TodoView>,
    pub log: Seq<StatementView>,
}

/// Why a store operation did not take effect.
#[derive(Debug, PartialEq, Eq)]
pub enum StoreError {
    /// A first credential was asked for, but an administrator exists.
    AlreadyInitialized,
    /// An emergency reissue was asked for before any administrator existed.
    NotInitialized,
    /// The digest is already stored: digests are unique.
    DuplicateKeyHash,
    /// The identifier is already stored: identifiers are unique.
    DuplicateId,
    /// The backend failed; the text is its own report.
    Unavailable(String),
}

/// The report of a store error, as it is shown to a caller.
pub open spec fn error_text(e: StoreError) -> Seq<char> {
    match e {
        StoreError::AlreadyInitialized => "Database already initialized"@,
        StoreError::NotInitialized => "Database not initialized"@,
        StoreError::DuplicateKeyHash => "UNIQUE constraint failed: api_keys.key_hash"@,
        StoreError::DuplicateId => "UNIQUE constraint failed: id"@,
        StoreError::Unavailable(report) => report@,
    }
}

impl StoreError {
    /// The report of this error, as it is shown to a caller.
    pub fn message(&self) -> (text: String)
        ensures
            text@ == error_text(*self),
    {
        match self {
            StoreError::AlreadyInitialized => String::from_str("Database already initialized"),
            StoreError::NotInitialized => String::from_str("Database not initialized"),
            StoreError::DuplicateKeyHash => String::from_str(
                "UNIQUE constraint failed: api_keys.key_hash",
            ),
            StoreError::DuplicateId => String::from_str("UNIQUE constraint failed: id"),
            StoreError::Unavailable(report) => report.clone(),
        }
    }
}

/// Whether some credential has the administrator role, active or not.
pub open spec fn has_admin(keys: Seq<ApiKeyView>) -> bool {
    exists|i: int| 0 <= i < keys.len() && (#[trigger] keys[i]).key_type == KeyType::Admin
}

/// Whether some credential has the identifier `id`.
pub open spec fn knows_id(keys: Seq<ApiKeyView>, id: Seq<char>) -> bool {
    exists|i: int| 0 <= i < keys.len() && (#[trigger] keys[i]).id == id
}

/// Whether some credential has the digest `hash`, active or not.
pub open spec fn knows_hash(keys: Seq<ApiKeyView>, hash: Seq<char>) -> bool {
    exists|i: int| 0 <= i < keys.len() && (#[trigger] keys[i]).key_hash == hash
}

/// Whether the credential matches the digest and may still be used.
pub open spec fn admits(key: ApiKeyView, hash: Seq<char>) -> bool {
    key.key_hash == hash && key.active
}

/// Whether an active credential has the digest `hash`.
pub open spec fn accepts(keys: Seq<ApiKeyView>, hash: Seq<char>) -> bool {
    exists|i: int| 0 <= i < keys.len() && admits(#[trigger] keys[i], hash)
}

/// Whether `i` is the position of the first active credential with the
/// digest `hash`.
pub open spec fn is_first_admitted(keys: Seq<ApiKeyView>, hash: Seq<char>, i: int) -> bool {
    &&& 0 <= i < keys.len()
    &&& admits(keys[i], hash)
    &&& forall|j: int| 0 <= j < i ==> !admits(#[trigger] keys[j], hash)
}

/// The credential that a presented digest resolves to: the first active one
/// that has it, if there is any.
pub open spec fn lookup(keys: Seq<ApiKeyView>, hash: Seq<char>) -> Option<ApiKeyView> {
    if accepts(keys, hash) {
        Some(keys[choose|i: int| is_first_admitted(keys, hash, i)])
    } else {
        None
    }
}

/// No two credentials share an identifier.
pub open spec fn distinct_ids(keys: Seq<ApiKeyView>) -> bool {
    forall|i: int, j: int|
        0 <= i < j < keys.len() ==> (#[trigger] keys[i]).id != (#[trigger] keys[j]).id
}

/// No two credentials share a digest.
pub open spec fn distinct_hashes(keys: Seq<ApiKeyView>) -> bool {
    forall|i: int, j: int|
        0 <= i < j < keys.len() ==> (#[trigger] keys[i]).key_hash != (#[trigger] keys[j]).key_hash
}

/// No two todo items share an identifier.
pub open spec fn distinct_todo_ids(todos: Seq<TodoView>) -> bool {
    forall|i: int, j: int|
        0 <= i < j < todos.len() ==> (#[trigger] todos[i]).id != (#[trigger] todos[j]).id
}

/// The uniqueness rules of the schema: no two credentials share an
/// identifier or a digest, no two todo items an identifier.
pub open spec fn store_wf(store: Store) -> bool {
    &&& distinct_ids(store.keys)
    &&& distinct_hashes(store.keys)
    &&& distinct_todo_ids(store.todos)
}

/// A table whose rows keep their identifiers and digests keeps them unique.
pub proof fn same_names_stay_distinct(before: Seq<ApiKeyView>, after: Seq<ApiKeyView>)
    requires
        distinct_ids(before),
        distinct_hashes(before),
        after.len() == before.len(),
        forall|i: int|
            0 <= i < before.len() ==> (#[trigger] after[i]).id == before[i].id && after[i].key_hash
                == before[i].key_hash,
    ensures
        distinct_ids(after),
        distinct_hashes(after),
{
    assert forall|i: int, j: int| 0 <= i < j < after.len() implies (#[trigger] after[i]).id != (
    #[trigger] after[j]).id && after[i].key_hash != after[j].key_hash by {
        assert(before[i].id != before[j].id && before[i].key_hash != before[j].key_hash);
    }
}

/// A table that gains a credential whose identifier and digest are not
/// taken keeps identifiers and digests unique.
pub proof fn appended_stays_distinct(before: Seq<ApiKeyView>, key: ApiKeyView)
    requires
        distinct_ids(before),
        distinct_hashes(before),
        insert_refusal(before, key) is None,
    ensures
        distinct_ids(before.push(key)),
        distinct_hashes(before.push(key)),
{
    let after = before.push(key);
    assert forall|i: int, j: int| 0 <= i < j < after.len() implies (#[trigger] after[i]).id != (
    #[trigger] after[j]).id && after[i].key_hash != after[j].key_hash by {
        assert(after[i] == before[i]);
        if j < before.len() {
            assert(after[j] == before[j]);
        }
    }
}

/// A credential as it is first written: never used, active.
pub open spec fn fresh_key(
    id: Seq<char>,
    hash: Seq<char>,
    name: Seq<char>,
    key_type: KeyType,
    now: i64,
) -> ApiKeyView {
    ApiKeyView {
        id,
        key_hash: hash,
        client_name: name,
        key_type,
        last_used: None,
        created_at: now,
        active: true,
    }
}

/// The credential with its active flag cleared.
pub open spec fn revoked(key: ApiKeyView) -> ApiKeyView {
    ApiKeyView { active: false, ..key }
}

/// The credential with its time of last use set to `now`.
pub open spec fn stamped(key: ApiKeyView, now: i64) -> ApiKeyView {
    ApiKeyView { last_used: Some(now), ..key }
}

/// Why a new credential cannot be written, if it cannot. A taken digest is
/// reported before a taken identifier.
pub open spec fn insert_refusal(keys: Seq<ApiKeyView>, key: ApiKeyView) -> Option<StoreError> {
    if knows_hash(keys, key.key_hash) {
        Some(StoreError::DuplicateKeyHash)
    } else if knows_id(keys, key.id) {
        Some(StoreError::DuplicateId)
    } else {
        None
    }
}

/// What a revocation did.
#[derive(Clone, Copy, Debug, PartialEq, Eq, Structural)]
pub enum Revocation {
    /// A credential went from active to revoked.
    Revoked,
    /// The credential was revoked before; nothing changed.
    AlreadyRevoked,
    /// No credential has the identifier; nothing changed.
    Unknown,
}

/// Whether some active credential has the identifier `id`.
pub open spec fn has_active_id(keys: Seq<ApiKeyView>, id: Seq<char>) -> bool {
    exists|i: int| 0 <= i < keys.len() && (#[trigger] keys[i]).id == id && keys[i].active
}

/// What revoking the identifier `id` does to the table: it revokes where
/// an active credential has the identifier, and changes nothing where the
/// credential was revoked before or does not exist.
pub open spec fn revocation_of(keys: Seq<ApiKeyView>, id: Seq<char>) -> Revocation {
    if has_active_id(keys, id) {
        Revocation::Revoked
    } else if knows_id(keys, id) {
        Revocation::AlreadyRevoked
    } else {
        Revocation::Unknown
    }
}

/// The table after the credential with the identifier `id` was revoked.
pub open spec fn revoke_id(keys: Seq<ApiKeyView>, id: Seq<char>) -> Seq<ApiKeyView> {
    Seq::new(keys.len(), |i: int| if keys[i].id == id { revoked(keys[i]) } else { keys[i] })
}

/// The table after every administrator credential was revoked.
pub open spec fn revoke_admins(keys: Seq<ApiKeyView>) -> Seq<ApiKeyView> {
    Seq::new(
        keys.len(),
        |i: int| if keys[i].key_type == KeyType::Admin { revoked(keys[i]) } else { keys[i] },
    )
}

/// The table after the administrator credential with the digest `hash` was
/// revoked.
pub open spec fn revoke_admin_hash(keys: Seq<ApiKeyView>, hash: Seq<char>) -> Seq<ApiKeyView> {
    Seq::new(
        keys.len(),
        |i: int|
            if keys[i].key_hash == hash && keys[i].key_type == KeyType::Admin {
                revoked(keys[i])
            } else {
                keys[i]
            },
    )
}

/// The table after the use of the digest `hash` at the time `now` was
/// recorded.
pub open spec fn touch(keys: Seq<ApiKeyView>, hash: Seq<char>, now: i64) -> Seq<ApiKeyView> {
    Seq::new(
        keys.len(),
        |i: int| if keys[i].key_hash == hash { stamped(keys[i], now) } else { keys[i] },
    )
}

/// Why the first initialization with the credential `key` is refused, if it
/// is: no administrator may exist yet, and the credential must not collide
/// with a stored one.
pub open spec fn bootstrap_refusal(keys: Seq<ApiKeyView>, key: ApiKeyView) -> Option<StoreError> {
    if has_admin(keys) {
        Some(StoreError::AlreadyInitialized)
    } else {
        insert_refusal(keys, key)
    }
}

/// Why an emergency reissue with the new credential `key` is refused, if it
/// is: the system must have been initialized, and the new credential must
/// not collide with a stored one.
pub open spec fn reissue_refusal(keys: Seq<ApiKeyView>, key: ApiKeyView) -> Option<StoreError> {
    if !has_admin(keys) {
        Some(StoreError::NotInitialized)
    } else {
        insert_refusal(keys, key)
    }
}

/// The table after an emergency reissue: every administrator credential
/// revoked, then the new one added.
pub open spec fn reissued(keys: Seq<ApiKeyView>, key: ApiKeyView) -> Seq<ApiKeyView> {
    revoke_admins(keys).push(key)
}

/// The table after a rotation: the administrator credential with the digest
/// `old_hash` revoked, then the new one added.
pub open spec fn rotated(keys: Seq<ApiKeyView>, old_hash: Seq<char>, key: ApiKeyView) -> Seq<
    ApiKeyView,
> {
    revoke_admin_hash(keys, old_hash).push(key)
}

/// The rank by which credentials are listed: newest first.
pub open spec fn key_ranks(keys: Seq<ApiKeyView>) -> Seq<(i64, i64)> {
    Seq::new(keys.len(), |i: int| (keys[i].created_at, 0i64))
}

/// The table after a presented digest was checked at the time `now`: a use is
/// recorded only where the digest was accepted.
pub open spec fn after_validation(keys: Seq<ApiKeyView>, hash: Seq<char>, now: i64) -> Seq<
    ApiKeyView,
> {
    if accepts(keys, hash) {
        touch(keys, hash, now)
    } else {
        keys
    }
}

/// The store after the credential `key` was written.
pub open spec fn inserted(store: Store, key: ApiKeyView) -> Store {
    Store {
        keys: store.keys.push(key),
        todos: store.todos,
        log: store.log.push(insert_key_statement(key)),
    }
}

/// The store after the first administrator credential `key` was written.
pub open spec fn bootstrapped_in(store: Store, key: ApiKeyView) -> Store {
    Store {
        keys: store.keys.push(key),
        todos: store.todos,
        log: store.log.push(insert_first_admin_statement(key)),
    }
}

/// The store after a presented digest was checked at the time `now`: where
/// the digest was accepted its use is recorded, otherwise nothing is
/// written.
pub open spec fn validated(store: Store, hash: Seq<char>, now: i64) -> Store {
    if accepts(store.keys, hash) {
        Store {
            keys: touch(store.keys, hash, now),
            todos: store.todos,
            log: store.log.push(touch_statement(hash, now)),
        }
    } else {
        store
    }
}

/// The store after the credential with the identifier `id` was revoked.
/// The statement is issued whether or not the identifier is known.
pub open spec fn revoked_in(store: Store, id: Seq<char>) -> Store {
    Store {
        keys: revoke_id(store.keys, id),
        todos: store.todos,
        log: store.log.push(revoke_statement(id)),
    }
}

/// The store after an emergency reissue with the new credential `key`.
pub open spec fn reissued_in(store: Store, key: ApiKeyView) -> Store {
    Store {
        keys: reissued(store.keys, key),
        todos: store.todos,
        log: store.log.push(revoke_admins_statement()).push(insert_key_statement(key)),
    }
}

/// The store after the administrator credential with the digest `old_hash`
/// was replaced by the new credential `key`.
pub open spec fn rotated_in(store: Store, old_hash: Seq<char>, key: ApiKeyView) -> Store {
    Store {
        keys: rotated(store.keys, old_hash, key),
        todos: store.todos,
        log: store.log.push(revoke_admin_hash_statement(old_hash)).push(
            insert_key_statement(key),
        ),
    }
}

/// The priority of a todo item that was created without one.
pub const DEFAULT_PRIORITY: i32 = 2;

/// Whether some todo item has the identifier `id`.
pub open spec fn knows_todo(todos: Seq<TodoView>, id: Seq<char>) -> bool {
    exists|i: int| 0 <= i < todos.len() && (#[trigger] todos[i]).id == id
}

/// Whether `i` is the position of the first todo item with the identifier
/// `id`.
pub open spec fn is_first_todo(todos: Seq<TodoView>, id: Seq<char>, i: int) -> bool {
    &&& 0 <= i < todos.len()
    &&& todos[i].id == id
    &&& forall|j: int| 0 <= j < i ==> (#[trigger] todos[j]).id != id
}

/// The position of the todo item with the identifier `id`, if there is one.
pub open spec fn todo_position(todos: Seq<TodoView>, id: Seq<char>) -> Option<int> {
    if knows_todo(todos, id) {
        Some(choose|i: int| is_first_todo(todos, id, i))
    } else {
        None
    }
}

/// The todo item with the identifier `id`, if there is one.
pub open spec fn find_todo(todos: Seq<TodoView>, id: Seq<char>) -> Option<TodoView> {
    match todo_position(todos, id) {
        Some(i) => Some(todos[i]),
        None => None,
    }
}

/// The priority that a request asks for, or the default.
pub open spec fn chosen_priority(priority: Option<i32>) -> i32 {
    match priority {
        Some(p) => p,
        None => DEFAULT_PRIORITY,
    }
}

/// A todo item as it is created: open, created and last changed at `now`.
pub open spec fn fresh_todo(id: Seq<char>, request: CreateTodoRequestView, now: i64) -> TodoView {
    TodoView {
        id,
        title: request.title,
        description: request.description,
        completed: false,
        priority: chosen_priority(request.priority),
        due_date: request.due_date,
        created_at: now,
        updated_at: now,
    }
}

/// What creating a todo item under the identifier `id` at the time `now`
/// answers, and the store after it. A taken identifier is refused and
/// changes nothing.
pub open spec fn create_outcome(
    store: Store,
    id: Seq<char>,
    request: CreateTodoRequestView,
    now: i64,
) -> (Result<TodoView, StoreError>, Store) {
    if knows_todo(store.todos, id) {
        (Err(StoreError::DuplicateId), store)
    } else {
        (
            Ok(fresh_todo(id, request, now)),
            Store {
                keys: store.keys,
                todos: store.todos.push(fresh_todo(id, request, now)),
                log: store.log.push(insert_todo_statement(fresh_todo(id, request, now))),
            },
        )
    }
}

/// The todo item after a change request was applied at the time `now`:
/// each field that the request names is replaced, every other field but the
/// time of the last change stays as it is.
pub open spec fn merged(todo: TodoView, request: UpdateTodoRequestView, now: i64) -> TodoView {
    TodoView {
        id: todo.id,
        title: match request.title {
            Some(title) => title,
            None => todo.title,
        },
        description: match request.description {
            Some(text) => Some(text),
            None => todo.description,
        },
        completed: match request.completed {
            Some(done) => done,
            None => todo.completed,
        },
        priority: match request.priority {
            Some(p) => p,
            None => todo.priority,
        },
        due_date: match request.due_date {
            Some(at) => Some(at),
            None => todo.due_date,
        },
        created_at: todo.created_at,
        updated_at: now,
    }
}

/// The todo item with its completion flipped at the time `now`.
pub open spec fn toggled(todo: TodoView, now: i64) -> TodoView {
    TodoView { completed: !todo.completed, updated_at: now, ..todo }
}

/// What a change request for the identifier `id` at the time `now`
/// answers, and the store after it. An unknown identifier answers nothing
/// and changes nothing.
pub open spec fn update_outcome(
    store: Store,
    id: Seq<char>,
    request: UpdateTodoRequestView,
    now: i64,
) -> (Option<TodoView>, Store) {
    match find_todo(store.todos, id) {
        Some(existing) => (
            Some(merged(existing, request, now)),
            Store {
                keys: store.keys,
                todos: replace_todo(store.todos, id, merged(existing, request, now)),
                log: store.log.push(update_todo_statement(merged(existing, request, now))),
            },
        ),
        None => (None, store),
    }
}

/// What flipping the completion of the todo item with the identifier `id`
/// at the time `now` answers, and the store after it.
pub open spec fn toggle_outcome(store: Store, id: Seq<char>, now: i64) -> (
    Option<TodoView>,
    Store,
) {
    match find_todo(store.todos, id) {
        Some(existing) => (
            Some(toggled(existing, now)),
            Store {
                keys: store.keys,
                todos: replace_todo(store.todos, id, toggled(existing, now)),
                log: store.log.push(toggle_todo_statement(toggled(existing, now))),
            },
        ),
        None => (None, store),
    }
}

/// The table after the todo item with the identifier `id` was replaced by
/// `todo`.
pub open spec fn replace_todo(todos: Seq<TodoView>, id: Seq<char>, todo: TodoView) -> Seq<
    TodoView,
> {
    Seq::new(todos.len(), |i: int| if todos[i].id == id { todo } else { todos[i] })
}

/// The table after the todo item with the identifier `id` was deleted.
pub open spec fn delete_todo(todos: Seq<TodoView>, id: Seq<char>) -> Seq<TodoView> {
    match todo_position(todos, id) {
        Some(i) => todos.remove(i),
        None => todos,
    }
}

/// The store after the todo item with the identifier `id` was deleted. The
/// statement is issued whether or not the identifier is known.
pub open spec fn deleted_in(store: Store, id: Seq<char>) -> Store {
    Store {
        keys: store.keys,
        todos: delete_todo(store.todos, id),
        log: store.log.push(delete_todo_statement(id)),
    }
}

/// The rank by which todo items are listed: highest priority first, then
/// newest first.
pub open spec fn todo_ranks(todos: Seq<TodoView>) -> Seq<(i64, i64)> {
    Seq::new(todos.len(), |i: int| (todos[i].priority as i64, todos[i].created_at))
}

/// Which todo items a listing with the given filter shows: all of them, or
/// those whose completion is as asked.
pub open spec fn todo_filter(todos: Seq<TodoView>, completed: Option<bool>) -> Seq<bool> {
    Seq::new(
        todos.len(),
        |i: int|
            match completed {
                Some(done) => todos[i].completed == done,
                None => true,
            },
    )
}

/// Whether a search for `query` finds the todo item: whether its title or
/// its description holds the query somewhere.
pub open spec fn search_hit(todo: TodoView, query: Seq<char>) -> bool {
    like(containing(query), todo.title) || match todo.description {
        Some(text) => like(containing(query), text),
        None => false,
    }
}

/// Which todo items a search for `query` finds.
pub open spec fn search_filter(todos: Seq<TodoView>, query: Seq<char>) -> Seq<bool> {
    Seq::new(todos.len(), |i: int| search_hit(todos[i], query))
}

} // verus!
