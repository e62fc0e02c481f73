//! An executable model of the store: the tables held in memory, and every
//! statement that the service issues against them as a verified operation.
//! Each operation that writes also records the statement that makes the
//! same change in the backend.

use vstd::prelude::*;
use vstd::string::*;
use crate::auth::{AuthContext, AuthContextView};
use crate::keys::{hex_digits, same_text};
use crate::like::{chars_of, containing, containing_pattern, like_match};
use crate::models::{
    clone_opt_text, ApiKey, ApiKeyView, CreateTodoRequest, KeyType, Todo, TodoView,
    UpdateTodoRequest,
};
use crate::order::{arranged, is_listing_order, is_selection, listing_order, listing_selection};
use crate::rows::{decode_flag, decode_key_type, row_key, row_todo, ApiKeyRow, TodoRow};
use crate::statements::{statement_views, Statement};
use crate::store::{
    accepts, admits, bootstrap_refusal, bootstrapped_in, create_outcome, deleted_in,
    distinct_hashes, distinct_ids,
    distinct_todo_ids, find_todo, fresh_key, fresh_todo, has_admin, insert_refusal, inserted,
    is_first_admitted, is_first_todo, key_ranks, knows_hash, knows_id, knows_todo, lookup, merged,
    reissue_refusal, reissued_in, replace_todo, revoke_admin_hash, revoke_admins, revoke_id,
    revocation_of, revoked_in, rotated_in, search_filter, search_hit, store_wf, todo_filter,
    todo_position, todo_ranks, toggle_outcome, toggled, touch, update_outcome, validated,
    appended_stays_distinct, same_names_stay_distinct, Revocation, Store, StoreError,
    DEFAULT_PRIORITY,
};

verus! {

/// The mathematical values of a run of credentials.
pub open spec fn key_views(keys: Seq<ApiKey>) -> Seq<ApiKeyView> {
    Seq::new(keys.len(), |i: int| keys[i]@)
}

/// The mathematical values of a run of todo items.
pub open spec fn todo_views(todos: Seq<Todo>) -> Seq<TodoView> {
    Seq::new(todos.len(), |i: int| todos[i]@)
}

/// The mathematical value of an optional credential.
pub open spec fn opt_key_view(key: Option<ApiKey>) -> Option<ApiKeyView> {
    match key {
        Some(k) => Some(k@),
        None => None,
    }
}

/// The mathematical value of an optional todo item.
pub open spec fn opt_todo_view(todo: Option<Todo>) -> Option<TodoView> {
    match todo {
        Some(t) => Some(t@),
        None => None,
    }
}

/// The mathematical value of the answer to a creation.
pub open spec fn created_view(res: Result<Todo, StoreError>) -> Result<TodoView, StoreError> {
    match res {
        Ok(t) => Ok(t@),
        Err(e) => Err(e),
    }
}

/// Owner label of the credential that the first initialization issues.
pub open spec fn initial_label() -> Seq<char> {
    "Initial Admin Key"@
}

/// Owner label of a credential issued by a rotation.
pub open spec fn rotated_label() -> Seq<char> {
    "Rotated Admin Key"@
}

/// Owner label of the credential issued by an emergency reissue.
pub open spec fn reinitialized_label() -> Seq<char> {
    "Reinitialized Admin Key"@
}

/// Whether `after` is `before` with one new active credential that has the
/// given identifier, digest, label and role and was created at some
/// moment.
pub open spec fn issued(
    before: Store,
    after: Store,
    id: Seq<char>,
    hash: Seq<char>,
    name: Seq<char>,
    key_type: KeyType,
) -> bool {
    exists|now: i64|
        after == inserted(before, #[trigger] fresh_key(id, hash, name, key_type, now))
}

/// Whether `after` is `before` with the first administrator credential,
/// which has the given identifier and digest and was created at some
/// moment.
pub open spec fn bootstrapped(before: Store, after: Store, id: Seq<char>, hash: Seq<char>) -> bool {
    exists|now: i64|
        after == bootstrapped_in(
            before,
            #[trigger] fresh_key(id, hash, initial_label(), KeyType::Admin, now),
        )
}

/// Whether the error is one that a uniqueness rule raises.
pub open spec fn is_collision(e: StoreError) -> bool {
    e == StoreError::DuplicateKeyHash || e == StoreError::DuplicateId
}

/// The credentials that a run of rows stands for.
pub open spec fn decoded_keys(rows: Seq<ApiKeyRow>) -> Seq<ApiKeyView> {
    Seq::new(rows.len(), |i: int| row_key(rows[i]))
}

/// The todo items that a run of rows stands for.
pub open spec fn decoded_todos(rows: Seq<TodoRow>) -> Seq<TodoView> {
    Seq::new(rows.len(), |i: int| row_todo(rows[i]))
}

/// Why tables cannot be taken over as a store, if they cannot: a digest
/// that occurs twice is reported before an identifier that does.
pub open spec fn load_refusal(keys: Seq<ApiKeyView>, todos: Seq<TodoView>) -> Option<StoreError> {
    if !distinct_hashes(keys) {
        Some(StoreError::DuplicateKeyHash)
    } else if !distinct_ids(keys) || !distinct_todo_ids(todos) {
        Some(StoreError::DuplicateId)
    } else {
        None
    }
}

/// Whether `id` has the shape of a random identifier: 36 characters, of
/// which four are hyphens at fixed places and the others lowercase
/// hexadecimal digits, the one that tells the version being a 4.
pub open spec fn is_random_id(id: Seq<char>) -> bool {
    &&& id.len() == 36
    &&& id[8] == '-' && id[13] == '-' && id[18] == '-' && id[23] == '-'
    &&& id[14] == '4'
    &&& forall|i: int|
        0 <= i < 36 && i != 8 && i != 13 && i != 18 && i != 23 ==> hex_digits().contains(
            #[trigger] id[i],
        )
}

/// `uuid::Uuid::new_v4` rendered by `to_string`: a random identifier of
/// version 4 in the hyphenated lowercase form. Which identifier comes is
/// left open; only its shape is claimed.
#[verifier::external_body]
fn generate_id() -> (id: String)
    ensures
        is_random_id(id@),
{
    uuid::Uuid::new_v4().to_string()
}

/// `chrono::Utc::now` read by `DateTime::timestamp`: the wall-clock time in
/// whole seconds. Every reading is possible, so nothing is claimed of it.
#[verifier::external_body]
pub(crate) fn current_timestamp() -> (now: i64) {
    chrono::Utc::now().timestamp()
}

/// Builds a credential as it is first written: never used, active.
pub fn new_api_key(
    id: String,
    key_hash: String,
    client_name: String,
    key_type: KeyType,
    now: i64,
) -> (key: ApiKey)
    ensures
        key@ == fresh_key(id@, key_hash@, client_name@, key_type, now),
{
    ApiKey { id, key_hash, client_name, key_type, last_used: None, created_at: now, active: true }
}

/// Builds a todo item as it is created: open, created and last changed at
/// `now`, with the default priority where the request names none.
pub fn new_todo(id: String, request: CreateTodoRequest, now: i64) -> (todo: Todo)
    ensures
        todo@ == fresh_todo(id@, request@, now),
{
    let priority = match request.priority {
        Some(p) => p,
        None => DEFAULT_PRIORITY,
    };
    Todo {
        id,
        title: request.title,
        description: request.description,
        completed: false,
        priority,
        due_date: request.due_date,
        created_at: now,
        updated_at: now,
    }
}

/// Applies a change request to a todo item at the time `now`: each field
/// that the request names is replaced, every other field but the time of
/// the last change stays as it is.
pub fn merge_update(existing: Todo, request: UpdateTodoRequest, now: i64) -> (todo: Todo)
    ensures
        todo@ == merged(existing@, request@, now),
{
    let mut todo = existing;
    if let Some(title) = request.title {
        todo.title = title;
    }
    if let Some(text) = request.description {
        todo.description = Some(text);
    }
    if let Some(done) = request.completed {
        todo.completed = done;
    }
    if let Some(p) = request.priority {
        todo.priority = p;
    }
    if let Some(at) = request.due_date {
        todo.due_date = Some(at);
    }
    todo.updated_at = now;
    todo
}

/// Flips the completion of a todo item at the time `now`.
pub fn toggle(existing: Todo, now: i64) -> (todo: Todo)
    ensures
        todo@ == toggled(existing@, now),
{
    let mut todo = existing;
    todo.completed = !todo.completed;
    todo.updated_at = now;
    todo
}

/// Reads a credential from a row of the backend.
pub fn decode_key(row: &ApiKeyRow) -> (key: ApiKey)
    ensures
        key@ == row_key(*row),
{
    ApiKey {
        id: row.id.clone(),
        key_hash: row.key_hash.clone(),
        client_name: row.client_name.clone(),
        key_type: decode_key_type(row.key_type.as_str()),
        last_used: row.last_used,
        created_at: row.created_at,
        active: decode_flag(row.active),
    }
}

/// Reads a todo item from a row of the backend.
pub fn decode_todo(row: &TodoRow) -> (todo: Todo)
    ensures
        todo@ == row_todo(*row),
{
    Todo {
        id: row.id.clone(),
        title: row.title.clone(),
        description: clone_opt_text(&row.description),
        completed: decode_flag(row.completed),
        priority: row.priority,
        due_date: row.due_date,
        created_at: row.created_at,
        updated_at: row.updated_at,
    }
}

/// The mathematical values of a run of texts.
pub open spec fn text_views(texts: Seq<String>) -> Seq<Seq<char>> {
    Seq::new(texts.len(), |i: int| texts[i]@)
}

/// No text occurs twice.
pub open spec fn distinct_texts(texts: Seq<Seq<char>>) -> bool {
    forall|i: int, j: int| 0 <= i < j < texts.len() ==> #[trigger] texts[i] != #[trigger] texts[j]
}

/// Where each text is the name of the row at its place, the texts are
/// distinct exactly where the names of the rows are.
pub proof fn names_are_distinct_alike<T>(
    names: Seq<Seq<char>>,
    rows: Seq<T>,
    name_of: spec_fn(T) -> Seq<char>,
)
    requires
        names.len() == rows.len(),
        forall|a: int| 0 <= a < rows.len() ==> #[trigger] names[a] == name_of(rows[a]),
    ensures
        distinct_texts(names) <==> forall|a: int, b: int|
            0 <= a < b < rows.len() ==> name_of(#[trigger] rows[a]) != name_of(#[trigger] rows[b]),
{
    if distinct_texts(names) {
        assert forall|a: int, b: int| 0 <= a < b < rows.len() implies name_of(#[trigger] rows[a])
            != name_of(#[trigger] rows[b]) by {
            assert(names[a] != names[b]);
        }
    }
}

/// Decides whether no text occurs twice.
pub fn texts_are_distinct(texts: &Vec<String>) -> (distinct: bool)
    ensures
        distinct == distinct_texts(text_views(texts@)),
{
    let n = texts.len();
    let mut j: usize = 0;
    while j < n
        invariant
            j <= n,
            n == texts.len(),
            forall|a: int, b: int|
                0 <= a < b < j ==> #[trigger] text_views(texts@)[a] != #[trigger] text_views(
                    texts@,
                )[b],
        decreases n - j,
    {
        let mut i: usize = 0;
        while i < j
            invariant
                i <= j,
                j < n,
                n == texts.len(),
                forall|a: int|
                    0 <= a < i ==> #[trigger] text_views(texts@)[a] != text_views(texts@)[j as int],
            decreases j - i,
        {
            if same_text(texts[i].as_str(), texts[j].as_str()) {
                assert(text_views(texts@)[i as int] == text_views(texts@)[j as int]);
                return false;
            }
            i = i + 1;
        }
        j = j + 1;
    }
    true
}

/// The store: credentials and todo items, each table in insertion order,
/// and the statements issued since the journal was last taken.
pub struct Database {
    api_keys: Vec<ApiKey>,
    todos: Vec<Todo>,
    journal: Vec<Statement>,
}

impl View for Database {
    type V = Store;

    closed spec fn view(&self) -> Store {
        Store {
            keys: key_views(self.api_keys@),
            todos: todo_views(self.todos@),
            log: statement_views(self.journal@),
        }
    }
}

impl Database {
    /// The uniqueness rules of the schema hold.
    pub open spec fn wf(&self) -> bool {
        store_wf(self@)
    }

    /// An empty store.
    pub fn new() -> (db: Self)
        ensures
            db.wf(),
            db@.keys.len() == 0,
            db@.todos.len() == 0,
            db@.log.len() == 0,
    {
        Database { api_keys: Vec::new(), todos: Vec::new(), journal: Vec::new() }
    }

    /// Takes over the tables that the backend returned. Tables that break
    /// a uniqueness rule are refused.
    pub fn from_rows(keys: &Vec<ApiKeyRow>, todos: &Vec<TodoRow>) -> (res: Result<
        Database,
        StoreError,
    >)
        ensures
            match res {
                Ok(db) => {
                    &&& db.wf()
                    &&& load_refusal(decoded_keys(keys@), decoded_todos(todos@)) is None
                    &&& db@ == Store {
                        keys: decoded_keys(keys@),
                        todos: decoded_todos(todos@),
                        log: Seq::empty(),
                    }
                },
                Err(e) => load_refusal(decoded_keys(keys@), decoded_todos(todos@)) == Some(e),
            },
    {
        let n = keys.len();
        let mut api_keys: Vec<ApiKey> = Vec::new();
        let mut hashes: Vec<String> = Vec::new();
        let mut ids: Vec<String> = Vec::new();
        let mut i: usize = 0;
        while i < n
            invariant
                i <= n,
                n == keys.len(),
                api_keys.len() == i,
                hashes.len() == i,
                ids.len() == i,
                forall|j: int| 0 <= j < i ==> (#[trigger] api_keys[j])@ == decoded_keys(keys@)[j],
                forall|j: int|
                    0 <= j < i ==> (#[trigger] hashes[j])@ == decoded_keys(keys@)[j].key_hash,
                forall|j: int| 0 <= j < i ==> (#[trigger] ids[j])@ == decoded_keys(keys@)[j].id,
            decreases n - i,
        {
            let key = decode_key(&keys[i]);
            hashes.push(key.key_hash.clone());
            ids.push(key.id.clone());
            api_keys.push(key);
            i = i + 1;
        }
        let m = todos.len();
        let mut items: Vec<Todo> = Vec::new();
        let mut item_ids: Vec<String> = Vec::new();
        let mut k: usize = 0;
        while k < m
            invariant
                k <= m,
                m == todos.len(),
                items.len() == k,
                item_ids.len() == k,
                forall|j: int| 0 <= j < k ==> (#[trigger] items[j])@ == decoded_todos(todos@)[j],
                forall|j: int|
                    0 <= j < k ==> (#[trigger] item_ids[j])@ == decoded_todos(todos@)[j].id,
            decreases m - k,
        {
            let todo = decode_todo(&todos[k]);
            item_ids.push(todo.id.clone());
            items.push(todo);
            k = k + 1;
        }
        proof {
            let table = decoded_keys(keys@);
            let list = decoded_todos(todos@);
            assert(key_views(api_keys@) =~= table);
            assert(todo_views(items@) =~= list);
            names_are_distinct_alike(text_views(hashes@), table, |key: ApiKeyView| key.key_hash);
            names_are_distinct_alike(text_views(ids@), table, |key: ApiKeyView| key.id);
            names_are_distinct_alike(text_views(item_ids@), list, |todo: TodoView| todo.id);
        }
        if !texts_are_distinct(&hashes) {
            return Err(StoreError::DuplicateKeyHash);
        }
        if !texts_are_distinct(&ids) {
            return Err(StoreError::DuplicateId);
        }
        if !texts_are_distinct(&item_ids) {
            return Err(StoreError::DuplicateId);
        }
        let db = Database { api_keys, todos: items, journal: Vec::new() };
        assert(db@.log =~= Seq::empty());
        Ok(db)
    }

    /// Hands out the statements that were issued since the journal was last
    /// taken, in their order, and empties the journal.
    pub fn take_journal(&mut self) -> (statements: Vec<Statement>)
        ensures
            statement_views(statements@) == old(self)@.log,
            final(self)@ == (Store {
                keys: old(self)@.keys,
                todos: old(self)@.todos,
                log: Seq::empty(),
            }),
            old(self).wf() ==> final(self).wf(),
    {
        let mut statements: Vec<Statement> = Vec::new();
        std::mem::swap(&mut statements, &mut self.journal);
        assert(self@.log =~= Seq::empty());
        statements
    }

    fn record(&mut self, statement: Statement)
        ensures
            final(self)@ == (Store {
                keys: old(self)@.keys,
                todos: old(self)@.todos,
                log: old(self)@.log.push(statement@),
            }),
            old(self).wf() ==> final(self).wf(),
    {
        self.journal.push(statement);
        assert(self@.log =~= old(self)@.log.push(statement@));
    }

    /// Whether the system has been initialized: whether any administrator
    /// credential exists, active or not.
    pub fn is_initialized(&self) -> (initialized: bool)
        ensures
            initialized == has_admin(self@.keys),
    {
        let n = self.api_keys.len();
        let mut i: usize = 0;
        while i < n
            invariant
                i <= n,
                n == self.api_keys.len(),
                forall|j: int| 0 <= j < i ==> (#[trigger] self@.keys[j]).key_type != KeyType::Admin,
            decreases n - i,
        {
            if self.api_keys[i].key_type == KeyType::Admin {
                assert(self@.keys[i as int].key_type == KeyType::Admin);
                return true;
            }
            i = i + 1;
        }
        false
    }

    fn holds_hash(&self, hash: &str) -> (found: bool)
        ensures
            found == knows_hash(self@.keys, hash@),
    {
        let n = self.api_keys.len();
        let mut found = false;
        let mut i: usize = 0;
        while i < n
            invariant
                i <= n,
                n == self.api_keys.len(),
                found <==> exists|j: int| 0 <= j < i && (#[trigger] self@.keys[j]).key_hash == hash@,
            decreases n - i,
        {
            if same_text(self.api_keys[i].key_hash.as_str(), hash) {
                assert(self@.keys[i as int].key_hash == hash@);
                found = true;
            }
            i = i + 1;
        }
        found
    }

    fn holds_id(&self, id: &str) -> (found: bool)
        ensures
            found == knows_id(self@.keys, id@),
    {
        let n = self.api_keys.len();
        let mut found = false;
        let mut i: usize = 0;
        while i < n
            invariant
                i <= n,
                n == self.api_keys.len(),
                found <==> exists|j: int| 0 <= j < i && (#[trigger] self@.keys[j]).id == id@,
            decreases n - i,
        {
            if same_text(self.api_keys[i].id.as_str(), id) {
                assert(self@.keys[i as int].id == id@);
                found = true;
            }
            i = i + 1;
        }
        found
    }

    fn find_admitted(&self, hash: &str) -> (pos: Option<usize>)
        ensures
            match pos {
                Some(p) => is_first_admitted(self@.keys, hash@, p as int),
                None => !accepts(self@.keys, hash@),
            },
    {
        let n = self.api_keys.len();
        let mut pos: Option<usize> = None;
        let mut i: usize = 0;
        while i < n
            invariant
                i <= n,
                n == self.api_keys.len(),
                match pos {
                    Some(p) => p < i && is_first_admitted(self@.keys, hash@, p as int),
                    None => forall|j: int| 0 <= j < i ==> !admits(#[trigger] self@.keys[j], hash@),
                },
            decreases n - i,
        {
            let same = same_text(self.api_keys[i].key_hash.as_str(), hash);
            if same && self.api_keys[i].active && pos.is_none() {
                assert(admits(self@.keys[i as int], hash@));
                pos = Some(i);
            }
            i = i + 1;
        }
        pos
    }

    fn append_key(&mut self, key: ApiKey)
        requires
            old(self).wf(),
            insert_refusal(old(self)@.keys, key@) is None,
        ensures
            final(self).wf(),
            final(self)@ == inserted(old(self)@, key@),
    {
        let statement = Statement::insert_key(&key);
        self.api_keys.push(key);
        self.journal.push(statement);
        proof {
            let before = old(self)@.keys;
            let after = self@.keys;
            assert(after =~= before.push(key@));
            assert(self@.log =~= old(self)@.log.push(statement@));
            appended_stays_distinct(before, key@);
        }
    }

    /// Issues a credential with the given identifier, digest, label, role
    /// and time of creation, unless its digest or its identifier is taken.
    /// A refusal changes nothing.
    pub fn create_api_key_at(
        &mut self,
        id: String,
        key_hash: String,
        client_name: String,
        key_type: KeyType,
        now: i64,
    ) -> (res: Result<(), StoreError>)
        requires
            old(self).wf(),
        ensures
            final(self).wf(),
            ({
                let key = fresh_key(id@, key_hash@, client_name@, key_type, now);
                match res {
                    Ok(_) => insert_refusal(old(self)@.keys, key) is None && final(self)@
                        == inserted(old(self)@, key),
                    Err(e) => insert_refusal(old(self)@.keys, key) == Some(e) && final(self)@
                        == old(self)@,
                }
            }),
    {
        if self.holds_hash(key_hash.as_str()) {
            return Err(StoreError::DuplicateKeyHash);
        }
        if self.holds_id(id.as_str()) {
            return Err(StoreError::DuplicateId);
        }
        self.append_key(new_api_key(id, key_hash, client_name, key_type, now));
        Ok(())
    }

    /// Issues a credential under a fresh identifier, stamped with the
    /// current time, and returns the identifier. See
    /// [`Database::create_api_key_at`].
    pub fn create_api_key(&mut self, key_hash: String, client_name: String, key_type: KeyType) -> (res:
        Result<String, StoreError>)
        requires
            old(self).wf(),
        ensures
            final(self).wf(),
            match res {
                Ok(id) => is_random_id(id@) && !knows_id(old(self)@.keys, id@) && issued(
                    old(self)@,
                    final(self)@,
                    id@,
                    key_hash@,
                    client_name@,
                    key_type,
                ),
                Err(e) => is_collision(e) && final(self)@ == old(self)@,
            },
            knows_hash(old(self)@.keys, key_hash@) <==> res == Err::<String, StoreError>(
                StoreError::DuplicateKeyHash,
            ),
            old(self)@.keys.len() == 0 ==> res is Ok,
    {
        let id = generate_id();
        let now = current_timestamp();
        match self.create_api_key_at(id.clone(), key_hash, client_name, key_type, now) {
            Ok(_) => Ok(id),
            Err(e) => Err(e),
        }
    }

    /// Issues the first administrator credential with the given identifier,
    /// digest and time of creation. Refused once any administrator exists,
    /// and where the credential collides with a stored one; a refusal changes
    /// nothing.
    pub fn initialize_with_admin_key_at(&mut self, id: String, key_hash: String, now: i64) -> (res:
        Result<(), StoreError>)
        requires
            old(self).wf(),
        ensures
            final(self).wf(),
            ({
                let key = fresh_key(id@, key_hash@, initial_label(), KeyType::Admin, now);
                match res {
                    Ok(_) => bootstrap_refusal(old(self)@.keys, key) is None && final(self)@
                        == bootstrapped_in(old(self)@, key),
                    Err(e) => bootstrap_refusal(old(self)@.keys, key) == Some(e) && final(self)@
                        == old(self)@,
                }
            }),
    {
        if self.is_initialized() {
            return Err(StoreError::AlreadyInitialized);
        }
        if self.holds_hash(key_hash.as_str()) {
            return Err(StoreError::DuplicateKeyHash);
        }
        if self.holds_id(id.as_str()) {
            return Err(StoreError::DuplicateId);
        }
        let key = new_api_key(
            id,
            key_hash,
            String::from_str("Initial Admin Key"),
            KeyType::Admin,
            now,
        );
        let statement = Statement::insert_first_admin(&key);
        self.api_keys.push(key);
        self.journal.push(statement);
        proof {
            let before = old(self)@.keys;
            let after = self@.keys;
            assert(after =~= before.push(key@));
            assert(self@.log =~= old(self)@.log.push(statement@));
            appended_stays_distinct(before, key@);
        }
        Ok(())
    }

    /// Issues the first administrator credential under a fresh identifier,
    /// stamped with the current time, and returns the identifier. See
    /// [`Database::initialize_with_admin_key_at`].
    pub fn initialize_with_admin_key(&mut self, key_hash: String) -> (res: Result<
        String,
        StoreError,
    >)
        requires
            old(self).wf(),
        ensures
            final(self).wf(),
            match res {
                Ok(id) => is_random_id(id@) && !has_admin(old(self)@.keys) && !knows_id(
                    old(self)@.keys,
                    id@,
                ) && bootstrapped(old(self)@, final(self)@, id@, key_hash@),
                Err(e) => (e == StoreError::AlreadyInitialized || is_collision(e)) && final(self)@
                    == old(self)@,
            },
            has_admin(old(self)@.keys) <==> res == Err::<String, StoreError>(
                StoreError::AlreadyInitialized,
            ),
            !has_admin(old(self)@.keys) && knows_hash(old(self)@.keys, key_hash@) <==> res
                == Err::<String, StoreError>(StoreError::DuplicateKeyHash),
            old(self)@.keys.len() == 0 ==> res is Ok,
    {
        let id = generate_id();
        let now = current_timestamp();
        match self.initialize_with_admin_key_at(id.clone(), key_hash, now) {
            Ok(_) => Ok(id),
            Err(e) => Err(e),
        }
    }

    fn record_use(&mut self, hash: &str, now: i64)
        requires
            old(self).wf(),
        ensures
            final(self).wf(),
            final(self)@ == (Store {
                keys: touch(old(self)@.keys, hash@, now),
                todos: old(self)@.todos,
                log: old(self)@.log,
            }),
    {
        let n = self.api_keys.len();
        let mut i: usize = 0;
        while i < n
            invariant
                i <= n,
                n == self.api_keys.len(),
                n == old(self).api_keys.len(),
                self.todos == old(self).todos,
                self.journal == old(self).journal,
                forall|j: int|
                    0 <= j < n ==> (#[trigger] self.api_keys@[j])@ == if j < i {
                        touch(old(self)@.keys, hash@, now)[j]
                    } else {
                        old(self)@.keys[j]
                    },
            decreases n - i,
        {
            if same_text(self.api_keys[i].key_hash.as_str(), hash) {
                self.api_keys[i].last_used = Some(now);
            }
            i = i + 1;
        }
        proof {
            let after = self@.keys;
            let before = old(self)@.keys;
            assert(after =~= touch(before, hash@, now));
            same_names_stay_distinct(before, after);
        }
    }

    /// Resolves a presented digest at the time `now`: returns the first
    /// active credential that has it, as it was stored before this use, and
    /// records the use.
    pub fn validate_api_key_at(&mut self, key_hash: &str, now: i64) -> (res: Option<ApiKey>)
        requires
            old(self).wf(),
        ensures
            final(self).wf(),
            opt_key_view(res) == lookup(old(self)@.keys, key_hash@),
            final(self)@ == validated(old(self)@, key_hash@, now),
    {
        match self.find_admitted(key_hash) {
            None => None,
            Some(p) => {
                let found = self.api_keys[p].clone();
                proof {
                    let keys = self@.keys;
                    assert(admits(keys[p as int], key_hash@));
                    let q = choose|i: int| is_first_admitted(keys, key_hash@, i);
                    assert(is_first_admitted(keys, key_hash@, q));
                    assert(q == p);
                }
                self.record_use(key_hash, now);
                self.record(Statement::touch(key_hash, now));
                Some(found)
            },
        }
    }

    /// Resolves a presented digest now. See [`Database::validate_api_key_at`].
    pub fn validate_api_key(&mut self, key_hash: &str) -> (res: Option<ApiKey>)
        requires
            old(self).wf(),
        ensures
            final(self).wf(),
            opt_key_view(res) == lookup(old(self)@.keys, key_hash@),
            res is Some <==> accepts(old(self)@.keys, key_hash@),
            exists|now: i64|
                final(self)@ == #[trigger] validated(old(self)@, key_hash@, now),
    {
        let now = current_timestamp();
        self.validate_api_key_at(key_hash, now)
    }

    /// Revokes the credential with the identifier `id`. Revoking a
    /// credential that is revoked already, or one that does not exist, is no
    /// error and changes no credential; the result tells the three apart.
    pub fn revoke_api_key(&mut self, id: &str) -> (outcome: Revocation)
        requires
            old(self).wf(),
        ensures
            final(self).wf(),
            final(self)@ == revoked_in(old(self)@, id@),
            outcome == revocation_of(old(self)@.keys, id@),
            outcome != Revocation::Revoked ==> final(self)@.keys == old(self)@.keys,
    {
        let n = self.api_keys.len();
        let mut known = false;
        let mut changed = false;
        let mut i: usize = 0;
        while i < n
            invariant
                i <= n,
                n == self.api_keys.len(),
                n == old(self).api_keys.len(),
                self.todos == old(self).todos,
                self.journal == old(self).journal,
                known <==> exists|j: int| 0 <= j < i && (#[trigger] old(self)@.keys[j]).id == id@,
                changed <==> exists|j: int|
                    0 <= j < i && (#[trigger] old(self)@.keys[j]).id == id@ && old(
                        self,
                    )@.keys[j].active,
                forall|j: int|
                    0 <= j < n ==> (#[trigger] self.api_keys@[j])@ == if j < i {
                        revoke_id(old(self)@.keys, id@)[j]
                    } else {
                        old(self)@.keys[j]
                    },
            decreases n - i,
        {
            if same_text(self.api_keys[i].id.as_str(), id) {
                assert(old(self)@.keys[i as int].id == id@);
                if self.api_keys[i].active {
                    assert(old(self)@.keys[i as int].active);
                    self.api_keys[i].active = false;
                    changed = true;
                }
                known = true;
            }
            i = i + 1;
        }
        proof {
            let after = self@.keys;
            let before = old(self)@.keys;
            assert(after =~= revoke_id(before, id@));
            same_names_stay_distinct(before, after);
            if !changed {
                assert(after =~= before);
            }
        }
        self.record(Statement::revoke(id));
        if changed {
            Revocation::Revoked
        } else if known {
            Revocation::AlreadyRevoked
        } else {
            Revocation::Unknown
        }
    }

    fn deactivate_admins(&mut self)
        requires
            old(self).wf(),
        ensures
            final(self).wf(),
            final(self)@ == (Store {
                keys: revoke_admins(old(self)@.keys),
                todos: old(self)@.todos,
                log: old(self)@.log,
            }),
    {
        let n = self.api_keys.len();
        let mut i: usize = 0;
        while i < n
            invariant
                i <= n,
                n == self.api_keys.len(),
                n == old(self).api_keys.len(),
                self.todos == old(self).todos,
                self.journal == old(self).journal,
                forall|j: int|
                    0 <= j < n ==> (#[trigger] self.api_keys@[j])@ == if j < i {
                        revoke_admins(old(self)@.keys)[j]
                    } else {
                        old(self)@.keys[j]
                    },
            decreases n - i,
        {
            if self.api_keys[i].key_type == KeyType::Admin {
                self.api_keys[i].active = false;
            }
            i = i + 1;
        }
        proof {
            let after = self@.keys;
            let before = old(self)@.keys;
            assert(after =~= revoke_admins(before));
            same_names_stay_distinct(before, after);
        }
    }

    fn deactivate_admin_with_hash(&mut self, hash: &str)
        requires
            old(self).wf(),
        ensures
            final(self).wf(),
            final(self)@ == (Store {
                keys: revoke_admin_hash(old(self)@.keys, hash@),
                todos: old(self)@.todos,
                log: old(self)@.log,
            }),
    {
        let n = self.api_keys.len();
        let mut i: usize = 0;
        while i < n
            invariant
                i <= n,
                n == self.api_keys.len(),
                n == old(self).api_keys.len(),
                self.todos == old(self).todos,
                self.journal == old(self).journal,
                forall|j: int|
                    0 <= j < n ==> (#[trigger] self.api_keys@[j])@ == if j < i {
                        revoke_admin_hash(old(self)@.keys, hash@)[j]
                    } else {
                        old(self)@.keys[j]
                    },
            decreases n - i,
        {
            let same = same_text(self.api_keys[i].key_hash.as_str(), hash);
            if same && self.api_keys[i].key_type == KeyType::Admin {
                self.api_keys[i].active = false;
            }
            i = i + 1;
        }
        proof {
            let after = self@.keys;
            let before = old(self)@.keys;
            assert(after =~= revoke_admin_hash(before, hash@));
            same_names_stay_distinct(before, after);
        }
    }

    /// Replaces one administrator credential: revokes the administrator
    /// credential with the digest `old_key_hash`, if there is one, and writes
    /// a new administrator credential with the given identifier, digest and
    /// time of creation. Where the new credential collides with a stored one
    /// nothing changes.
    pub fn rotate_admin_key_at(
        &mut self,
        old_key_hash: &str,
        id: String,
        new_key_hash: String,
        now: i64,
    ) -> (res: Result<(), StoreError>)
        requires
            old(self).wf(),
        ensures
            final(self).wf(),
            ({
                let key = fresh_key(id@, new_key_hash@, rotated_label(), KeyType::Admin, now);
                match res {
                    Ok(_) => insert_refusal(old(self)@.keys, key) is None && final(self)@
                        == rotated_in(old(self)@, old_key_hash@, key),
                    Err(e) => insert_refusal(old(self)@.keys, key) == Some(e) && final(self)@
                        == old(self)@,
                }
            }),
    {
        if self.holds_hash(new_key_hash.as_str()) {
            return Err(StoreError::DuplicateKeyHash);
        }
        if self.holds_id(id.as_str()) {
            return Err(StoreError::DuplicateId);
        }
        self.deactivate_admin_with_hash(old_key_hash);
        self.record(Statement::revoke_admin_hash(old_key_hash));
        let key = new_api_key(
            id,
            new_key_hash,
            String::from_str("Rotated Admin Key"),
            KeyType::Admin,
            now,
        );
        proof {
            let before = old(self)@.keys;
            let between = self@.keys;
            assert forall|i: int| 0 <= i < between.len() implies (#[trigger] between[i]).id
                == before[i].id && between[i].key_hash == before[i].key_hash by {}
            assert(!knows_hash(between, key@.key_hash));
            assert(!knows_id(between, key@.id));
        }
        self.append_key(key);
        Ok(())
    }

    /// Replaces one administrator credential by a new one with a fresh
    /// identifier, stamped with the current time, and returns the
    /// identifier. See [`Database::rotate_admin_key_at`].
    pub fn rotate_admin_key(&mut self, old_key_hash: &str, new_key_hash: String) -> (res: Result<
        String,
        StoreError,
    >)
        requires
            old(self).wf(),
        ensures
            final(self).wf(),
            match res {
                Ok(id) => is_random_id(id@) && !knows_id(old(self)@.keys, id@) && exists|now: i64|
                    final(self)@ == rotated_in(
                        old(self)@,
                        old_key_hash@,
                        #[trigger] fresh_key(
                            id@,
                            new_key_hash@,
                            rotated_label(),
                            KeyType::Admin,
                            now,
                        ),
                    ),
                Err(e) => is_collision(e) && final(self)@ == old(self)@,
            },
            knows_hash(old(self)@.keys, new_key_hash@) <==> res == Err::<String, StoreError>(
                StoreError::DuplicateKeyHash,
            ),
            old(self)@.keys.len() == 0 ==> res is Ok,
    {
        let id = generate_id();
        let now = current_timestamp();
        match self.rotate_admin_key_at(old_key_hash, id.clone(), new_key_hash, now) {
            Ok(_) => Ok(id),
            Err(e) => Err(e),
        }
    }

    /// The emergency reissue: revokes every administrator credential and
    /// writes one new administrator credential with the given identifier,
    /// digest and time of creation. Refused before the system was
    /// initialized, and where the new credential collides with a stored one;
    /// a refusal changes nothing.
    pub fn reinitialize_admin_keys_at(&mut self, id: String, new_key_hash: String, now: i64) -> (res:
        Result<(), StoreError>)
        requires
            old(self).wf(),
        ensures
            final(self).wf(),
            ({
                let key = fresh_key(
                    id@,
                    new_key_hash@,
                    reinitialized_label(),
                    KeyType::Admin,
                    now,
                );
                match res {
                    Ok(_) => reissue_refusal(old(self)@.keys, key) is None && final(self)@
                        == reissued_in(old(self)@, key),
                    Err(e) => reissue_refusal(old(self)@.keys, key) == Some(e) && final(self)@
                        == old(self)@,
                }
            }),
    {
        if !self.is_initialized() {
            return Err(StoreError::NotInitialized);
        }
        if self.holds_hash(new_key_hash.as_str()) {
            return Err(StoreError::DuplicateKeyHash);
        }
        if self.holds_id(id.as_str()) {
            return Err(StoreError::DuplicateId);
        }
        self.deactivate_admins();
        self.record(Statement::revoke_admins());
        let key = new_api_key(
            id,
            new_key_hash,
            String::from_str("Reinitialized Admin Key"),
            KeyType::Admin,
            now,
        );
        proof {
            let before = old(self)@.keys;
            let between = self@.keys;
            assert forall|i: int| 0 <= i < between.len() implies (#[trigger] between[i]).id
                == before[i].id && between[i].key_hash == before[i].key_hash by {}
            assert(!knows_hash(between, key@.key_hash));
            assert(!knows_id(between, key@.id));
        }
        self.append_key(key);
        Ok(())
    }

    /// The emergency reissue with a fresh identifier, stamped with the
    /// current time; returns the identifier. See
    /// [`Database::reinitialize_admin_keys_at`].
    pub fn reinitialize_admin_keys(&mut self, new_key_hash: String) -> (res: Result<
        String,
        StoreError,
    >)
        requires
            old(self).wf(),
        ensures
            final(self).wf(),
            match res {
                Ok(id) => is_random_id(id@) && has_admin(old(self)@.keys) && !knows_id(
                    old(self)@.keys,
                    id@,
                ) && exists|now: i64|
                    final(self)@ == reissued_in(
                        old(self)@,
                        #[trigger] fresh_key(
                            id@,
                            new_key_hash@,
                            reinitialized_label(),
                            KeyType::Admin,
                            now,
                        ),
                    ),
                Err(e) => (e == StoreError::NotInitialized || is_collision(e)) && final(self)@
                    == old(self)@,
            },
            !has_admin(old(self)@.keys) <==> res == Err::<String, StoreError>(
                StoreError::NotInitialized,
            ),
            has_admin(old(self)@.keys) && knows_hash(old(self)@.keys, new_key_hash@) <==> res
                == Err::<String, StoreError>(StoreError::DuplicateKeyHash),
    {
        let id = generate_id();
        let now = current_timestamp();
        match self.reinitialize_admin_keys_at(id.clone(), new_key_hash, now) {
            Ok(_) => Ok(id),
            Err(e) => Err(e),
        }
    }

    /// Every credential, newest first; credentials created in the same
    /// second keep the order in which they were stored.
    pub fn list_api_keys(&self) -> (listed: Vec<ApiKey>)
        ensures
            listed@.len() == self@.keys.len(),
            exists|order: Seq<usize>| #[trigger]
                is_listing_order(key_ranks(self@.keys), order) && key_views(listed@) == arranged(
                    self@.keys,
                    order,
                ),
    {
        let n = self.api_keys.len();
        let mut ranks: Vec<(i64, i64)> = Vec::new();
        let mut i: usize = 0;
        while i < n
            invariant
                i <= n,
                n == self.api_keys.len(),
                ranks.len() == i,
                forall|j: int| 0 <= j < i ==> (#[trigger] ranks[j]) == key_ranks(self@.keys)[j],
            decreases n - i,
        {
            ranks.push((self.api_keys[i].created_at, 0i64));
            i = i + 1;
        }
        assert(ranks@ =~= key_ranks(self@.keys));
        let order = listing_order(&ranks);
        let mut listed: Vec<ApiKey> = Vec::new();
        let mut k: usize = 0;
        while k < n
            invariant
                k <= n,
                n == self.api_keys.len(),
                order.len() == n,
                listed.len() == k,
                is_listing_order(key_ranks(self@.keys), order@),
                forall|j: int|
                    0 <= j < k ==> (#[trigger] listed[j])@ == self@.keys[order[j] as int],
            decreases n - k,
        {
            let row = order[k];
            listed.push(self.api_keys[row].clone());
            k = k + 1;
        }
        assert(key_views(listed@) =~= arranged(self@.keys, order@));
        listed
    }

    fn find_todo_position(&self, id: &str) -> (pos: Option<usize>)
        ensures
            match pos {
                Some(p) => is_first_todo(self@.todos, id@, p as int),
                None => !knows_todo(self@.todos, id@),
            },
            match pos {
                Some(p) => todo_position(self@.todos, id@) == Some(p as int),
                None => todo_position(self@.todos, id@) is None,
            },
    {
        let n = self.todos.len();
        let mut pos: Option<usize> = None;
        let mut i: usize = 0;
        while i < n
            invariant
                i <= n,
                n == self.todos.len(),
                match pos {
                    Some(p) => p < i && is_first_todo(self@.todos, id@, p as int),
                    None => forall|j: int| 0 <= j < i ==> (#[trigger] self@.todos[j]).id != id@,
                },
            decreases n - i,
        {
            let same = same_text(self.todos[i].id.as_str(), id);
            if same && pos.is_none() {
                assert(self@.todos[i as int].id == id@);
                pos = Some(i);
            }
            i = i + 1;
        }
        proof {
            if let Some(p) = pos {
                let todos = self@.todos;
                assert(todos[p as int].id == id@);
                let q = choose|q: int| is_first_todo(todos, id@, q);
                assert(is_first_todo(todos, id@, q));
                assert(q == p);
            }
        }
        pos
    }

    /// The todo item with the identifier `id`, if there is one.
    pub fn get_todo(&self, id: &str) -> (res: Option<Todo>)
        ensures
            opt_todo_view(res) == find_todo(self@.todos, id@),
    {
        match self.find_todo_position(id) {
            Some(p) => Some(self.todos[p].clone()),
            None => None,
        }
    }

    /// Creates a todo item under the given identifier at the time `now` and
    /// answers with it. A taken identifier is refused and changes nothing.
    pub fn create_todo_at(&mut self, id: String, request: CreateTodoRequest, now: i64) -> (res:
        Result<Todo, StoreError>)
        requires
            old(self).wf(),
        ensures
            final(self).wf(),
            (created_view(res), final(self)@) == create_outcome(old(self)@, id@, request@, now),
    {
        if self.find_todo_position(id.as_str()).is_some() {
            return Err(StoreError::DuplicateId);
        }
        let todo = new_todo(id, request, now);
        let statement = Statement::insert_todo(&todo);
        self.todos.push(todo.clone());
        self.journal.push(statement);
        proof {
            let before = old(self)@.todos;
            let after = self@.todos;
            assert(after =~= before.push(todo@));
            assert(self@.log =~= old(self)@.log.push(statement@));
            assert forall|i: int, j: int| 0 <= i < j < after.len() implies (#[trigger] after[i]).id
                != (#[trigger] after[j]).id by {
                assert(after[i] == before[i]);
                if j < before.len() {
                    assert(after[j] == before[j]);
                }
            }
        }
        Ok(todo)
    }

    /// Creates a todo item under a fresh identifier, stamped with the
    /// current time, and answers with it. See [`Database::create_todo_at`].
    pub fn create_todo(&mut self, request: CreateTodoRequest) -> (res: Result<Todo, StoreError>)
        requires
            old(self).wf(),
        ensures
            final(self).wf(),
            exists|id: Seq<char>, now: i64|
                is_random_id(id) && (created_view(res), final(self)@)
                    == #[trigger] create_outcome(old(self)@, id, request@, now),
            old(self)@.todos.len() == 0 ==> res is Ok,
    {
        let id = generate_id();
        let now = current_timestamp();
        let ghost wanted = id@;
        let res = self.create_todo_at(id, request, now);
        assert(is_random_id(wanted) && (created_view(res), self@) == create_outcome(
            old(self)@,
            wanted,
            request@,
            now,
        ));
        res
    }

    fn replace_at(&mut self, p: usize, todo: Todo)
        requires
            old(self).wf(),
            p < old(self)@.todos.len(),
            todo@.id == old(self)@.todos[p as int].id,
        ensures
            final(self).wf(),
            final(self)@ == (Store {
                keys: old(self)@.keys,
                todos: replace_todo(old(self)@.todos, todo@.id, todo@),
                log: old(self)@.log,
            }),
    {
        self.todos[p] = todo;
        proof {
            let before = old(self)@.todos;
            let after = self@.todos;
            assert forall|i: int| 0 <= i < after.len() implies (#[trigger] after[i])
                == replace_todo(before, todo@.id, todo@)[i] by {
                if i != p {
                    assert(after[i] == before[i]);
                    if i < p {
                        assert(before[i].id != before[p as int].id);
                    } else {
                        assert(before[p as int].id != before[i].id);
                    }
                }
            }
            assert(after =~= replace_todo(before, todo@.id, todo@));
            assert forall|i: int, j: int| 0 <= i < j < after.len() implies (#[trigger] after[i]).id
                != (#[trigger] after[j]).id by {
                assert(after[i].id == before[i].id && after[j].id == before[j].id);
            }
        }
    }

    /// Applies a change request to the todo item with the identifier `id`
    /// at the time `now` and answers with the changed item. An unknown
    /// identifier answers nothing and changes nothing.
    pub fn update_todo_at(&mut self, id: &str, request: UpdateTodoRequest, now: i64) -> (res: Option<
        Todo,
    >)
        requires
            old(self).wf(),
        ensures
            final(self).wf(),
            (opt_todo_view(res), final(self)@) == update_outcome(old(self)@, id@, request@, now),
    {
        match self.find_todo_position(id) {
            None => None,
            Some(p) => {
                let existing = self.todos[p].clone();
                let todo = merge_update(existing, request, now);
                self.replace_at(p, todo.clone());
                self.record(Statement::update_todo(&todo));
                Some(todo)
            },
        }
    }

    /// Applies a change request now. See [`Database::update_todo_at`].
    pub fn update_todo(&mut self, id: &str, request: UpdateTodoRequest) -> (res: Option<Todo>)
        requires
            old(self).wf(),
        ensures
            final(self).wf(),
            res is Some <==> knows_todo(old(self)@.todos, id@),
            exists|now: i64|
                (opt_todo_view(res), final(self)@) == #[trigger] update_outcome(
                    old(self)@,
                    id@,
                    request@,
                    now,
                ),
    {
        let now = current_timestamp();
        let ghost wanted = request@;
        let res = self.update_todo_at(id, request, now);
        assert((opt_todo_view(res), self@) == update_outcome(old(self)@, id@, wanted, now));
        res
    }

    /// Flips the completion of the todo item with the identifier `id` at
    /// the time `now` and answers with the changed item. An unknown
    /// identifier answers nothing and changes nothing.
    pub fn toggle_todo_at(&mut self, id: &str, now: i64) -> (res: Option<Todo>)
        requires
            old(self).wf(),
        ensures
            final(self).wf(),
            (opt_todo_view(res), final(self)@) == toggle_outcome(old(self)@, id@, now),
    {
        match self.find_todo_position(id) {
            None => None,
            Some(p) => {
                let existing = self.todos[p].clone();
                let todo = toggle(existing, now);
                self.replace_at(p, todo.clone());
                self.record(Statement::toggle_todo(&todo));
                Some(todo)
            },
        }
    }

    /// Flips the completion of a todo item now. See
    /// [`Database::toggle_todo_at`].
    pub fn toggle_todo(&mut self, id: &str) -> (res: Option<Todo>)
        requires
            old(self).wf(),
        ensures
            final(self).wf(),
            res is Some <==> knows_todo(old(self)@.todos, id@),
            exists|now: i64|
                (opt_todo_view(res), final(self)@) == #[trigger] toggle_outcome(
                    old(self)@,
                    id@,
                    now,
                ),
    {
        let now = current_timestamp();
        let res = self.toggle_todo_at(id, now);
        assert((opt_todo_view(res), self@) == toggle_outcome(old(self)@, id@, now));
        res
    }

    /// Deletes the todo item with the identifier `id`; the result says
    /// whether there was one.
    pub fn delete_todo(&mut self, id: &str) -> (deleted: bool)
        requires
            old(self).wf(),
        ensures
            final(self).wf(),
            deleted == knows_todo(old(self)@.todos, id@),
            final(self)@ == deleted_in(old(self)@, id@),
    {
        let deleted = match self.find_todo_position(id) {
            None => false,
            Some(p) => {
                self.todos.remove(p);
                proof {
                    let before = old(self)@.todos;
                    let after = self@.todos;
                    assert(after =~= before.remove(p as int));
                    assert forall|i: int, j: int| 0 <= i < j < after.len() implies (
                    #[trigger] after[i]).id != (#[trigger] after[j]).id by {
                        let a = if i < p { i } else { i + 1 };
                        let b = if j < p { j } else { j + 1 };
                        assert(after[i] == before[a] && after[j] == before[b]);
                    }
                }
                true
            },
        };
        self.record(Statement::delete_todo(id));
        deleted
    }

    fn select_todos(&self, wanted: &Vec<bool>) -> (listed: Vec<Todo>)
        requires
            wanted.len() == self@.todos.len(),
        ensures
            exists|picks: Seq<usize>| #[trigger]
                is_selection(todo_ranks(self@.todos), wanted@, picks) && todo_views(listed@)
                    == arranged(self@.todos, picks),
    {
        let n = self.todos.len();
        let mut ranks: Vec<(i64, i64)> = Vec::new();
        let mut i: usize = 0;
        while i < n
            invariant
                i <= n,
                n == self.todos.len(),
                ranks.len() == i,
                forall|j: int| 0 <= j < i ==> (#[trigger] ranks[j]) == todo_ranks(self@.todos)[j],
            decreases n - i,
        {
            let priority: i64 = self.todos[i].priority as i64;
            ranks.push((priority, self.todos[i].created_at));
            i = i + 1;
        }
        assert(ranks@ =~= todo_ranks(self@.todos));
        let picks = listing_selection(&ranks, wanted);
        let m = picks.len();
        let mut listed: Vec<Todo> = Vec::new();
        let mut k: usize = 0;
        while k < m
            invariant
                k <= m,
                m == picks.len(),
                n == self.todos.len(),
                listed.len() == k,
                forall|j: int| 0 <= j < picks.len() ==> (#[trigger] picks[j]) < n,
                forall|j: int|
                    0 <= j < k ==> (#[trigger] listed[j])@ == self@.todos[picks[j] as int],
            decreases m - k,
        {
            let row = picks[k];
            listed.push(self.todos[row].clone());
            k = k + 1;
        }
        assert(todo_views(listed@) =~= arranged(self@.todos, picks@));
        listed
    }

    /// The todo items that the filter admits, highest priority first, among
    /// equals the newest first; items equal in both keep the order in which
    /// they were stored.
    pub fn list_todos(&self, completed: Option<bool>) -> (listed: Vec<Todo>)
        ensures
            exists|picks: Seq<usize>| #[trigger]
                is_selection(todo_ranks(self@.todos), todo_filter(self@.todos, completed), picks)
                    && todo_views(listed@) == arranged(self@.todos, picks),
    {
        let n = self.todos.len();
        let mut wanted: Vec<bool> = Vec::new();
        let mut i: usize = 0;
        while i < n
            invariant
                i <= n,
                n == self.todos.len(),
                wanted.len() == i,
                forall|j: int|
                    0 <= j < i ==> (#[trigger] wanted[j]) == todo_filter(self@.todos, completed)[j],
            decreases n - i,
        {
            let keep = match completed {
                Some(done) => self.todos[i].completed == done,
                None => true,
            };
            wanted.push(keep);
            i = i + 1;
        }
        assert(wanted@ =~= todo_filter(self@.todos, completed));
        self.select_todos(&wanted)
    }

    /// The todo items whose title or description holds `query` somewhere,
    /// in the order of a listing. In the query `%` stands for any run of
    /// characters and `_` for any single one; letters match whatever their
    /// case.
    pub fn search_todos(&self, query: &str) -> (found: Vec<Todo>)
        ensures
            exists|picks: Seq<usize>| #[trigger]
                is_selection(todo_ranks(self@.todos), search_filter(self@.todos, query@), picks)
                    && todo_views(found@) == arranged(self@.todos, picks),
    {
        let pattern = containing_pattern(query);
        let n = self.todos.len();
        let mut wanted: Vec<bool> = Vec::new();
        let mut i: usize = 0;
        while i < n
            invariant
                i <= n,
                n == self.todos.len(),
                pattern@ == containing(query@),
                wanted.len() == i,
                forall|j: int|
                    0 <= j < i ==> (#[trigger] wanted[j]) == search_hit(self@.todos[j], query@),
            decreases n - i,
        {
            let title = chars_of(self.todos[i].title.as_str());
            let hit = if like_match(&pattern, &title) {
                true
            } else {
                match &self.todos[i].description {
                    Some(text) => {
                        let chars = chars_of(text.as_str());
                        like_match(&pattern, &chars)
                    },
                    None => false,
                }
            };
            wanted.push(hit);
            i = i + 1;
        }
        assert(wanted@ =~= search_filter(self@.todos, query@));
        self.select_todos(&wanted)
    }
}

/// What a request is served with: the store, where one is configured, and
/// the identity that the validation of the request found, once it ran.
pub struct Env {
    pub db: Option<Database>,
    pub seen: Option<AuthContext>,
}

/// The mathematical value of the serving environment.
pub struct EnvView {
    pub db: Option<Store>,
    pub seen: Option<AuthContextView>,
}

impl View for Env {
    type V = EnvView;

    open spec fn view(&self) -> EnvView {
        EnvView {
            db: match self.db {
                Some(db) => Some(db@),
                None => None,
            },
            seen: match self.seen {
                Some(who) => Some(who@),
                None => None,
            },
        }
    }
}

impl Env {
    /// The store, where there is one, obeys its rules.
    pub open spec fn wf(&self) -> bool {
        match self.db {
            Some(db) => db.wf(),
            None => true,
        }
    }

    /// An environment that serves from the store `db`; no request was
    /// validated yet.
    pub fn new(db: Database) -> (env: Self)
        requires
            db.wf(),
        ensures
            env.wf(),
            env@.db == Some(db@),
            env@.seen is None,
    {
        Env { db: Some(db), seen: None }
    }

    /// An environment in which no store is configured.
    pub fn unconfigured() -> (env: Self)
        ensures
            env.wf(),
            env@.db is None,
            env@.seen is None,
    {
        Env { db: None, seen: None }
    }
}

} // verus!
