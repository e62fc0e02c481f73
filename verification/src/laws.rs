//! What holds of the credential lifecycle as a whole, proved from the
//! meaning of the single operations.

use vstd::prelude::*;
use vstd::std_specs::convert::FromSpec;
use crate::auth::resolve;
use crate::keys::key_digest;
use crate::models::{
    ApiKey, ApiKeyView, CreateTodoRequestView, KeyType, Todo, TodoView, UpdateTodoRequestView,
};
use crate::rows::{
    flag_number, key_type_text, number_flag, row_key, row_todo, text_key_type, timestamp_value,
    value_timestamp, ApiKeyRow, SqlValueView, TodoRow,
};
use crate::statements::description_value;
use crate::store::{
    accepts, admits, bootstrap_refusal, bootstrapped_in, create_outcome, deleted_in,
    distinct_hashes, distinct_ids, distinct_todo_ids, find_todo, insert_refusal, inserted,
    is_first_admitted, is_first_todo, knows_hash, knows_todo, lookup, merged, reissue_refusal,
    reissued, reissued_in, revocation_of, revoke_id, revoked_in, rotated, rotated_in,
    toggle_outcome, touch, update_outcome, validated, Revocation, Store, StoreError,
};

verus! {

/// The digest is a function of the secret: the same secret gives the same
/// digest, whenever and however often it is derived.
pub proof fn digest_is_deterministic(first: Seq<char>, second: Seq<char>)
    requires
        first == second,
    ensures
        key_digest(first) == key_digest(second),
{
}

/// Where digests are unique, a presented digest resolves to the one
/// credential that has it, provided that one is active.
pub proof fn lookup_finds_the_credential(keys: Seq<ApiKeyView>, i: int)
    requires
        distinct_hashes(keys),
        0 <= i < keys.len(),
    ensures
        accepts(keys, keys[i].key_hash) <==> keys[i].active,
        keys[i].active ==> lookup(keys, keys[i].key_hash) == Some(keys[i]),
{
    let hash = keys[i].key_hash;
    if keys[i].active {
        assert(admits(keys[i], hash));
        assert(is_first_admitted(keys, hash, i));
        let p = choose|p: int| is_first_admitted(keys, hash, p);
        assert(p == i);
    }
}

/// One change that the service can make to the credential table: a new
/// credential is written, a use is recorded, a credential is revoked, an
/// administrator credential is rotated, or all of them are reissued.
pub open spec fn key_step(before: Seq<ApiKeyView>, after: Seq<ApiKeyView>) -> bool {
    ||| after == before
    ||| exists|key: ApiKeyView|
        insert_refusal(before, key) is None && after == #[trigger] before.push(key)
    ||| exists|hash: Seq<char>, now: i64| after == #[trigger] touch(before, hash, now)
    ||| exists|id: Seq<char>| after == #[trigger] revoke_id(before, id)
    ||| exists|old_hash: Seq<char>, key: ApiKeyView|
        insert_refusal(before, key) is None && after == #[trigger] rotated(before, old_hash, key)
    ||| exists|key: ApiKeyView|
        reissue_refusal(before, key) is None && after == #[trigger] reissued(before, key)
}

/// One operation of the store: the first or a further credential is
/// written, a presented digest is checked, a credential is revoked, an
/// administrator credential is rotated, all of them are reissued, or a todo
/// item is created, changed, flipped or deleted.
pub open spec fn store_step(before: Store, after: Store) -> bool {
    ||| after == before
    ||| exists|key: ApiKeyView|
        insert_refusal(before.keys, key) is None && after == #[trigger] inserted(before, key)
    ||| exists|key: ApiKeyView|
        bootstrap_refusal(before.keys, key) is None && after == #[trigger] bootstrapped_in(
            before,
            key,
        )
    ||| exists|hash: Seq<char>, now: i64| after == #[trigger] validated(before, hash, now)
    ||| exists|id: Seq<char>| after == #[trigger] revoked_in(before, id)
    ||| exists|old_hash: Seq<char>, key: ApiKeyView|
        insert_refusal(before.keys, key) is None && after == #[trigger] rotated_in(
            before,
            old_hash,
            key,
        )
    ||| exists|key: ApiKeyView|
        reissue_refusal(before.keys, key) is None && after == #[trigger] reissued_in(before, key)
    ||| exists|id: Seq<char>, request: CreateTodoRequestView, now: i64|
        after == (#[trigger] create_outcome(before, id, request, now)).1
    ||| exists|id: Seq<char>, request: UpdateTodoRequestView, now: i64|
        after == (#[trigger] update_outcome(before, id, request, now)).1
    ||| exists|id: Seq<char>, now: i64| after == (#[trigger] toggle_outcome(before, id, now)).1
    ||| exists|id: Seq<char>| after == #[trigger] deleted_in(before, id)
}

/// Whatever operation the store performs, its credential table changes by
/// one of the changes that the laws of revocation speak of.
pub proof fn store_step_is_key_step(before: Store, after: Store)
    requires
        store_step(before, after),
    ensures
        key_step(before.keys, after.keys),
{
    if exists|key: ApiKeyView|
        insert_refusal(before.keys, key) is None && after == #[trigger] inserted(before, key) {
        let key = choose|key: ApiKeyView|
            insert_refusal(before.keys, key) is None && after == #[trigger] inserted(before, key);
        assert(after.keys == before.keys.push(key));
    } else if exists|key: ApiKeyView|
        bootstrap_refusal(before.keys, key) is None && after == #[trigger] bootstrapped_in(
            before,
            key,
        ) {
        let key = choose|key: ApiKeyView|
            bootstrap_refusal(before.keys, key) is None && after == #[trigger] bootstrapped_in(
                before,
                key,
            );
        assert(insert_refusal(before.keys, key) is None);
        assert(after.keys == before.keys.push(key));
    } else if exists|hash: Seq<char>, now: i64| after == #[trigger] validated(before, hash, now) {
        let (hash, now) = choose|hash: Seq<char>, now: i64|
            after == #[trigger] validated(before, hash, now);
        if accepts(before.keys, hash) {
            assert(after.keys == touch(before.keys, hash, now));
        }
    } else if exists|id: Seq<char>| after == #[trigger] revoked_in(before, id) {
        let id = choose|id: Seq<char>| after == #[trigger] revoked_in(before, id);
        assert(after.keys == revoke_id(before.keys, id));
    } else if exists|old_hash: Seq<char>, key: ApiKeyView|
        insert_refusal(before.keys, key) is None && after == #[trigger] rotated_in(
            before,
            old_hash,
            key,
        ) {
        let (old_hash, key) = choose|old_hash: Seq<char>, key: ApiKeyView|
            insert_refusal(before.keys, key) is None && after == #[trigger] rotated_in(
                before,
                old_hash,
                key,
            );
        assert(after.keys == rotated(before.keys, old_hash, key));
    } else if exists|key: ApiKeyView|
        reissue_refusal(before.keys, key) is None && after == #[trigger] reissued_in(before, key) {
        let key = choose|key: ApiKeyView|
            reissue_refusal(before.keys, key) is None && after == #[trigger] reissued_in(
                before,
                key,
            );
        assert(after.keys == reissued(before.keys, key));
    } else {
        assert(after.keys == before.keys);
    }
}

/// A presented secret is accepted exactly where an active credential is
/// stored under its digest.
pub proof fn secret_is_accepted_iff_active(keys: Seq<ApiKeyView>, secret: Seq<char>)
    ensures
        resolve(keys, secret) is Some <==> accepts(keys, key_digest(secret)),
{
}

/// Once the credential of a secret is revoked, the secret is rejected.
pub proof fn revoked_secret_is_rejected(keys: Seq<ApiKeyView>, secret: Seq<char>, i: int)
    requires
        distinct_hashes(keys),
        0 <= i < keys.len(),
        keys[i].key_hash == key_digest(secret),
    ensures
        resolve(revoke_id(keys, keys[i].id), secret) is None,
{
    revoke_rejects_the_digest(keys, i);
}

/// The result of a revocation tells whether a credential went from active
/// to revoked: exactly then the table changes, and a second revocation of
/// the same identifier reports that nothing was left to revoke.
pub proof fn revocation_reports_the_change(keys: Seq<ApiKeyView>, id: Seq<char>)
    ensures
        revocation_of(keys, id) == Revocation::Revoked <==> revoke_id(keys, id) != keys,
        revocation_of(revoke_id(keys, id), id) != Revocation::Revoked,
        revocation_of(keys, id) == Revocation::Unknown <==> revocation_of(revoke_id(keys, id), id)
            == Revocation::Unknown,
{
    let after = revoke_id(keys, id);
    if revocation_of(keys, id) == Revocation::Revoked {
        let w = choose|w: int| 0 <= w < keys.len() && (#[trigger] keys[w]).id == id && keys[w].active;
        assert(after[w] != keys[w]);
    } else {
        assert forall|j: int| 0 <= j < keys.len() implies after[j] == keys[j] by {
            if keys[j].id == id {
                assert(!keys[j].active);
            }
        }
        assert(after =~= keys);
    }
    assert forall|j: int| 0 <= j < after.len() implies !((#[trigger] after[j]).id == id
        && after[j].active) by {}
    if exists|j: int| 0 <= j < keys.len() && (#[trigger] keys[j]).id == id {
        let w = choose|j: int| 0 <= j < keys.len() && (#[trigger] keys[j]).id == id;
        assert(after[w].id == id);
    }
    if exists|j: int| 0 <= j < after.len() && (#[trigger] after[j]).id == id {
        let w = choose|j: int| 0 <= j < after.len() && (#[trigger] after[j]).id == id;
        assert(keys[w].id == id);
    }
}

/// Whether the digest `hash` belongs to a credential that was revoked.
pub open spec fn is_revoked(keys: Seq<ApiKeyView>, hash: Seq<char>) -> bool {
    knows_hash(keys, hash) && !accepts(keys, hash)
}

/// Every change keeps identifiers and digests unique.
pub proof fn step_keeps_uniqueness(before: Seq<ApiKeyView>, after: Seq<ApiKeyView>)
    requires
        distinct_ids(before),
        distinct_hashes(before),
        key_step(before, after),
    ensures
        distinct_ids(after),
        distinct_hashes(after),
{
    assert forall|i: int, j: int| 0 <= i < j < after.len() implies (#[trigger] after[i]).id != (
    #[trigger] after[j]).id && after[i].key_hash != after[j].key_hash by {
        assert(i < before.len());
        assert(after[i].id == before[i].id && after[i].key_hash == before[i].key_hash);
        if j < before.len() {
            assert(after[j].id == before[j].id && after[j].key_hash == before[j].key_hash);
        }
    }
}

/// Revoking a credential by its identifier makes its digest a revoked one.
pub proof fn revoke_rejects_the_digest(keys: Seq<ApiKeyView>, i: int)
    requires
        distinct_hashes(keys),
        0 <= i < keys.len(),
    ensures
        is_revoked(revoke_id(keys, keys[i].id), keys[i].key_hash),
{
    let after = revoke_id(keys, keys[i].id);
    let hash = keys[i].key_hash;
    assert(after[i].key_hash == hash);
    assert forall|j: int| 0 <= j < after.len() implies !admits(#[trigger] after[j], hash) by {
        if after[j].key_hash == hash {
            assert(keys[j].key_hash == keys[i].key_hash);
            assert(j == i);
        }
    }
}

/// A revoked digest stays revoked through every change: no operation sets
/// an active flag again, and a taken digest cannot be written anew.
pub proof fn revocation_survives_a_step(
    before: Seq<ApiKeyView>,
    after: Seq<ApiKeyView>,
    hash: Seq<char>,
)
    requires
        key_step(before, after),
        is_revoked(before, hash),
    ensures
        is_revoked(after, hash),
{
    let w = choose|w: int| 0 <= w < before.len() && (#[trigger] before[w]).key_hash == hash;
    assert(after[w].key_hash == hash);
    assert forall|j: int| 0 <= j < after.len() implies !admits(#[trigger] after[j], hash) by {
        if j < before.len() {
            assert(!admits(before[j], hash));
            assert(after[j].key_hash == before[j].key_hash);
            assert(after[j].active ==> before[j].active);
        } else {
            assert(after[j].key_hash != hash);
        }
    }
}

/// A history of the store: each state arises from the one before it by
/// one operation.
pub open spec fn is_history(states: Seq<Store>) -> bool {
    forall|k: int| 0 <= k < states.len() - 1 ==> store_step(#[trigger] states[k], states[k + 1])
}

/// Once a digest is revoked, no later state of the store accepts it,
/// whatever operations follow: every later presentation of the same secret
/// fails.
pub proof fn revocation_is_final(states: Seq<Store>, hash: Seq<char>, k: int)
    requires
        is_history(states),
        0 <= k < states.len(),
        is_revoked(states[0].keys, hash),
    ensures
        is_revoked(states[k].keys, hash),
        lookup(states[k].keys, hash) is None,
    decreases k,
{
    if k > 0 {
        revocation_is_final(states, hash, k - 1);
        assert(store_step(states[k - 1], states[k - 1 + 1]));
        store_step_is_key_step(states[k - 1], states[k]);
        revocation_survives_a_step(states[k - 1].keys, states[k].keys, hash);
    }
}

/// Every operation of the store keeps identifiers and digests of
/// credentials unique.
pub proof fn uniqueness_is_kept(states: Seq<Store>, k: int)
    requires
        is_history(states),
        0 <= k < states.len(),
        distinct_ids(states[0].keys),
        distinct_hashes(states[0].keys),
    ensures
        distinct_ids(states[k].keys),
        distinct_hashes(states[k].keys),
    decreases k,
{
    if k > 0 {
        uniqueness_is_kept(states, k - 1);
        assert(store_step(states[k - 1], states[k - 1 + 1]));
        store_step_is_key_step(states[k - 1], states[k]);
        step_keeps_uniqueness(states[k - 1].keys, states[k].keys);
    }
}

/// A credential that was just written resolves from its digest: the secret
/// that was answered at its issuance is accepted from then on, until the
/// credential is revoked.
pub proof fn written_credential_resolves(keys: Seq<ApiKeyView>, key: ApiKeyView)
    requires
        distinct_hashes(keys),
        key.active,
        insert_refusal(keys, key) is None,
    ensures
        lookup(keys.push(key), key.key_hash) == Some(key),
{
    let after = keys.push(key);
    let n = keys.len() as int;
    assert(after[n] == key);
    assert forall|i: int, j: int| 0 <= i < j < after.len() implies (#[trigger] after[i]).key_hash
        != (#[trigger] after[j]).key_hash by {
        assert(after[i] == keys[i]);
        if j < n {
            assert(after[j] == keys[j]);
        }
    }
    lookup_finds_the_credential(after, n);
}

/// The first initialization succeeds at most once: after it an
/// administrator exists, its digest resolves to it, and every further
/// initialization is refused as a conflict.
pub proof fn bootstrap_happens_once(keys: Seq<ApiKeyView>, key: ApiKeyView, again: ApiKeyView)
    requires
        distinct_hashes(keys),
        key.key_type == KeyType::Admin,
        key.active,
        bootstrap_refusal(keys, key) is None,
    ensures
        lookup(keys.push(key), key.key_hash) == Some(key),
        bootstrap_refusal(keys.push(key), again) == Some(StoreError::AlreadyInitialized),
{
    let after = keys.push(key);
    assert(after[keys.len() as int].key_type == KeyType::Admin);
    written_credential_resolves(keys, key);
}

/// An emergency reissue leaves exactly one usable administrator credential,
/// the new one: no digest of an earlier administrator credential is
/// accepted any more, and the new digest resolves to the new credential.
pub proof fn reissue_replaces_every_admin(keys: Seq<ApiKeyView>, key: ApiKeyView)
    requires
        distinct_hashes(keys),
        key.key_type == KeyType::Admin,
        key.active,
        reissue_refusal(keys, key) is None,
    ensures
        forall|i: int|
            0 <= i < keys.len() && (#[trigger] keys[i]).key_type == KeyType::Admin ==> !accepts(
                reissued(keys, key),
                keys[i].key_hash,
            ),
        lookup(reissued(keys, key), key.key_hash) == Some(key),
        forall|j: int|
            0 <= j < reissued(keys, key).len() && (#[trigger] reissued(keys, key)[j]).key_type
                == KeyType::Admin && reissued(keys, key)[j].active ==> j == keys.len(),
{
    let after = reissued(keys, key);
    let n = keys.len() as int;
    assert(after[n] == key);
    assert forall|i: int, j: int| 0 <= i < j < after.len() implies (#[trigger] after[i]).key_hash
        != (#[trigger] after[j]).key_hash by {
        assert(after[i].key_hash == keys[i].key_hash);
        if j < n {
            assert(after[j].key_hash == keys[j].key_hash);
        }
    }
    lookup_finds_the_credential(after, n);
    assert forall|i: int|
        0 <= i < keys.len() && (#[trigger] keys[i]).key_type == KeyType::Admin implies !accepts(
        after,
        keys[i].key_hash,
    ) by {
        assert(after[i].key_hash == keys[i].key_hash);
        assert(!after[i].active);
        lookup_finds_the_credential(after, i);
    }
}

/// An emergency reissue before the first initialization is refused, whatever
/// the new credential is.
pub proof fn reissue_needs_initialization(keys: Seq<ApiKeyView>, key: ApiKeyView)
    requires
        forall|i: int| 0 <= i < keys.len() ==> (#[trigger] keys[i]).key_type != KeyType::Admin,
    ensures
        reissue_refusal(keys, key) == Some(StoreError::NotInitialized),
{
}

/// A change request that names nothing but the completion.
pub open spec fn only_completed(done: bool) -> UpdateTodoRequestView {
    UpdateTodoRequestView {
        title: None,
        description: None,
        completed: Some(done),
        priority: None,
        due_date: None,
    }
}

/// A change request leaves every field that it does not name as it was,
/// but for the time of the last change.
pub proof fn update_keeps_unnamed_fields(todo: TodoView, request: UpdateTodoRequestView, now: i64)
    ensures
        merged(todo, request, now).id == todo.id,
        merged(todo, request, now).created_at == todo.created_at,
        merged(todo, request, now).updated_at == now,
        request.title is None ==> merged(todo, request, now).title == todo.title,
        request.description is None ==> merged(todo, request, now).description
            == todo.description,
        request.completed is None ==> merged(todo, request, now).completed == todo.completed,
        request.priority is None ==> merged(todo, request, now).priority == todo.priority,
        request.due_date is None ==> merged(todo, request, now).due_date == todo.due_date,
{
}

/// Changing only the completion of a stored todo item changes that field
/// and the time of the last change, in the answer and in the table alike,
/// and nothing else: every other field of the item, an absent description
/// and an absent due date among them, and every other item stay as they
/// were, and the table holds the item that was answered.
pub proof fn completion_update_changes_two_fields(store: Store, i: int, done: bool, now: i64)
    requires
        distinct_todo_ids(store.todos),
        0 <= i < store.todos.len(),
    ensures
        ({
            let changed = TodoView { completed: done, updated_at: now, ..store.todos[i] };
            let outcome = update_outcome(store, store.todos[i].id, only_completed(done), now);
            &&& outcome.0 == Some(changed)
            &&& outcome.1.todos == store.todos.update(i, changed)
            &&& outcome.1.keys == store.keys
            &&& find_todo(outcome.1.todos, store.todos[i].id) == outcome.0
        }),
{
    let todos = store.todos;
    let id = todos[i].id;
    assert(is_first_todo(todos, id, i));
    let p = choose|p: int| is_first_todo(todos, id, p);
    assert(p == i);
    let changed = TodoView { completed: done, updated_at: now, ..todos[i] };
    assert(merged(todos[i], only_completed(done), now) == changed);
    let after = update_outcome(store, id, only_completed(done), now).1.todos;
    assert forall|j: int| 0 <= j < todos.len() implies after[j] == todos.update(i, changed)[j] by {
        if j != i {
            if j < i {
                assert(todos[j].id != todos[i].id);
            } else {
                assert(todos[i].id != todos[j].id);
            }
        }
    }
    assert(after =~= todos.update(i, changed));
    assert(is_first_todo(after, id, i));
    let q = choose|q: int| is_first_todo(after, id, q);
    assert(q == i);
}

/// An item that is created is stored as it is answered: a later read
/// gives the answer back, an absent description still absent.
pub proof fn created_item_is_read_back(
    store: Store,
    id: Seq<char>,
    request: CreateTodoRequestView,
    now: i64,
)
    requires
        !knows_todo(store.todos, id),
    ensures
        ({
            let outcome = create_outcome(store, id, request, now);
            &&& outcome.0 is Ok
            &&& find_todo(outcome.1.todos, id) == Some(outcome.0->Ok_0)
            &&& outcome.0->Ok_0.description == request.description
        }),
{
    let after = create_outcome(store, id, request, now).1.todos;
    let n = store.todos.len() as int;
    assert(after[n].id == id);
    assert forall|j: int| 0 <= j < n implies (#[trigger] after[j]).id != id by {
        assert(after[j] == store.todos[j]);
    }
    assert(is_first_todo(after, id, n));
    let q = choose|q: int| is_first_todo(after, id, q);
    assert(q == n);
}

/// A flag comes back from its stored integer as it was written.
pub proof fn flag_round_trip(flag: bool)
    ensures
        number_flag(flag_number(flag)) == flag,
{
}

/// An optional timestamp comes back from its stored value as it was
/// written: an absent one stays absent and is never mistaken for the epoch.
pub proof fn timestamp_round_trip(t: Option<i64>)
    ensures
        value_timestamp(timestamp_value(t)) == Some(t),
        timestamp_value(None) != timestamp_value(Some(0i64)),
{
}

/// An absent description is bound as an explicit null and a present one
/// as its text, the empty text included: the two are never confused.
pub proof fn description_is_bound_as_it_is(description: Option<Seq<char>>)
    ensures
        description is None <==> description_value(description) == SqlValueView::Null,
        description matches Some(text) ==> description_value(description) == SqlValueView::Text(
            text,
        ),
        description_value(None) != description_value(Some(Seq::<char>::empty())),
{
}

/// A role comes back from its stored word as it was written.
pub proof fn key_type_round_trip(key_type: KeyType)
    ensures
        text_key_type(key_type_text(key_type)) == key_type,
{
    reveal_strlit("admin");
    reveal_strlit("client");
    assert("admin"@.len() != "client"@.len());
}

/// A credential that is written as a row and read back is the credential
/// that was written: a cleared active flag stays cleared, an absent time of
/// last use stays absent, and a present one keeps its value.
pub proof fn credential_round_trip(key: ApiKeyView, row: ApiKeyRow)
    requires
        row.is_row_of(key),
    ensures
        ApiKey::from_spec(row)@ == key,
        row_key(row) == key,
{
    key_type_round_trip(key.key_type);
}

/// A todo item that is written as a row and read back is the item that was
/// written.
pub proof fn todo_round_trip(todo: TodoView, row: TodoRow)
    requires
        row.is_row_of(todo),
    ensures
        Todo::from_spec(row)@ == todo,
        row_todo(row) == todo,
{
}

} // verus!
