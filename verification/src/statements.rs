//! The statements that the store adapter sends to the backend, each with
//! the values bound to its placeholders. Texts are bound as texts, numbers
//! and timestamps as integers, flags as 0 or 1, and an absent timestamp or
//! description as an explicit null.

use vstd::prelude::*;
use vstd::string::*;
use crate::models::{ApiKey, ApiKeyView, Todo, TodoView};
use crate::rows::{
    encode_flag, encode_key_type, encode_timestamp, flag_number, key_type_text, timestamp_value,
    SqlValue, SqlValueView,
};

verus! {

/// What the sender of a statement owes to it.
#[derive(Clone, Copy, Debug, PartialEq, Eq, Structural)]
pub enum Duty {
    /// The statement must run: where it fails the request fails.
    Required,
    /// The statement must run and change a row: where it changes none,
    /// another request came first and this one is in conflict.
    MustChange,
    /// The statement records a use: where it fails the request still
    /// succeeds.
    BestEffort,
}

/// Whether a statement with the duty `duty` that ran and changed
/// `changes` rows, as far as the backend told, shows that another request
/// came first.
pub open spec fn shows_lost_race(duty: Duty, changes: Option<u64>) -> bool {
    duty == Duty::MustChange && changes == Some(0u64)
}

impl Duty {
    /// Whether a statement with this duty that ran and changed `changes`
    /// rows, as far as the backend told, shows that another request came
    /// first.
    pub fn is_lost(&self, changes: Option<u64>) -> (lost: bool)
        ensures
            lost == shows_lost_race(*self, changes),
    {
        match self {
            Duty::MustChange => match changes {
                Some(n) => n == 0,
                None => false,
            },
            Duty::Required => false,
            Duty::BestEffort => false,
        }
    }
}

/// A statement, the values bound to its placeholders in their order, and
/// what the sender owes to it.
#[derive(Debug, PartialEq, Eq)]
pub struct Statement {
    pub sql: String,
    pub bindings: Vec<SqlValue>,
    pub duty: Duty,
}

/// The mathematical value of a statement.
pub struct StatementView {
    pub sql: Seq<char>,
    pub bindings: Seq<SqlValueView>,
    pub duty: Duty,
}

/// The mathematical values of a run of bound values.
pub open spec fn value_views(values: Seq<SqlValue>) -> Seq<SqlValueView> {
    Seq::new(values.len(), |i: int| values[i]@)
}

impl View for Statement {
    type V = StatementView;

    open spec fn view(&self) -> StatementView {
        StatementView { sql: self.sql@, bindings: value_views(self.bindings@), duty: self.duty }
    }
}

/// The mathematical values of a run of statements.
pub open spec fn statement_views(statements: Seq<Statement>) -> Seq<StatementView> {
    Seq::new(statements.len(), |i: int| statements[i]@)
}

/// The statement that reads every credential.
pub open spec fn select_keys_statement() -> StatementView {
    StatementView {
        sql: "SELECT id, key_hash, client_name, key_type, last_used, created_at, active FROM api_keys"@,
        bindings: Seq::empty(),
        duty: Duty::Required,
    }
}

/// The statement that reads every todo item.
pub open spec fn select_todos_statement() -> StatementView {
    StatementView { sql: "SELECT * FROM todos"@, bindings: Seq::empty(), duty: Duty::Required }
}

/// The statement that writes a new credential. It writes the credential as
/// active and never used, whatever `key` says of that.
pub open spec fn insert_key_statement(key: ApiKeyView) -> StatementView {
    StatementView {
        sql: "INSERT INTO api_keys (id, key_hash, client_name, key_type, created_at, active) VALUES (?1, ?2, ?3, ?4, ?5, 1)"@,
        bindings: seq![
            SqlValueView::Text(key.id),
            SqlValueView::Text(key.key_hash),
            SqlValueView::Text(key.client_name),
            SqlValueView::Text(key_type_text(key.key_type)),
            SqlValueView::Integer(key.created_at),
        ],
        duty: Duty::Required,
    }
}

/// The statement that writes the first administrator credential. It
/// writes nothing where an administrator credential exists already, so that
/// of two first initializations that run at once only one takes effect.
pub open spec fn insert_first_admin_statement(key: ApiKeyView) -> StatementView {
    StatementView {
        sql: "INSERT INTO api_keys (id, key_hash, client_name, key_type, created_at, active) SELECT ?1, ?2, ?3, ?4, ?5, 1 WHERE NOT EXISTS (SELECT 1 FROM api_keys WHERE key_type = 'admin')"@,
        bindings: insert_key_statement(key).bindings,
        duty: Duty::MustChange,
    }
}

/// The statement that records the use of a digest at the time `now`.
pub open spec fn touch_statement(hash: Seq<char>, now: i64) -> StatementView {
    StatementView {
        sql: "UPDATE api_keys SET last_used = ?1 WHERE key_hash = ?2"@,
        bindings: seq![SqlValueView::Integer(now), SqlValueView::Text(hash)],
        duty: Duty::BestEffort,
    }
}

/// The statement that revokes the credential with the identifier `id`.
pub open spec fn revoke_statement(id: Seq<char>) -> StatementView {
    StatementView {
        sql: "UPDATE api_keys SET active = 0 WHERE id = ?1"@,
        bindings: seq![SqlValueView::Text(id)],
        duty: Duty::Required,
    }
}

/// The statement that revokes every administrator credential.
pub open spec fn revoke_admins_statement() -> StatementView {
    StatementView {
        sql: "UPDATE api_keys SET active = 0 WHERE key_type = 'admin'"@,
        bindings: Seq::empty(),
        duty: Duty::Required,
    }
}

/// The statement that revokes the administrator credential with the digest
/// `hash`.
pub open spec fn revoke_admin_hash_statement(hash: Seq<char>) -> StatementView {
    StatementView {
        sql: "UPDATE api_keys SET active = 0 WHERE key_hash = ?1 AND key_type = 'admin'"@,
        bindings: seq![SqlValueView::Text(hash)],
        duty: Duty::Required,
    }
}

/// The bound value of a description: an absent one is bound as an
/// explicit null, never as the empty text.
pub open spec fn description_value(description: Option<Seq<char>>) -> SqlValueView {
    match description {
        Some(text) => SqlValueView::Text(text),
        None => SqlValueView::Null,
    }
}

/// The statement that writes a new todo item. It writes the item as open,
/// whatever `todo` says of that.
pub open spec fn insert_todo_statement(todo: TodoView) -> StatementView {
    StatementView {
        sql: "INSERT INTO todos (id, title, description, completed, priority, due_date, created_at, updated_at) VALUES (?1, ?2, ?3, 0, ?4, ?5, ?6, ?7)"@,
        bindings: seq![
            SqlValueView::Text(todo.id),
            SqlValueView::Text(todo.title),
            description_value(todo.description),
            SqlValueView::Integer(todo.priority as i64),
            timestamp_value(todo.due_date),
            SqlValueView::Integer(todo.created_at),
            SqlValueView::Integer(todo.updated_at),
        ],
        duty: Duty::Required,
    }
}

/// The statement that writes every changeable field of a todo item.
pub open spec fn update_todo_statement(todo: TodoView) -> StatementView {
    StatementView {
        sql: "UPDATE todos SET title = ?1, description = ?2, completed = ?3, priority = ?4, due_date = ?5, updated_at = ?6 WHERE id = ?7"@,
        bindings: seq![
            SqlValueView::Text(todo.title),
            description_value(todo.description),
            SqlValueView::Integer(flag_number(todo.completed) as i64),
            SqlValueView::Integer(todo.priority as i64),
            timestamp_value(todo.due_date),
            SqlValueView::Integer(todo.updated_at),
            SqlValueView::Text(todo.id),
        ],
        duty: Duty::Required,
    }
}

/// The statement that writes the completion of a todo item and the time of
/// the change.
pub open spec fn toggle_todo_statement(todo: TodoView) -> StatementView {
    StatementView {
        sql: "UPDATE todos SET completed = ?1, updated_at = ?2 WHERE id = ?3"@,
        bindings: seq![
            SqlValueView::Integer(flag_number(todo.completed) as i64),
            SqlValueView::Integer(todo.updated_at),
            SqlValueView::Text(todo.id),
        ],
        duty: Duty::Required,
    }
}

/// The statement that deletes the todo item with the identifier `id`.
pub open spec fn delete_todo_statement(id: Seq<char>) -> StatementView {
    StatementView {
        sql: "DELETE FROM todos WHERE id = ?1"@,
        bindings: seq![SqlValueView::Text(id)],
        duty: Duty::Required,
    }
}

/// Binds a text.
pub fn text_value(text: &str) -> (v: SqlValue)
    ensures
        v@ == SqlValueView::Text(text@),
{
    SqlValue::Text(String::from_str(text))
}

/// Binds a description: an absent one is bound as an explicit null.
pub fn encode_description(description: &Option<String>) -> (v: SqlValue)
    ensures
        v@ == description_value(crate::models::opt_text(*description)),
{
    match description {
        Some(text) => SqlValue::Text(text.clone()),
        None => SqlValue::Null,
    }
}

/// Binds a flag as 0 or 1.
pub fn flag_value(flag: bool) -> (v: SqlValue)
    ensures
        v@ == SqlValueView::Integer(flag_number(flag) as i64),
{
    let n: i32 = encode_flag(flag);
    SqlValue::Integer(n as i64)
}

impl Statement {
    /// The statement that reads every credential.
    pub fn select_keys() -> (statement: Statement)
        ensures
            statement@ == select_keys_statement(),
    {
        let statement = Statement {
            sql: String::from_str(
                "SELECT id, key_hash, client_name, key_type, last_used, created_at, active FROM api_keys",
            ),
            bindings: Vec::new(),
            duty: Duty::Required,
        };
        assert(statement@.bindings =~= Seq::empty());
        statement
    }

    /// The statement that reads every todo item.
    pub fn select_todos() -> (statement: Statement)
        ensures
            statement@ == select_todos_statement(),
    {
        let statement = Statement {
            sql: String::from_str("SELECT * FROM todos"),
            bindings: Vec::new(),
            duty: Duty::Required,
        };
        assert(statement@.bindings =~= Seq::empty());
        statement
    }

    /// The statement that writes a new credential.
    pub fn insert_key(key: &ApiKey) -> (statement: Statement)
        ensures
            statement@ == insert_key_statement(key@),
    {
        let mut bindings: Vec<SqlValue> = Vec::new();
        bindings.push(text_value(key.id.as_str()));
        bindings.push(text_value(key.key_hash.as_str()));
        bindings.push(text_value(key.client_name.as_str()));
        bindings.push(SqlValue::Text(encode_key_type(key.key_type)));
        bindings.push(SqlValue::Integer(key.created_at));
        let statement = Statement {
            sql: String::from_str(
                "INSERT INTO api_keys (id, key_hash, client_name, key_type, created_at, active) VALUES (?1, ?2, ?3, ?4, ?5, 1)",
            ),
            bindings,
            duty: Duty::Required,
        };
        assert(statement@.bindings =~= insert_key_statement(key@).bindings);
        statement
    }

    /// The statement that writes the first administrator credential.
    pub fn insert_first_admin(key: &ApiKey) -> (statement: Statement)
        ensures
            statement@ == insert_first_admin_statement(key@),
    {
        let plain = Statement::insert_key(key);
        Statement {
            sql: String::from_str(
                "INSERT INTO api_keys (id, key_hash, client_name, key_type, created_at, active) SELECT ?1, ?2, ?3, ?4, ?5, 1 WHERE NOT EXISTS (SELECT 1 FROM api_keys WHERE key_type = 'admin')",
            ),
            bindings: plain.bindings,
            duty: Duty::MustChange,
        }
    }

    /// The statement that records the use of a digest at the time `now`.
    pub fn touch(hash: &str, now: i64) -> (statement: Statement)
        ensures
            statement@ == touch_statement(hash@, now),
    {
        let mut bindings: Vec<SqlValue> = Vec::new();
        bindings.push(SqlValue::Integer(now));
        bindings.push(text_value(hash));
        let statement = Statement {
            sql: String::from_str("UPDATE api_keys SET last_used = ?1 WHERE key_hash = ?2"),
            bindings,
            duty: Duty::BestEffort,
        };
        assert(statement@.bindings =~= touch_statement(hash@, now).bindings);
        statement
    }

    /// The statement that revokes the credential with the identifier `id`.
    pub fn revoke(id: &str) -> (statement: Statement)
        ensures
            statement@ == revoke_statement(id@),
    {
        let mut bindings: Vec<SqlValue> = Vec::new();
        bindings.push(text_value(id));
        let statement = Statement {
            sql: String::from_str("UPDATE api_keys SET active = 0 WHERE id = ?1"),
            bindings,
            duty: Duty::Required,
        };
        assert(statement@.bindings =~= revoke_statement(id@).bindings);
        statement
    }

    /// The statement that revokes every administrator credential.
    pub fn revoke_admins() -> (statement: Statement)
        ensures
            statement@ == revoke_admins_statement(),
    {
        let statement = Statement {
            sql: String::from_str("UPDATE api_keys SET active = 0 WHERE key_type = 'admin'"),
            bindings: Vec::new(),
            duty: Duty::Required,
        };
        assert(statement@.bindings =~= Seq::empty());
        statement
    }

    /// The statement that revokes the administrator credential with the
    /// digest `hash`.
    pub fn revoke_admin_hash(hash: &str) -> (statement: Statement)
        ensures
            statement@ == revoke_admin_hash_statement(hash@),
    {
        let mut bindings: Vec<SqlValue> = Vec::new();
        bindings.push(text_value(hash));
        let statement = Statement {
            sql: String::from_str(
                "UPDATE api_keys SET active = 0 WHERE key_hash = ?1 AND key_type = 'admin'",
            ),
            bindings,
            duty: Duty::Required,
        };
        assert(statement@.bindings =~= revoke_admin_hash_statement(hash@).bindings);
        statement
    }

    /// The statement that writes a new todo item.
    pub fn insert_todo(todo: &Todo) -> (statement: Statement)
        ensures
            statement@ == insert_todo_statement(todo@),
    {
        let mut bindings: Vec<SqlValue> = Vec::new();
        bindings.push(text_value(todo.id.as_str()));
        bindings.push(text_value(todo.title.as_str()));
        bindings.push(encode_description(&todo.description));
        bindings.push(SqlValue::Integer(todo.priority as i64));
        bindings.push(encode_timestamp(todo.due_date));
        bindings.push(SqlValue::Integer(todo.created_at));
        bindings.push(SqlValue::Integer(todo.updated_at));
        let statement = Statement {
            sql: String::from_str(
                "INSERT INTO todos (id, title, description, completed, priority, due_date, created_at, updated_at) VALUES (?1, ?2, ?3, 0, ?4, ?5, ?6, ?7)",
            ),
            bindings,
            duty: Duty::Required,
        };
        assert(statement@.bindings =~= insert_todo_statement(todo@).bindings);
        statement
    }

    /// The statement that writes every changeable field of a todo item.
    pub fn update_todo(todo: &Todo) -> (statement: Statement)
        ensures
            statement@ == update_todo_statement(todo@),
    {
        let mut bindings: Vec<SqlValue> = Vec::new();
        bindings.push(text_value(todo.title.as_str()));
        bindings.push(encode_description(&todo.description));
        bindings.push(flag_value(todo.completed));
        bindings.push(SqlValue::Integer(todo.priority as i64));
        bindings.push(encode_timestamp(todo.due_date));
        bindings.push(SqlValue::Integer(todo.updated_at));
        bindings.push(text_value(todo.id.as_str()));
        let statement = Statement {
            sql: String::from_str(
                "UPDATE todos SET title = ?1, description = ?2, completed = ?3, priority = ?4, due_date = ?5, updated_at = ?6 WHERE id = ?7",
            ),
            bindings,
            duty: Duty::Required,
        };
        assert(statement@.bindings =~= update_todo_statement(todo@).bindings);
        statement
    }

    /// The statement that writes the completion of a todo item and the time
    /// of the change.
    pub fn toggle_todo(todo: &Todo) -> (statement: Statement)
        ensures
            statement@ == toggle_todo_statement(todo@),
    {
        let mut bindings: Vec<SqlValue> = Vec::new();
        bindings.push(flag_value(todo.completed));
        bindings.push(SqlValue::Integer(todo.updated_at));
        bindings.push(text_value(todo.id.as_str()));
        let statement = Statement {
            sql: String::from_str("UPDATE todos SET completed = ?1, updated_at = ?2 WHERE id = ?3"),
            bindings,
            duty: Duty::Required,
        };
        assert(statement@.bindings =~= toggle_todo_statement(todo@).bindings);
        statement
    }

    /// The statement that deletes the todo item with the identifier `id`.
    pub fn delete_todo(id: &str) -> (statement: Statement)
        ensures
            statement@ == delete_todo_statement(id@),
    {
        let mut bindings: Vec<SqlValue> = Vec::new();
        bindings.push(text_value(id));
        let statement = Statement {
            sql: String::from_str("DELETE FROM todos WHERE id = ?1"),
            bindings,
            duty: Duty::Required,
        };
        assert(statement@.bindings =~= delete_todo_statement(id@).bindings);
        statement
    }
}

} // verus!
