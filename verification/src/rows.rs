//! The store adapter: how logical records are written to and read from a
//! backend that has no boolean columns and binds absent values unreliably.
//! Flags travel as the integers 0 and 1, an absent timestamp as an explicit
//! null, and roles as lowercase words.

use vstd::prelude::*;
use vstd::std_specs::convert::FromSpecImpl;
use vstd::string::*;
use crate::keys::same_text;
use crate::models::{clone_opt_text, opt_text, ApiKey, ApiKeyView, KeyType, Todo, TodoView};

verus! {

/// A value as it is bound to a statement or read from a column.
#[derive(Debug, PartialEq, Eq)]
pub enum SqlValue {
    Null,
    Integer(i64),
    Text(String),
}

/// The mathematical value of a bound value.
pub enum SqlValueView {
    Null,
    Integer(i64),
    Text(Seq<char>),
}

impl View for SqlValue {
    type V = SqlValueView;

    open spec fn view(&self) -> SqlValueView {
        match self {
            SqlValue::Null => SqlValueView::Null,
            SqlValue::Integer(n) => SqlValueView::Integer(*n),
            SqlValue::Text(s) => SqlValueView::Text(s@),
        }
    }
}

/// The integer that stands for a flag: 1 for set, 0 for cleared.
pub open spec fn flag_number(flag: bool) -> i32 {
    if flag {
        1i32
    } else {
        0i32
    }
}

/// The flag that a stored integer stands for: any non-zero value is set.
pub open spec fn number_flag(n: i32) -> bool {
    n != 0
}

/// The bound value of an optional timestamp: absent is null, never zero.
pub open spec fn timestamp_value(t: Option<i64>) -> SqlValueView {
    match t {
        Some(at) => SqlValueView::Integer(at),
        None => SqlValueView::Null,
    }
}

/// The optional timestamp that a column value stands for, where it stands
/// for one: a text does not.
pub open spec fn value_timestamp(v: SqlValueView) -> Option<Option<i64>> {
    match v {
        SqlValueView::Null => Some(None),
        SqlValueView::Integer(at) => Some(Some(at)),
        SqlValueView::Text(_) => None,
    }
}

/// The word under which a role is stored.
pub open spec fn key_type_text(key_type: KeyType) -> Seq<char> {
    match key_type {
        KeyType::Admin => "admin"@,
        KeyType::Client => "client"@,
    }
}

/// The lowercase form of a text, as the Unicode rules of the standard
/// library define it.
pub uninterp spec fn lowercase_of(text: Seq<char>) -> Seq<char>;

/// The role that a text in its lowercase form names: `admin` is the
/// administrator, anything else a client.
pub open spec fn lowercase_key_type(lower: Seq<char>) -> KeyType {
    if lower == "admin"@ {
        KeyType::Admin
    } else {
        KeyType::Client
    }
}

/// The role that a stored word names. The two words that the adapter
/// itself writes are read as they stand; any other spelling is read by its
/// lowercase form.
pub open spec fn text_key_type(text: Seq<char>) -> KeyType {
    if text == "admin"@ {
        KeyType::Admin
    } else if text == "client"@ {
        KeyType::Client
    } else {
        lowercase_key_type(lowercase_of(text))
    }
}

/// `str::to_lowercase`. Its result depends on the text alone; the contract
/// gives it a name and claims nothing else of it.
#[verifier::external_body]
fn to_lowercase(text: &str) -> (lower: String)
    ensures
        lower@ == lowercase_of(text@),
{
    text.to_lowercase()
}

/// Encodes a flag as an integer.
pub fn encode_flag(flag: bool) -> (n: i32)
    ensures
        n == flag_number(flag),
        number_flag(n) == flag,
{
    if flag {
        1
    } else {
        0
    }
}

/// Decodes a stored integer as a flag.
pub fn decode_flag(n: i32) -> (flag: bool)
    ensures
        flag == number_flag(n),
{
    n != 0
}

/// Encodes an optional timestamp as a bound value.
pub fn encode_timestamp(t: Option<i64>) -> (v: SqlValue)
    ensures
        v@ == timestamp_value(t),
        value_timestamp(v@) == Some(t),
{
    match t {
        Some(at) => SqlValue::Integer(at),
        None => SqlValue::Null,
    }
}

/// Decodes a column value as an optional timestamp; a text is no timestamp.
pub fn decode_timestamp(v: &SqlValue) -> (t: Option<Option<i64>>)
    ensures
        t == value_timestamp(v@),
{
    match v {
        SqlValue::Null => Some(None),
        SqlValue::Integer(at) => Some(Some(*at)),
        SqlValue::Text(_) => None,
    }
}

/// Encodes a role as the word under which it is stored.
pub fn encode_key_type(key_type: KeyType) -> (text: String)
    ensures
        text@ == key_type_text(key_type),
{
    match key_type {
        KeyType::Admin => String::from_str("admin"),
        KeyType::Client => String::from_str("client"),
    }
}

/// Reads the role that a text in its lowercase form names.
pub fn key_type_from_lowercase(lower: &str) -> (key_type: KeyType)
    ensures
        key_type == lowercase_key_type(lower@),
{
    if same_text(lower, "admin") {
        KeyType::Admin
    } else {
        KeyType::Client
    }
}

/// Decodes a stored word as a role, whatever its letter case.
pub fn decode_key_type(text: &str) -> (key_type: KeyType)
    ensures
        key_type == text_key_type(text@),
{
    if same_text(text, "admin") {
        KeyType::Admin
    } else if same_text(text, "client") {
        KeyType::Client
    } else {
        let lower = to_lowercase(text);
        key_type_from_lowercase(lower.as_str())
    }
}

/// A credential as the backend returns it.
#[derive(Debug, PartialEq, Eq)]
pub struct ApiKeyRow {
    pub id: String,
    pub key_hash: String,
    pub client_name: String,
    pub key_type: String,
    pub last_used: Option<i64>,
    pub created_at: i64,
    pub active: i32,
}

/// The credential that a row stands for.
pub open spec fn row_key(row: ApiKeyRow) -> ApiKeyView {
    ApiKeyView {
        id: row.id@,
        key_hash: row.key_hash@,
        client_name: row.client_name@,
        key_type: text_key_type(row.key_type@),
        last_used: row.last_used,
        created_at: row.created_at,
        active: number_flag(row.active),
    }
}

impl From<ApiKeyRow> for ApiKey {
    fn from(row: ApiKeyRow) -> (key: ApiKey) {
        let key_type = decode_key_type(row.key_type.as_str());
        ApiKey {
            id: row.id,
            key_hash: row.key_hash,
            client_name: row.client_name,
            key_type,
            last_used: row.last_used,
            created_at: row.created_at,
            active: decode_flag(row.active),
        }
    }
}

impl FromSpecImpl<ApiKeyRow> for ApiKey {
    open spec fn obeys_from_spec() -> bool {
        true
    }

    open spec fn from_spec(row: ApiKeyRow) -> ApiKey {
        ApiKey {
            id: row.id,
            key_hash: row.key_hash,
            client_name: row.client_name,
            key_type: text_key_type(row.key_type@),
            last_used: row.last_used,
            created_at: row.created_at,
            active: number_flag(row.active),
        }
    }
}

impl ApiKeyRow {
    /// Whether this is the row under which the credential `key` is stored.
    pub open spec fn is_row_of(&self, key: ApiKeyView) -> bool {
        &&& self.id@ == key.id
        &&& self.key_hash@ == key.key_hash
        &&& self.client_name@ == key.client_name
        &&& self.key_type@ == key_type_text(key.key_type)
        &&& self.last_used == key.last_used
        &&& self.created_at == key.created_at
        &&& self.active == flag_number(key.active)
    }

    /// The row under which a credential is stored.
    pub fn encode(key: &ApiKey) -> (row: ApiKeyRow)
        ensures
            row.is_row_of(key@),
    {
        ApiKeyRow {
            id: key.id.clone(),
            key_hash: key.key_hash.clone(),
            client_name: key.client_name.clone(),
            key_type: encode_key_type(key.key_type),
            last_used: key.last_used,
            created_at: key.created_at,
            active: encode_flag(key.active),
        }
    }
}

/// A todo item as the backend returns it.
#[derive(Debug, PartialEq, Eq)]
pub struct TodoRow {
    pub id: String,
    pub title: String,
    pub description: Option<String>,
    pub completed: i32,
    pub priority: i32,
    pub due_date: Option<i64>,
    pub created_at: i64,
    pub updated_at: i64,
}

/// The todo item that a row stands for.
pub open spec fn row_todo(row: TodoRow) -> TodoView {
    TodoView {
        id: row.id@,
        title: row.title@,
        description: opt_text(row.description),
        completed: number_flag(row.completed),
        priority: row.priority,
        due_date: row.due_date,
        created_at: row.created_at,
        updated_at: row.updated_at,
    }
}

impl From<TodoRow> for Todo {
    fn from(row: TodoRow) -> (todo: Todo) {
        Todo {
            id: row.id,
            title: row.title,
            description: row.description,
            completed: decode_flag(row.completed),
            priority: row.priority,
            due_date: row.due_date,
            created_at: row.created_at,
            updated_at: row.updated_at,
        }
    }
}

impl FromSpecImpl<TodoRow> for Todo {
    open spec fn obeys_from_spec() -> bool {
        true
    }

    open spec fn from_spec(row: TodoRow) -> Todo {
        Todo {
            id: row.id,
            title: row.title,
            description: row.description,
            completed: number_flag(row.completed),
            priority: row.priority,
            due_date: row.due_date,
            created_at: row.created_at,
            updated_at: row.updated_at,
        }
    }
}

impl TodoRow {
    /// Whether this is the row under which the todo item `todo` is stored.
    pub open spec fn is_row_of(&self, todo: TodoView) -> bool {
        &&& self.id@ == todo.id
        &&& self.title@ == todo.title
        &&& opt_text(self.description) == todo.description
        &&& self.completed == flag_number(todo.completed)
        &&& self.priority == todo.priority
        &&& self.due_date == todo.due_date
        &&& self.created_at == todo.created_at
        &&& self.updated_at == todo.updated_at
    }

    /// The row under which a todo item is stored.
    pub fn encode(todo: &Todo) -> (row: TodoRow)
        ensures
            row.is_row_of(todo@),
    {
        TodoRow {
            id: todo.id.clone(),
            title: todo.title.clone(),
            description: clone_opt_text(&todo.description),
            completed: encode_flag(todo.completed),
            priority: todo.priority,
            due_date: todo.due_date,
            created_at: todo.created_at,
            updated_at: todo.updated_at,
        }
    }
}

} // verus!
