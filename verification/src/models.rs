//! The logical data model: credentials, todo items and the messages that
//! travel between a caller and the service.

use vstd::prelude::*;

verus! {

/// Authorization tier of a credential.
#[derive(Clone, Copy, Debug, PartialEq, Eq, Structural)]
pub enum KeyType {
    Admin,
    Client,
}

/// The mathematical value of an optional text.
pub open spec fn opt_text(text: Option<String>) -> Option<Seq<char>> {
    match text {
        Some(s) => Some(s@),
        None => None,
    }
}

/// Copies an optional text.
pub fn clone_opt_text(text: &Option<String>) -> (copy: Option<String>)
    ensures
        copy == *text,
        opt_text(copy) == opt_text(*text),
{
    match text {
        Some(s) => Some(s.clone()),
        None => None,
    }
}

/// A stored credential. The secret itself is never kept, only its digest.
#[derive(Debug, PartialEq, Eq)]
pub struct ApiKey {
    pub id: String,
    pub key_hash: String,
    pub client_name: String,
    pub key_type: KeyType,
    pub last_used: Option<i64>,
    pub created_at: i64,
    pub active: bool,
}

/// The mathematical value of a credential.
pub struct ApiKeyView {
    pub id: Seq<char>,
    pub key_hash: Seq<char>,
    pub client_name: Seq<char>,
    pub key_type: KeyType,
    pub last_used: Option<i64>,
    pub created_at: i64,
    pub active: bool,
}

impl View for ApiKey {
    type V = ApiKeyView;

    open spec fn view(&self) -> ApiKeyView {
        ApiKeyView {
            id: self.id@,
            key_hash: self.key_hash@,
            client_name: self.client_name@,
            key_type: self.key_type,
            last_used: self.last_used,
            created_at: self.created_at,
            active: self.active,
        }
    }
}

impl Clone for ApiKey {
    fn clone(&self) -> (copy: Self)
        ensures
            copy == *self,
            copy@ == self@,
    {
        ApiKey {
            id: self.id.clone(),
            key_hash: self.key_hash.clone(),
            client_name: self.client_name.clone(),
            key_type: self.key_type,
            last_used: self.last_used,
            created_at: self.created_at,
            active: self.active,
        }
    }
}

/// A credential as shown in listings: everything but the digest.
#[derive(Debug, PartialEq, Eq)]
pub struct ApiKeyInfo {
    pub id: String,
    pub client_name: String,
    pub key_type: KeyType,
    pub last_used: Option<i64>,
    pub created_at: i64,
    pub active: bool,
}

/// The mathematical value of a listing entry.
pub struct ApiKeyInfoView {
    pub id: Seq<char>,
    pub client_name: Seq<char>,
    pub key_type: KeyType,
    pub last_used: Option<i64>,
    pub created_at: i64,
    pub active: bool,
}

impl View for ApiKeyInfo {
    type V = ApiKeyInfoView;

    open spec fn view(&self) -> ApiKeyInfoView {
        ApiKeyInfoView {
            id: self.id@,
            client_name: self.client_name@,
            key_type: self.key_type,
            last_used: self.last_used,
            created_at: self.created_at,
            active: self.active,
        }
    }
}

/// What a listing shows of the credential `key`.
pub open spec fn info_of(key: ApiKeyView) -> ApiKeyInfoView {
    ApiKeyInfoView {
        id: key.id,
        client_name: key.client_name,
        key_type: key.key_type,
        last_used: key.last_used,
        created_at: key.created_at,
        active: key.active,
    }
}

impl ApiKey {
    /// The listing entry of this credential, with the digest left out.
    pub fn info(&self) -> (info: ApiKeyInfo)
        ensures
            info@ == info_of(self@),
    {
        ApiKeyInfo {
            id: self.id.clone(),
            client_name: self.client_name.clone(),
            key_type: self.key_type,
            last_used: self.last_used,
            created_at: self.created_at,
            active: self.active,
        }
    }
}

/// The answer to a successful issuance: the only place where the plaintext
/// secret ever appears.
#[derive(Debug, PartialEq, Eq)]
pub struct ApiKeyResponse {
    pub id: String,
    pub client_name: String,
    pub key_type: KeyType,
    pub api_key: String,
    pub created_at: i64,
}

/// The mathematical value of an issuance answer.
pub struct ApiKeyResponseView {
    pub id: Seq<char>,
    pub client_name: Seq<char>,
    pub key_type: KeyType,
    pub api_key: Seq<char>,
    pub created_at: i64,
}

impl View for ApiKeyResponse {
    type V = ApiKeyResponseView;

    open spec fn view(&self) -> ApiKeyResponseView {
        ApiKeyResponseView {
            id: self.id@,
            client_name: self.client_name@,
            key_type: self.key_type,
            api_key: self.api_key@,
            created_at: self.created_at,
        }
    }
}

/// Body of an issuance request.
#[derive(Debug, PartialEq, Eq)]
pub struct CreateApiKeyRequest {
    pub client_name: String,
    pub key_type: KeyType,
}

/// A todo item.
#[derive(Debug, PartialEq, Eq)]
pub struct Todo {
    pub id: String,
    pub title: String,
    pub description: Option<String>,
    pub completed: bool,
    pub priority: i32,
    pub due_date: Option<i64>,
    pub created_at: i64,
    pub updated_at: i64,
}

/// The mathematical value of a todo item.
pub struct TodoView {
    pub id: Seq<char>,
    pub title: Seq<char>,
    pub description: Option<Seq<char>>,
    pub completed: bool,
    pub priority: i32,
    pub due_date: Option<i64>,
    pub created_at: i64,
    pub updated_at: i64,
}

impl View for Todo {
    type V = TodoView;

    open spec fn view(&self) -> TodoView {
        TodoView {
            id: self.id@,
            title: self.title@,
            description: opt_text(self.description),
            completed: self.completed,
            priority: self.priority,
            due_date: self.due_date,
            created_at: self.created_at,
            updated_at: self.updated_at,
        }
    }
}

impl Clone for Todo {
    fn clone(&self) -> (copy: Self)
        ensures
            copy == *self,
            copy@ == self@,
    {
        Todo {
            id: self.id.clone(),
            title: self.title.clone(),
            description: clone_opt_text(&self.description),
            completed: self.completed,
            priority: self.priority,
            due_date: self.due_date,
            created_at: self.created_at,
            updated_at: self.updated_at,
        }
    }
}

/// Body of a request that creates a todo item.
#[derive(Debug, PartialEq, Eq)]
pub struct CreateTodoRequest {
    pub title: String,
    pub description: Option<String>,
    pub priority: Option<i32>,
    pub due_date: Option<i64>,
}

/// The mathematical value of a creation request.
pub struct CreateTodoRequestView {
    pub title: Seq<char>,
    pub description: Option<Seq<char>>,
    pub priority: Option<i32>,
    pub due_date: Option<i64>,
}

impl View for CreateTodoRequest {
    type V = CreateTodoRequestView;

    open spec fn view(&self) -> CreateTodoRequestView {
        CreateTodoRequestView {
            title: self.title@,
            description: opt_text(self.description),
            priority: self.priority,
            due_date: self.due_date,
        }
    }
}

/// Body of a request that changes a todo item. A field that is absent
/// leaves the stored value as it is.
#[derive(Debug, PartialEq, Eq)]
pub struct UpdateTodoRequest {
    pub title: Option<String>,
    pub description: Option<String>,
    pub completed: Option<bool>,
    pub priority: Option<i32>,
    pub due_date: Option<i64>,
}

/// The mathematical value of a change request.
pub struct UpdateTodoRequestView {
    pub title: Option<Seq<char>>,
    pub description: Option<Seq<char>>,
    pub completed: Option<bool>,
    pub priority: Option<i32>,
    pub due_date: Option<i64>,
}

impl View for UpdateTodoRequest {
    type V = UpdateTodoRequestView;

    open spec fn view(&self) -> UpdateTodoRequestView {
        UpdateTodoRequestView {
            title: opt_text(self.title),
            description: opt_text(self.description),
            completed: self.completed,
            priority: self.priority,
            due_date: self.due_date,
        }
    }
}

/// Answer to a request that resolves an identifier prefix.
#[derive(Debug, PartialEq, Eq)]
pub struct IdResolutionResponse {
    pub full_id: String,
}

/// The uniform envelope of every answer: either `data` or `error` is set.
#[derive(Debug, PartialEq, Eq)]
pub struct ApiResponse<T> {
    pub success: bool,
    pub data: Option<T>,
    pub error: Option<String>,
}

impl<T> ApiResponse<T> {
    /// Whether this envelope reports a failure with the text `message`.
    pub open spec fn is_error(&self, message: Seq<char>) -> bool {
        &&& !self.success
        &&& self.data is None
        &&& opt_text(self.error) == Some(message)
    }

    /// Whether this envelope carries a result and no error text.
    pub open spec fn is_success(&self) -> bool {
        &&& self.success
        &&& self.data is Some
        &&& self.error is None
    }

    /// The envelope of a successful answer.
    pub fn success(data: T) -> (response: Self)
        ensures
            response.is_success(),
            response.data == Some(data),
    {
        ApiResponse { success: true, data: Some(data), error: None }
    }

    /// The envelope of a failure.
    pub fn error(message: String) -> (response: Self)
        ensures
            response.is_error(message@),
            response.error == Some(message),
    {
        ApiResponse { success: false, data: None, error: Some(message) }
    }
}

} // verus!
