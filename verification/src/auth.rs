//! The validation service: who a presented secret belongs to.

use vstd::prelude::*;
use vstd::string::*;
use crate::db::{Env, EnvView};
use crate::keys::{hash_api_key, key_digest};
use crate::models::{ApiKey, ApiKeyView, KeyType};
use crate::store::{lookup, validated};

verus! {

/// The identity that a request acts under once its secret was accepted.
#[derive(Debug, PartialEq, Eq)]
pub struct AuthContext {
    pub key_type: KeyType,
    pub client_name: String,
}

/// The mathematical value of an identity.
pub struct AuthContextView {
    pub key_type: KeyType,
    pub client_name: Seq<char>,
}

impl View for AuthContext {
    type V = AuthContextView;

    open spec fn view(&self) -> AuthContextView {
        AuthContextView { key_type: self.key_type, client_name: self.client_name@ }
    }
}

impl Clone for AuthContext {
    fn clone(&self) -> (copy: Self)
        ensures
            copy == *self,
            copy@ == self@,
    {
        AuthContext { key_type: self.key_type, client_name: self.client_name.clone() }
    }
}

/// Why a request was not let through.
#[derive(Clone, Copy, Debug, PartialEq, Eq, Structural)]
pub enum AuthError {
    /// No store is configured, so nothing can be checked.
    StoreUnavailable,
    /// No secret was presented.
    Missing,
    /// The secret belongs to no active credential. A revoked credential and
    /// one that never existed are not told apart.
    Invalid,
    /// The request reached a reserved operation without an identity.
    Unauthenticated,
    /// The secret was accepted, but its role does not reach far enough.
    Forbidden,
}

/// The status code that reports the refusal.
pub open spec fn auth_status(e: AuthError) -> u16 {
    match e {
        AuthError::StoreUnavailable => 500,
        AuthError::Missing => 401,
        AuthError::Invalid => 401,
        AuthError::Unauthenticated => 401,
        AuthError::Forbidden => 403,
    }
}

/// The text that reports the refusal.
pub open spec fn auth_text(e: AuthError) -> Seq<char> {
    match e {
        AuthError::StoreUnavailable => "Database not configured"@,
        AuthError::Missing => "Missing API key"@,
        AuthError::Invalid => "Invalid API key"@,
        AuthError::Unauthenticated => "Authentication required"@,
        AuthError::Forbidden => "Admin access required"@,
    }
}

impl AuthError {
    /// The status code that reports this refusal.
    pub fn status(&self) -> (code: u16)
        ensures
            code == auth_status(*self),
    {
        match self {
            AuthError::StoreUnavailable => 500,
            AuthError::Missing => 401,
            AuthError::Invalid => 401,
            AuthError::Unauthenticated => 401,
            AuthError::Forbidden => 403,
        }
    }

    /// The text that reports this refusal.
    pub fn message(&self) -> (text: String)
        ensures
            text@ == auth_text(*self),
    {
        match self {
            AuthError::StoreUnavailable => String::from_str("Database not configured"),
            AuthError::Missing => String::from_str("Missing API key"),
            AuthError::Invalid => String::from_str("Invalid API key"),
            AuthError::Unauthenticated => String::from_str("Authentication required"),
            AuthError::Forbidden => String::from_str("Admin access required"),
        }
    }
}

/// The identity that a credential stands for.
pub open spec fn identity_of(key: ApiKeyView) -> AuthContextView {
    AuthContextView { key_type: key.key_type, client_name: key.client_name }
}

/// The mathematical value of a presented secret, if one was presented.
pub open spec fn presented_text(presented: Option<&str>) -> Option<Seq<char>> {
    match presented {
        Some(secret) => Some(secret@),
        None => None,
    }
}

/// The mathematical value of an optional identity.
pub open spec fn opt_identity(auth: Option<AuthContext>) -> Option<AuthContextView> {
    match auth {
        Some(who) => Some(who@),
        None => None,
    }
}

/// The mathematical value of the answer of a validation.
pub open spec fn auth_view(res: Result<AuthContext, AuthError>) -> Result<
    AuthContextView,
    AuthError,
> {
    match res {
        Ok(who) => Ok(who@),
        Err(e) => Err(e),
    }
}

/// Whom a presented secret resolves to in a credential table: the identity
/// of the active credential that is stored under the digest of the secret.
pub open spec fn resolve(keys: Seq<ApiKeyView>, secret: Seq<char>) -> Option<AuthContextView> {
    match lookup(keys, key_digest(secret)) {
        Some(key) => Some(identity_of(key)),
        None => None,
    }
}

/// The answer of a validation: a missing store is reported first, then a
/// missing secret, then a secret that no active credential has.
pub open spec fn auth_outcome(env: EnvView, presented: Option<Seq<char>>) -> Result<
    AuthContextView,
    AuthError,
> {
    match env.db {
        None => Err(AuthError::StoreUnavailable),
        Some(store) => match presented {
            None => Err(AuthError::Missing),
            Some(secret) => match resolve(store.keys, secret) {
                Some(who) => Ok(who),
                None => Err(AuthError::Invalid),
            },
        },
    }
}

/// The identity that a validation found, if it found one.
pub open spec fn found(outcome: Result<AuthContextView, AuthError>) -> Option<AuthContextView> {
    match outcome {
        Ok(who) => Some(who),
        Err(_) => None,
    }
}

/// The environment after a validation at the time `now`: the use of an
/// accepted secret is recorded in the store, and the identity that was
/// found, or that none was, is noted for what follows.
pub open spec fn auth_effect(env: EnvView, presented: Option<Seq<char>>, now: i64) -> EnvView {
    EnvView {
        db: match env.db {
            Some(store) => match presented {
                Some(secret) => Some(validated(store, key_digest(secret), now)),
                None => env.db,
            },
            None => env.db,
        },
        seen: found(auth_outcome(env, presented)),
    }
}

/// Whether `after` and `who` are what a validation of `presented` leaves
/// and answers in the environment `before`, at some
/// moment.
pub open spec fn gate(
    before: EnvView,
    presented: Option<Seq<char>>,
    after: EnvView,
    who: Result<AuthContextView, AuthError>,
) -> bool {
    &&& who == auth_outcome(before, presented)
    &&& exists|now: i64| after == #[trigger] auth_effect(before, presented, now)
}

/// The identity that a credential stands for.
pub fn identity(key: &ApiKey) -> (who: AuthContext)
    ensures
        who@ == identity_of(key@),
{
    AuthContext { key_type: key.key_type, client_name: key.client_name.clone() }
}

/// Whether the identity has the administrator role.
pub fn is_admin(auth: &AuthContext) -> (admin: bool)
    ensures
        admin == (auth.key_type == KeyType::Admin),
{
    auth.key_type == KeyType::Admin
}

/// Validates a presented secret at the time `now`. The secret is hashed and
/// looked up among the active credentials; where it is accepted, its use is
/// recorded.
pub fn authenticate_at(env: &mut Env, presented: Option<&str>, now: i64) -> (res: Result<
    AuthContext,
    AuthError,
>)
    requires
        old(env).wf(),
    ensures
        final(env).wf(),
        auth_view(res) == auth_outcome(old(env)@, presented_text(presented)),
        final(env)@ == auth_effect(old(env)@, presented_text(presented), now),
{
    let res = match &mut env.db {
        None => Err(AuthError::StoreUnavailable),
        Some(db) => match presented {
            None => Err(AuthError::Missing),
            Some(secret) => {
                let key_hash = hash_api_key(secret);
                match db.validate_api_key_at(key_hash.as_str(), now) {
                    Some(key) => Ok(identity(&key)),
                    None => Err(AuthError::Invalid),
                }
            },
        },
    };
    env.seen = match &res {
        Ok(who) => Some(who.clone()),
        Err(_) => None,
    };
    res
}

/// Validates a presented secret now. See [`authenticate_at`].
pub fn auth_middleware(env: &mut Env, presented: Option<&str>) -> (res: Result<
    AuthContext,
    AuthError,
>)
    requires
        old(env).wf(),
    ensures
        final(env).wf(),
        auth_view(res) == auth_outcome(old(env)@, presented_text(presented)),
        gate(old(env)@, presented_text(presented), final(env)@, auth_view(res)),
{
    let now = crate::db::current_timestamp();
    let res = authenticate_at(env, presented, now);
    assert(env@ == auth_effect(old(env)@, presented_text(presented), now));
    res
}

/// Lets a validated request through to an operation that is reserved to
/// administrators: a request without an identity is sent back as not
/// authenticated, one with a lesser role as forbidden.
pub fn admin_only_middleware(auth: Option<&AuthContext>) -> (res: Result<(), AuthError>)
    ensures
        res == match auth {
            None => Err::<(), AuthError>(AuthError::Unauthenticated),
            Some(who) => if who.key_type == KeyType::Admin {
                Ok::<(), AuthError>(())
            } else {
                Err::<(), AuthError>(AuthError::Forbidden)
            },
        },
{
    match auth {
        None => Err(AuthError::Unauthenticated),
        Some(who) => if is_admin(who) {
            Ok(())
        } else {
            Err(AuthError::Forbidden)
        },
    }
}

/// Validates the secret of a request and answers with the identity, or with
/// nothing where the request is not let through, whatever the reason.
pub fn validate_api_key_from_request(env: &mut Env, presented: Option<&str>) -> (auth: Option<
    AuthContext,
>)
    requires
        old(env).wf(),
    ensures
        final(env).wf(),
        gate(
            old(env)@,
            presented_text(presented),
            final(env)@,
            auth_outcome(old(env)@, presented_text(presented)),
        ),
        opt_identity(auth) == found(auth_outcome(old(env)@, presented_text(presented))),
{
    auth_middleware(env, presented).ok()
}

} // verus!
