//! The identity service's side of login and token validation, as steps from
//! a state and what the last outside call returned to the next state and the
//! next call to make. Whoever runs the steps makes the calls.
use vstd::prelude::*;
use crate::dto::{GetAllUsersResponse, LoginResponse, UserProfile, ValidateTokenResponse};
use crate::identity_client::{RpcCode, RpcError};
use crate::oauth::UserInfo;
use crate::text::{decimal, decimal_string};

verus! {

/// A stored user.
pub struct User {
    pub id: i32,
    pub email: String,
    pub name: String,
}

/// The body of a request to create a user.
pub struct CreateUser {
    pub name: String,
}

/// How a call to the identity provider failed.
#[derive(PartialEq, Eq, Structural, Clone, Copy, Debug)]
pub enum ProviderError {
    /// The provider refused the code or the token.
    Rejected,
    /// The provider could not be reached.
    Unreachable,
}

/// A query on the user store failed.
pub struct StoreError;

/// An id as `to_string` writes a signed integer.
pub open spec fn signed_decimal(n: int) -> Seq<char> {
    if n < 0 {
        seq!['-'] + decimal((-n) as nat)
    } else {
        decimal(n as nat)
    }
}

pub fn id_text(n: i32) -> (r: String)
    ensures
        r@ == signed_decimal(n as int),
{
    if n < 0 {
        let mut s = String::from_str("-");
        let digits = decimal_string((-(n as i64)) as u64);
        s.append(digits.as_str());
        proof {
            reveal_strlit("-");
            assert("-"@ =~= seq!['-']);
        }
        s
    } else {
        decimal_string(n as u64)
    }
}

/// The next call to make, or the reply to give.
pub enum Action<R> {
    ExchangeCode { code: String },
    FetchProfile { token: String },
    FindByEmail { email: String },
    CreateUser { email: String, name: String },
    /// Issue a new session token for the user with this id.
    IssueSession { user_id: i32 },
    /// Look up which user a session token was issued to.
    ResolveSession { token: String },
    FindById { id: i32 },
    Finish(Result<R, RpcError>),
}

impl<R> Action<R> {
    /// The flow ends with a failure of this kind and message.
    pub open spec fn fails(&self, code: RpcCode, message: Seq<char>) -> bool {
        self matches Action::Finish(Err(e)) && e.code == code && e.message@ == message
    }

    /// The action changes what the user or session store holds.
    pub open spec fn writes(&self) -> bool {
        self is CreateUser || self is IssueSession
    }
}

fn failure<R>(code: RpcCode, message: &str) -> (r: Action<R>)
    ensures
        r.fails(code, message@),
{
    Action::Finish(Err(RpcError { code, message: String::from_str(message) }))
}

pub open spec fn unexpected_message() -> Seq<char> {
    "Unexpected step"@
}

pub open spec fn provider_unreachable_message() -> Seq<char> {
    "Identity provider unreachable"@
}

/// Where a login stands.
pub enum LoginState {
    Start { code: String },
    AwaitToken,
    AwaitProfile,
    AwaitLookup { profile: UserInfo },
    AwaitCreate,
    AwaitSession { user: User },
    Done,
}

/// What the last call of a login returned.
pub enum LoginEvent {
    Begin,
    Token(Result<String, ProviderError>),
    Profile(Result<UserInfo, ProviderError>),
    Lookup(Result<Option<User>, StoreError>),
    Created(Result<User, StoreError>),
    /// The session token issued for the user, or the store's failure.
    Issued(Result<String, StoreError>),
}

/// The reply for a logged-in user: the stored identity, and the session
/// token issued for it.
pub open spec fn logged_in(reply: LoginResponse, user: User, session: Seq<char>) -> bool {
    &&& reply.id@ == signed_decimal(user.id as int)
    &&& reply.email == user.email
    &&& reply.name == user.name
    &&& reply.token@ == session
}

/// One step of a login: exchange the code for an access token, fetch the
/// profile for that token, find the user by e-mail, create it where there is
/// none, issue a session token for the user, and reply with it.
pub open spec fn login_moves(
    state: LoginState,
    event: LoginEvent,
    next: LoginState,
    action: Action<LoginResponse>,
) -> bool {
    match (state, event) {
        (LoginState::Start { code }, LoginEvent::Begin) => {
            &&& next is AwaitToken
            &&& (action matches Action::ExchangeCode { code: c } && c@ == code@)
        },
        (LoginState::AwaitToken, LoginEvent::Token(Ok(token))) => {
            &&& next is AwaitProfile
            &&& (action matches Action::FetchProfile { token: t } && t@ == token@)
        },
        (LoginState::AwaitToken, LoginEvent::Token(Err(e))) => next is Done && if e
            == ProviderError::Rejected {
            action.fails(RpcCode::Unauthenticated, "Failed to get access token"@)
        } else {
            action.fails(RpcCode::Unavailable, provider_unreachable_message())
        },
        (LoginState::AwaitProfile, LoginEvent::Profile(Ok(p))) => {
            &&& (next matches LoginState::AwaitLookup { profile: q } && q.email@ == p.email@
                && q.name@ == p.name@)
            &&& (action matches Action::FindByEmail { email } && email@ == p.email@)
        },
        (LoginState::AwaitProfile, LoginEvent::Profile(Err(e))) => next is Done && if e
            == ProviderError::Rejected {
            action.fails(RpcCode::Unauthenticated, "Failed to get profile"@)
        } else {
            action.fails(RpcCode::Unavailable, provider_unreachable_message())
        },
        (LoginState::AwaitLookup { .. }, LoginEvent::Lookup(Ok(Some(u)))) => {
            &&& next == LoginState::AwaitSession { user: u }
            &&& action == Action::<LoginResponse>::IssueSession { user_id: u.id }
        },
        (LoginState::AwaitLookup { profile }, LoginEvent::Lookup(Ok(None))) => {
            &&& next is AwaitCreate
            &&& (action matches Action::CreateUser { email, name } && email@ == profile.email@
                && name@ == profile.name@)
        },
        (LoginState::AwaitLookup { .. }, LoginEvent::Lookup(Err(_))) => next is Done
            && action.fails(RpcCode::Internal, "Database error"@),
        (LoginState::AwaitCreate, LoginEvent::Created(Ok(u))) => {
            &&& next == LoginState::AwaitSession { user: u }
            &&& action == Action::<LoginResponse>::IssueSession { user_id: u.id }
        },
        (LoginState::AwaitCreate, LoginEvent::Created(Err(_))) => next is Done
            && action.fails(RpcCode::Internal, "Failed to create user"@),
        (LoginState::AwaitSession { user }, LoginEvent::Issued(Ok(session))) => {
            &&& next is Done
            &&& (action matches Action::Finish(Ok(reply)) && logged_in(reply, user, session@))
        },
        (LoginState::AwaitSession { .. }, LoginEvent::Issued(Err(_))) => next is Done
            && action.fails(RpcCode::Internal, "Failed to issue session"@),
        _ => next is Done && action.fails(RpcCode::Internal, unexpected_message()),
    }
}

/// Takes one step of a login.
pub fn login_step(state: LoginState, event: LoginEvent) -> (r: (LoginState, Action<LoginResponse>))
    ensures
        login_moves(state, event, r.0, r.1),
{
    match (state, event) {
        (LoginState::Start { code }, LoginEvent::Begin) => (
            LoginState::AwaitToken,
            Action::ExchangeCode { code },
        ),
        (LoginState::AwaitToken, LoginEvent::Token(Ok(token))) => (
            LoginState::AwaitProfile,
            Action::FetchProfile { token },
        ),
        (LoginState::AwaitToken, LoginEvent::Token(Err(e))) => {
            if e == ProviderError::Rejected {
                (LoginState::Done, failure(RpcCode::Unauthenticated, "Failed to get access token"))
            } else {
                (LoginState::Done, failure(RpcCode::Unavailable, "Identity provider unreachable"))
            }
        },
        (LoginState::AwaitProfile, LoginEvent::Profile(Ok(p))) => {
            let email = p.email.clone();
            (LoginState::AwaitLookup { profile: p }, Action::FindByEmail { email })
        },
        (LoginState::AwaitProfile, LoginEvent::Profile(Err(e))) => {
            if e == ProviderError::Rejected {
                (LoginState::Done, failure(RpcCode::Unauthenticated, "Failed to get profile"))
            } else {
                (LoginState::Done, failure(RpcCode::Unavailable, "Identity provider unreachable"))
            }
        },
        (LoginState::AwaitLookup { .. }, LoginEvent::Lookup(Ok(Some(u)))) => {
            let user_id = u.id;
            (LoginState::AwaitSession { user: u }, Action::IssueSession { user_id })
        },
        (LoginState::AwaitLookup { profile }, LoginEvent::Lookup(Ok(None))) => (
            LoginState::AwaitCreate,
            Action::CreateUser { email: profile.email, name: profile.name },
        ),
        (LoginState::AwaitLookup { .. }, LoginEvent::Lookup(Err(_))) => (
            LoginState::Done,
            failure(RpcCode::Internal, "Database error"),
        ),
        (LoginState::AwaitCreate, LoginEvent::Created(Ok(u))) => {
            let user_id = u.id;
            (LoginState::AwaitSession { user: u }, Action::IssueSession { user_id })
        },
        (LoginState::AwaitCreate, LoginEvent::Created(Err(_))) => (
            LoginState::Done,
            failure(RpcCode::Internal, "Failed to create user"),
        ),
        (LoginState::AwaitSession { user }, LoginEvent::Issued(Ok(session))) => {
            let reply = LoginResponse {
                id: id_text(user.id),
                email: user.email,
                name: user.name,
                token: session,
            };
            (LoginState::Done, Action::Finish(Ok(reply)))
        },
        (LoginState::AwaitSession { .. }, LoginEvent::Issued(Err(_))) => (
            LoginState::Done,
            failure(RpcCode::Internal, "Failed to issue session"),
        ),
        _ => (LoginState::Done, failure(RpcCode::Internal, "Unexpected step")),
    }
}

/// Where a token validation stands.
pub enum ValidateState {
    Start { token: String },
    AwaitSession,
    AwaitUser,
    Done,
}

/// What the last call of a token validation returned.
pub enum ValidateEvent {
    Begin,
    /// The id of the user the session token was issued to, if any.
    Resolved(Result<Option<i32>, StoreError>),
    Found(Result<Option<User>, StoreError>),
}

/// The identity a validation resolves to: the stored user's.
pub open spec fn resolved(reply: ValidateTokenResponse, user: User) -> bool {
    &&& reply.id@ == signed_decimal(user.id as int)
    &&& reply.email == user.email
    &&& reply.name == user.name
}

/// One step of a validation: find which user the session token was issued
/// to, then that user's record, and reply with the stored identity. A token
/// issued to nobody is unauthenticated; a user removed since is not found.
pub open spec fn validate_moves(
    state: ValidateState,
    event: ValidateEvent,
    next: ValidateState,
    action: Action<ValidateTokenResponse>,
) -> bool {
    match (state, event) {
        (ValidateState::Start { token }, ValidateEvent::Begin) => {
            &&& next is AwaitSession
            &&& (action matches Action::ResolveSession { token: t } && t@ == token@)
        },
        (ValidateState::AwaitSession, ValidateEvent::Resolved(Ok(Some(id)))) => {
            &&& next is AwaitUser
            &&& action == Action::<ValidateTokenResponse>::FindById { id }
        },
        (ValidateState::AwaitSession, ValidateEvent::Resolved(Ok(None))) => next is Done
            && action.fails(RpcCode::Unauthenticated, "Invalid token"@),
        (ValidateState::AwaitSession, ValidateEvent::Resolved(Err(_))) => next is Done
            && action.fails(RpcCode::Internal, "Failed to resolve session"@),
        (ValidateState::AwaitUser, ValidateEvent::Found(Ok(Some(u)))) => {
            &&& next is Done
            &&& (action matches Action::Finish(Ok(reply)) && resolved(reply, u))
        },
        (ValidateState::AwaitUser, ValidateEvent::Found(Ok(None))) => next is Done
            && action.fails(RpcCode::NotFound, "User not found"@),
        (ValidateState::AwaitUser, ValidateEvent::Found(Err(_))) => next is Done
            && action.fails(RpcCode::Internal, "Failed to find user"@),
        _ => next is Done && action.fails(RpcCode::Internal, unexpected_message()),
    }
}

/// Takes one step of a token validation.
pub fn validate_step(state: ValidateState, event: ValidateEvent) -> (r: (
    ValidateState,
    Action<ValidateTokenResponse>,
))
    ensures
        validate_moves(state, event, r.0, r.1),
{
    match (state, event) {
        (ValidateState::Start { token }, ValidateEvent::Begin) => (
            ValidateState::AwaitSession,
            Action::ResolveSession { token },
        ),
        (ValidateState::AwaitSession, ValidateEvent::Resolved(Ok(Some(id)))) => (
            ValidateState::AwaitUser,
            Action::FindById { id },
        ),
        (ValidateState::AwaitSession, ValidateEvent::Resolved(Ok(None))) => (
            ValidateState::Done,
            failure(RpcCode::Unauthenticated, "Invalid token"),
        ),
        (ValidateState::AwaitSession, ValidateEvent::Resolved(Err(_))) => (
            ValidateState::Done,
            failure(RpcCode::Internal, "Failed to resolve session"),
        ),
        (ValidateState::AwaitUser, ValidateEvent::Found(Ok(Some(u)))) => {
            let reply = ValidateTokenResponse { id: id_text(u.id), email: u.email, name: u.name };
            (ValidateState::Done, Action::Finish(Ok(reply)))
        },
        (ValidateState::AwaitUser, ValidateEvent::Found(Ok(None))) => (
            ValidateState::Done,
            failure(RpcCode::NotFound, "User not found"),
        ),
        (ValidateState::AwaitUser, ValidateEvent::Found(Err(_))) => (
            ValidateState::Done,
            failure(RpcCode::Internal, "Failed to find user"),
        ),
        _ => (ValidateState::Done, failure(RpcCode::Internal, "Unexpected step")),
    }
}

pub open spec fn fails_with<T>(r: Result<T, RpcError>, code: RpcCode, message: Seq<char>) -> bool {
    r matches Err(e) && e.code == code && e.message@ == message
}

fn rpc_failure<T>(code: RpcCode, message: &str) -> (r: Result<T, RpcError>)
    ensures
        fails_with(r, code, message@),
{
    Err(RpcError { code, message: String::from_str(message) })
}

/// The user list as the identity service hands it out: each user's id in
/// decimal and name, in the store's order; an internal error where the store
/// fails.
pub fn all_users(r: Result<Vec<User>, StoreError>) -> (res: Result<GetAllUsersResponse, RpcError>)
    ensures
        match r {
            Ok(users) => res matches Ok(g) && g.users@.len() == users@.len() && forall|i: int|
                0 <= i < users@.len() ==> #[trigger] g.users@[i]@ == (
                    signed_decimal(users@[i].id as int),
                    users@[i].name@,
                ),
            Err(_) => fails_with(res, RpcCode::Internal, "Database error"@),
        },
{
    match r {
        Err(_) => rpc_failure(RpcCode::Internal, "Database error"),
        Ok(users) => {
            let mut out: Vec<UserProfile> = Vec::new();
            let mut i: usize = 0;
            while i < users.len()
                invariant
                    i <= users@.len(),
                    out@.len() == i,
                    forall|j: int|
                        0 <= j < i ==> #[trigger] out@[j]@ == (
                            signed_decimal(users@[j].id as int),
                            users@[j].name@,
                        ),
                decreases users@.len() - i,
            {
                out.push(UserProfile { id: id_text(users[i].id), name: users[i].name.clone() });
                i += 1;
            }
            Ok(GetAllUsersResponse { users: out })
        },
    }
}

/// One user by id (also after an update): the user, a not-found where there
/// is none, an internal error where the store fails.
pub fn found_user(r: Result<Option<User>, StoreError>) -> (res: Result<User, RpcError>)
    ensures
        match r {
            Ok(Some(u)) => res == Ok::<User, RpcError>(u),
            Ok(None) => fails_with(res, RpcCode::NotFound, "User not found"@),
            Err(_) => fails_with(res, RpcCode::Internal, "Database error"@),
        },
{
    match r {
        Ok(Some(u)) => Ok(u),
        Ok(None) => rpc_failure(RpcCode::NotFound, "User not found"),
        Err(_) => rpc_failure(RpcCode::Internal, "Database error"),
    }
}

/// A lookup by e-mail: found or not, or an internal error where the store
/// fails.
pub fn user_by_email(r: Result<Option<User>, StoreError>) -> (res: Result<Option<User>, RpcError>)
    ensures
        match r {
            Ok(o) => res == Ok::<Option<User>, RpcError>(o),
            Err(_) => fails_with(res, RpcCode::Internal, "Database error"@),
        },
{
    match r {
        Ok(o) => Ok(o),
        Err(_) => rpc_failure(RpcCode::Internal, "Database error"),
    }
}

/// A created user, or an internal error where the store fails.
pub fn created_user(r: Result<User, StoreError>) -> (res: Result<User, RpcError>)
    ensures
        match r {
            Ok(u) => res == Ok::<User, RpcError>(u),
            Err(_) => fails_with(res, RpcCode::Internal, "Failed to create user"@),
        },
{
    match r {
        Ok(u) => Ok(u),
        Err(_) => rpc_failure(RpcCode::Internal, "Failed to create user"),
    }
}

/// A deletion: a confirmation where a row went, a not-found where none did,
/// an internal error where the store fails.
pub fn deleted_user(r: Result<bool, StoreError>) -> (res: Result<String, RpcError>)
    ensures
        match r {
            Ok(true) => res matches Ok(m) && m@ == "User deleted"@,
            Ok(false) => fails_with(res, RpcCode::NotFound, "User not found"@),
            Err(_) => fails_with(res, RpcCode::Internal, "Database error"@),
        },
{
    match r {
        Ok(true) => Ok(String::from_str("User deleted")),
        Ok(false) => rpc_failure(RpcCode::NotFound, "User not found"),
        Err(_) => rpc_failure(RpcCode::Internal, "Database error"),
    }
}

/// No step of a token validation changes the user or session store or
/// spends an authorization code: a validation only reads.
pub proof fn lemma_validation_only_reads(
    state: ValidateState,
    event: ValidateEvent,
    next: ValidateState,
    action: Action<ValidateTokenResponse>,
)
    requires
        validate_moves(state, event, next, action),
    ensures
        !action.writes(),
        !(action is ExchangeCode),
{
}

/// Two validations that find the session token issued to the same user,
/// and that user's same record, look up the same user and resolve the same
/// identity. Since a validation never writes, validating one token twice
/// against unchanged stores resolves the same identity both times.
pub proof fn lemma_validation_repeatable(
    id: i32,
    user: User,
    lookup1: Action<ValidateTokenResponse>,
    lookup2: Action<ValidateTokenResponse>,
    reply1: Action<ValidateTokenResponse>,
    reply2: Action<ValidateTokenResponse>,
    after_lookup1: ValidateState,
    after_lookup2: ValidateState,
    done1: ValidateState,
    done2: ValidateState,
)
    requires
        validate_moves(
            ValidateState::AwaitSession,
            ValidateEvent::Resolved(Ok(Some(id))),
            after_lookup1,
            lookup1,
        ),
        validate_moves(
            ValidateState::AwaitSession,
            ValidateEvent::Resolved(Ok(Some(id))),
            after_lookup2,
            lookup2,
        ),
        validate_moves(ValidateState::AwaitUser, ValidateEvent::Found(Ok(Some(user))), done1, reply1),
        validate_moves(ValidateState::AwaitUser, ValidateEvent::Found(Ok(Some(user))), done2, reply2),
    ensures
        lookup1 == lookup2,
        reply1 matches Action::Finish(Ok(r1)) && reply2 matches Action::Finish(Ok(r2)) && r1.id@
            == r2.id@ && r1.email == r2.email && r1.name == r2.name,
{
}

} // verus!
