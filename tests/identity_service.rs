use gateway::identity_client::RpcCode;
use gateway::identity_service::{
    all_users, created_user, deleted_user, found_user, id_text, login_step, user_by_email,
    validate_step, Action, LoginEvent, LoginState, ProviderError, StoreError, User, ValidateEvent,
    ValidateState,
};
use gateway::oauth::UserInfo;

fn user(id: i32) -> User {
    User { id, email: "a@b.com".to_string(), name: "A".to_string() }
}

fn profile() -> UserInfo {
    UserInfo { email: "a@b.com".to_string(), name: "A".to_string() }
}

fn failure<R>(a: &Action<R>) -> (RpcCode, String) {
    match a {
        Action::Finish(Err(e)) => (e.code, e.message.clone()),
        _ => panic!("expected a failure"),
    }
}

#[test]
fn login_creates_missing_user_and_issues_a_session() {
    let (s, a) = login_step(LoginState::Start { code: "valid-code".to_string() }, LoginEvent::Begin);
    assert!(matches!(a, Action::ExchangeCode { ref code } if code == "valid-code"));
    let (s, a) = login_step(s, LoginEvent::Token(Ok("tok-1".to_string())));
    assert!(matches!(a, Action::FetchProfile { ref token } if token == "tok-1"));
    let (s, a) = login_step(s, LoginEvent::Profile(Ok(profile())));
    assert!(matches!(a, Action::FindByEmail { ref email } if email == "a@b.com"));
    let (s, a) = login_step(s, LoginEvent::Lookup(Ok(None)));
    match a {
        Action::CreateUser { email, name } => assert_eq!((email.as_str(), name.as_str()), ("a@b.com", "A")),
        _ => panic!("expected a creation"),
    }
    let (s, a) = login_step(s, LoginEvent::Created(Ok(user(42))));
    assert!(matches!(a, Action::IssueSession { user_id: 42 }));
    let (s, a) = login_step(s, LoginEvent::Issued(Ok("sess-9".to_string())));
    assert!(matches!(s, LoginState::Done));
    match a {
        Action::Finish(Ok(r)) => {
            assert_eq!((r.id.as_str(), r.email.as_str(), r.name.as_str(), r.token.as_str()), ("42", "a@b.com", "A", "sess-9"));
        }
        _ => panic!("expected a reply"),
    }
}

#[test]
fn login_finds_existing_user() {
    let s = LoginState::AwaitLookup { profile: profile() };
    let (s, a) = login_step(s, LoginEvent::Lookup(Ok(Some(user(7)))));
    assert!(matches!(a, Action::IssueSession { user_id: 7 }));
    let (_, a) = login_step(s, LoginEvent::Issued(Ok("sess-1".to_string())));
    match a {
        Action::Finish(Ok(r)) => assert_eq!((r.id.as_str(), r.token.as_str()), ("7", "sess-1")),
        _ => panic!("expected a reply"),
    }
}

#[test]
fn login_failures() {
    let (_, a) = login_step(LoginState::AwaitToken, LoginEvent::Token(Err(ProviderError::Rejected)));
    assert_eq!(failure(&a), (RpcCode::Unauthenticated, "Failed to get access token".to_string()));
    let (_, a) = login_step(LoginState::AwaitToken, LoginEvent::Token(Err(ProviderError::Unreachable)));
    assert_eq!(failure(&a), (RpcCode::Unavailable, "Identity provider unreachable".to_string()));
    let (_, a) = login_step(LoginState::AwaitProfile, LoginEvent::Profile(Err(ProviderError::Rejected)));
    assert_eq!(failure(&a), (RpcCode::Unauthenticated, "Failed to get profile".to_string()));
    let s = LoginState::AwaitLookup { profile: profile() };
    let (_, a) = login_step(s, LoginEvent::Lookup(Err(StoreError)));
    assert_eq!(failure(&a), (RpcCode::Internal, "Database error".to_string()));
    let (_, a) = login_step(LoginState::AwaitCreate, LoginEvent::Created(Err(StoreError)));
    assert_eq!(failure(&a), (RpcCode::Internal, "Failed to create user".to_string()));
    let (_, a) = login_step(LoginState::AwaitSession { user: user(1) }, LoginEvent::Issued(Err(StoreError)));
    assert_eq!(failure(&a), (RpcCode::Internal, "Failed to issue session".to_string()));
    let (s, a) = login_step(LoginState::Done, LoginEvent::Begin);
    assert!(matches!(s, LoginState::Done));
    assert_eq!(failure(&a), (RpcCode::Internal, "Unexpected step".to_string()));
}

#[test]
fn validation_resolves_stored_identity() {
    let (s, a) = validate_step(ValidateState::Start { token: "sess-9".to_string() }, ValidateEvent::Begin);
    assert!(matches!(a, Action::ResolveSession { ref token } if token == "sess-9"));
    let (s, a) = validate_step(s, ValidateEvent::Resolved(Ok(Some(42))));
    assert!(matches!(a, Action::FindById { id: 42 }));
    let (_, a) = validate_step(s, ValidateEvent::Found(Ok(Some(user(42)))));
    match a {
        Action::Finish(Ok(r)) => assert_eq!((r.id.as_str(), r.email.as_str(), r.name.as_str()), ("42", "a@b.com", "A")),
        _ => panic!("expected an identity"),
    }
}

#[test]
fn validation_failures() {
    let (_, a) = validate_step(ValidateState::AwaitSession, ValidateEvent::Resolved(Ok(None)));
    assert_eq!(failure(&a), (RpcCode::Unauthenticated, "Invalid token".to_string()));
    let (_, a) = validate_step(ValidateState::AwaitSession, ValidateEvent::Resolved(Err(StoreError)));
    assert_eq!(failure(&a), (RpcCode::Internal, "Failed to resolve session".to_string()));
    let (_, a) = validate_step(ValidateState::AwaitUser, ValidateEvent::Found(Ok(None)));
    assert_eq!(failure(&a), (RpcCode::NotFound, "User not found".to_string()));
    let (_, a) = validate_step(ValidateState::AwaitUser, ValidateEvent::Found(Err(StoreError)));
    assert_eq!(failure(&a), (RpcCode::Internal, "Failed to find user".to_string()));
    let (_, a) = validate_step(ValidateState::Done, ValidateEvent::Begin);
    assert_eq!(failure(&a), (RpcCode::Internal, "Unexpected step".to_string()));
}

#[test]
fn validating_the_same_token_twice_agrees() {
    let run = || {
        let (s, a) = validate_step(ValidateState::Start { token: "sess-9".to_string() }, ValidateEvent::Begin);
        assert!(matches!(a, Action::ResolveSession { .. }));
        let (s, _) = validate_step(s, ValidateEvent::Resolved(Ok(Some(42))));
        match validate_step(s, ValidateEvent::Found(Ok(Some(user(42))))).1 {
            Action::Finish(Ok(r)) => (r.id, r.email, r.name),
            _ => panic!("expected an identity"),
        }
    };
    assert_eq!(run(), run());
}

#[test]
fn ids_are_written_as_to_string_does() {
    for n in [0, 42, -5, i32::MAX, i32::MIN] {
        assert_eq!(id_text(n), n.to_string());
    }
}

#[test]
fn store_results() {
    match all_users(Ok(vec![user(3), user(-1)])) {
        Ok(g) => {
            assert_eq!(g.users.len(), 2);
            assert_eq!((g.users[0].id.as_str(), g.users[0].name.as_str()), ("3", "A"));
            assert_eq!(g.users[1].id, "-1");
        }
        Err(_) => panic!("expected users"),
    }
    assert!(matches!(all_users(Err(StoreError)), Err(e) if e.code == RpcCode::Internal && e.message == "Database error"));
    assert!(matches!(found_user(Ok(Some(user(1)))), Ok(u) if u.id == 1));
    assert!(matches!(found_user(Ok(None)), Err(e) if e.code == RpcCode::NotFound && e.message == "User not found"));
    assert!(matches!(found_user(Err(StoreError)), Err(e) if e.code == RpcCode::Internal));
    assert!(matches!(user_by_email(Ok(None)), Ok(None)));
    assert!(matches!(user_by_email(Err(StoreError)), Err(e) if e.message == "Database error"));
    assert!(matches!(created_user(Err(StoreError)), Err(e) if e.message == "Failed to create user"));
    assert!(matches!(created_user(Ok(user(2))), Ok(u) if u.id == 2));
    assert!(matches!(deleted_user(Ok(true)), Ok(m) if m == "User deleted"));
    assert!(matches!(deleted_user(Ok(false)), Err(e) if e.code == RpcCode::NotFound));
    assert!(matches!(deleted_user(Err(StoreError)), Err(e) if e.code == RpcCode::Internal));
}
