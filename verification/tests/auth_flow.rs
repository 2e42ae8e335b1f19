use backend::auth::{
    check_auth, failure, login, login_verified, logout, perform, register, register_hashed,
    require_auth, success_for, validate, AuthAction, LoginEvent, LoginState, LogoutEvent,
    LogoutState, RegisterEvent, RegisterState,
};
use backend::error::AppError;
use backend::session::Session;
use backend::structs::{AuthResponse, LoginRequest, NewUser};

// A bcrypt digest of "password" at the lowest cost.
const DIGEST_OF_PASSWORD: &str = "$2a$04$UuTkLRZZ6QofpDOlMz32MuuxEHA43WOemOYHPz6.SjsVsyO1tDU96";

fn form(email: &str, password: &str, name: Option<&str>) -> NewUser {
    NewUser {
        email: email.to_string(),
        password: password.to_string(),
        name: name.map(|n| n.to_string()),
    }
}

fn credentials(email: &str, password: &str) -> LoginRequest {
    LoginRequest { email: email.to_string(), password: password.to_string() }
}

fn response_of(action: AuthAction) -> AuthResponse {
    match action {
        AuthAction::Respond(r) => r,
        other => panic!("expected an answer, got {:?}", other),
    }
}

fn error_of(action: AuthAction) -> AppError {
    match action {
        AuthAction::Fail(e) => e,
        other => panic!("expected an error, got {:?}", other),
    }
}

fn refused_at_once(new_user: NewUser) -> AuthResponse {
    let (state, action) = register(RegisterState::Idle, RegisterEvent::Submitted(new_user));
    assert!(matches!(state, RegisterState::Done));
    response_of(action)
}

fn awaiting_lookup(new_user: NewUser) -> RegisterState {
    let (state, action) = register(RegisterState::Idle, RegisterEvent::Submitted(new_user));
    assert!(matches!(action, AuthAction::FindUser { .. }));
    state
}

fn awaiting_credentials(form: LoginRequest) -> LoginState {
    let (state, action) = login(LoginState::Idle, LoginEvent::Submitted(form));
    assert!(matches!(action, AuthAction::FindCredentials { .. }));
    state
}

#[test]
fn register_then_login_end_to_end() {
    let mut session = Session::new();
    let (state, action) = register(
        RegisterState::Idle,
        RegisterEvent::Submitted(form("a@b.com", "secret1", None)),
    );
    match &action {
        AuthAction::FindUser { email } => assert_eq!(email, "a@b.com"),
        other => panic!("unexpected action {:?}", other),
    }
    perform(&mut session, &action);
    let (state, action) = register(state, RegisterEvent::UserLookedUp(Ok(None)));
    let stored_hash = match &action {
        AuthAction::InsertUser { email, password_hash, name } => {
            assert_eq!(email, "a@b.com");
            assert_eq!(*name, None);
            assert_ne!(password_hash, "secret1");
            assert!(password_hash.starts_with("$2b$12$"));
            password_hash.clone()
        }
        other => panic!("unexpected action {:?}", other),
    };
    perform(&mut session, &action);
    assert_eq!(session.get(), None);
    let (state, action) = register(state, RegisterEvent::UserInserted(Ok(1)));
    assert!(matches!(action, AuthAction::BindSession { user_id: 1 }));
    perform(&mut session, &action);
    let (state, action) = register(state, RegisterEvent::SessionBound(true));
    assert!(matches!(state, RegisterState::Done));
    let r = response_of(action);
    assert!(r.success);
    assert_eq!(r.message, "Registration successful");
    assert_eq!(r.user_id, Some(1));
    let probe = check_auth(&session);
    assert!(probe.success);
    assert_eq!(probe.user_id, Some(1));

    // the same credentials in a fresh session
    let mut fresh = Session::new();
    let state = awaiting_credentials(credentials("a@b.com", "secret1"));
    let (state, action) =
        login(state, LoginEvent::CredentialsLookedUp(Ok(Some((1, stored_hash.clone())))));
    assert!(matches!(action, AuthAction::BindSession { user_id: 1 }));
    perform(&mut fresh, &action);
    let (state, action) = login(state, LoginEvent::SessionBound(true));
    assert!(matches!(state, LoginState::Done));
    let r = response_of(action);
    assert!(r.success);
    assert_eq!(r.message, "Login successful");
    assert_eq!(r.user_id, Some(1));
    assert_eq!(fresh.get(), Some(1));

    // a wrong password
    let mut other = Session::new();
    let state = awaiting_credentials(credentials("a@b.com", "wrong12"));
    let (state, action) =
        login(state, LoginEvent::CredentialsLookedUp(Ok(Some((1, stored_hash)))));
    assert!(matches!(state, LoginState::Done));
    perform(&mut other, &action);
    let r = response_of(action);
    assert_eq!(r.success, false);
    assert_eq!(r.message, "Invalid credentials");
    assert_eq!(r.user_id, None);
    assert_eq!(other.get(), None);
}

#[test]
fn register_then_check_keeps_the_id() {
    let mut session = Session::new();
    let state = awaiting_lookup(form("x@y.org", "abcdef", Some("Ann")));
    let (state, action) = register(state, RegisterEvent::UserLookedUp(Ok(None)));
    match &action {
        AuthAction::InsertUser { name, .. } => assert_eq!(name.as_deref(), Some("Ann")),
        other => panic!("unexpected action {:?}", other),
    }
    let (state, action) = register(state, RegisterEvent::UserInserted(Ok(42)));
    perform(&mut session, &action);
    let (_, action) = register(state, RegisterEvent::SessionBound(true));
    perform(&mut session, &action);
    assert_eq!(response_of(action).user_id, Some(42));
    let first = check_auth(&session);
    let second = check_auth(&session);
    assert!(first.success && second.success);
    assert_eq!(first.message, "Authenticated");
    assert_eq!(first.user_id, Some(42));
    assert_eq!(second.user_id, Some(42));
    assert_eq!(require_auth(&session).ok(), Some(42));
}

#[test]
fn email_without_at_is_refused() {
    let r = refused_at_once(form("nobody.example.com", "secret1", None));
    assert_eq!(r.success, false);
    assert_eq!(r.message, "Invalid email format");
    assert_eq!(r.user_id, None);
}

#[test]
fn empty_email_is_refused() {
    let r = refused_at_once(form("", "secret1", None));
    assert_eq!(r.message, "Invalid email format");
}

#[test]
fn email_is_checked_before_password() {
    let r = refused_at_once(form("nobody", "x", Some(" ")));
    assert_eq!(r.message, "Invalid email format");
}

#[test]
fn password_of_five_is_refused_and_of_six_accepted() {
    let r = refused_at_once(form("a@b.com", "12345", None));
    assert_eq!(r.success, false);
    assert_eq!(r.message, "Password must be at least 6 characters long");
    assert_eq!(r.user_id, None);
    assert_eq!(validate(&form("a@b.com", "12345", None)), Some("Password must be at least 6 characters long"));
    assert_eq!(validate(&form("a@b.com", "123456", None)), None);
    let (state, action) =
        register(RegisterState::Idle, RegisterEvent::Submitted(form("a@b.com", "123456", None)));
    assert!(matches!(state, RegisterState::AwaitingLookup { .. }));
    assert!(matches!(action, AuthAction::FindUser { .. }));
}

#[test]
fn empty_password_is_refused() {
    let r = refused_at_once(form("a@b.com", "", None));
    assert_eq!(r.message, "Password must be at least 6 characters long");
}

#[test]
fn password_length_counts_characters() {
    // three letters of two bytes each are three characters
    let r = refused_at_once(form("a@b.com", "\u{e9}\u{e9}\u{e9}", None));
    assert_eq!(r.success, false);
    assert_eq!(r.message, "Password must be at least 6 characters long");
    assert_eq!(r.user_id, None);
    assert_eq!(
        validate(&form("a@b.com", "\u{e4}\u{f6}\u{fc}\u{e4}\u{f6}", None)),
        Some("Password must be at least 6 characters long")
    );
    // six letters of two bytes each are six characters
    assert_eq!(validate(&form("a@b.com", "\u{e4}\u{f6}\u{fc}\u{e4}\u{f6}\u{fc}", None)), None);
    let (state, action) = register(
        RegisterState::Idle,
        RegisterEvent::Submitted(form("a@b.com", "\u{e9}\u{e9}\u{e9}\u{e9}\u{e9}\u{e9}", None)),
    );
    assert!(matches!(state, RegisterState::AwaitingLookup { .. }));
    assert!(matches!(action, AuthAction::FindUser { .. }));
}

#[test]
fn blank_name_is_refused() {
    for name in ["", " ", " \t\n", "\u{a0}\u{3000}"] {
        let r = refused_at_once(form("a@b.com", "secret1", Some(name)));
        assert_eq!(r.success, false);
        assert_eq!(r.message, "Name cannot be empty");
        assert_eq!(r.user_id, None);
    }
}

#[test]
fn name_with_a_letter_is_accepted() {
    assert_eq!(validate(&form("a@b.com", "secret1", Some("  x  "))), None);
    assert_eq!(validate(&form("a@b.com", "secret1", None)), None);
    assert_eq!(validate(&form("@", "secret1", None)), None);
}

#[test]
fn taken_email_is_refused() {
    for password in ["secret1", "another password", "123456"] {
        let state = awaiting_lookup(form("a@b.com", password, None));
        let (state, action) = register(state, RegisterEvent::UserLookedUp(Ok(Some(7))));
        assert!(matches!(state, RegisterState::Done));
        let r = response_of(action);
        assert_eq!(r.success, false);
        assert_eq!(r.message, "Email already registered");
        assert_eq!(r.user_id, None);
    }
}

#[test]
fn store_complaint_on_lookup_is_internal() {
    let state = awaiting_lookup(form("a@b.com", "secret1", None));
    let (state, action) =
        register(state, RegisterEvent::UserLookedUp(Err("connection refused".to_string())));
    assert!(matches!(state, RegisterState::Done));
    match error_of(action) {
        AppError::Internal(detail) => assert_eq!(detail, "connection refused"),
        other => panic!("unexpected error {:?}", other),
    }
}

#[test]
fn store_complaint_on_insert_is_internal() {
    let (state, action) = register(
        RegisterState::AwaitingInsert,
        RegisterEvent::UserInserted(Err("duplicate key".to_string())),
    );
    assert!(matches!(state, RegisterState::Done));
    let (status, body) = error_of(action).into_response();
    assert_eq!(status, 500);
    assert_eq!(body, "Internal Server Error: duplicate key");
}

#[test]
fn unbound_session_fails_registration() {
    let (state, action) = register(
        RegisterState::AwaitingSession { user_id: 3 },
        RegisterEvent::SessionBound(false),
    );
    assert!(matches!(state, RegisterState::Done));
    match error_of(action) {
        AppError::HttpError(status, detail) => {
            assert_eq!(status, 500);
            assert_eq!(detail, "Failed to set session");
        }
        other => panic!("unexpected error {:?}", other),
    }
}

#[test]
fn register_hashed_inserts_under_the_digest() {
    let (state, action) =
        register_hashed(form("a@b.com", "secret1", Some("Ann")), Ok("digest".to_string()));
    assert!(matches!(state, RegisterState::AwaitingInsert));
    match action {
        AuthAction::InsertUser { email, password_hash, name } => {
            assert_eq!(email, "a@b.com");
            assert_eq!(password_hash, "digest");
            assert_eq!(name.as_deref(), Some("Ann"));
        }
        other => panic!("unexpected action {:?}", other),
    }
}

#[test]
fn register_hashed_fails_without_a_digest() {
    let (state, action) = register_hashed(
        form("a@b.com", "secret1", None),
        Err(AppError::Internal("whatever".to_string())),
    );
    assert!(matches!(state, RegisterState::Done));
    match error_of(action) {
        AppError::HttpError(status, detail) => {
            assert_eq!(status, 500);
            assert_eq!(detail, "Failed to hash password");
        }
        other => panic!("unexpected error {:?}", other),
    }
}

#[test]
fn register_rejects_events_out_of_turn() {
    let cases: Vec<(RegisterState, RegisterEvent)> = vec![
        (RegisterState::Idle, RegisterEvent::SessionBound(true)),
        (RegisterState::Idle, RegisterEvent::UserInserted(Ok(1))),
        (RegisterState::AwaitingInsert, RegisterEvent::UserLookedUp(Ok(None))),
        (RegisterState::AwaitingSession { user_id: 1 }, RegisterEvent::UserInserted(Ok(1))),
        (RegisterState::Done, RegisterEvent::SessionBound(true)),
        (
            RegisterState::AwaitingLookup { form: form("a@b.com", "secret1", None) },
            RegisterEvent::SessionBound(true),
        ),
    ];
    for (state, event) in cases {
        let (state, action) = register(state, event);
        assert!(matches!(state, RegisterState::Done));
        match error_of(action) {
            AppError::Internal(detail) => assert_eq!(detail, "Unexpected event"),
            other => panic!("unexpected error {:?}", other),
        }
    }
}

#[test]
fn login_asks_for_the_credentials_of_the_email() {
    let (state, action) =
        login(LoginState::Idle, LoginEvent::Submitted(credentials("a@b.com", "password")));
    match state {
        LoginState::AwaitingCredentials { password } => assert_eq!(password, "password"),
        other => panic!("unexpected state {:?}", other),
    }
    match action {
        AuthAction::FindCredentials { email } => assert_eq!(email, "a@b.com"),
        other => panic!("unexpected action {:?}", other),
    }
}

#[test]
fn login_with_right_password_binds_the_session() {
    let state = awaiting_credentials(credentials("a@b.com", "password"));
    let (state, action) = login(
        state,
        LoginEvent::CredentialsLookedUp(Ok(Some((9, DIGEST_OF_PASSWORD.to_string())))),
    );
    assert!(matches!(state, LoginState::AwaitingSession { user_id: 9 }));
    assert!(matches!(action, AuthAction::BindSession { user_id: 9 }));
    let (state, action) = login(state, LoginEvent::SessionBound(true));
    assert!(matches!(state, LoginState::Done));
    let r = response_of(action);
    assert_eq!(r.success, true);
    assert_eq!(r.message, "Login successful");
    assert_eq!(r.user_id, Some(9));
}

#[test]
fn login_refusals_are_identical() {
    let state = awaiting_credentials(credentials("nobody@b.com", "password"));
    let (_, action) = login(state, LoginEvent::CredentialsLookedUp(Ok(None)));
    let unknown = response_of(action);

    let state = awaiting_credentials(credentials("a@b.com", "not the password"));
    let (_, action) = login(
        state,
        LoginEvent::CredentialsLookedUp(Ok(Some((9, DIGEST_OF_PASSWORD.to_string())))),
    );
    let wrong = response_of(action);

    assert_eq!(unknown.success, false);
    assert_eq!(unknown.message, "Invalid credentials");
    assert_eq!(unknown.user_id, None);
    assert_eq!(unknown.success, wrong.success);
    assert_eq!(unknown.message, wrong.message);
    assert_eq!(unknown.message.as_bytes(), wrong.message.as_bytes());
    assert_eq!(unknown.user_id, wrong.user_id);
}

#[test]
fn login_with_unreadable_digest_is_an_error() {
    let state = awaiting_credentials(credentials("a@b.com", "password"));
    let (state, action) = login(
        state,
        LoginEvent::CredentialsLookedUp(Ok(Some((9, "not a digest".to_string())))),
    );
    assert!(matches!(state, LoginState::Done));
    match error_of(action) {
        AppError::HttpError(status, detail) => {
            assert_eq!(status, 500);
            assert_eq!(detail, "Failed to verify password");
        }
        other => panic!("unexpected error {:?}", other),
    }
}

#[test]
fn login_store_complaint_is_internal() {
    let state = awaiting_credentials(credentials("a@b.com", "password"));
    let (_, action) = login(state, LoginEvent::CredentialsLookedUp(Err("timeout".to_string())));
    match error_of(action) {
        AppError::Internal(detail) => assert_eq!(detail, "timeout"),
        other => panic!("unexpected error {:?}", other),
    }
}

#[test]
fn login_unbound_session_is_an_error() {
    let (_, action) =
        login(LoginState::AwaitingSession { user_id: 9 }, LoginEvent::SessionBound(false));
    match error_of(action) {
        AppError::HttpError(status, detail) => {
            assert_eq!(status, 500);
            assert_eq!(detail, "Failed to set session");
        }
        other => panic!("unexpected error {:?}", other),
    }
}

#[test]
fn login_verified_for_each_outcome() {
    let (state, action) = login_verified(5, Ok(true));
    assert!(matches!(state, LoginState::AwaitingSession { user_id: 5 }));
    assert!(matches!(action, AuthAction::BindSession { user_id: 5 }));

    let (state, action) = login_verified(5, Ok(false));
    assert!(matches!(state, LoginState::Done));
    assert_eq!(response_of(action).message, "Invalid credentials");

    let (state, action) =
        login_verified(5, Err(AppError::HttpError(500, "Failed to verify password".to_string())));
    assert!(matches!(state, LoginState::Done));
    assert!(matches!(error_of(action), AppError::HttpError(500, _)));
}

#[test]
fn login_rejects_events_out_of_turn() {
    let (state, action) = login(LoginState::Idle, LoginEvent::SessionBound(true));
    assert!(matches!(state, LoginState::Done));
    assert!(matches!(error_of(action), AppError::Internal(_)));
    let (state, action) =
        login(LoginState::Done, LoginEvent::Submitted(credentials("a@b.com", "password")));
    assert!(matches!(state, LoginState::Done));
    assert!(matches!(error_of(action), AppError::Internal(_)));
}

fn run_logout(session: &mut Session) -> AuthResponse {
    let (state, action) = logout(LogoutState::Idle, LogoutEvent::Submitted);
    assert_eq!(state, LogoutState::AwaitingFlush);
    assert!(matches!(action, AuthAction::FlushSession));
    perform(session, &action);
    let (state, action) = logout(state, LogoutEvent::SessionFlushed(true));
    assert_eq!(state, LogoutState::Done);
    perform(session, &action);
    response_of(action)
}

#[test]
fn logout_twice_then_check() {
    let mut session = Session::new();
    session.insert(11);
    assert!(check_auth(&session).success);
    let first = run_logout(&mut session);
    let second = run_logout(&mut session);
    for r in [first, second] {
        assert_eq!(r.success, true);
        assert_eq!(r.message, "Logged out successfully");
        assert_eq!(r.user_id, None);
    }
    let probe = check_auth(&session);
    assert_eq!(probe.success, false);
    assert_eq!(probe.message, "Not authenticated");
    assert_eq!(probe.user_id, None);
}

#[test]
fn logout_of_an_unbound_session_succeeds() {
    let mut session = Session::new();
    let r = run_logout(&mut session);
    assert!(r.success);
    assert_eq!(session.get(), None);
}

#[test]
fn logout_that_cannot_flush_is_an_error() {
    let (state, action) = logout(LogoutState::AwaitingFlush, LogoutEvent::SessionFlushed(false));
    assert_eq!(state, LogoutState::Done);
    match error_of(action) {
        AppError::HttpError(status, detail) => {
            assert_eq!(status, 500);
            assert_eq!(detail, "Failed to clear session");
        }
        other => panic!("unexpected error {:?}", other),
    }
}

#[test]
fn logout_rejects_events_out_of_turn() {
    let (state, action) = logout(LogoutState::Idle, LogoutEvent::SessionFlushed(true));
    assert_eq!(state, LogoutState::Done);
    assert!(matches!(error_of(action), AppError::Internal(_)));
    let (state, action) = logout(LogoutState::Done, LogoutEvent::Submitted);
    assert_eq!(state, LogoutState::Done);
    assert!(matches!(error_of(action), AppError::Internal(_)));
}

#[test]
fn check_of_an_unbound_session_is_a_refusal() {
    let r = check_auth(&Session::new());
    assert_eq!(r.success, false);
    assert_eq!(r.message, "Not authenticated");
    assert_eq!(r.user_id, None);
}

#[test]
fn require_of_an_unbound_session_is_unauthorized() {
    match require_auth(&Session::new()) {
        Err(AppError::HttpError(status, detail)) => {
            assert_eq!(status, 401);
            assert_eq!(detail, "Authentication required");
        }
        other => panic!("unexpected result {:?}", other),
    }
}

#[test]
fn require_of_a_bound_session_gives_the_user() {
    let mut session = Session::new();
    session.insert(-4);
    assert_eq!(require_auth(&session).ok(), Some(-4));
    session.insert(8);
    assert_eq!(require_auth(&session).ok(), Some(8));
    session.flush();
    assert!(require_auth(&session).is_err());
}

#[test]
fn perform_touches_the_session_only_on_session_actions() {
    let mut session = Session::new();
    perform(&mut session, &AuthAction::BindSession { user_id: 2 });
    assert_eq!(session.get(), Some(2));
    perform(&mut session, &AuthAction::FindUser { email: "a@b.com".to_string() });
    perform(&mut session, &AuthAction::Respond(failure("no")));
    perform(&mut session, &AuthAction::Fail(AppError::Internal("no".to_string())));
    assert_eq!(session.get(), Some(2));
    perform(&mut session, &AuthAction::FlushSession);
    assert_eq!(session.get(), None);
}

#[test]
fn payload_builders() {
    let no = failure("nope");
    assert_eq!((no.success, no.message.as_str(), no.user_id), (false, "nope", None));
    let yes = success_for("fine", 3);
    assert_eq!((yes.success, yes.message.as_str(), yes.user_id), (true, "fine", Some(3)));
}

#[test]
fn errors_are_answered_with_status_and_body() {
    let (status, body) = AppError::HttpError(401, "Authentication required".to_string()).into_response();
    assert_eq!(status, 401);
    assert_eq!(body, "Error: Authentication required");
    let (status, body) = AppError::Internal("boom".to_string()).into_response();
    assert_eq!(status, 500);
    assert_eq!(body, "Internal Server Error: boom");
    match AppError::from("lost".to_string()) {
        AppError::Internal(detail) => assert_eq!(detail, "lost"),
        other => panic!("unexpected error {:?}", other),
    }
}
