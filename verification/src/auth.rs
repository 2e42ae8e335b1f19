//! Registration, login, logout and the two probes of a session.
//!
//! Registration, login and logout talk to the credential store and to the
//! session layer in between their decisions. Each of them is a machine: it is
//! handed its state and the event that arrived, and answers with the next
//! state and the action to perform. Whoever runs it performs the action and
//! comes back with the event that tells how it went.

use crate::error::{AppError, AppErrorView, INTERNAL_SERVER_ERROR, UNAUTHORIZED};
use crate::password::{
    bcrypt_answer, hash_failure, hash_password, password_matches, verification, verified_view,
    verify_password,
};
use crate::session::Session;
use crate::structs::{
    opt_text, AuthResponse, AuthResponseView, LoginRequest, LoginRequestView, NewUser, NewUserView,
};
use crate::text::{contains_char, has_char, is_blank, is_blank_text};
use vstd::prelude::*;
use vstd::string::*;
use vstd::utf8::encode_utf8;

verus! {

/// The least length of a password, in characters.
pub const MIN_PASSWORD_LEN: usize = 6;

/// What a machine asks for: work on the credential store or on the session, or
/// the end of the request.
#[derive(Debug, Clone)]
pub enum AuthAction {
    /// Look for a user with this email; answer with the user's id.
    FindUser { email: String },
    /// Look for a user with this email; answer with the id and password hash.
    FindCredentials { email: String },
    /// Store a new user; answer with the id the store gave it.
    InsertUser { email: String, password_hash: String, name: Option<String> },
    /// Bind the session to this user.
    BindSession { user_id: i32 },
    /// Empty the session.
    FlushSession,
    /// Answer the request with this payload.
    Respond(AuthResponse),
    /// End the request with this error.
    Fail(AppError),
}

/// The value of an [`AuthAction`].
pub enum AuthActionView {
    FindUser { email: Seq<char> },
    FindCredentials { email: Seq<char> },
    InsertUser { email: Seq<char>, password_hash: Seq<char>, name: Option<Seq<char>> },
    BindSession { user_id: i32 },
    FlushSession,
    Respond(AuthResponseView),
    Fail(AppErrorView),
}

impl View for AuthAction {
    type V = AuthActionView;

    open spec fn view(&self) -> AuthActionView {
        match self {
            AuthAction::FindUser { email } => AuthActionView::FindUser { email: email@ },
            AuthAction::FindCredentials { email } => AuthActionView::FindCredentials {
                email: email@,
            },
            AuthAction::InsertUser { email, password_hash, name } => AuthActionView::InsertUser {
                email: email@,
                password_hash: password_hash@,
                name: opt_text(*name),
            },
            AuthAction::BindSession { user_id } => AuthActionView::BindSession {
                user_id: *user_id,
            },
            AuthAction::FlushSession => AuthActionView::FlushSession,
            AuthAction::Respond(response) => AuthActionView::Respond(response@),
            AuthAction::Fail(error) => AuthActionView::Fail(error@),
        }
    }
}

/// What the session holds once `action` has been performed on it.
pub open spec fn session_after(session: Session, action: AuthActionView) -> Session {
    match action {
        AuthActionView::BindSession { user_id } => Session { user_id: Some(user_id) },
        AuthActionView::FlushSession => Session { user_id: None },
        _ => session,
    }
}

/// Performs on a session record what `action` asks of the session. Actions
/// that ask nothing of it leave it as it is.
pub fn perform(session: &mut Session, action: &AuthAction)
    ensures
        *final(session) == session_after(*old(session), action@),
{
    match action {
        AuthAction::BindSession { user_id } => session.insert(*user_id),
        AuthAction::FlushSession => session.flush(),
        _ => {},
    }
}

/// The payload of a refusal.
pub fn failure(message: &str) -> (r: AuthResponse)
    ensures
        r@ == AuthResponse::failure(message@),
{
    AuthResponse { success: false, message: message.to_owned(), user_id: None }
}

/// The payload of a success that names a user.
pub fn success_for(message: &str, user_id: i32) -> (r: AuthResponse)
    ensures
        r@ == AuthResponse::success_for(message@, user_id),
{
    AuthResponse { success: true, message: message.to_owned(), user_id: Some(user_id) }
}

/// The error of a request that went through a state it was not in.
pub open spec fn unexpected_event() -> AppErrorView {
    AppErrorView::Internal("Unexpected event"@)
}

/// The error that reports that the session could not be bound.
pub open spec fn session_failure() -> AppErrorView {
    AppErrorView::HttpError(INTERNAL_SERVER_ERROR, "Failed to set session"@)
}

/// The error that reports that the session could not be emptied.
pub open spec fn flush_failure() -> AppErrorView {
    AppErrorView::HttpError(INTERNAL_SERVER_ERROR, "Failed to clear session"@)
}

/// The error of a request that needs an identity and carries none.
pub open spec fn unauthorized() -> AppErrorView {
    AppErrorView::HttpError(UNAUTHORIZED, "Authentication required"@)
}

fn fail_unexpected() -> (r: AuthAction)
    ensures
        r@ == AuthActionView::Fail(unexpected_event()),
{
    AuthAction::Fail(AppError::Internal("Unexpected event".to_owned()))
}

fn fail_session() -> (r: AuthAction)
    ensures
        r@ == AuthActionView::Fail(session_failure()),
{
    AuthAction::Fail(
        AppError::HttpError(INTERNAL_SERVER_ERROR, "Failed to set session".to_owned()),
    )
}

/// What the store answered to a search for a user: the id, nothing, or the
/// store's complaint.
pub open spec fn found_view(found: Result<Option<i32>, String>) -> Result<Option<i32>, Seq<char>> {
    match found {
        Ok(id) => Ok(id),
        Err(complaint) => Err(complaint@),
    }
}

/// What the store answered to an insertion: the new id, or its complaint.
pub open spec fn inserted_view(inserted: Result<i32, String>) -> Result<i32, Seq<char>> {
    match inserted {
        Ok(id) => Ok(id),
        Err(complaint) => Err(complaint@),
    }
}

/// What the store answered to a search for credentials: the id and the
/// password hash, nothing, or its complaint.
pub open spec fn credentials_view(found: Result<Option<(i32, String)>, String>) -> Result<
    Option<(i32, Seq<char>)>,
    Seq<char>,
> {
    match found {
        Ok(Some((id, digest))) => Ok(Some((id, digest@))),
        Ok(None) => Ok(None),
        Err(complaint) => Err(complaint@),
    }
}

// ---------------------------------------------------------------------------
// Registration
// ---------------------------------------------------------------------------

/// Why a registration form is refused, if it is: the email must hold an `@`,
/// the password must be six characters or longer, and a name, where one is
/// given, must hold more than white space. The first rule broken names the
/// reason.
pub open spec fn validation_failure(form: NewUserView) -> Option<Seq<char>> {
    if !has_char(form.email, '@') || form.email.len() == 0 {
        Some("Invalid email format"@)
    } else if form.password.len() < MIN_PASSWORD_LEN {
        Some("Password must be at least 6 characters long"@)
    } else if form.name matches Some(name) && is_blank(name) {
        Some("Name cannot be empty"@)
    } else {
        None
    }
}

/// Checks a registration form; `None` says that it is in order.
pub fn validate(form: &NewUser) -> (r: Option<&'static str>)
    ensures
        match r {
            Some(message) => validation_failure(form@) == Some(message@),
            None => validation_failure(form@) is None,
        },
{
    if !contains_char(form.email.as_str(), '@') || form.email.as_str().is_empty() {
        return Some("Invalid email format");
    }
    if form.password.as_str().unicode_len() < MIN_PASSWORD_LEN {
        return Some("Password must be at least 6 characters long");
    }
    match &form.name {
        Some(name) => {
            if is_blank_text(name.as_str()) {
                return Some("Name cannot be empty");
            }
        },
        None => {},
    }
    None
}

/// Where a registration stands.
#[derive(Debug, Clone)]
pub enum RegisterState {
    /// Nothing has arrived yet.
    Idle,
    /// The form was in order; the store is being searched for its email.
    AwaitingLookup { form: NewUser },
    /// The email was free and the password is hashed; the store is inserting.
    AwaitingInsert,
    /// The user is stored under `user_id`; the session is being bound to it.
    AwaitingSession { user_id: i32 },
    /// The request has been answered or has failed.
    Done,
}

/// The value of a [`RegisterState`].
pub enum RegisterStateView {
    Idle,
    AwaitingLookup { form: NewUserView },
    AwaitingInsert,
    AwaitingSession { user_id: i32 },
    Done,
}

impl View for RegisterState {
    type V = RegisterStateView;

    open spec fn view(&self) -> RegisterStateView {
        match self {
            RegisterState::Idle => RegisterStateView::Idle,
            RegisterState::AwaitingLookup { form } => RegisterStateView::AwaitingLookup {
                form: form@,
            },
            RegisterState::AwaitingInsert => RegisterStateView::AwaitingInsert,
            RegisterState::AwaitingSession { user_id } => RegisterStateView::AwaitingSession {
                user_id: *user_id,
            },
            RegisterState::Done => RegisterStateView::Done,
        }
    }
}

/// What can happen to a registration.
#[derive(Debug)]
pub enum RegisterEvent {
    /// The form arrived.
    Submitted(NewUser),
    /// The store answered the search for the email.
    UserLookedUp(Result<Option<i32>, String>),
    /// The store answered the insertion.
    UserInserted(Result<i32, String>),
    /// The session layer bound the session, or could not.
    SessionBound(bool),
}

/// The value of a [`RegisterEvent`].
pub enum RegisterEventView {
    Submitted(NewUserView),
    UserLookedUp(Result<Option<i32>, Seq<char>>),
    UserInserted(Result<i32, Seq<char>>),
    SessionBound(bool),
}

impl View for RegisterEvent {
    type V = RegisterEventView;

    open spec fn view(&self) -> RegisterEventView {
        match self {
            RegisterEvent::Submitted(form) => RegisterEventView::Submitted(form@),
            RegisterEvent::UserLookedUp(found) => RegisterEventView::UserLookedUp(
                found_view(*found),
            ),
            RegisterEvent::UserInserted(inserted) => RegisterEventView::UserInserted(
                inserted_view(*inserted),
            ),
            RegisterEvent::SessionBound(bound) => RegisterEventView::SessionBound(*bound),
        }
    }
}

/// What registration does once the email has turned out to be free and the
/// password has been hashed, or could not be: it asks the store to insert the
/// user under the digest, or fails.
pub open spec fn register_after_hash(form: NewUserView, digest: Option<Seq<char>>) -> (
    RegisterStateView,
    AuthActionView,
) {
    match digest {
        Some(password_hash) => (
            RegisterStateView::AwaitingInsert,
            AuthActionView::InsertUser { email: form.email, password_hash, name: form.name },
        ),
        None => (RegisterStateView::Done, AuthActionView::Fail(hash_failure())),
    }
}

/// The step of a registration: the next state and the action, for a state and
/// an event. `digest` is what hashing the password gives at the one step that
/// hashes; no other step looks at it.
///
/// A form that breaks a rule is answered at once with the reason. A form in
/// order has its email searched for. An email that is found is refused; one
/// that is free has the password hashed and the user inserted. The id that the
/// store gives is bound to the session, and then the request is answered with
/// it. A complaint of the store is an internal error. An event that the state
/// does not wait for ends the request with an error.
pub open spec fn register_next(
    state: RegisterStateView,
    event: RegisterEventView,
    digest: Option<Seq<char>>,
) -> (RegisterStateView, AuthActionView) {
    match (state, event) {
        (RegisterStateView::Idle, RegisterEventView::Submitted(form)) => {
            match validation_failure(form) {
                Some(reason) => (
                    RegisterStateView::Done,
                    AuthActionView::Respond(AuthResponse::failure(reason)),
                ),
                None => (
                    RegisterStateView::AwaitingLookup { form },
                    AuthActionView::FindUser { email: form.email },
                ),
            }
        },
        (RegisterStateView::AwaitingLookup { form }, RegisterEventView::UserLookedUp(found)) => {
            match found {
                Err(complaint) => (
                    RegisterStateView::Done,
                    AuthActionView::Fail(AppErrorView::Internal(complaint)),
                ),
                Ok(Some(_)) => (
                    RegisterStateView::Done,
                    AuthActionView::Respond(AuthResponse::failure("Email already registered"@)),
                ),
                Ok(None) => register_after_hash(form, digest),
            }
        },
        (RegisterStateView::AwaitingInsert, RegisterEventView::UserInserted(inserted)) => {
            match inserted {
                Err(complaint) => (
                    RegisterStateView::Done,
                    AuthActionView::Fail(AppErrorView::Internal(complaint)),
                ),
                Ok(user_id) => (
                    RegisterStateView::AwaitingSession { user_id },
                    AuthActionView::BindSession { user_id },
                ),
            }
        },
        (RegisterStateView::AwaitingSession { user_id }, RegisterEventView::SessionBound(bound)) => {
            if bound {
                (
                    RegisterStateView::Done,
                    AuthActionView::Respond(
                        AuthResponse::success_for("Registration successful"@, user_id),
                    ),
                )
            } else {
                (RegisterStateView::Done, AuthActionView::Fail(session_failure()))
            }
        },
        _ => (RegisterStateView::Done, AuthActionView::Fail(unexpected_event())),
    }
}

/// Whether `digest` can be what hashing gave in `state`: where the state holds
/// a form, a digest matches the form's password.
pub open spec fn digest_fits(state: RegisterStateView, digest: Option<Seq<char>>) -> bool {
    match (state, digest) {
        (RegisterStateView::AwaitingLookup { form }, Some(d)) => password_matches(form.password, d),
        _ => true,
    }
}

/// The digest in what hashing returned.
pub open spec fn digest_of(hashed: Result<String, AppError>) -> Option<Seq<char>> {
    match hashed {
        Ok(d) => Some(d@),
        Err(_) => None,
    }
}

/// Goes on with a registration whose email is free, given what hashing the
/// password returned.
pub fn register_hashed(form: NewUser, hashed: Result<String, AppError>) -> (r: (
    RegisterState,
    AuthAction,
))
    ensures
        (r.0@, r.1@) == register_after_hash(form@, digest_of(hashed)),
{
    match hashed {
        Ok(password_hash) => (
            RegisterState::AwaitingInsert,
            AuthAction::InsertUser { email: form.email, password_hash, name: form.name },
        ),
        Err(_) => (
            RegisterState::Done,
            AuthAction::Fail(
                AppError::HttpError(INTERNAL_SERVER_ERROR, "Failed to hash password".to_owned()),
            ),
        ),
    }
}

/// One step of a registration. The result is the step that `register_next`
/// describes, for the digest that hashing gave; wherever a digest came back,
/// it matches the password.
pub fn register(state: RegisterState, event: RegisterEvent) -> (r: (RegisterState, AuthAction))
    ensures
        exists|digest: Option<Seq<char>>|
            digest_fits(state@, digest) && (r.0@, r.1@) == #[trigger] register_next(
                state@,
                event@,
                digest,
            ),
{
    let ghost none: Option<Seq<char>> = None;
    match state {
        RegisterState::Idle => match event {
            RegisterEvent::Submitted(form) => {
                let r = match validate(&form) {
                    Some(reason) => (RegisterState::Done, AuthAction::Respond(failure(reason))),
                    None => {
                        let email = form.email.clone();
                        (RegisterState::AwaitingLookup { form }, AuthAction::FindUser { email })
                    },
                };
                assert((r.0@, r.1@) == register_next(state@, event@, none));
                r
            },
            _ => {
                let r = (RegisterState::Done, fail_unexpected());
                assert((r.0@, r.1@) == register_next(state@, event@, none));
                r
            },
        },
        RegisterState::AwaitingLookup { form } => match event {
            RegisterEvent::UserLookedUp(found) => match found {
                Err(complaint) => {
                    let r = (RegisterState::Done, AuthAction::Fail(AppError::Internal(complaint)));
                    assert((r.0@, r.1@) == register_next(state@, event@, none));
                    r
                },
                Ok(Some(_)) => {
                    let r = (
                        RegisterState::Done,
                        AuthAction::Respond(failure("Email already registered")),
                    );
                    assert((r.0@, r.1@) == register_next(state@, event@, none));
                    r
                },
                Ok(None) => {
                    let hashed = hash_password(form.password.as_str());
                    let ghost digest = digest_of(hashed);
                    let r = register_hashed(form, hashed);
                    assert(digest_fits(state@, digest));
                    assert((r.0@, r.1@) == register_next(state@, event@, digest));
                    r
                },
            },
            _ => {
                let r = (RegisterState::Done, fail_unexpected());
                assert((r.0@, r.1@) == register_next(state@, event@, none));
                r
            },
        },
        RegisterState::AwaitingInsert => match event {
            RegisterEvent::UserInserted(inserted) => {
                let r = match inserted {
                    Err(complaint) => (
                        RegisterState::Done,
                        AuthAction::Fail(AppError::Internal(complaint)),
                    ),
                    Ok(user_id) => (
                        RegisterState::AwaitingSession { user_id },
                        AuthAction::BindSession { user_id },
                    ),
                };
                assert((r.0@, r.1@) == register_next(state@, event@, none));
                r
            },
            _ => {
                let r = (RegisterState::Done, fail_unexpected());
                assert((r.0@, r.1@) == register_next(state@, event@, none));
                r
            },
        },
        RegisterState::AwaitingSession { user_id } => match event {
            RegisterEvent::SessionBound(bound) => {
                let r = if bound {
                    (
                        RegisterState::Done,
                        AuthAction::Respond(success_for("Registration successful", user_id)),
                    )
                } else {
                    (RegisterState::Done, fail_session())
                };
                assert((r.0@, r.1@) == register_next(state@, event@, none));
                r
            },
            _ => {
                let r = (RegisterState::Done, fail_unexpected());
                assert((r.0@, r.1@) == register_next(state@, event@, none));
                r
            },
        },
        RegisterState::Done => {
            let r = (RegisterState::Done, fail_unexpected());
            assert((r.0@, r.1@) == register_next(state@, event@, none));
            r
        },
    }
}

// ---------------------------------------------------------------------------
// Login
// ---------------------------------------------------------------------------

/// Where a login stands.
#[derive(Debug, Clone)]
pub enum LoginState {
    /// Nothing has arrived yet.
    Idle,
    /// The store is being searched for the credentials of the form's email.
    AwaitingCredentials { password: String },
    /// The password was right; the session is being bound to `user_id`.
    AwaitingSession { user_id: i32 },
    /// The request has been answered or has failed.
    Done,
}

/// The value of a [`LoginState`].
pub enum LoginStateView {
    Idle,
    AwaitingCredentials { password: Seq<char> },
    AwaitingSession { user_id: i32 },
    Done,
}

impl View for LoginState {
    type V = LoginStateView;

    open spec fn view(&self) -> LoginStateView {
        match self {
            LoginState::Idle => LoginStateView::Idle,
            LoginState::AwaitingCredentials { password } => LoginStateView::AwaitingCredentials {
                password: password@,
            },
            LoginState::AwaitingSession { user_id } => LoginStateView::AwaitingSession {
                user_id: *user_id,
            },
            LoginState::Done => LoginStateView::Done,
        }
    }
}

/// What can happen to a login.
#[derive(Debug)]
pub enum LoginEvent {
    /// The form arrived.
    Submitted(LoginRequest),
    /// The store answered the search for the credentials.
    CredentialsLookedUp(Result<Option<(i32, String)>, String>),
    /// The session layer bound the session, or could not.
    SessionBound(bool),
}

/// The value of a [`LoginEvent`].
pub enum LoginEventView {
    Submitted(LoginRequestView),
    CredentialsLookedUp(Result<Option<(i32, Seq<char>)>, Seq<char>>),
    SessionBound(bool),
}

impl View for LoginEvent {
    type V = LoginEventView;

    open spec fn view(&self) -> LoginEventView {
        match self {
            LoginEvent::Submitted(form) => LoginEventView::Submitted(form@),
            LoginEvent::CredentialsLookedUp(found) => LoginEventView::CredentialsLookedUp(
                credentials_view(*found),
            ),
            LoginEvent::SessionBound(bound) => LoginEventView::SessionBound(*bound),
        }
    }
}

/// The payload that refuses a login. It is the same whether the email is
/// unknown or the password is wrong.
pub open spec fn invalid_credentials() -> AuthResponseView {
    AuthResponse::failure("Invalid credentials"@)
}

/// What login does once the password has been held against the stored digest:
/// a right password has the session bound to the user, a wrong one is refused,
/// and a verification that could not run is an error.
pub open spec fn login_after_verify(user_id: i32, verified: Result<bool, AppErrorView>) -> (
    LoginStateView,
    AuthActionView,
) {
    match verified {
        Ok(true) => (
            LoginStateView::AwaitingSession { user_id },
            AuthActionView::BindSession { user_id },
        ),
        Ok(false) => (LoginStateView::Done, AuthActionView::Respond(invalid_credentials())),
        Err(error) => (LoginStateView::Done, AuthActionView::Fail(error)),
    }
}

/// The step of a login: the next state and the action, for a state and an
/// event.
///
/// The form's email has its credentials searched for. Where there are none, or
/// the password does not match the stored digest, the login is refused with
/// one and the same payload. Where it matches, the session is bound to the
/// user, and then the request is answered with the user's id.
pub open spec fn login_next(state: LoginStateView, event: LoginEventView) -> (
    LoginStateView,
    AuthActionView,
) {
    match (state, event) {
        (LoginStateView::Idle, LoginEventView::Submitted(form)) => (
            LoginStateView::AwaitingCredentials { password: form.password },
            AuthActionView::FindCredentials { email: form.email },
        ),
        (
            LoginStateView::AwaitingCredentials { password },
            LoginEventView::CredentialsLookedUp(found),
        ) => {
            match found {
                Err(complaint) => (
                    LoginStateView::Done,
                    AuthActionView::Fail(AppErrorView::Internal(complaint)),
                ),
                Ok(None) => (LoginStateView::Done, AuthActionView::Respond(invalid_credentials())),
                Ok(Some((user_id, digest))) => login_after_verify(
                    user_id,
                    verification(bcrypt_answer(encode_utf8(password), digest)),
                ),
            }
        },
        (LoginStateView::AwaitingSession { user_id }, LoginEventView::SessionBound(bound)) => {
            if bound {
                (
                    LoginStateView::Done,
                    AuthActionView::Respond(AuthResponse::success_for("Login successful"@, user_id)),
                )
            } else {
                (LoginStateView::Done, AuthActionView::Fail(session_failure()))
            }
        },
        _ => (LoginStateView::Done, AuthActionView::Fail(unexpected_event())),
    }
}

/// Goes on with a login whose credentials were found, given what holding the
/// password against the digest returned.
pub fn login_verified(user_id: i32, verified: Result<bool, AppError>) -> (r: (
    LoginState,
    AuthAction,
))
    ensures
        (r.0@, r.1@) == login_after_verify(user_id, verified_view(verified)),
{
    match verified {
        Ok(true) => (LoginState::AwaitingSession { user_id }, AuthAction::BindSession { user_id }),
        Ok(false) => (LoginState::Done, AuthAction::Respond(failure("Invalid credentials"))),
        Err(error) => (LoginState::Done, AuthAction::Fail(error)),
    }
}

/// One step of a login: exactly the step that `login_next` describes.
pub fn login(state: LoginState, event: LoginEvent) -> (r: (LoginState, AuthAction))
    ensures
        (r.0@, r.1@) == login_next(state@, event@),
{
    match state {
        LoginState::Idle => match event {
            LoginEvent::Submitted(form) => (
                LoginState::AwaitingCredentials { password: form.password },
                AuthAction::FindCredentials { email: form.email },
            ),
            _ => (LoginState::Done, fail_unexpected()),
        },
        LoginState::AwaitingCredentials { password } => match event {
            LoginEvent::CredentialsLookedUp(found) => match found {
                Err(complaint) => (LoginState::Done, AuthAction::Fail(AppError::Internal(complaint))),
                Ok(None) => (LoginState::Done, AuthAction::Respond(failure("Invalid credentials"))),
                Ok(Some((user_id, digest))) => {
                    let verified = verify_password(password.as_str(), digest.as_str());
                    login_verified(user_id, verified)
                },
            },
            _ => (LoginState::Done, fail_unexpected()),
        },
        LoginState::AwaitingSession { user_id } => match event {
            LoginEvent::SessionBound(bound) => {
                if bound {
                    (
                        LoginState::Done,
                        AuthAction::Respond(success_for("Login successful", user_id)),
                    )
                } else {
                    (LoginState::Done, fail_session())
                }
            },
            _ => (LoginState::Done, fail_unexpected()),
        },
        LoginState::Done => (LoginState::Done, fail_unexpected()),
    }
}

// ---------------------------------------------------------------------------
// Logout
// ---------------------------------------------------------------------------

/// Where a logout stands.
#[derive(Debug, Clone, Copy, PartialEq, Eq, Structural)]
pub enum LogoutState {
    /// Nothing has arrived yet.
    Idle,
    /// The session is being emptied.
    AwaitingFlush,
    /// The request has been answered or has failed.
    Done,
}

/// What can happen to a logout.
#[derive(Debug, Clone, Copy, PartialEq, Eq, Structural)]
pub enum LogoutEvent {
    /// The request arrived.
    Submitted,
    /// The session layer emptied the session, or could not.
    SessionFlushed(bool),
}

/// The payload that answers a logout.
pub open spec fn logged_out() -> AuthResponseView {
    AuthResponseView { success: true, message: "Logged out successfully"@, user_id: None }
}

/// The step of a logout: the session is emptied, whatever it held, and then
/// the request is answered with success.
pub open spec fn logout_next(state: LogoutState, event: LogoutEvent) -> (
    LogoutState,
    AuthActionView,
) {
    match (state, event) {
        (LogoutState::Idle, LogoutEvent::Submitted) => (
            LogoutState::AwaitingFlush,
            AuthActionView::FlushSession,
        ),
        (LogoutState::AwaitingFlush, LogoutEvent::SessionFlushed(flushed)) => {
            if flushed {
                (LogoutState::Done, AuthActionView::Respond(logged_out()))
            } else {
                (LogoutState::Done, AuthActionView::Fail(flush_failure()))
            }
        },
        _ => (LogoutState::Done, AuthActionView::Fail(unexpected_event())),
    }
}

/// One step of a logout: exactly the step that `logout_next` describes.
pub fn logout(state: LogoutState, event: LogoutEvent) -> (r: (LogoutState, AuthAction))
    ensures
        (r.0, r.1@) == logout_next(state, event),
{
    match state {
        LogoutState::Idle => match event {
            LogoutEvent::Submitted => (LogoutState::AwaitingFlush, AuthAction::FlushSession),
            _ => (LogoutState::Done, fail_unexpected()),
        },
        LogoutState::AwaitingFlush => match event {
            LogoutEvent::SessionFlushed(flushed) => {
                if flushed {
                    (
                        LogoutState::Done,
                        AuthAction::Respond(
                            AuthResponse {
                                success: true,
                                message: "Logged out successfully".to_owned(),
                                user_id: None,
                            },
                        ),
                    )
                } else {
                    (
                        LogoutState::Done,
                        AuthAction::Fail(
                            AppError::HttpError(
                                INTERNAL_SERVER_ERROR,
                                "Failed to clear session".to_owned(),
                            ),
                        ),
                    )
                }
            },
            _ => (LogoutState::Done, fail_unexpected()),
        },
        LogoutState::Done => (LogoutState::Done, fail_unexpected()),
    }
}

// ---------------------------------------------------------------------------
// The probes
// ---------------------------------------------------------------------------

/// What probing a session answers: success with the user it is bound to, or a
/// refusal where it is bound to nobody.
pub open spec fn check_result(session: Session) -> AuthResponseView {
    match session.user_id {
        Some(user_id) => AuthResponse::success_for("Authenticated"@, user_id),
        None => AuthResponse::failure("Not authenticated"@),
    }
}

/// What a protected resource is told: the user the session is bound to, or the error of a
/// request without identity.
pub open spec fn require_result(session: Session) -> Result<i32, AppErrorView> {
    match session.user_id {
        Some(user_id) => Ok(user_id),
        None => Err(unauthorized()),
    }
}

/// Probes a session. Never an error: an unbound session is answered with a
/// refusal.
pub fn check_auth(session: &Session) -> (r: AuthResponse)
    ensures
        r@ == check_result(*session),
{
    match session.get() {
        Some(user_id) => success_for("Authenticated", user_id),
        None => failure("Not authenticated"),
    }
}

/// Stands before every protected resource: the user the session is bound
/// to, or an error that ends the request.
pub fn require_auth(session: &Session) -> (r: Result<i32, AppError>)
    ensures
        match r {
            Ok(user_id) => require_result(*session) == Ok::<i32, AppErrorView>(user_id),
            Err(error) => require_result(*session) == Err::<i32, AppErrorView>(error@),
        },
{
    match session.get() {
        Some(user_id) => Ok(user_id),
        None => Err(AppError::HttpError(UNAUTHORIZED, "Authentication required".to_owned())),
    }
}

// ---------------------------------------------------------------------------
// What holds of the machines together
// ---------------------------------------------------------------------------

/// The session after a logout that the session layer carried out, and the
/// action that ends it.
pub open spec fn logout_run(session: Session) -> (Session, AuthActionView) {
    let asked = logout_next(LogoutState::Idle, LogoutEvent::Submitted);
    let answered = logout_next(asked.0, LogoutEvent::SessionFlushed(true));
    (session_after(session_after(session, asked.1), answered.1), answered.1)
}

/// A registration that goes through binds the session. For a form in order
/// whose email is free: once the store has given the user an id and the
/// session layer has bound it, the request is answered with success and that
/// id, and a probe of the session answers success with the same id.
pub proof fn registration_binds_session(
    form: NewUserView,
    digest: Seq<char>,
    user_id: i32,
    session: Session,
)
    requires
        validation_failure(form) is None,
    ensures
        ({
            let submitted = register_next(
                RegisterStateView::Idle,
                RegisterEventView::Submitted(form),
                Some(digest),
            );
            let looked_up = register_next(
                submitted.0,
                RegisterEventView::UserLookedUp(Ok(None)),
                Some(digest),
            );
            let inserted = register_next(
                looked_up.0,
                RegisterEventView::UserInserted(Ok(user_id)),
                Some(digest),
            );
            let bound = register_next(
                inserted.0,
                RegisterEventView::SessionBound(true),
                Some(digest),
            );
            let held = session_after(
                session_after(
                    session_after(session_after(session, submitted.1), looked_up.1),
                    inserted.1,
                ),
                bound.1,
            );
            &&& submitted.1 == AuthActionView::FindUser { email: form.email }
            &&& looked_up.1 == AuthActionView::InsertUser {
                email: form.email,
                password_hash: digest,
                name: form.name,
            }
            &&& inserted.1 == AuthActionView::BindSession { user_id }
            &&& bound.0 == RegisterStateView::Done
            &&& bound.1 == AuthActionView::Respond(
                AuthResponse::success_for("Registration successful"@, user_id),
            )
            &&& held.user_id == Some(user_id)
            &&& check_result(held) == AuthResponse::success_for("Authenticated"@, user_id)
        }),
{
}

/// An email that the store already holds is refused. Whatever the password
/// and the name of a form in order, and whatever hashing would give, the
/// request is answered with the refusal `Email already registered`, and
/// nothing is inserted.
pub proof fn taken_email_is_refused(form: NewUserView, existing: i32, digest: Option<Seq<char>>)
    requires
        validation_failure(form) is None,
    ensures
        ({
            let submitted = register_next(
                RegisterStateView::Idle,
                RegisterEventView::Submitted(form),
                digest,
            );
            let looked_up = register_next(
                submitted.0,
                RegisterEventView::UserLookedUp(Ok(Some(existing))),
                digest,
            );
            &&& submitted.1 == AuthActionView::FindUser { email: form.email }
            &&& looked_up.0 == RegisterStateView::Done
            &&& looked_up.1 == AuthActionView::Respond(
                AuthResponse::failure("Email already registered"@),
            )
        }),
{
}

/// A login with an unknown email and a login with a known email and a wrong
/// password end alike: in the same state, with the same payload.
pub proof fn login_refusals_are_alike(
    unknown: LoginRequestView,
    known: LoginRequestView,
    user_id: i32,
    digest: Seq<char>,
)
    requires
        bcrypt_answer(encode_utf8(known.password), digest) == Some(false),
    ensures
        ({
            let no_user = login_next(
                login_next(LoginStateView::Idle, LoginEventView::Submitted(unknown)).0,
                LoginEventView::CredentialsLookedUp(Ok(None)),
            );
            let wrong_password = login_next(
                login_next(LoginStateView::Idle, LoginEventView::Submitted(known)).0,
                LoginEventView::CredentialsLookedUp(Ok(Some((user_id, digest)))),
            );
            &&& no_user == wrong_password
            &&& no_user.0 == LoginStateView::Done
            &&& no_user.1 == AuthActionView::Respond(invalid_credentials())
        }),
{
}

/// Logging out twice is as good as once. Whatever the session held, each of
/// two logouts in a row is answered with success, and a probe of the session
/// after them is refused.
pub proof fn logout_is_idempotent(session: Session)
    ensures
        ({
            let first = logout_run(session);
            let second = logout_run(first.0);
            &&& first.1 == AuthActionView::Respond(logged_out())
            &&& second.1 == AuthActionView::Respond(logged_out())
            &&& logged_out().success
            &&& first.0 == second.0
            &&& check_result(second.0) == AuthResponse::failure("Not authenticated"@)
            &&& !check_result(second.0).success
        }),
{
}

/// The password a user registered with logs the user in. Where the digest
/// that was stored matches the form's password, a login with that password
/// has the session bound to the user and is answered with the user's id.
pub proof fn registered_password_logs_in(form: LoginRequestView, user_id: i32, digest: Seq<char>)
    requires
        password_matches(form.password, digest),
    ensures
        ({
            let submitted = login_next(LoginStateView::Idle, LoginEventView::Submitted(form));
            let looked_up = login_next(
                submitted.0,
                LoginEventView::CredentialsLookedUp(Ok(Some((user_id, digest)))),
            );
            let bound = login_next(looked_up.0, LoginEventView::SessionBound(true));
            &&& submitted.1 == AuthActionView::FindCredentials { email: form.email }
            &&& looked_up.1 == AuthActionView::BindSession { user_id }
            &&& bound.0 == LoginStateView::Done
            &&& bound.1 == AuthActionView::Respond(
                AuthResponse::success_for("Login successful"@, user_id),
            )
        }),
{
}

/// A login binds the session only behind a password that matched. Whatever
/// the state and the event: where the step asks to bind the session to a
/// user, it is a step of the login that waited for this user's credentials,
/// and the password matches the stored digest.
pub proof fn login_binds_only_after_match(state: LoginStateView, event: LoginEventView)
    requires
        login_next(state, event).1 is BindSession,
    ensures
        state is AwaitingCredentials,
        event matches LoginEventView::CredentialsLookedUp(Ok(Some((user_id, digest))))
            && password_matches(state->password, digest) && login_next(state, event)
            == (
            LoginStateView::AwaitingSession { user_id },
            AuthActionView::BindSession { user_id },
        ),
{
}

/// A registration binds the session only to the user that the store has just
/// inserted, and asks for an insertion only for a form in order whose email
/// the store does not hold.
pub proof fn registration_binds_only_the_inserted(
    state: RegisterStateView,
    event: RegisterEventView,
    digest: Option<Seq<char>>,
)
    ensures
        register_next(state, event, digest).1 matches AuthActionView::BindSession { user_id }
            ==> state is AwaitingInsert && event == RegisterEventView::UserInserted(Ok(user_id)),
        register_next(state, event, digest).1 is InsertUser ==> state is AwaitingLookup && event
            == RegisterEventView::UserLookedUp(Ok(None)),
        register_next(RegisterStateView::Idle, event, digest).0 matches RegisterStateView::AwaitingLookup {
            form,
        } ==> validation_failure(form) is None,
{
}

/// A request ends once. Whatever the event, a machine that is done stays
/// done and reports the event as out of turn.
pub proof fn done_is_final(
    register_event: RegisterEventView,
    digest: Option<Seq<char>>,
    login_event: LoginEventView,
    logout_event: LogoutEvent,
)
    ensures
        register_next(RegisterStateView::Done, register_event, digest) == (
            RegisterStateView::Done,
            AuthActionView::Fail(unexpected_event()),
        ),
        login_next(LoginStateView::Done, login_event) == (
            LoginStateView::Done,
            AuthActionView::Fail(unexpected_event()),
        ),
        logout_next(LogoutState::Done, logout_event) == (
            LogoutState::Done,
            AuthActionView::Fail(unexpected_event()),
        ),
{
}

/// Whether a registration can have come to `state` from the start: a form
/// that is waited on has passed validation.
pub open spec fn register_state_in_order(state: RegisterStateView) -> bool {
    state matches RegisterStateView::AwaitingLookup { form } ==> validation_failure(form) is None
}

/// Only forms in order reach the store. A registration that started idle
/// stays among the states that hold a validated form, and whenever it asks
/// for an insertion, the email holds an `@` and the name, if there is one,
/// holds more than white space.
pub proof fn registration_stores_only_valid_users(
    state: RegisterStateView,
    event: RegisterEventView,
    digest: Option<Seq<char>>,
)
    requires
        register_state_in_order(state),
    ensures
        register_state_in_order(RegisterStateView::Idle),
        register_state_in_order(register_next(state, event, digest).0),
        register_next(state, event, digest).1 matches AuthActionView::InsertUser {
            email,
            password_hash,
            name,
        } ==> has_char(email, '@') && digest == Some(password_hash) && (name matches Some(given)
            ==> !is_blank(given)),
{
}

/// Whether a payload hangs together: a refusal names no user.
pub open spec fn payload_in_order(response: AuthResponseView) -> bool {
    response.user_id is Some ==> response.success
}

/// Whatever the machines and the probe answer hangs together: no refusal
/// names a user, and a registration or a login that succeeds names one.
pub proof fn answers_hang_together(
    register_state: RegisterStateView,
    register_event: RegisterEventView,
    digest: Option<Seq<char>>,
    login_state: LoginStateView,
    login_event: LoginEventView,
    logout_state: LogoutState,
    logout_event: LogoutEvent,
    session: Session,
)
    ensures
        register_next(register_state, register_event, digest).1 matches AuthActionView::Respond(r)
            ==> payload_in_order(r) && (r.success ==> r.user_id is Some),
        login_next(login_state, login_event).1 matches AuthActionView::Respond(r)
            ==> payload_in_order(r) && (r.success ==> r.user_id is Some),
        logout_next(logout_state, logout_event).1 matches AuthActionView::Respond(r)
            ==> payload_in_order(r) && r.success,
        payload_in_order(check_result(session)),
        check_result(session).success <==> session.user_id is Some,
{
}

/// A form that breaks a rule is refused at once. Where the email holds no
/// `@`, or the password has fewer than six characters, or a name is given
/// and holds nothing but white space, the first step answers with a refusal
/// that names no user, and asks nothing of the store or of the session.
pub proof fn invalid_form_is_refused_at_once(
    form: NewUserView,
    digest: Option<Seq<char>>,
    session: Session,
)
    requires
        !has_char(form.email, '@') || form.password.len() < 6 || (form.name matches Some(name)
            && is_blank(name)),
    ensures
        ({
            let step = register_next(
                RegisterStateView::Idle,
                RegisterEventView::Submitted(form),
                digest,
            );
            &&& step.0 == RegisterStateView::Done
            &&& step.1 matches AuthActionView::Respond(r) && !r.success && r.user_id is None
            &&& session_after(session, step.1) == session
        }),
{
}

} // verus!
