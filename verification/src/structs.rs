//! The records that travel between the service and its callers, each with the
//! mathematical value that contracts speak of.

use crate::text::same_text;
use vstd::prelude::*;
use vstd::string::*;

verus! {

/// What a string option holds, as characters.
pub open spec fn opt_text(s: Option<String>) -> Option<Seq<char>> {
    match s {
        Some(t) => Some(t@),
        None => None,
    }
}

/// Whether a post offers help or asks for it.
#[derive(Debug, Clone, Copy, PartialEq, Eq, Structural)]
pub enum PostType {
    /// "I can help with this skill"
    Offer,
    /// "I need help with this"
    Request,
}

impl PostType {
    /// The word under which a post type is stored.
    pub open spec fn stored(self) -> Seq<char> {
        match self {
            PostType::Offer => "offer"@,
            PostType::Request => "request"@,
        }
    }

    /// The post type that a stored word stands for. A word that is neither
    /// `offer` nor `request` reads as a request.
    pub open spec fn parse(word: Seq<char>) -> PostType {
        if word == "offer"@ {
            PostType::Offer
        } else {
            PostType::Request
        }
    }

    /// Renders the post type as it is stored: `offer` or `request`.
    pub fn to_string(&self) -> (r: String)
        ensures
            r@ == self.stored(),
    {
        match self {
            PostType::Offer => String::from_str("offer"),
            PostType::Request => String::from_str("request"),
        }
    }

    /// Reads a stored word back. Total: an unknown word gives `Request`.
    pub fn from_stored(word: &str) -> (r: PostType)
        ensures
            r == PostType::parse(word@),
    {
        if same_text(word, "offer") {
            PostType::Offer
        } else {
            PostType::Request
        }
    }

    /// Storing a post type and reading it back gives the same post type.
    pub proof fn stored_round_trip(t: PostType)
        ensures
            PostType::parse(t.stored()) == t,
    {
        reveal_strlit("offer");
        reveal_strlit("request");
        if t == PostType::Request {
            assert("request"@.len() != "offer"@.len());
        }
    }
}

/// A post as the service hands it out.
#[derive(Debug, Clone)]
pub struct Post {
    pub id: i32,
    pub description: String,
    pub completed: bool,
    pub category: String,
    pub user_id: i32,
    pub post_type: PostType,
    pub pin_code: Option<String>,
}

/// The value of a [`Post`].
pub struct PostView {
    pub id: i32,
    pub description: Seq<char>,
    pub completed: bool,
    pub category: Seq<char>,
    pub user_id: i32,
    pub post_type: PostType,
    pub pin_code: Option<Seq<char>>,
}

impl View for Post {
    type V = PostView;

    open spec fn view(&self) -> PostView {
        PostView {
            id: self.id,
            description: self.description@,
            completed: self.completed,
            category: self.category@,
            user_id: self.user_id,
            post_type: self.post_type,
            pin_code: opt_text(self.pin_code),
        }
    }
}

/// A post as a caller submits it.
#[derive(Debug, Clone)]
pub struct NewPost {
    pub description: String,
    pub category: String,
    pub post_type: PostType,
    pub pin_code: Option<String>,
}

/// The value of a [`NewPost`].
pub struct NewPostView {
    pub description: Seq<char>,
    pub category: Seq<char>,
    pub post_type: PostType,
    pub pin_code: Option<Seq<char>>,
}

impl View for NewPost {
    type V = NewPostView;

    open spec fn view(&self) -> NewPostView {
        NewPostView {
            description: self.description@,
            category: self.category@,
            post_type: self.post_type,
            pin_code: opt_text(self.pin_code),
        }
    }
}

/// The answer to a deletion that removed something.
#[derive(Debug, Clone)]
pub struct DeleteResponse {
    pub success: bool,
    pub id: i32,
    pub message: String,
}

/// The value of a [`DeleteResponse`].
pub struct DeleteResponseView {
    pub success: bool,
    pub id: i32,
    pub message: Seq<char>,
}

impl View for DeleteResponse {
    type V = DeleteResponseView;

    open spec fn view(&self) -> DeleteResponseView {
        DeleteResponseView { success: self.success, id: self.id, message: self.message@ }
    }
}

/// A user as the credential store keeps it. The password is kept as a
/// digest, never in the clear. `created_at` counts whole seconds since the
/// epoch.
#[derive(Debug, Clone)]
pub struct User {
    pub id: i32,
    pub email: String,
    pub password_hash: String,
    pub name: Option<String>,
    pub created_at: i64,
    pub pin_code: Option<String>,
}

/// The value of a [`User`].
pub struct UserView {
    pub id: i32,
    pub email: Seq<char>,
    pub password_hash: Seq<char>,
    pub name: Option<Seq<char>>,
    pub created_at: i64,
    pub pin_code: Option<Seq<char>>,
}

impl View for User {
    type V = UserView;

    open spec fn view(&self) -> UserView {
        UserView {
            id: self.id,
            email: self.email@,
            password_hash: self.password_hash@,
            name: opt_text(self.name),
            created_at: self.created_at,
            pin_code: opt_text(self.pin_code),
        }
    }
}

/// A registration form.
#[derive(Debug, Clone)]
pub struct NewUser {
    pub email: String,
    pub password: String,
    pub name: Option<String>,
}

/// The value of a [`NewUser`].
pub struct NewUserView {
    pub email: Seq<char>,
    pub password: Seq<char>,
    pub name: Option<Seq<char>>,
}

impl View for NewUser {
    type V = NewUserView;

    open spec fn view(&self) -> NewUserView {
        NewUserView { email: self.email@, password: self.password@, name: opt_text(self.name) }
    }
}

/// A login form.
#[derive(Debug, Clone)]
pub struct LoginRequest {
    pub email: String,
    pub password: String,
}

/// The value of a [`LoginRequest`].
pub struct LoginRequestView {
    pub email: Seq<char>,
    pub password: Seq<char>,
}

impl View for LoginRequest {
    type V = LoginRequestView;

    open spec fn view(&self) -> LoginRequestView {
        LoginRequestView { email: self.email@, password: self.password@ }
    }
}

/// The payload of every answer of the account endpoints.
#[derive(Debug, Clone)]
pub struct AuthResponse {
    pub success: bool,
    pub message: String,
    pub user_id: Option<i32>,
}

/// The value of an [`AuthResponse`].
pub struct AuthResponseView {
    pub success: bool,
    pub message: Seq<char>,
    pub user_id: Option<i32>,
}

impl View for AuthResponse {
    type V = AuthResponseView;

    open spec fn view(&self) -> AuthResponseView {
        AuthResponseView { success: self.success, message: self.message@, user_id: self.user_id }
    }
}

impl AuthResponse {
    /// The payload of a refusal: no success, no user.
    pub open spec fn failure(message: Seq<char>) -> AuthResponseView {
        AuthResponseView { success: false, message, user_id: None }
    }

    /// The payload of a success that names a user.
    pub open spec fn success_for(message: Seq<char>, user_id: i32) -> AuthResponseView {
        AuthResponseView { success: true, message, user_id: Some(user_id) }
    }
}

} // verus!
