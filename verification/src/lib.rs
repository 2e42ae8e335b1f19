//! Account handling for a small web service: validation and the decisions of
//! registration, login and logout, the session record they bind a user to,
//! signed requests to a media service, and the rewriting of session cookies.
//!
//! Nothing here touches the database, the session layer or the network.
//! Whatever needs one of them is handed out as an action or a request, and
//! how it went is handed back in.

pub mod auth;
pub mod cloudinary;
pub mod error;
pub mod funcs;
pub mod partitioned_cookies;
pub mod password;
pub mod posts;
pub mod session;
pub mod signature;
pub mod structs;
pub mod text;

