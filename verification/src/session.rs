//! The server-side record of one session.

use vstd::prelude::*;

verus! {

/// What a session holds: the user it is bound to, if any. A session starts
/// empty, is bound on a successful registration or login, and is emptied by a
/// flush.
#[derive(Debug, Clone, Copy)]
pub struct Session {
    pub user_id: Option<i32>,
}

impl Session {
    /// A session that is bound to nobody.
    pub fn new() -> (r: Session)
        ensures
            r.user_id is None,
    {
        Session { user_id: None }
    }

    /// The user the session is bound to.
    pub fn get(&self) -> (r: Option<i32>)
        ensures
            r == self.user_id,
    {
        self.user_id
    }

    /// Binds the session to a user, whoever it was bound to before.
    pub fn insert(&mut self, user_id: i32)
        ensures
            final(self).user_id == Some(user_id),
    {
        self.user_id = Some(user_id);
    }

    /// Empties the session.
    pub fn flush(&mut self)
        ensures
            final(self).user_id is None,
    {
        self.user_id = None;
    }
}

} // verus!
