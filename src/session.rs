use vstd::prelude::*;

verus! {

/// What is needed to resume a session: its token, the user it belongs to
/// and the homeserver that issued it.
#[derive(Clone)]
pub struct Session {
    pub session_token: String,
    pub user_id: u64,
    pub homeserver: String,
}

impl Session {
    /// A session of `user_id` on `homeserver`.
    pub fn new(session_token: String, user_id: u64, homeserver: String) -> (r: Session)
        ensures
            r.session_token == session_token,
            r.user_id == user_id,
            r.homeserver == homeserver,
    {
        Session { session_token, user_id, homeserver }
    }
}

} // verus!
