//! The online-user panel: the roster as last pushed by the server.

use vstd::prelude::*;

use crate::model::User;

verus! {

/// The displayed roster.
pub struct UserViewModel {
    pub users: Vec<User>,
}

impl UserViewModel {
    /// An empty roster.
    pub fn new() -> (r: Self)
        ensures
            r.users@ == Seq::<User>::empty(),
    {
        let r = Self { users: Vec::new() };
        proof {
            assert(r.users@ =~= Seq::<User>::empty());
        }
        r
    }
}

} // verus!
