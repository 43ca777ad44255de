//! Response codes shared by server and client.

use vstd::prelude::*;

verus! {

/// The request was handled successfully.
pub const SUCCESS: usize = 0;

/// Login was rejected: empty user name or wrong password.
pub const LOGIN_FAILED: usize = 1000;

/// The request carried no valid session, or the session belongs to a
/// different connection.
pub const SESSION_ID_INVALID: usize = 1001;

/// A message was tagged with a room that is not the sender's room.
pub const CHAT_ID_INVALID: usize = 1002;

/// Another member of the room already uses the requested user name.
pub const USER_NAME_DUPLICATE_ERROR: usize = 1003;

/// Reserved for transport-level failures; the core logic never emits it.
pub const INTERNAL_ERROR: usize = 5000;

} // verus!
