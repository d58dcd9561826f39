//! What the bridge logs in with.

use vstd::prelude::*;

verus! {

/// The account of the bridge on the chat platform.
#[derive(Clone, Debug, PartialEq, Eq)]
pub struct Secrets {
    pub homeserver_url: String,
    pub username: String,
    pub password: String,
}

} // verus!
