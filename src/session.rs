//! What the bot persists about its chat client between runs.

use vstd::prelude::*;

verus! {

/// Client configuration for persistence.
#[derive(Debug)]
pub struct ClientSession {
    pub homeserver: String,
    pub db_path: String,
}

} // verus!
