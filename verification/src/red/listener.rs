use vstd::prelude::*;

verus! {

/// A listener on a Redis server whose messages go to a processor; its
/// sessions follow `crate::eyes::redis::session_step`.
pub struct RedisListener {
    pub connection: redis::Connection,
}

} // verus!
