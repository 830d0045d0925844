//! Settings shared by every feed back-end.

use vstd::prelude::*;

verus! {

/// How the playback queue is kept supplied.
pub struct CommonCli {
    /// Fetch new submissions when the queue holds at most this many items
    /// after the current one.
    pub min_buffer_size: usize,
    /// Number of items to ask for per fetch.
    pub buffer_increase: usize,
    /// User agent for the player to send.
    pub user_agent: Option<String>,
}

impl Clone for CommonCli {
    fn clone(&self) -> (r: Self)
        ensures
            r == *self,
    {
        CommonCli {
            min_buffer_size: self.min_buffer_size,
            buffer_increase: self.buffer_increase,
            user_agent: match &self.user_agent {
                Some(u) => Some(u.clone()),
                None => None,
            },
        }
    }
}

} // verus!
