use vstd::prelude::*;

verus! {

/// The most recent message received: its word and its normalized type tag.
#[derive(Clone, Debug)]
pub struct LastMessage {
    pub word: String,
    pub msg_type: u64,
}

} // verus!
