use crate::models::LastMessage;
use crate::scores::ScoreTable;
use crate::Message;
use vstd::prelude::*;

verus! {

/// What the application keeps between cycles: the score of each game, the
/// last message received, and every message received, in order of arrival.
pub struct DeadKeysState {
    pub scores: ScoreTable,
    pub last_message: Option<LastMessage>,
    pub message_log: Vec<Message>,
}

impl DeadKeysState {
    /// The score table is well formed.
    pub open spec fn wf(&self) -> bool {
        self.scores.wf()
    }

    /// The state of a fresh application: no scores, no message.
    pub fn new() -> (r: Self)
        ensures
            r.wf(),
            r.scores@ == Map::<Seq<char>, u64>::empty(),
            r.last_message is None,
            r.message_log@ == Seq::<Message>::empty(),
    {
        DeadKeysState { scores: ScoreTable::new(), last_message: None, message_log: Vec::new() }
    }
}

} // verus!
