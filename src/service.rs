use crate::models::LastMessage;
use crate::scores::score_of;
use crate::state::DeadKeysState;
use crate::{ChainId, Operation};
use vstd::prelude::*;

verus! {

/// Read access to the application's state, and the operations that its
/// users may schedule.
pub struct DeadKeysService {
    pub state: DeadKeysState,
}

impl DeadKeysService {
    /// Serves queries over `state`.
    pub fn new(state: DeadKeysState) -> (r: Self)
        ensures
            r.state == state,
    {
        DeadKeysService { state }
    }

    /// The current score of `game_id`: 0 for a game that has none.
    pub fn score(&self, game_id: &str) -> (r: u64)
        requires
            self.state.wf(),
        ensures
            r == score_of(self.state.scores@, game_id@),
    {
        match self.state.scores.get(game_id) {
            Some(score) => score,
            None => 0,
        }
    }

    /// The last message received, if any.
    pub fn last_message(&self) -> (r: Option<LastMessage>)
        ensures
            r == self.state.last_message,
    {
        match &self.state.last_message {
            Some(last) => Some(LastMessage { word: last.word.clone(), msg_type: last.msg_type }),
            None => None,
        }
    }

    /// The operation that adds `value` to the score of `game_id`.
    pub fn update_score(game_id: String, value: u64) -> (r: Operation)
        ensures
            r == (Operation::UpdateScore { game_id, value }),
    {
        Operation::UpdateScore { game_id, value }
    }

    /// The operation that sends `word` to `target_chain`, and the word itself
    /// as the answer to the caller.
    pub fn send_message(target_chain: ChainId, word: String, msg_type: String) -> (r: (
        Operation,
        String,
    ))
        ensures
            r.0 == (Operation::Send { target_chain, word, msg_type }),
            r.1 == word,
    {
        let echo = word.clone();
        (Operation::Send { target_chain, word, msg_type }, echo)
    }
}

} // verus!
