//! A score keeper that runs as one application on a chain: local operations
//! add to per-game scores or send words to other chains, and messages from
//! other chains are recorded as the last message seen and in a log.

use vstd::prelude::*;

pub mod contract;
pub mod laws;
pub mod models;
pub mod scores;
pub mod service;
pub mod state;
pub mod tag;

pub use contract::{CycleError, DeadKeysContract, OutgoingMessage};
pub use models::LastMessage;
pub use scores::ScoreTable;
pub use service::DeadKeysService;
pub use state::DeadKeysState;

verus! {

/// Names this application's interface: operations of type [`Operation`]
/// answered by a `u64`, and messages of type [`Message`].
pub struct DeadKeysAbi;

/// Identifies a chain by the 32 bytes of its hash.
#[derive(Clone, Copy, Debug)]
pub struct ChainId {
    pub bytes: [u8; 32],
}

/// A command submitted on this chain.
#[derive(Clone, Debug)]
pub enum Operation {
    /// Add `value` to the score of `game_id`.
    UpdateScore { game_id: String, value: u64 },
    /// Send `word`, tagged `msg_type`, to the chain `target_chain`.
    Send { target_chain: ChainId, word: String, msg_type: String },
}

/// A message between chains.
#[derive(Clone, Debug)]
pub enum Message {
    Send { word: String, msg_type: String },
    Receive { word: String, msg_type: String },
}

impl Message {
    /// The word that the message carries, whatever its variant.
    pub open spec fn spec_word(self) -> String {
        match self {
            Message::Send { word, .. } => word,
            Message::Receive { word, .. } => word,
        }
    }

    /// The type tag that the message carries, whatever its variant.
    pub open spec fn spec_msg_type(self) -> String {
        match self {
            Message::Send { msg_type, .. } => msg_type,
            Message::Receive { msg_type, .. } => msg_type,
        }
    }
}

} // verus!
