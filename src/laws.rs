use crate::contract::{
    op_response, outgoing_of, scores_after_op, scores_after_ops, slot_after_messages, slot_for,
};
use crate::models::LastMessage;
use crate::scores::score_of;
use crate::tag::normalized_type;
use crate::{ChainId, Message, Operation};
use vstd::prelude::*;

verus! {

/// The sum of the deltas that the score updates among `ops` add to `game_id`.
pub open spec fn delta_sum(ops: Seq<Operation>, game_id: Seq<char>) -> nat
    decreases ops.len(),
{
    if ops.len() == 0 {
        0
    } else {
        delta_sum(ops.drop_last(), game_id) + match ops.last() {
            Operation::UpdateScore { game_id: g, value } => if g@ == game_id {
                value as nat
            } else {
                0
            },
            Operation::Send { .. } => 0,
        }
    }
}

/// Scores accumulate: after any sequence of operations, the score of a game
/// is its score before plus the sum of the deltas applied to it, held at
/// `u64::MAX`. Operations on other games and sends leave it alone, so the
/// order of the updates does not matter.
pub proof fn lemma_scores_accumulate(
    scores: Map<Seq<char>, u64>,
    ops: Seq<Operation>,
    game_id: Seq<char>,
)
    ensures
        score_of(scores_after_ops(scores, ops), game_id) == if score_of(scores, game_id)
            + delta_sum(ops, game_id) > u64::MAX {
            u64::MAX as int
        } else {
            score_of(scores, game_id) + delta_sum(ops, game_id)
        },
    decreases ops.len(),
{
    if ops.len() > 0 {
        lemma_scores_accumulate(scores, ops.drop_last(), game_id);
        let before = scores_after_ops(scores, ops.drop_last());
        match ops.last() {
            Operation::UpdateScore { game_id: g, value } => {
                if g@ != game_id {
                    assert(score_of(scores_after_op(before, ops.last()), game_id) == score_of(
                        before,
                        game_id,
                    ));
                }
            },
            Operation::Send { .. } => {},
        }
    }
}

/// Without overflow, the score of a game that had none is exactly the sum of
/// the deltas applied to it.
pub proof fn lemma_scores_sum_deltas(ops: Seq<Operation>, game_id: Seq<char>)
    requires
        delta_sum(ops, game_id) <= u64::MAX,
    ensures
        score_of(scores_after_ops(Map::empty(), ops), game_id) == delta_sum(ops, game_id),
{
    lemma_scores_accumulate(Map::empty(), ops, game_id);
}

/// A score update on a game never seen behaves as if its score were 0: it
/// answers the delta and stores it.
pub proof fn lemma_unseen_game_starts_at_zero(
    scores: Map<Seq<char>, u64>,
    game_id: String,
    value: u64,
)
    requires
        !scores.contains_key(game_id@),
    ensures
        op_response(scores, Operation::UpdateScore { game_id, value }) == value,
        op_response(scores, Operation::UpdateScore { game_id, value }) == op_response(
            scores.insert(game_id@, 0),
            Operation::UpdateScore { game_id, value },
        ),
        scores_after_op(scores, Operation::UpdateScore { game_id, value }) == scores.insert(
            game_id@,
            value,
        ),
        scores_after_op(scores, Operation::UpdateScore { game_id, value }) == scores_after_op(
            scores.insert(game_id@, 0),
            Operation::UpdateScore { game_id, value },
        ),
{
    assert(scores.insert(game_id@, 0).insert(game_id@, value) =~= scores.insert(game_id@, value));
}

/// A send changes no score and answers 0; it queues one message to the
/// target chain.
pub proof fn lemma_send_keeps_scores(
    scores: Map<Seq<char>, u64>,
    target_chain: ChainId,
    word: String,
    msg_type: String,
)
    ensures
        scores_after_op(scores, Operation::Send { target_chain, word, msg_type }) == scores,
        op_response(scores, Operation::Send { target_chain, word, msg_type }) == 0,
        outgoing_of(Operation::Send { target_chain, word, msg_type }).len() == 1,
{
}

/// Whatever the slot held, after a message it holds that message's word and
/// normalized type.
pub proof fn lemma_message_overwrites_slot(
    slot: Option<LastMessage>,
    earlier: Seq<Message>,
    msg: Message,
)
    ensures
        slot_after_messages(slot, earlier.push(msg)) == Some(slot_for(msg)),
        slot_for(msg).word == msg.spec_word(),
        slot_for(msg).msg_type == normalized_type(msg.spec_msg_type()@),
{
}

/// Appending delivered messages to the log grows it by one entry per
/// message, keeps what was there, and keeps the order of delivery.
pub proof fn lemma_log_keeps_delivery_order(log: Seq<Message>, delivered: Seq<Message>)
    ensures
        (log + delivered).len() == log.len() + delivered.len(),
        forall|i: int| 0 <= i < log.len() ==> #[trigger] (log + delivered)[i] == log[i],
        forall|i: int|
            0 <= i < delivered.len() ==> #[trigger] (log + delivered)[log.len() + i]
                == delivered[i],
{
}

} // verus!
