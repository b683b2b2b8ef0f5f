use crate::models::LastMessage;
use crate::scores::{saturating_sum, score_of, scores_after_update};
use crate::state::DeadKeysState;
use crate::tag::{normalize_type, normalized_type};
use crate::{ChainId, Message, Operation};
use vstd::prelude::*;

verus! {

/// A message to be delivered to another chain. The transport is asked to
/// authenticate it as coming from this application and to track it.
pub struct OutgoingMessage {
    pub target_chain: ChainId,
    pub message: Message,
    pub with_authentication: bool,
    pub with_tracking: bool,
}

/// Why a cycle was refused as a whole.
#[derive(Clone, Copy, Debug, PartialEq, Eq)]
pub enum CycleError {
    /// A message arrived at an application that accepts none.
    MessagesUnsupported,
}

/// The response to `op` against `scores`: the new score for a score update,
/// 0 for a send.
pub open spec fn op_response(scores: Map<Seq<char>, u64>, op: Operation) -> u64 {
    match op {
        Operation::UpdateScore { game_id, value } => saturating_sum(
            score_of(scores, game_id@),
            value,
        ),
        Operation::Send { .. } => 0,
    }
}

/// The scores after `op`.
pub open spec fn scores_after_op(scores: Map<Seq<char>, u64>, op: Operation) -> Map<
    Seq<char>,
    u64,
> {
    match op {
        Operation::UpdateScore { game_id, value } => scores_after_update(scores, game_id@, value),
        Operation::Send { .. } => scores,
    }
}

/// The messages that `op` sends: one for a send, none for a score update.
pub open spec fn outgoing_of(op: Operation) -> Seq<OutgoingMessage> {
    match op {
        Operation::UpdateScore { .. } => Seq::empty(),
        Operation::Send { target_chain, word, msg_type } => seq![
            OutgoingMessage {
                target_chain,
                message: Message::Send { word, msg_type },
                with_authentication: true,
                with_tracking: true,
            },
        ],
    }
}

/// The scores after `ops`, applied in order.
pub open spec fn scores_after_ops(scores: Map<Seq<char>, u64>, ops: Seq<Operation>) -> Map<
    Seq<char>,
    u64,
>
    decreases ops.len(),
{
    if ops.len() == 0 {
        scores
    } else {
        scores_after_op(scores_after_ops(scores, ops.drop_last()), ops.last())
    }
}

/// The messages that `ops` send, in order.
pub open spec fn outgoing_of_ops(ops: Seq<Operation>) -> Seq<OutgoingMessage>
    decreases ops.len(),
{
    if ops.len() == 0 {
        Seq::empty()
    } else {
        outgoing_of_ops(ops.drop_last()) + outgoing_of(ops.last())
    }
}

/// What the last-message slot holds once `msg` was received.
pub open spec fn slot_for(msg: Message) -> LastMessage {
    LastMessage { word: msg.spec_word(), msg_type: normalized_type(msg.spec_msg_type()@) }
}

/// The last-message slot after `msgs` were received, in order.
pub open spec fn slot_after_messages(slot: Option<LastMessage>, msgs: Seq<Message>) -> Option<
    LastMessage,
> {
    if msgs.len() == 0 {
        slot
    } else {
        Some(slot_for(msgs.last()))
    }
}

/// The application as it runs in one cycle: the state loaded at its start,
/// and the messages that its operations send.
pub struct DeadKeysContract {
    pub state: DeadKeysState,
    pub outbox: Vec<OutgoingMessage>,
    /// Whether this application takes messages from other chains at all.
    pub accepts_messages: bool,
}

impl DeadKeysContract {
    /// Starts a cycle on `state`, accepting messages.
    pub fn load(state: DeadKeysState) -> (r: Self)
        ensures
            r.state == state,
            r.outbox@ == Seq::<OutgoingMessage>::empty(),
            r.accepts_messages,
    {
        DeadKeysContract { state, outbox: Vec::new(), accepts_messages: true }
    }

    /// Starts a cycle on `state` for an application that accepts no message.
    pub fn load_rejecting_messages(state: DeadKeysState) -> (r: Self)
        ensures
            r.state == state,
            r.outbox@ == Seq::<OutgoingMessage>::empty(),
            !r.accepts_messages,
    {
        DeadKeysContract { state, outbox: Vec::new(), accepts_messages: false }
    }

    /// Sets the application up on its chain. There are no initial scores.
    pub fn instantiate(&mut self, _initial_value: u64)
        ensures
            *final(self) == *old(self),
    {
    }

    /// Applies one operation and returns its response.
    ///
    /// A score update adds `value` to the game's score (0 where the game has
    /// none yet), holding at `u64::MAX` rather than wrapping, and returns the
    /// new score. A send queues a `Message::Send` to the target chain and
    /// returns 0.
    pub fn execute_operation(&mut self, operation: Operation) -> (r: u64)
        requires
            old(self).state.wf(),
        ensures
            final(self).state.wf(),
            r == op_response(old(self).state.scores@, operation),
            final(self).state.scores@ == scores_after_op(old(self).state.scores@, operation),
            final(self).outbox@ == old(self).outbox@ + outgoing_of(operation),
            final(self).state.last_message == old(self).state.last_message,
            final(self).state.message_log == old(self).state.message_log,
            final(self).accepts_messages == old(self).accepts_messages,
    {
        match operation {
            Operation::UpdateScore { game_id, value } => {
                let current = match self.state.scores.get(game_id.as_str()) {
                    Some(score) => score,
                    None => 0,
                };
                let new_score = current.saturating_add(value);
                self.state.scores.insert(game_id.as_str(), new_score);
                new_score
            },
            Operation::Send { target_chain, word, msg_type } => {
                let message = Message::Send { word, msg_type };
                self.outbox.push(
                    OutgoingMessage { target_chain, message, with_authentication: true, with_tracking: true },
                );
                0
            },
        }
    }

    /// Records a message from another chain: the last-message slot takes its
    /// word and normalized type, and the message is appended to the log.
    /// A message delivered twice is recorded twice: nothing is deduplicated.
    pub fn execute_message(&mut self, message: Message)
        requires
            old(self).state.wf(),
            old(self).accepts_messages,
        ensures
            final(self).state.wf(),
            final(self).state.last_message == Some(slot_for(message)),
            final(self).state.message_log@ == old(self).state.message_log@.push(message),
            final(self).state.scores == old(self).state.scores,
            final(self).outbox == old(self).outbox,
            final(self).accepts_messages == old(self).accepts_messages,
    {
        let last = match &message {
            Message::Send { word, msg_type } => LastMessage {
                word: word.clone(),
                msg_type: normalize_type(msg_type.as_str()),
            },
            Message::Receive { word, msg_type } => LastMessage {
                word: word.clone(),
                msg_type: normalize_type(msg_type.as_str()),
            },
        };
        self.state.last_message = Some(last);
        self.state.message_log.push(message);
    }

    /// Runs one cycle: applies `operations` in order, then `messages` in
    /// order, and returns the response to each operation.
    ///
    /// Where messages arrive at an application that accepts none, the cycle
    /// is refused as a whole and nothing changes.
    pub fn run_cycle(&mut self, operations: Vec<Operation>, messages: Vec<Message>) -> (r: Result<
        Vec<u64>,
        CycleError,
    >)
        requires
            old(self).state.wf(),
        ensures
            final(self).state.wf(),
            r is Err <==> (!old(self).accepts_messages && messages@.len() > 0),
            match r {
                Err(e) => e == CycleError::MessagesUnsupported && *final(self) == *old(self),
                Ok(responses) => {
                    &&& responses@.len() == operations@.len()
                    &&& forall|i: int|
                        0 <= i < operations@.len() ==> #[trigger] responses@[i] == op_response(
                            scores_after_ops(old(self).state.scores@, operations@.take(i)),
                            operations@[i],
                        )
                    &&& final(self).state.scores@ == scores_after_ops(
                        old(self).state.scores@,
                        operations@,
                    )
                    &&& final(self).outbox@ == old(self).outbox@ + outgoing_of_ops(operations@)
                    &&& final(self).state.last_message == slot_after_messages(
                        old(self).state.last_message,
                        messages@,
                    )
                    &&& final(self).state.message_log@ == old(self).state.message_log@
                        + messages@
                    &&& final(self).accepts_messages == old(self).accepts_messages
                },
            },
    {
        if !self.accepts_messages && messages.len() > 0 {
            return Err(CycleError::MessagesUnsupported);
        }
        let ghost ops0 = operations@;
        let ghost msgs0 = messages@;
        let ghost scores0 = self.state.scores@;
        let ghost outbox0 = self.outbox@;
        let ghost slot0 = self.state.last_message;
        let ghost log0 = self.state.message_log@;
        let mut operations = operations;
        let mut messages = messages;
        let mut responses: Vec<u64> = Vec::new();
        let n = operations.len();
        let mut i: usize = 0;
        while i < n
            invariant
                self.state.wf(),
                n == ops0.len(),
                i <= n,
                operations@ == ops0.skip(i as int),
                responses@.len() == i,
                forall|j: int|
                    0 <= j < i ==> #[trigger] responses@[j] == op_response(
                        scores_after_ops(scores0, ops0.take(j)),
                        ops0[j],
                    ),
                self.state.scores@ == scores_after_ops(scores0, ops0.take(i as int)),
                self.outbox@ == outbox0 + outgoing_of_ops(ops0.take(i as int)),
                self.state.last_message == slot0,
                self.state.message_log@ == log0,
                self.accepts_messages == old(self).accepts_messages,
            decreases n - i,
        {
            let op = operations.remove(0);
            assert(op == ops0[i as int]);
            let response = self.execute_operation(op);
            responses.push(response);
            proof {
                assert(ops0.take(i + 1).drop_last() =~= ops0.take(i as int));
                assert(ops0.take(i + 1).last() == ops0[i as int]);
                assert(ops0.skip(i + 1) =~= ops0.skip(i as int).remove(0));
            }
            i = i + 1;
        }
        assert(ops0.take(n as int) =~= ops0);
        let m = messages.len();
        let mut k: usize = 0;
        while k < m
            invariant
                self.state.wf(),
                self.accepts_messages || m == 0,
                m == msgs0.len(),
                k <= m,
                messages@ == msgs0.skip(k as int),
                self.state.scores@ == scores_after_ops(scores0, ops0),
                self.outbox@ == outbox0 + outgoing_of_ops(ops0),
                self.state.last_message == slot_after_messages(slot0, msgs0.take(k as int)),
                self.state.message_log@ == log0 + msgs0.take(k as int),
                self.accepts_messages == old(self).accepts_messages,
            decreases m - k,
        {
            let message = messages.remove(0);
            assert(message == msgs0[k as int]);
            self.execute_message(message);
            proof {
                assert(msgs0.take(k + 1).last() == msgs0[k as int]);
                assert(log0 + msgs0.take(k + 1) =~= (log0 + msgs0.take(k as int)).push(
                    msgs0[k as int],
                ));
                assert(msgs0.skip(k + 1) =~= msgs0.skip(k as int).remove(0));
            }
            k = k + 1;
        }
        assert(msgs0.take(m as int) =~= msgs0);
        Ok(responses)
    }

    /// Hands over the messages queued so far, for the transport to deliver,
    /// and leaves the queue empty.
    pub fn take_outbox(&mut self) -> (r: Vec<OutgoingMessage>)
        ensures
            r@ == old(self).outbox@,
            final(self).outbox@ == Seq::<OutgoingMessage>::empty(),
            final(self).state == old(self).state,
            final(self).accepts_messages == old(self).accepts_messages,
    {
        let mut taken: Vec<OutgoingMessage> = Vec::new();
        std::mem::swap(&mut taken, &mut self.outbox);
        taken
    }

    /// Ends the cycle and returns the state to be persisted.
    pub fn store(self) -> (r: DeadKeysState)
        ensures
            r == self.state,
    {
        self.state
    }
}

} // verus!
