use deadkeys::contract::OutgoingMessage;
use deadkeys::tag::normalize_type;
use deadkeys::{
    ChainId, CycleError, DeadKeysContract, DeadKeysService, DeadKeysState, Message, Operation,
};

fn update(game_id: &str, value: u64) -> Operation {
    Operation::UpdateScore { game_id: game_id.to_string(), value }
}

fn word_of(message: &Message) -> &str {
    match message {
        Message::Send { word, .. } => word,
        Message::Receive { word, .. } => word,
    }
}

#[test]
fn updates_accumulate_per_game() {
    let mut contract = DeadKeysContract::load(DeadKeysState::new());
    assert_eq!(contract.execute_operation(update("game1", 42_308)), 42_308);
    assert_eq!(contract.execute_operation(update("game1", 8)), 42_316);
    assert_eq!(contract.state.scores.get("game1"), Some(42_316));
}

#[test]
fn updates_sum_deltas_in_any_order() {
    let mut a = DeadKeysContract::load(DeadKeysState::new());
    let mut b = DeadKeysContract::load(DeadKeysState::new());
    for (game, d) in [("x", 3_u64), ("y", 100), ("x", 4), ("x", 5)] {
        a.execute_operation(update(game, d));
    }
    for (game, d) in [("x", 5_u64), ("x", 4), ("y", 100), ("x", 3)] {
        b.execute_operation(update(game, d));
    }
    assert_eq!(a.state.scores.get("x"), Some(12));
    assert_eq!(b.state.scores.get("x"), Some(12));
    assert_eq!(a.state.scores.get("y"), Some(100));
}

#[test]
fn unseen_game_starts_at_zero() {
    let mut contract = DeadKeysContract::load(DeadKeysState::new());
    assert_eq!(contract.state.scores.get("fresh"), None);
    assert_eq!(contract.execute_operation(update("fresh", 0)), 0);
    assert_eq!(contract.state.scores.get("fresh"), Some(0));
    assert_eq!(contract.execute_operation(update("other", 17)), 17);
}

#[test]
fn update_saturates_at_max() {
    let mut contract = DeadKeysContract::load(DeadKeysState::new());
    assert_eq!(contract.execute_operation(update("g", u64::MAX - 1)), u64::MAX - 1);
    assert_eq!(contract.execute_operation(update("g", 5)), u64::MAX);
    assert_eq!(contract.execute_operation(update("g", 1)), u64::MAX);
}

#[test]
fn send_changes_no_score_and_answers_zero() {
    let mut contract = DeadKeysContract::load(DeadKeysState::new());
    contract.execute_operation(update("game1", 10));
    let target = ChainId { bytes: [7_u8; 32] };
    let op = Operation::Send {
        target_chain: target,
        word: "hello".to_string(),
        msg_type: "3".to_string(),
    };
    assert_eq!(contract.execute_operation(op), 0);
    assert_eq!(contract.state.scores.get("game1"), Some(10));
    assert!(contract.state.last_message.is_none());
    let sent: Vec<OutgoingMessage> = contract.take_outbox();
    assert_eq!(sent.len(), 1);
    assert_eq!(sent[0].target_chain.bytes, [7_u8; 32]);
    assert!(sent[0].with_authentication);
    assert!(sent[0].with_tracking);
    match &sent[0].message {
        Message::Send { word, msg_type } => {
            assert_eq!(word, "hello");
            assert_eq!(msg_type, "3");
        }
        Message::Receive { .. } => panic!("a send operation sends a Send message"),
    }
    assert!(contract.take_outbox().is_empty());
}

#[test]
fn last_message_holds_latest() {
    let mut contract = DeadKeysContract::load(DeadKeysState::new());
    contract.execute_message(Message::Send { word: "foo".to_string(), msg_type: "send".to_string() });
    contract.execute_message(Message::Receive {
        word: "bar".to_string(),
        msg_type: "receive".to_string(),
    });
    let last = contract.state.last_message.clone().unwrap();
    assert_eq!(last.word, "bar");
    assert_eq!(last.msg_type, 0);
}

#[test]
fn message_type_is_normalized() {
    let mut contract = DeadKeysContract::load(DeadKeysState::new());
    contract.execute_message(Message::Receive { word: "w".to_string(), msg_type: "42".to_string() });
    let last = contract.state.last_message.clone().unwrap();
    assert_eq!(last.word, "w");
    assert_eq!(last.msg_type, 42);
}

#[test]
fn normalize_type_reads_decimal() {
    assert_eq!(normalize_type("42"), 42);
    assert_eq!(normalize_type("+5"), 5);
    assert_eq!(normalize_type("007"), 7);
    assert_eq!(normalize_type("18446744073709551615"), u64::MAX);
}

#[test]
fn normalize_type_falls_back_to_zero() {
    assert_eq!(normalize_type(""), 0);
    assert_eq!(normalize_type("+"), 0);
    assert_eq!(normalize_type("-1"), 0);
    assert_eq!(normalize_type(" 1"), 0);
    assert_eq!(normalize_type("1_000"), 0);
    assert_eq!(normalize_type("18446744073709551616"), 0);
    assert_eq!(normalize_type("receive"), 0);
}

#[test]
fn log_grows_in_delivery_order() {
    let mut contract = DeadKeysContract::load(DeadKeysState::new());
    let words = ["a", "b", "a"];
    for (i, w) in words.iter().enumerate() {
        contract.execute_message(Message::Send { word: w.to_string(), msg_type: "1".to_string() });
        assert_eq!(contract.state.message_log.len(), i + 1);
    }
    let logged: Vec<&str> = contract.state.message_log.iter().map(word_of).collect();
    assert_eq!(logged, vec!["a", "b", "a"]);
}

#[test]
fn cycle_applies_in_order() {
    let mut contract = DeadKeysContract::load(DeadKeysState::new());
    let ops = vec![update("g", 1), update("g", 2), update("h", 5)];
    let msgs = vec![
        Message::Send { word: "foo".to_string(), msg_type: "send".to_string() },
        Message::Receive { word: "bar".to_string(), msg_type: "9".to_string() },
    ];
    let responses = contract.run_cycle(ops, msgs).unwrap();
    assert_eq!(responses, vec![1, 3, 5]);
    let last = contract.state.last_message.clone().unwrap();
    assert_eq!(last.word, "bar");
    assert_eq!(last.msg_type, 9);
    assert_eq!(contract.state.message_log.len(), 2);
}

#[test]
fn cycle_rejects_messages_when_unsupported() {
    let mut contract = DeadKeysContract::load_rejecting_messages(DeadKeysState::new());
    contract.execute_operation(update("g", 4));
    let ops = vec![update("g", 1)];
    let msgs = vec![Message::Send { word: "foo".to_string(), msg_type: "send".to_string() }];
    assert_eq!(contract.run_cycle(ops, msgs), Err(CycleError::MessagesUnsupported));
    assert_eq!(contract.state.scores.get("g"), Some(4));
    assert!(contract.state.last_message.is_none());
    assert!(contract.state.message_log.is_empty());
    assert_eq!(contract.run_cycle(vec![update("g", 1)], Vec::new()), Ok(vec![5]));
}

#[test]
fn score_query_is_repeatable() {
    let mut state = DeadKeysState::new();
    state.scores.insert("game123", 61_098_721);
    let service = DeadKeysService::new(state);
    assert_eq!(service.score("game123"), service.score("game123"));
    assert_eq!(service.score("missing"), 0);
    assert_eq!(service.score("missing"), service.score("missing"));
    assert!(service.last_message().is_none());
}

#[test]
fn service_builds_operations() {
    match DeadKeysService::update_score("g".to_string(), 3) {
        Operation::UpdateScore { game_id, value } => {
            assert_eq!(game_id, "g");
            assert_eq!(value, 3);
        }
        Operation::Send { .. } => panic!("expected a score update"),
    }
    let (op, echo) = DeadKeysService::send_message(
        ChainId { bytes: [1_u8; 32] },
        "word".to_string(),
        "2".to_string(),
    );
    assert_eq!(echo, "word");
    assert!(matches!(op, Operation::Send { .. }));
}

#[test]
fn store_returns_state() {
    let mut contract = DeadKeysContract::load(DeadKeysState::new());
    contract.execute_operation(update("g", 2));
    contract.execute_message(Message::Receive { word: "x".to_string(), msg_type: "1".to_string() });
    let state = contract.store();
    let service = DeadKeysService::new(state);
    assert_eq!(service.score("g"), 2);
    let last = service.last_message().unwrap();
    assert_eq!(last.word, "x");
    assert_eq!(last.msg_type, 1);
}
