use creg_subscriber::addressing::AddressRules;
use creg_subscriber::errors::SubscriberError;
use creg_subscriber::event_handler::EventHandler;
use creg_subscriber::events::Event;
use creg_subscriber::subscriber::{
    FilterType, Phase, SubscribeStatus, Subscriber, UnsubscribeStatus, KNOWN_COUNT,
    NULL_BLOCK_ID,
};

fn subscriber() -> Subscriber {
    let rules = AddressRules::new(
        "cafe01".to_string(),
        "00".to_string(),
        "01".to_string(),
        "02".to_string(),
        "03".to_string(),
        "04".to_string(),
    )
    .unwrap();
    Subscriber::new(EventHandler::new(rules))
}

fn ids(n: usize) -> Vec<String> {
    (0..n).map(|i| format!("block{}", i)).collect()
}

#[test]
fn window_of_a_short_list_is_the_whole_list() {
    let known = vec!["a".to_string(), "b".to_string(), "c".to_string()];
    assert_eq!(Subscriber::get_last_known_block_ids(&known, 0), known);
}

#[test]
fn window_past_the_list_is_genesis() {
    let known = vec!["a".to_string(), "b".to_string(), "c".to_string()];
    assert_eq!(
        Subscriber::get_last_known_block_ids(&known, 3),
        vec![NULL_BLOCK_ID.to_string()]
    );
    assert_eq!(Subscriber::get_last_known_block_ids(&[], 0), vec!["0000000000000000"]);
}

#[test]
fn window_holds_at_most_ten_ids() {
    let known = ids(15);
    assert_eq!(KNOWN_COUNT, 10);
    assert_eq!(Subscriber::get_last_known_block_ids(&known, 0), known[0..10].to_vec());
    assert_eq!(Subscriber::get_last_known_block_ids(&known, 10), known[10..15].to_vec());
    assert_eq!(Subscriber::get_last_known_block_ids(&known, 5), known[5..15].to_vec());
    assert_eq!(Subscriber::get_last_known_block_ids(&ids(20), 10), ids(20)[10..20].to_vec());
}

#[test]
fn subscribe_request_shape() {
    let mut sub = subscriber();
    let req = sub.start(&ids(3), 0);
    assert_eq!(sub.phase, Phase::Subscribing);
    assert_eq!(req.last_known_block_ids, ids(3));
    assert_eq!(req.subscriptions.len(), 2);
    assert_eq!(req.subscriptions[0].event_type, "sawtooth/block-commit");
    assert!(req.subscriptions[0].filters.is_empty());
    assert_eq!(req.subscriptions[1].event_type, "sawtooth/state-delta");
    assert_eq!(req.subscriptions[1].filters.len(), 1);
    assert_eq!(req.subscriptions[1].filters[0].key, "address");
    assert_eq!(req.subscriptions[1].filters[0].match_string, "^cafe01");
    assert_eq!(req.subscriptions[1].filters[0].filter_type, FilterType::RegexAny);
}

#[test]
fn unknown_block_retries_with_the_next_window_of_the_same_list() {
    let known = ids(15);
    let mut sub = subscriber();
    let first = sub.start(&known, 0);
    assert_eq!(first.last_known_block_ids, known[0..10].to_vec());
    let retry = sub.on_subscribe_response(SubscribeStatus::UnknownBlock).unwrap().unwrap();
    assert_eq!(sub.start_index, 10);
    assert_eq!(sub.known_block_ids, known);
    assert_eq!(sub.phase, Phase::Subscribing);
    assert_eq!(retry.last_known_block_ids, known[10..15].to_vec());

    let genesis = sub.on_subscribe_response(SubscribeStatus::UnknownBlock).unwrap().unwrap();
    assert_eq!(sub.start_index, 20);
    assert_eq!(genesis.last_known_block_ids, vec![NULL_BLOCK_ID.to_string()]);

    assert!(matches!(
        sub.on_subscribe_response(SubscribeStatus::UnknownBlock),
        Err(SubscriberError::ConnError(_))
    ));
    assert_eq!(sub.phase, Phase::Stopped);
}

#[test]
fn ok_response_activates() {
    let mut sub = subscriber();
    sub.start(&ids(2), 0);
    assert_eq!(sub.on_subscribe_response(SubscribeStatus::StatusOk), Ok(None));
    assert_eq!(sub.phase, Phase::Active);
}

#[test]
fn other_responses_are_connection_errors() {
    for status in [SubscribeStatus::InvalidFilter, SubscribeStatus::StatusUnset] {
        let mut sub = subscriber();
        sub.start(&ids(2), 0);
        assert!(matches!(
            sub.on_subscribe_response(status),
            Err(SubscriberError::ConnError(_))
        ));
        assert_eq!(sub.phase, Phase::Stopped);
    }
}

#[test]
fn frame_error_ends_the_receive_loop() {
    let mut sub = subscriber();
    sub.start(&ids(1), 0);
    sub.on_subscribe_response(SubscribeStatus::StatusOk).unwrap();
    assert_eq!(sub.handle_frame(&vec![]), Ok(None));
    assert_eq!(sub.phase, Phase::Active);
    let orphan_delta = Event {
        event_type: "sawtooth/state-delta".to_string(),
        attributes: vec![],
        state_changes: vec![],
    };
    assert!(sub.handle_frame(&vec![orphan_delta]).is_err());
    assert_eq!(sub.phase, Phase::Unsubscribing);
}

#[test]
fn unsubscribe_responses() {
    let mut sub = subscriber();
    sub.start(&ids(1), 0);
    sub.on_subscribe_response(SubscribeStatus::StatusOk).unwrap();
    sub.stop();
    assert_eq!(sub.phase, Phase::Unsubscribing);
    assert_eq!(sub.on_unsubscribe_response(UnsubscribeStatus::StatusOk), Ok(()));
    assert_eq!(sub.phase, Phase::Stopped);

    let mut sub = subscriber();
    sub.start(&ids(1), 0);
    sub.on_subscribe_response(SubscribeStatus::StatusOk).unwrap();
    sub.stop();
    assert!(matches!(
        sub.on_unsubscribe_response(UnsubscribeStatus::InternalError),
        Err(SubscriberError::ConnError(_))
    ));
}
