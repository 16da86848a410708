use synapse::ws::{
    resync_reply,
    after_send, authenticate, client_addr_label, client_message_action, resync_limit,
    validate_token, BroadcastAction, BroadcastEvent, ClientAction, ClientMessage,
    ConnectionState, DeadlineAction, HeartbeatAction, IncomingFrame, LoopControl, ReceiveAction, SentFrame,
    WsQuery, RESYNC_DEFAULT_LIMIT, RESYNC_MAX_LIMIT,
};

#[test]
fn empty_token_is_rejected() {
    assert!(!validate_token(""));
    assert!(validate_token("abc"));
    assert!(validate_token(" "));
}

#[test]
fn authenticate_requires_a_nonempty_token() {
    assert_eq!(authenticate(WsQuery { token: None }), None);
    assert_eq!(authenticate(WsQuery { token: Some(String::new()) }), None);
    assert_eq!(
        authenticate(WsQuery { token: Some("secret".to_string()) }),
        Some("secret".to_string())
    );
}

#[test]
fn unknown_client_address() {
    assert_eq!(client_addr_label(None), "unknown");
    assert_eq!(client_addr_label(Some("10.0.0.1:4000".to_string())), "10.0.0.1:4000");
}

#[test]
fn resync_limit_defaults_and_clamps() {
    assert_eq!(resync_limit(None), RESYNC_DEFAULT_LIMIT);
    assert_eq!(resync_limit(None), 20);
    assert_eq!(resync_limit(Some(0)), 1);
    assert_eq!(resync_limit(Some(-7)), 1);
    assert_eq!(resync_limit(Some(i64::MIN)), 1);
    assert_eq!(resync_limit(Some(1)), 1);
    assert_eq!(resync_limit(Some(55)), 55);
    assert_eq!(resync_limit(Some(100)), RESYNC_MAX_LIMIT);
    assert_eq!(resync_limit(Some(101)), 100);
    assert_eq!(resync_limit(Some(i64::MAX)), 100);
}

#[test]
fn resync_limit_is_idempotent() {
    for l in [-5i64, 0, 1, 20, 99, 100, 250] {
        let once = resync_limit(Some(l));
        assert_eq!(resync_limit(Some(once)), once);
    }
}

#[test]
fn client_messages_map_to_actions() {
    assert!(matches!(client_message_action(None), ClientAction::Ignore));
    assert!(matches!(
        client_message_action(Some(ClientMessage::Resync { limit: None })),
        ClientAction::Resync { limit: 20 }
    ));
    assert!(matches!(
        client_message_action(Some(ClientMessage::Resync { limit: Some(500) })),
        ClientAction::Resync { limit: 100 }
    ));
}

#[test]
fn silent_client_is_closed_on_second_tick() {
    let mut s = ConnectionState::new();
    assert!(s.pong_received);
    assert!(matches!(s.on_heartbeat(), HeartbeatAction::SendPing));
    assert!(!s.pong_received);
    assert!(matches!(s.on_heartbeat(), HeartbeatAction::Close));
}

#[test]
fn pong_keeps_connection_open() {
    let mut s = ConnectionState::new();
    assert!(matches!(s.on_heartbeat(), HeartbeatAction::SendPing));
    assert!(matches!(s.on_frame(Some(IncomingFrame::Pong)), ReceiveAction::Continue));
    assert!(s.pong_received);
    assert!(matches!(s.on_heartbeat(), HeartbeatAction::SendPing));
}

#[test]
fn frames_map_to_receive_actions() {
    let mut s = ConnectionState::new();
    match s.on_frame(Some(IncomingFrame::Text("{\"type\":\"resync\"}".to_string()))) {
        ReceiveAction::HandleText(t) => assert_eq!(t, "{\"type\":\"resync\"}"),
        _ => panic!("text frame must be handled"),
    }
    assert!(matches!(s.on_frame(Some(IncomingFrame::Ping)), ReceiveAction::Continue));
    assert!(matches!(s.on_frame(Some(IncomingFrame::Binary)), ReceiveAction::Continue));
    assert!(matches!(s.on_frame(Some(IncomingFrame::Close)), ReceiveAction::Stop));
    assert!(matches!(s.on_frame(None), ReceiveAction::Stop));
    assert_eq!(s.messages_dropped_total, 0);
}

#[test]
fn lagging_adds_to_dropped_total() {
    let mut s = ConnectionState::new();
    assert!(matches!(
        s.on_broadcast(BroadcastEvent::Lagged { skipped: 5 }),
        BroadcastAction::NotifyDropped { count: 5 }
    ));
    assert!(matches!(
        s.on_broadcast(BroadcastEvent::Lagged { skipped: 7 }),
        BroadcastAction::NotifyDropped { count: 7 }
    ));
    assert_eq!(s.messages_dropped_total, 12);
    assert!(s.pong_received);
}

#[test]
fn broadcast_updates_and_close() {
    let mut s = ConnectionState::new();
    match s.on_broadcast(BroadcastEvent::Update { json: Some("{}".to_string()) }) {
        BroadcastAction::SendUpdate(j) => assert_eq!(j, "{}"),
        _ => panic!("update must be sent"),
    }
    assert!(matches!(s.on_broadcast(BroadcastEvent::Update { json: None }), BroadcastAction::Skip));
    assert!(matches!(s.on_broadcast(BroadcastEvent::Closed), BroadcastAction::Stop));
    assert_eq!(s.messages_dropped_total, 0);
}

#[test]
fn failed_sends_stop_except_the_notice() {
    assert!(matches!(after_send(SentFrame::Ping, true), LoopControl::Continue));
    assert!(matches!(after_send(SentFrame::Ping, false), LoopControl::Stop));
    assert!(matches!(after_send(SentFrame::Update, true), LoopControl::Continue));
    assert!(matches!(after_send(SentFrame::Update, false), LoopControl::Stop));
    assert!(matches!(after_send(SentFrame::DroppedNotice, false), LoopControl::Continue));
    assert!(matches!(after_send(SentFrame::DroppedNotice, true), LoopControl::Continue));
}

#[test]
fn unanswered_ping_closes_at_deadline() {
    let mut s = ConnectionState::new();
    assert!(matches!(s.on_heartbeat(), HeartbeatAction::SendPing));
    assert!(matches!(s.on_frame(Some(IncomingFrame::Ping)), ReceiveAction::Continue));
    assert!(matches!(s.on_pong_deadline(), DeadlineAction::Close));
}

#[test]
fn answered_ping_is_kept_at_deadline() {
    let mut s = ConnectionState::new();
    assert!(matches!(s.on_heartbeat(), HeartbeatAction::SendPing));
    assert!(matches!(s.on_frame(Some(IncomingFrame::Pong)), ReceiveAction::Continue));
    assert!(matches!(s.on_pong_deadline(), DeadlineAction::Keep));
    assert!(matches!(s.on_heartbeat(), HeartbeatAction::SendPing));
}

#[test]
fn dropped_counter_wraps_like_the_atomic() {
    let mut s = ConnectionState::new();
    s.on_broadcast(BroadcastEvent::Lagged { skipped: u64::MAX });
    assert_eq!(s.messages_dropped_total, u64::MAX);
    s.on_broadcast(BroadcastEvent::Lagged { skipped: 3 });
    assert_eq!(s.messages_dropped_total, 2);
}

#[test]
fn failed_store_query_sends_nothing() {
    assert_eq!(resync_reply::<Vec<u32>, String>(Ok(vec![1, 2])), Some(vec![1, 2]));
    assert_eq!(resync_reply::<Vec<u32>, String>(Ok(vec![])), Some(vec![]));
    assert_eq!(resync_reply::<Vec<u32>, String>(Err("db down".to_string())), None);
}
