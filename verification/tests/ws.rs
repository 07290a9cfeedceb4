use chronicle::error::AppError;
use chronicle::ids::Uuid;
use chronicle::routes::ws::{
    after_enqueue, delivery, drain, handle_client_msg, handle_socket, parse_topic, topic_matches,
    validate_ws_token, ws_upgrade, ApiEvent, BusEvent, ClientMessage, Delivery, DrainAction,
    Incoming, SendOutcome, ServiceSession, Socket, SocketAction, SocketEvent, SubscriberType,
    Subscriptions, Topic, Upgrade,
};

const A: u128 = 0x67e55044_10b1_426f_9247_bb680e5fe0c8;
const B: u128 = 0x01020304_1112_2122_3132_414243444546;

fn id(bits: u128) -> Uuid {
    Uuid { bits }
}

fn event(bits: u128) -> ApiEvent {
    ApiEvent { session_id: id(bits) }
}

fn subscribe(topic: &str) -> Incoming {
    Incoming::Text(Some(ClientMessage::Subscribe { subscribe: topic.to_string() }))
}

fn unsubscribe(topic: &str) -> Incoming {
    Incoming::Text(Some(ClientMessage::Unsubscribe { unsubscribe: topic.to_string() }))
}

fn bus(bits: u128) -> SocketEvent {
    SocketEvent::Bus(BusEvent::Event(event(bits)))
}

fn of_session(bits: u128) -> String {
    format!("sessions/{}", id(bits).to_text())
}

fn row(hash: &str, name: &str, alive: bool) -> ServiceSession {
    ServiceSession { token_hash: hash.to_string(), service_name: name.to_string(), alive }
}

#[test]
fn topics_are_parsed() {
    assert_eq!(parse_topic("sessions"), Some(Topic::AllSessions));
    assert_eq!(
        parse_topic("sessions/67e55044-10b1-426f-9247-bb680e5fe0c8"),
        Some(Topic::Session(id(A)))
    );
    assert_eq!(
        parse_topic("sessions/67E5504410B1426F9247BB680E5FE0C8"),
        Some(Topic::Session(id(A)))
    );
    assert_eq!(parse_topic("sessions/"), None);
    assert_eq!(parse_topic("sessions/abc"), None);
    assert_eq!(parse_topic("Sessions"), None);
    assert_eq!(parse_topic(""), None);
    assert_eq!(parse_topic("users"), None);
    assert_eq!(parse_topic("67e55044-10b1-426f-9247-bb680e5fe0c8"), None);
    assert_eq!(parse_topic("sessions//67e55044-10b1-426f-9247-bb680e5fe0c8"), None);
    assert_eq!(parse_topic("s\u{e9}ssions/67e55044-10b1-426f-9247-bb680e5fe0c8"), None);
}

#[test]
fn subscriptions_are_a_set() {
    let mut subs = Subscriptions::new();
    assert!(!subs.contains(Topic::AllSessions));
    subs.insert(Topic::Session(id(A)));
    subs.insert(Topic::Session(id(A)));
    assert!(subs.contains(Topic::Session(id(A))));
    assert!(!subs.contains(Topic::Session(id(B))));
    subs.remove(Topic::Session(id(A)));
    assert!(!subs.contains(Topic::Session(id(A))));
    subs.remove(Topic::AllSessions);
    assert!(!subs.contains(Topic::AllSessions));
}

#[test]
fn events_match_their_session_or_all() {
    let mut subs = Subscriptions::new();
    assert!(!topic_matches(&subs, &event(A)));
    subs.insert(Topic::Session(id(A)));
    assert!(topic_matches(&subs, &event(A)));
    assert!(!topic_matches(&subs, &event(B)));
    subs.insert(Topic::AllSessions);
    assert!(topic_matches(&subs, &event(B)));
    subs.remove(Topic::Session(id(A)));
    assert!(topic_matches(&subs, &event(A)));
    subs.remove(Topic::AllSessions);
    assert!(!topic_matches(&subs, &event(A)));
}

#[test]
fn client_messages_change_subscriptions() {
    let mut subs = Subscriptions::new();
    assert!(handle_client_msg(subscribe("sessions"), &mut subs));
    assert!(handle_client_msg(subscribe(&of_session(A)), &mut subs));
    assert!(subs.contains(Topic::AllSessions));
    assert!(subs.contains(Topic::Session(id(A))));
    assert!(handle_client_msg(unsubscribe("sessions"), &mut subs));
    assert!(!subs.contains(Topic::AllSessions));
    assert!(subs.contains(Topic::Session(id(A))));
    assert!(handle_client_msg(unsubscribe(&of_session(A)), &mut subs));
    assert!(!subs.contains(Topic::Session(id(A))));
}

#[test]
fn unknown_messages_are_ignored() {
    let mut subs = Subscriptions::new();
    subs.insert(Topic::Session(id(A)));
    assert!(handle_client_msg(Incoming::Text(None), &mut subs));
    assert!(handle_client_msg(Incoming::Other, &mut subs));
    assert!(handle_client_msg(subscribe("sessions/nonsense"), &mut subs));
    assert!(handle_client_msg(unsubscribe("everything"), &mut subs));
    assert!(subs.contains(Topic::Session(id(A))));
    assert!(!subs.contains(Topic::AllSessions));
}

#[test]
fn connection_closes_with_the_client() {
    let mut subs = Subscriptions::new();
    assert!(!handle_client_msg(Incoming::Close, &mut subs));
    assert!(!handle_client_msg(Incoming::Failed, &mut subs));
    assert!(!handle_client_msg(Incoming::Ended, &mut subs));
}

#[test]
fn services_of_ours_are_internal() {
    for name in ["chronicle-worker", "chronicle-bot", "chronicle-feeder"] {
        let rows = Ok(vec![row("h", name, true)]);
        assert_eq!(validate_ws_token(&rows, &"h".to_string()), Some(SubscriberType::Internal));
    }
    for name in ["portal", "chronicle", "chronicle-bots", ""] {
        let rows = Ok(vec![row("h", name, true)]);
        assert_eq!(validate_ws_token(&rows, &"h".to_string()), Some(SubscriberType::External));
    }
}

#[test]
fn only_internal_subscribers_have_a_queue() {
    assert_eq!(delivery(SubscriberType::Internal), Delivery::Queue { capacity: 1000 });
    assert_eq!(delivery(SubscriberType::External), Delivery::Bus);
}

#[test]
fn token_without_live_session_is_refused() {
    let refused = Upgrade::Refused {
        status: 401,
        message: "invalid or expired session token".to_string(),
    };
    let hash = Some("h".to_string());
    assert_eq!(ws_upgrade(&Ok(vec![]), &hash), refused);
    assert_eq!(ws_upgrade(&Ok(vec![row("h", "portal", true)]), &None), refused);
    assert_eq!(ws_upgrade(&Ok(vec![row("h", "portal", false)]), &hash), refused);
    assert_eq!(ws_upgrade(&Ok(vec![row("g", "portal", true)]), &hash), refused);
    assert_eq!(ws_upgrade(&Err(AppError::RowNotFound), &hash), refused);
    let rows = Ok(vec![row("h", "chronicle-bot", false), row("h", "portal", true)]);
    assert_eq!(ws_upgrade(&rows, &hash), Upgrade::Accepted(SubscriberType::External));
}

fn sent(outcome: SendOutcome) -> SocketEvent {
    SocketEvent::Sent(outcome)
}

fn opened(kind: SubscriberType) -> Socket {
    handle_socket(kind)
}

#[test]
fn bus_is_filtered_by_subscriptions() {
    for kind in [SubscriberType::Internal, SubscriberType::External] {
        let mut socket = opened(kind);
        assert_eq!(socket.advance(bus(A)), SocketAction::Wait);
        assert_eq!(
            socket.advance(SocketEvent::Client(subscribe(&of_session(A)))),
            SocketAction::Wait
        );
        assert_eq!(socket.advance(bus(A)), SocketAction::Deliver(event(A)));
        assert_eq!(socket.advance(sent(SendOutcome::Sent)), SocketAction::Wait);
        assert_eq!(socket.advance(bus(B)), SocketAction::Wait);
        socket.advance(SocketEvent::Client(subscribe("sessions")));
        assert_eq!(socket.advance(bus(B)), SocketAction::Deliver(event(B)));
        assert_eq!(socket.advance(sent(SendOutcome::NotSerialized)), SocketAction::Wait);
        socket.advance(SocketEvent::Client(unsubscribe("sessions")));
        assert_eq!(socket.advance(bus(B)), SocketAction::Wait);
        assert_eq!(socket.advance(bus(A)), SocketAction::Deliver(event(A)));
        assert_eq!(socket.advance(sent(SendOutcome::Sent)), SocketAction::Wait);
        socket.advance(SocketEvent::Client(unsubscribe(&of_session(A))));
        assert_eq!(socket.advance(bus(A)), SocketAction::Wait);
    }
}

#[test]
fn only_external_subscribers_end_with_the_bus() {
    let closed = || SocketEvent::Bus(BusEvent::Closed);
    let lagged = || SocketEvent::Bus(BusEvent::Lagged(12));
    assert_eq!(opened(SubscriberType::Internal).advance(closed()), SocketAction::Wait);
    assert_eq!(opened(SubscriberType::External).advance(closed()), SocketAction::Close);
    assert_eq!(opened(SubscriberType::Internal).advance(lagged()), SocketAction::Wait);
    assert_eq!(opened(SubscriberType::External).advance(lagged()), SocketAction::Wait);
}

#[test]
fn pings_are_sent_and_failed_sends_close() {
    let mut socket = opened(SubscriberType::External);
    assert_eq!(socket.advance(SocketEvent::Tick), SocketAction::Ping);
    assert_eq!(socket.advance(sent(SendOutcome::Sent)), SocketAction::Wait);
    assert_eq!(socket.advance(SocketEvent::Client(Incoming::Other)), SocketAction::Wait);
    assert_eq!(socket.advance(SocketEvent::Tick), SocketAction::Ping);
    assert_eq!(socket.advance(sent(SendOutcome::Failed)), SocketAction::Close);

    let mut socket = opened(SubscriberType::Internal);
    socket.advance(SocketEvent::Client(subscribe("sessions")));
    assert_eq!(socket.advance(bus(A)), SocketAction::Deliver(event(A)));
    assert_eq!(socket.advance(sent(SendOutcome::Failed)), SocketAction::Close);
}

#[test]
fn closed_connection_is_final() {
    for kind in [SubscriberType::Internal, SubscriberType::External] {
        let mut socket = opened(kind);
        socket.advance(SocketEvent::Client(subscribe("sessions")));
        assert_eq!(socket.advance(SocketEvent::Client(Incoming::Close)), SocketAction::Close);
        assert_eq!(socket.advance(bus(A)), SocketAction::Close);
        assert_eq!(socket.advance(SocketEvent::Tick), SocketAction::Close);
        assert_eq!(socket.advance(sent(SendOutcome::Sent)), SocketAction::Close);
        assert_eq!(
            socket.advance(SocketEvent::Client(unsubscribe("sessions"))),
            SocketAction::Close
        );
        assert!(socket.subscriptions.contains(Topic::AllSessions));
    }
}

#[test]
fn nothing_is_taken_in_while_sending() {
    let mut socket = opened(SubscriberType::External);
    socket.advance(SocketEvent::Client(subscribe("sessions")));
    assert_eq!(socket.advance(bus(A)), SocketAction::Deliver(event(A)));
    assert_eq!(socket.advance(bus(B)), SocketAction::Deliver(event(A)));
    assert_eq!(socket.advance(SocketEvent::Tick), SocketAction::Deliver(event(A)));
    assert_eq!(
        socket.advance(SocketEvent::Client(unsubscribe("sessions"))),
        SocketAction::Deliver(event(A))
    );
    assert_eq!(socket.advance(sent(SendOutcome::Sent)), SocketAction::Wait);
    assert_eq!(socket.advance(bus(B)), SocketAction::Deliver(event(B)));
}

/// Feeds what the bus handed out, sending whatever is asked for.
fn sent_of(kind: SubscriberType, bus_events: &[BusEvent]) -> Vec<ApiEvent> {
    let mut socket = opened(kind);
    socket.advance(SocketEvent::Client(subscribe(&of_session(A))));
    let mut delivered = Vec::new();
    for handed_out in bus_events {
        if let SocketAction::Deliver(event) = socket.advance(SocketEvent::Bus(*handed_out)) {
            delivered.push(event);
            socket.advance(sent(SendOutcome::Sent));
        }
    }
    delivered
}

#[test]
fn both_kinds_are_sent_the_same() {
    let bus_events = [
        BusEvent::Event(event(A)),
        BusEvent::Lagged(2),
        BusEvent::Event(event(B)),
        BusEvent::Event(event(A)),
        BusEvent::Closed,
    ];
    let mut queue = Vec::new();
    for handed_out in bus_events {
        match drain(handed_out) {
            DrainAction::Enqueue(event) => queue.push(BusEvent::Event(event)),
            DrainAction::Wait => {}
            DrainAction::Stop => break,
        }
    }
    assert_eq!(queue.len(), 3);
    assert_eq!(sent_of(SubscriberType::External, &bus_events), vec![event(A), event(A)]);
    assert_eq!(sent_of(SubscriberType::Internal, &queue), vec![event(A), event(A)]);
}

#[test]
fn drain_passes_every_event_on() {
    assert_eq!(drain(BusEvent::Event(event(A))), DrainAction::Enqueue(event(A)));
    assert_eq!(drain(BusEvent::Lagged(3)), DrainAction::Wait);
    assert_eq!(drain(BusEvent::Closed), DrainAction::Stop);
    assert_eq!(after_enqueue(true), DrainAction::Wait);
    assert_eq!(after_enqueue(false), DrainAction::Stop);
}
