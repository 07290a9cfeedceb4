//! Live events for WebSocket clients.
//!
//! A client sends subscription messages to choose which events it receives:
//!
//! ```json
//! {"subscribe": "sessions/<uuid>"}
//! {"subscribe": "sessions"}
//! {"unsubscribe": "sessions/<uuid>"}
//! ```
//!
//! The events of the bus are filtered by the client's active subscriptions, and
//! those that match are forwarded.

use std::collections::HashSet;

use vstd::prelude::*;

use crate::db::select;
use crate::error::AppError;
use crate::ids;
use crate::ids::Uuid;
use crate::routes::table;
use crate::routes::table::{Endpoint, Method, Route};
use crate::text::{strip_prefix, text_eq};

verus! {

/// Seconds between two pings of the server.
pub const PING_SECONDS: u64 = 30;

/// How many events an internal subscriber's queue holds.
pub const QUEUE_CAPACITY: usize = 1000;

/// Whether the connected client is an internal service or someone else.
#[derive(Clone, Copy, Debug, PartialEq, Eq, Structural)]
pub enum SubscriberType {
    /// A service of ours: events are queued for it, up to `QUEUE_CAPACITY`, so
    /// that it loses none while it is slow for a while. One that stays behind
    /// until the bus no longer holds what its full queue had no room for does
    /// lose events.
    Internal,
    /// A browser or anyone else: events are dropped where it cannot keep up.
    External,
}

/// Where a connection has its events from.
#[derive(Clone, Copy, Debug, PartialEq, Eq, Structural)]
pub enum Delivery {
    /// From a queue of its own, which a task fills from the bus.
    Queue { capacity: usize },
    /// Straight from the bus.
    Bus,
}

/// Where a subscriber has its events from: our own services from a queue,
/// everyone else from the bus.
pub fn delivery(kind: SubscriberType) -> (res: Delivery)
    ensures
        res == (match kind {
            SubscriberType::Internal => Delivery::Queue { capacity: QUEUE_CAPACITY },
            SubscriberType::External => Delivery::Bus,
        }),
{
    match kind {
        SubscriberType::Internal => Delivery::Queue { capacity: QUEUE_CAPACITY },
        SubscriberType::External => Delivery::Bus,
    }
}

/// A control message of a client.
#[derive(Debug, PartialEq, Eq)]
pub enum ClientMessage {
    Subscribe { subscribe: String },
    Unsubscribe { unsubscribe: String },
}

/// What came in from a client.
#[derive(Debug, PartialEq, Eq)]
pub enum Incoming {
    /// A text frame, with the control message that it holds, if it holds one.
    Text(Option<ClientMessage>),
    /// A frame that asks to close the connection.
    Close,
    /// A frame of another kind: binary, ping or pong.
    Other,
    /// The connection failed.
    Failed,
    /// The connection is at its end.
    Ended,
}

/// An event of the bus, as far as it decides who receives it.
#[derive(Clone, Copy, Debug, PartialEq, Eq, Structural)]
pub struct ApiEvent {
    pub session_id: Uuid,
}

/// A row of the service sessions.
#[derive(Debug, PartialEq, Eq)]
pub struct ServiceSession {
    pub token_hash: String,
    pub service_name: String,
    pub alive: bool,
}

/// What a client can subscribe to.
#[derive(Clone, Copy, Debug, PartialEq, Eq, Hash, Structural)]
pub enum Topic {
    /// All events of all sessions.
    AllSessions,
    /// The events of one session.
    Session(Uuid),
}

/// Whether `raw` is a name of `topic`.
pub open spec fn names_topic(raw: Seq<char>, topic: Topic) -> bool {
    match topic {
        Topic::AllSessions => raw == "sessions"@,
        Topic::Session(id) => {
            let prefix = "sessions/"@;
            &&& prefix.is_prefix_of(raw)
            &&& ids::spells_uuid(raw.skip(prefix.len() as int), id.bits)
        },
    }
}

/// The topic that `raw` names.
pub open spec fn topic_of(raw: Seq<char>) -> Option<Topic> {
    if exists|topic: Topic| names_topic(raw, topic) {
        Some(choose|topic: Topic| names_topic(raw, topic))
    } else {
        None
    }
}

/// Reads the name of a topic.
pub fn parse_topic(raw: &str) -> (res: Option<Topic>)
    ensures
        res == topic_of(raw@),
        forall|topic: Topic| res == Some(topic) <==> #[trigger] names_topic(raw@, topic),
{
    let res = parse_topic_name(raw);
    proof {
        if let Some(topic) = res {
            assert(names_topic(raw@, topic));
        }
    }
    res
}

/// Reads the name of a topic, without regard to `topic_of`.
fn parse_topic_name(raw: &str) -> (res: Option<Topic>)
    ensures
        forall|topic: Topic| res == Some(topic) <==> #[trigger] names_topic(raw@, topic),
{
    let ghost prefix = "sessions/"@;
    proof {
        reveal_strlit("sessions");
        reveal_strlit("sessions/");
    }
    if text_eq(raw, "sessions") {
        return Some(Topic::AllSessions);
    }
    if let Some(id_str) = strip_prefix(raw, "sessions/") {
        assert(raw@.skip(prefix.len() as int) =~= id_str@);
        assert(raw@.take(prefix.len() as int) =~= prefix);
        if let Some(id) = Uuid::parse(id_str) {
            proof {
                assert(ids::spells_uuid(id_str@, id.bits));
                assert forall|topic: Topic|
                    Some(Topic::Session(id)) == Some(topic) <==> #[trigger] names_topic(
                        raw@,
                        topic,
                    ) by {
                    if let Topic::Session(other) = topic {
                        if ids::spells_uuid(id_str@, other.bits) {
                            ids::law_spelling_is_unique(id_str@, id.bits, other.bits);
                        }
                    }
                }
            }
            return Some(Topic::Session(id));
        }
    } else {
        proof {
            if prefix.is_prefix_of(raw@) {
                assert(raw@ =~= prefix + raw@.skip(prefix.len() as int));
            }
        }
    }
    None
}

/// The active subscriptions of a client: a set of topics.
#[derive(Debug, PartialEq, Eq)]
pub struct Subscriptions {
    all_sessions: bool,
    sessions: HashSet<u128>,
}

impl View for Subscriptions {
    type V = Set<Topic>;

    closed spec fn view(&self) -> Set<Topic> {
        Set::new(
            |topic: Topic|
                match topic {
                    Topic::AllSessions => self.all_sessions,
                    Topic::Session(id) => self.sessions@.contains(id.bits),
                },
        )
    }
}

impl Subscriptions {
    /// No subscriptions.
    pub fn new() -> (res: Self)
        ensures
            res@ == Set::<Topic>::empty(),
    {
        let res = Subscriptions { all_sessions: false, sessions: HashSet::new() };
        assert(res@ =~= Set::<Topic>::empty());
        res
    }

    /// Whether `topic` is among the subscriptions.
    pub fn contains(&self, topic: Topic) -> (res: bool)
        ensures
            res == self@.contains(topic),
    {
        broadcast use vstd::std_specs::hash::group_hash_axioms;

        match topic {
            Topic::AllSessions => self.all_sessions,
            Topic::Session(id) => self.sessions.contains(&id.bits),
        }
    }

    /// Adds `topic`.
    pub fn insert(&mut self, topic: Topic)
        ensures
            final(self)@ == old(self)@.insert(topic),
    {
        broadcast use vstd::std_specs::hash::group_hash_axioms;

        let ghost before = self@;
        match topic {
            Topic::AllSessions => {
                self.all_sessions = true;
            },
            Topic::Session(id) => {
                self.sessions.insert(id.bits);
            },
        }
        assert(self@ =~= before.insert(topic));
    }

    /// Takes `topic` out.
    pub fn remove(&mut self, topic: Topic)
        ensures
            final(self)@ == old(self)@.remove(topic),
    {
        broadcast use vstd::std_specs::hash::group_hash_axioms;

        let ghost before = self@;
        match topic {
            Topic::AllSessions => {
                self.all_sessions = false;
            },
            Topic::Session(id) => {
                self.sessions.remove(&id.bits);
            },
        }
        assert(self@ =~= before.remove(topic));
    }
}

/// The subscriptions after `msg` came in.
pub open spec fn subscribed(subscriptions: Set<Topic>, msg: Incoming) -> Set<Topic> {
    match msg {
        Incoming::Text(Some(ClientMessage::Subscribe { subscribe })) => match topic_of(
            subscribe@,
        ) {
            Some(topic) => subscriptions.insert(topic),
            None => subscriptions,
        },
        Incoming::Text(Some(ClientMessage::Unsubscribe { unsubscribe })) => match topic_of(
            unsubscribe@,
        ) {
            Some(topic) => subscriptions.remove(topic),
            None => subscriptions,
        },
        _ => subscriptions,
    }
}

/// Whether the connection stays open after `msg` came in.
pub open spec fn stays_open(msg: Incoming) -> bool {
    match msg {
        Incoming::Text(_) => true,
        Incoming::Other => true,
        Incoming::Close => false,
        Incoming::Failed => false,
        Incoming::Ended => false,
    }
}

/// Processes what came in from a client. Returns `false` if the connection
/// should close.
pub fn handle_client_msg(msg: Incoming, subscriptions: &mut Subscriptions) -> (res: bool)
    ensures
        res == stays_open(msg),
        final(subscriptions)@ == subscribed(old(subscriptions)@, msg),
{
    match msg {
        Incoming::Text(Some(ClientMessage::Subscribe { subscribe })) => {
            if let Some(topic) = parse_topic(subscribe.as_str()) {
                subscriptions.insert(topic);
            }
            true
        },
        Incoming::Text(Some(ClientMessage::Unsubscribe { unsubscribe })) => {
            if let Some(topic) = parse_topic(unsubscribe.as_str()) {
                subscriptions.remove(topic);
            }
            true
        },
        Incoming::Text(None) => true,
        Incoming::Other => true,
        Incoming::Close => false,
        Incoming::Failed => false,
        Incoming::Ended => false,
    }
}

/// Whether an event is one that the subscriptions ask for.
pub open spec fn wanted(subscriptions: Set<Topic>, event: ApiEvent) -> bool {
    subscriptions.contains(Topic::AllSessions) || subscriptions.contains(
        Topic::Session(event.session_id),
    )
}

/// Whether an event matches any active subscription.
pub fn topic_matches(subscriptions: &Subscriptions, event: &ApiEvent) -> (res: bool)
    ensures
        res == wanted(subscriptions@, *event),
        res <==> subscriptions@.contains(Topic::AllSessions) || subscriptions@.contains(
            Topic::Session(event.session_id),
        ),
{
    subscriptions.contains(Topic::AllSessions) || subscriptions.contains(
        Topic::Session(event.session_id),
    )
}

/// The names of our own services.
pub open spec fn internal_service(name: Seq<char>) -> bool {
    ||| name == "chronicle-worker"@
    ||| name == "chronicle-bot"@
    ||| name == "chronicle-feeder"@
}

/// How a service is served.
pub open spec fn subscriber_type(service_name: Seq<char>) -> SubscriberType {
    if internal_service(service_name) {
        SubscriberType::Internal
    } else {
        SubscriberType::External
    }
}

/// The live sessions of the token with this hash.
pub open spec fn live_session(token_hash: Seq<char>) -> spec_fn(ServiceSession) -> bool {
    |row: ServiceSession| row.token_hash@ == token_hash && row.alive
}

/// What a token whose hash is `token_hash` is worth, given the answer of the
/// table of service sessions.
pub open spec fn token_worth(
    rows: Result<Vec<ServiceSession>, AppError>,
    token_hash: Seq<char>,
) -> Option<SubscriberType> {
    match rows {
        Ok(rows) => match select::first_where(rows@, live_session(token_hash)) {
            Some(row) => Some(subscriber_type(row.service_name@)),
            None => None,
        },
        Err(_) => None,
    }
}

/// Validates the token of a connection and finds out how to serve it. A token
/// without a live session is worth nothing, nor is any while the table cannot
/// be read.
pub fn validate_ws_token(rows: &Result<Vec<ServiceSession>, AppError>, token_hash: &String) -> (res:
    Option<SubscriberType>)
    ensures
        res == token_worth(*rows, token_hash@),
{
    let rows = match rows {
        Ok(rows) => rows,
        Err(_) => return None,
    };
    let is_live = |row: &ServiceSession| -> (b: bool)
        ensures
            b == live_session(token_hash@)(*row),
    {
        row.token_hash == *token_hash && row.alive
    };
    match select::find(rows, is_live, Ghost(live_session(token_hash@))) {
        Some(row) => {
            let name = row.service_name.as_str();
            if text_eq(name, "chronicle-worker") || text_eq(name, "chronicle-bot") || text_eq(
                name,
                "chronicle-feeder",
            ) {
                Some(SubscriberType::Internal)
            } else {
                Some(SubscriberType::External)
            }
        },
        None => None,
    }
}

/// The answer to a request for a connection.
#[derive(Debug, PartialEq, Eq)]
pub enum Upgrade {
    /// The request is answered with a status and a text.
    Refused { status: u16, message: String },
    /// The connection is made and served for this type of subscriber.
    Accepted(SubscriberType),
}

/// How a request for a connection is served, given the hash of the token that it
/// carries, if it carries one; `None` where it is refused.
pub open spec fn admitted(
    rows: Result<Vec<ServiceSession>, AppError>,
    token_hash: Option<String>,
) -> Option<SubscriberType> {
    match token_hash {
        Some(token_hash) => token_worth(rows, token_hash@),
        None => None,
    }
}

/// Decides on a request for a connection, before the connection is made. One
/// without a valid token, or without any, is refused as unauthorized.
pub fn ws_upgrade(
    rows: &Result<Vec<ServiceSession>, AppError>,
    token_hash: &Option<String>,
) -> (res: Upgrade)
    ensures
        match admitted(*rows, *token_hash) {
            Some(kind) => res == Upgrade::Accepted(kind),
            None => res matches Upgrade::Refused { status, message } && status == 401 && message@
                == "invalid or expired session token"@,
        },
{
    let kind = match token_hash {
        Some(token_hash) => validate_ws_token(rows, token_hash),
        None => None,
    };
    match kind {
        Some(kind) => Upgrade::Accepted(kind),
        None => Upgrade::Refused {
            status: 401,
            message: "invalid or expired session token".to_owned(),
        },
    }
}

/// What the event bus, or the queue behind it, hands out.
#[derive(Clone, Copy, Debug, PartialEq, Eq, Structural)]
pub enum BusEvent {
    Event(ApiEvent),
    /// So many events were lost, because the receiver was too slow.
    Lagged(u64),
    /// No event will follow.
    Closed,
}

/// How sending went.
#[derive(Clone, Copy, Debug, PartialEq, Eq, Structural)]
pub enum SendOutcome {
    Sent,
    /// The event has no JSON form; nothing was sent.
    NotSerialized,
    Failed,
}

/// What a connection waits for.
#[derive(Debug, PartialEq, Eq)]
pub enum SocketEvent {
    Client(Incoming),
    Bus(BusEvent),
    /// It is time for a ping.
    Tick,
    /// Something was sent, with this outcome.
    Sent(SendOutcome),
}

/// What is to be done next.
#[derive(Clone, Copy, Debug, PartialEq, Eq, Structural)]
pub enum SocketAction {
    /// Wait for what comes.
    Wait,
    /// Send the event to the client as a JSON text frame.
    Deliver(ApiEvent),
    /// Send a ping with an empty payload.
    Ping,
    /// End the connection.
    Close,
}

/// A connection that is served.
#[derive(Debug, PartialEq, Eq)]
pub struct Socket {
    pub kind: SubscriberType,
    pub subscriptions: Subscriptions,
    /// What is being done: waiting, sending, or nothing any more.
    pub doing: SocketAction,
}

pub struct SocketView {
    pub kind: SubscriberType,
    pub subscriptions: Set<Topic>,
    pub doing: SocketAction,
}

impl View for Socket {
    type V = SocketView;

    open spec fn view(&self) -> SocketView {
        SocketView {
            kind: self.kind,
            subscriptions: self.subscriptions@,
            doing: self.doing,
        }
    }
}

/// What a waiting connection does on an event, given the subscriptions before
/// it.
pub open spec fn action_on(
    kind: SubscriberType,
    subscriptions: Set<Topic>,
    event: SocketEvent,
) -> SocketAction {
    match event {
        SocketEvent::Client(msg) => if stays_open(msg) {
            SocketAction::Wait
        } else {
            SocketAction::Close
        },
        SocketEvent::Bus(BusEvent::Event(event)) => if wanted(subscriptions, event) {
            SocketAction::Deliver(event)
        } else {
            SocketAction::Wait
        },
        SocketEvent::Bus(BusEvent::Lagged(_)) => SocketAction::Wait,
        SocketEvent::Bus(BusEvent::Closed) => match kind {
            SubscriberType::Internal => SocketAction::Wait,
            SubscriberType::External => SocketAction::Close,
        },
        SocketEvent::Tick => SocketAction::Ping,
        SocketEvent::Sent(outcome) => after_sending(outcome),
    }
}

/// What is done after something was sent: the connection ends if it could not
/// be.
pub open spec fn after_sending(outcome: SendOutcome) -> SocketAction {
    match outcome {
        SendOutcome::Failed => SocketAction::Close,
        SendOutcome::Sent => SocketAction::Wait,
        SendOutcome::NotSerialized => SocketAction::Wait,
    }
}

impl SocketView {
    /// A connection that was just made.
    pub open spec fn opened(kind: SubscriberType) -> SocketView {
        SocketView { kind, subscriptions: Set::empty(), doing: SocketAction::Wait }
    }

    /// The connection after an event. While something is being sent, nothing but
    /// the outcome of that is taken in. Once closed, nothing is.
    pub open spec fn after(self, event: SocketEvent) -> SocketView {
        match self.doing {
            SocketAction::Close => self,
            SocketAction::Wait => SocketView {
                kind: self.kind,
                subscriptions: match event {
                    SocketEvent::Client(msg) => subscribed(self.subscriptions, msg),
                    _ => self.subscriptions,
                },
                doing: action_on(self.kind, self.subscriptions, event),
            },
            _ => match event {
                SocketEvent::Sent(outcome) => SocketView {
                    kind: self.kind,
                    subscriptions: self.subscriptions,
                    doing: after_sending(outcome),
                },
                _ => self,
            },
        }
    }
}

/// Starts to serve a connection, without subscriptions.
pub fn handle_socket(kind: SubscriberType) -> (res: Socket)
    ensures
        res@ == SocketView::opened(kind),
{
    Socket { kind, subscriptions: Subscriptions::new(), doing: SocketAction::Wait }
}

impl Socket {
    /// Takes in an event and says what is to be done.
    pub fn advance(&mut self, event: SocketEvent) -> (res: SocketAction)
        ensures
            final(self)@ == old(self)@.after(event),
            res == final(self).doing,
    {
        let doing = match (self.doing, event) {
            (SocketAction::Close, _) => SocketAction::Close,
            (_, SocketEvent::Sent(SendOutcome::Failed)) => SocketAction::Close,
            (_, SocketEvent::Sent(SendOutcome::Sent)) => SocketAction::Wait,
            (_, SocketEvent::Sent(SendOutcome::NotSerialized)) => SocketAction::Wait,
            (SocketAction::Wait, SocketEvent::Client(msg)) => {
                if handle_client_msg(msg, &mut self.subscriptions) {
                    SocketAction::Wait
                } else {
                    SocketAction::Close
                }
            },
            (SocketAction::Wait, SocketEvent::Bus(BusEvent::Event(event))) => {
                if topic_matches(&self.subscriptions, &event) {
                    SocketAction::Deliver(event)
                } else {
                    SocketAction::Wait
                }
            },
            (SocketAction::Wait, SocketEvent::Bus(BusEvent::Lagged(_))) => SocketAction::Wait,
            (SocketAction::Wait, SocketEvent::Bus(BusEvent::Closed)) => match self.kind {
                SubscriberType::Internal => SocketAction::Wait,
                SubscriberType::External => SocketAction::Close,
            },
            (SocketAction::Wait, SocketEvent::Tick) => SocketAction::Ping,
            (sending, _) => sending,
        };
        self.doing = doing;
        doing
    }
}

/// What the task that fills an internal subscriber's queue does next.
#[derive(Clone, Copy, Debug, PartialEq, Eq, Structural)]
pub enum DrainAction {
    /// Put the event into the queue, waiting for room. Meanwhile the bus goes
    /// on: if that takes too long, it reports `Lagged`, and the events that it
    /// reports are lost to this subscriber.
    Enqueue(ApiEvent),
    /// Wait for the next event of the bus.
    Wait,
    /// Stop.
    Stop,
}

/// What that task does with what the bus hands out.
pub open spec fn drain_step(event: BusEvent) -> DrainAction {
    match event {
        BusEvent::Event(event) => DrainAction::Enqueue(event),
        BusEvent::Lagged(_) => DrainAction::Wait,
        BusEvent::Closed => DrainAction::Stop,
    }
}

/// What that task does once an event was offered to the queue.
pub open spec fn offer_step(accepted: bool) -> DrainAction {
    if accepted {
        DrainAction::Wait
    } else {
        DrainAction::Stop
    }
}

/// One step of the task that moves events from the bus into an internal
/// subscriber's queue.
pub fn drain(event: BusEvent) -> (res: DrainAction)
    ensures
        res == drain_step(event),
{
    match event {
        BusEvent::Event(event) => DrainAction::Enqueue(event),
        BusEvent::Lagged(_) => DrainAction::Wait,
        BusEvent::Closed => DrainAction::Stop,
    }
}

/// What that task does once an event was offered to the queue: it stops if the
/// queue's other end is gone.
pub fn after_enqueue(accepted: bool) -> (res: DrainAction)
    ensures
        res == offer_step(accepted),
{
    if accepted {
        DrainAction::Wait
    } else {
        DrainAction::Stop
    }
}

/// The routes of `routes`.
pub open spec fn table() -> Seq<table::RouteView> {
    seq![
        table::RouteView {
            method: Method::Get,
            path: "/ws"@,
            endpoint: Endpoint::WsUpgrade,
        },
    ]
}

/// The route on which connections are made.
pub fn routes() -> (res: Vec<Route>)
    ensures
        table::table_of(res@) == table(),
{
    let mut routes: Vec<Route> = Vec::new();
    routes.push(Route::new(Method::Get, "/ws", Endpoint::WsUpgrade));
    assert(table::table_of(routes@) =~= table());
    routes
}

} // verus!
