//! What holds of every connection, over whole runs of events.

use vstd::prelude::*;

use crate::db::select;
use crate::error::AppError;
use crate::ids;
use crate::ids::Uuid;
use crate::routes::ws;
use crate::routes::ws::{
    ApiEvent, BusEvent, ClientMessage, DrainAction, Incoming, SendOutcome, ServiceSession,
    SocketAction, SocketEvent, SocketView, SubscriberType, Topic,
};

verus! {

/// A connection that was at `start`, after a run of events.
pub open spec fn along(start: SocketView, events: Seq<SocketEvent>) -> SocketView
    decreases events.len(),
{
    if events.len() == 0 {
        start
    } else {
        along(start, events.drop_last()).after(events.last())
    }
}

/// The events that a run has sent to the client, in order.
pub open spec fn deliveries(start: SocketView, events: Seq<SocketEvent>) -> Seq<ApiEvent>
    decreases events.len(),
{
    if events.len() == 0 {
        Seq::empty()
    } else {
        let before = deliveries(start, events.drop_last());
        match (along(start, events.drop_last()).doing, events.last()) {
            (
                SocketAction::Deliver(event),
                SocketEvent::Sent(SendOutcome::Sent),
            ) => before.push(event),
            _ => before,
        }
    }
}

/// The events that a run has asked to be sent to the client, in order.
pub open spec fn requests(start: SocketView, events: Seq<SocketEvent>) -> Seq<ApiEvent>
    decreases events.len(),
{
    if events.len() == 0 {
        Seq::empty()
    } else {
        let before = requests(start, events.drop_last());
        let connection = along(start, events.drop_last());
        match connection.after(events.last()).doing {
            SocketAction::Deliver(event) => if connection.doing is Wait {
                before.push(event)
            } else {
                before
            },
            _ => before,
        }
    }
}

/// The events of the bus that the subscriptions asked for when the bus handed
/// them out, in order.
pub open spec fn wanted_events(start: SocketView, events: Seq<SocketEvent>) -> Seq<ApiEvent>
    decreases events.len(),
{
    if events.len() == 0 {
        Seq::empty()
    } else {
        let before = wanted_events(start, events.drop_last());
        match events.last() {
            SocketEvent::Bus(BusEvent::Event(event)) => if ws::wanted(
                along(start, events.drop_last()).subscriptions,
                event,
            ) {
                before.push(event)
            } else {
                before
            },
            _ => before,
        }
    }
}

/// What the bus, or the queue behind it, handed out in a run.
pub open spec fn bus_part(events: Seq<SocketEvent>) -> Seq<BusEvent>
    decreases events.len(),
{
    if events.len() == 0 {
        Seq::empty()
    } else {
        let before = bus_part(events.drop_last());
        match events.last() {
            SocketEvent::Bus(event) => before.push(event),
            _ => before,
        }
    }
}

/// The events among what the bus handed out, in order.
pub open spec fn events_among(bus: Seq<BusEvent>) -> Seq<ApiEvent>
    decreases bus.len(),
{
    if bus.len() == 0 {
        Seq::empty()
    } else {
        let before = events_among(bus.drop_last());
        match bus.last() {
            BusEvent::Event(event) => before.push(event),
            _ => before,
        }
    }
}

/// Whether `event` is one that a connection in this state takes in.
pub open spec fn awaited(doing: SocketAction, event: SocketEvent) -> bool {
    match doing {
        SocketAction::Wait => !(event is Sent),
        SocketAction::Deliver(_) => event is Sent,
        SocketAction::Ping => event is Sent,
        SocketAction::Close => false,
    }
}

/// A run in which the connection gets, each time, an event that it takes in.
pub open spec fn orderly(start: SocketView, events: Seq<SocketEvent>) -> bool {
    forall|i: int|
        0 <= i < events.len() ==> awaited(
            along(start, events.take(i)).doing,
            #[trigger] events[i],
        )
}

/// Whenever the bus hands out an event, the subscriptions are these.
pub open spec fn bus_meets(
    start: SocketView,
    events: Seq<SocketEvent>,
    subscriptions: Set<Topic>,
) -> bool {
    forall|i: int|
        0 <= i < events.len() && #[trigger] events[i] is Bus ==> along(
            start,
            events.take(i),
        ).subscriptions == subscriptions
}

/// `events[i]` is `event`, handed out by the bus and asked for by the
/// subscriptions at that point.
pub open spec fn is_source(
    start: SocketView,
    events: Seq<SocketEvent>,
    i: int,
    event: ApiEvent,
) -> bool {
    &&& 0 <= i < events.len()
    &&& events[i] == SocketEvent::Bus(BusEvent::Event(event))
    &&& along(start, events.take(i)).doing is Wait
    &&& ws::wanted(along(start, events.take(i)).subscriptions, event)
}

/// `at` says where in the run each of `sent` was handed out: one after the
/// other, each at a place of its own.
pub open spec fn are_sources(
    start: SocketView,
    events: Seq<SocketEvent>,
    at: Seq<int>,
    sent: Seq<ApiEvent>,
) -> bool {
    &&& at.len() == sent.len()
    &&& forall|d: int| 0 <= d < at.len() ==> is_source(start, events, #[trigger] at[d], sent[d])
    &&& forall|c: int, d: int|
        #![trigger at[c], at[d]]
        0 <= c < d < at.len() ==> at[c] < at[d]
}

/// `msg` subscribes to `topic`.
pub open spec fn subscribes(msg: Incoming, topic: Topic) -> bool {
    msg matches Incoming::Text(Some(ClientMessage::Subscribe { subscribe })) && ws::topic_of(
        subscribe@,
    ) == Some(topic)
}

/// `msg` unsubscribes from `topic`.
pub open spec fn unsubscribes(msg: Incoming, topic: Topic) -> bool {
    msg matches Incoming::Text(Some(ClientMessage::Unsubscribe { unsubscribe })) && ws::topic_of(
        unsubscribe@,
    ) == Some(topic)
}

/// The names that the subscription protocol gives to the topics.
pub proof fn law_topics_have_names(id: Uuid)
    ensures
        ws::topic_of("sessions"@) == Some(Topic::AllSessions),
        ws::topic_of("sessions/"@ + ids::hyphenated_form(id.bits)) == Some(Topic::Session(id)),
{
    reveal_strlit("sessions");
    reveal_strlit("sessions/");
    let prefix = "sessions/"@;
    assert(ws::names_topic("sessions"@, Topic::AllSessions));
    law_name_is_of_one_topic("sessions"@, Topic::AllSessions, ws::topic_of("sessions"@)->0);
    let raw = prefix + ids::hyphenated_form(id.bits);
    assert(raw.take(prefix.len() as int) =~= prefix);
    assert(raw.skip(prefix.len() as int) =~= ids::hyphenated_form(id.bits));
    ids::law_uuid_text_reads_back(id);
    assert(ws::names_topic(raw, Topic::Session(id)));
    law_name_is_of_one_topic(raw, Topic::Session(id), ws::topic_of(raw)->0);
}

/// A name names at most one topic.
pub proof fn law_name_is_of_one_topic(raw: Seq<char>, a: Topic, b: Topic)
    requires
        ws::names_topic(raw, a),
        ws::names_topic(raw, b),
    ensures
        a == b,
{
    reveal_strlit("sessions");
    reveal_strlit("sessions/");
    match (a, b) {
        (Topic::Session(x), Topic::Session(y)) => {
            ids::law_spelling_is_unique(raw.skip("sessions/"@.len() as int), x.bits, y.bits);
        },
        _ => {},
    }
}

/// In any run, what the client is sent are events that the bus handed out and
/// that the subscriptions asked for at that point, in the order of the bus, none
/// more often than it was handed out.
pub proof fn law_delivered_events_were_wanted(start: SocketView, events: Seq<SocketEvent>)
    requires
        start.doing is Wait,
    ensures
        exists|at: Seq<int>| #[trigger]
            are_sources(start, events, at, deliveries(start, events)),
{
    let at = lemma_sources(start, events);
    let sent = deliveries(start, events);
    assert(are_sources(start, events, at.take(sent.len() as int), sent));
}

/// What was sent, and behind it what is being sent.
spec fn sent_or_sending(start: SocketView, events: Seq<SocketEvent>) -> Seq<ApiEvent> {
    match along(start, events).doing {
        SocketAction::Deliver(event) => deliveries(start, events).push(event),
        _ => deliveries(start, events),
    }
}

proof fn lemma_sources(start: SocketView, events: Seq<SocketEvent>) -> (at: Seq<int>)
    requires
        start.doing is Wait,
    ensures
        are_sources(start, events, at, sent_or_sending(start, events)),
    decreases events.len(),
{
    if events.len() == 0 {
        Seq::empty()
    } else {
        let rest = events.drop_last();
        let before = lemma_sources(start, rest);
        let earlier = sent_or_sending(start, rest);
        assert forall|i: int, event: ApiEvent| #[trigger]
            is_source(start, rest, i, event) implies is_source(start, events, i, event) by {
            assert(rest.take(i) =~= events.take(i));
        }
        assert(events.take(events.len() - 1) =~= rest);
        let connection = along(start, rest);
        let now = sent_or_sending(start, events);
        match (connection.doing, along(start, events).doing) {
            (SocketAction::Wait, SocketAction::Deliver(event)) => {
                let last = events.len() - 1;
                assert(is_source(start, events, last, event));
                assert(now =~= earlier.push(event));
                before.push(last)
            },
            (SocketAction::Deliver(event), _) => {
                if now.len() == earlier.len() {
                    assert(now =~= earlier);
                    before
                } else {
                    assert(now =~= earlier.drop_last());
                    before.drop_last()
                }
            },
            _ => {
                assert(now =~= earlier);
                before
            },
        }
    }
}

/// In an orderly run, those events of the bus are asked to be sent that the
/// subscriptions asked for when the bus handed them out: all of them, in order,
/// and no others.
pub proof fn law_wanted_events_are_requested(start: SocketView, events: Seq<SocketEvent>)
    requires
        start.doing is Wait,
        orderly(start, events),
    ensures
        requests(start, events) == wanted_events(start, events),
    decreases events.len(),
{
    if events.len() > 0 {
        let last = events.len() - 1;
        assert(events.take(last) =~= events.drop_last());
        assert(events[last] == events.last());
        lemma_orderly_prefix(start, events);
        law_wanted_events_are_requested(start, events.drop_last());
    }
}

proof fn lemma_orderly_prefix(start: SocketView, events: Seq<SocketEvent>)
    requires
        events.len() > 0,
        orderly(start, events),
    ensures
        orderly(start, events.drop_last()),
{
    let rest = events.drop_last();
    assert forall|i: int| 0 <= i < rest.len() implies awaited(
        along(start, rest.take(i)).doing,
        #[trigger] rest[i],
    ) by {
        assert(rest.take(i) =~= events.take(i));
        assert(rest[i] == events[i]);
    }
}

/// Where the bus's events all meet the same subscriptions, those that are asked
/// for when they are handed out are the bus's events filtered by these
/// subscriptions.
pub proof fn law_bus_is_filtered_by_subscriptions(
    start: SocketView,
    events: Seq<SocketEvent>,
    subscriptions: Set<Topic>,
)
    requires
        bus_meets(start, events, subscriptions),
    ensures
        wanted_events(start, events) == events_among(bus_part(events)).filter(
            |event: ApiEvent| ws::wanted(subscriptions, event),
        ),
    decreases events.len(),
{
    let wants = |event: ApiEvent| ws::wanted(subscriptions, event);
    if events.len() == 0 {
        reveal(Seq::filter);
        assert(events_among(bus_part(events)).filter(wants) =~= Seq::empty());
    } else {
        let rest = events.drop_last();
        let last = events.len() - 1;
        assert(events.take(last) =~= rest);
        assert(events[last] == events.last());
        assert forall|i: int| 0 <= i < rest.len() && #[trigger] rest[i] is Bus implies along(
            start,
            rest.take(i),
        ).subscriptions == subscriptions by {
            assert(rest.take(i) =~= events.take(i));
            assert(rest[i] == events[i]);
        }
        law_bus_is_filtered_by_subscriptions(start, rest, subscriptions);
        if let SocketEvent::Bus(event) = events.last() {
            assert(bus_part(events).drop_last() =~= bus_part(rest));
            if let BusEvent::Event(event) = event {
                events_among(bus_part(rest)).lemma_filter_push(event, wants);
            }
        }
    }
}

/// In an orderly run in which everything could be sent, the client was sent all
/// that was asked to be sent, but for what is being sent.
pub proof fn law_requests_are_delivered(start: SocketView, events: Seq<SocketEvent>)
    requires
        start.doing is Wait,
        orderly(start, events),
        forall|i: int|
            0 <= i < events.len() && #[trigger] events[i] is Sent ==> events[i]
                == SocketEvent::Sent(SendOutcome::Sent),
    ensures
        requests(start, events) == (match along(start, events).doing {
            SocketAction::Deliver(event) => deliveries(start, events).push(event),
            _ => deliveries(start, events),
        }),
    decreases events.len(),
{
    if events.len() > 0 {
        let rest = events.drop_last();
        let last = events.len() - 1;
        assert(events.take(last) =~= rest);
        assert(events[last] == events.last());
        lemma_orderly_prefix(start, events);
        assert forall|i: int| 0 <= i < rest.len() && #[trigger] rest[i] is Sent implies rest[i]
            == SocketEvent::Sent(SendOutcome::Sent) by {
            assert(rest[i] == events[i]);
        }
        law_requests_are_delivered(start, rest);
    }
}

/// On an orderly run in which everything could be sent, the client was sent those
/// events of the bus that its subscriptions asked for when the bus handed them
/// out: all of them, in order, and no others. The last of them may still be on
/// its way.
pub proof fn law_client_is_sent_what_it_asked_for(start: SocketView, events: Seq<SocketEvent>)
    requires
        start.doing is Wait,
        orderly(start, events),
        forall|i: int|
            0 <= i < events.len() && #[trigger] events[i] is Sent ==> events[i]
                == SocketEvent::Sent(SendOutcome::Sent),
    ensures
        wanted_events(start, events) == (match along(start, events).doing {
            SocketAction::Deliver(event) => deliveries(start, events).push(event),
            _ => deliveries(start, events),
        }),
{
    law_wanted_events_are_requested(start, events);
    law_requests_are_delivered(start, events);
}

/// Nothing but the client changes the subscriptions.
pub proof fn law_only_the_client_changes_subscriptions(
    start: SocketView,
    events: Seq<SocketEvent>,
)
    requires
        forall|i: int| 0 <= i < events.len() ==> !(#[trigger] events[i] is Client),
    ensures
        along(start, events).subscriptions == start.subscriptions,
    decreases events.len(),
{
    if events.len() > 0 {
        law_only_the_client_changes_subscriptions(start, events.drop_last());
        assert(events.last() == events[events.len() - 1]);
    }
}

/// A connection that was closed stays as it is, and nothing more is sent on it.
pub proof fn law_closed_connection_is_final(
    start: SocketView,
    events: Seq<SocketEvent>,
    k: int,
)
    requires
        0 <= k <= events.len(),
        along(start, events.take(k)).doing is Close,
    ensures
        along(start, events) == along(start, events.take(k)),
        deliveries(start, events) == deliveries(start, events.take(k)),
        requests(start, events) == requests(start, events.take(k)),
    decreases events.len(),
{
    if k == events.len() {
        assert(events.take(k) =~= events);
    } else {
        assert(events.drop_last().take(k) =~= events.take(k));
        law_closed_connection_is_final(start, events.drop_last(), k);
    }
}

/// An event that could not be sent, or that has no JSON form, is not among what
/// the client was sent; a failure to send ends the connection.
pub proof fn law_unsent_events_are_not_delivered(
    start: SocketView,
    events: Seq<SocketEvent>,
    outcome: SendOutcome,
)
    requires
        outcome != SendOutcome::Sent,
    ensures
        deliveries(start, events.push(SocketEvent::Sent(outcome))) == deliveries(start, events),
        outcome == SendOutcome::Failed ==> along(
            start,
            events.push(SocketEvent::Sent(outcome)),
        ).doing is Close,
{
    assert(events.push(SocketEvent::Sent(outcome)).drop_last() =~= events);
}

/// `event` is a message that subscribes to some topic.
pub open spec fn is_subscription(event: SocketEvent) -> bool {
    event matches SocketEvent::Client(
        Incoming::Text(Some(ClientMessage::Subscribe { subscribe })),
    ) && ws::topic_of(subscribe@) is Some
}

/// A client that never subscribed is sent nothing.
pub proof fn law_nothing_without_subscription(kind: SubscriberType, events: Seq<SocketEvent>)
    requires
        forall|i: int| 0 <= i < events.len() ==> !is_subscription(#[trigger] events[i]),
    ensures
        deliveries(SocketView::opened(kind), events) == Seq::<ApiEvent>::empty(),
        requests(SocketView::opened(kind), events) == Seq::<ApiEvent>::empty(),
        along(SocketView::opened(kind), events).subscriptions == Set::<Topic>::empty(),
        !(along(SocketView::opened(kind), events).doing is Deliver),
    decreases events.len(),
{
    if events.len() > 0 {
        law_nothing_without_subscription(kind, events.drop_last());
        assert(!is_subscription(events[events.len() - 1]));
        assert(along(SocketView::opened(kind), events).subscriptions =~= Set::<Topic>::empty());
    }
}

/// A subscription holds until the client withdraws it.
pub proof fn law_subscription_holds_until_withdrawn(
    start: SocketView,
    msg: Incoming,
    later: Seq<SocketEvent>,
    topic: Topic,
)
    requires
        start.doing is Wait,
        subscribes(msg, topic),
        forall|i: int|
            0 <= i < later.len() ==> !(#[trigger] later[i] matches SocketEvent::Client(m)
                && unsubscribes(m, topic)),
    ensures
        along(start.after(SocketEvent::Client(msg)), later).subscriptions.contains(topic),
    decreases later.len(),
{
    if later.len() > 0 {
        law_subscription_holds_until_withdrawn(start, msg, later.drop_last(), topic);
        assert(later.last() == later[later.len() - 1]);
    }
}

/// A withdrawn subscription stays withdrawn until the client subscribes anew.
pub proof fn law_withdrawal_holds_until_renewed(
    start: SocketView,
    msg: Incoming,
    later: Seq<SocketEvent>,
    topic: Topic,
)
    requires
        start.doing is Wait,
        unsubscribes(msg, topic),
        forall|i: int|
            0 <= i < later.len() ==> !(#[trigger] later[i] matches SocketEvent::Client(m)
                && subscribes(m, topic)),
    ensures
        !along(start.after(SocketEvent::Client(msg)), later).subscriptions.contains(topic),
    decreases later.len(),
{
    if later.len() > 0 {
        law_withdrawal_holds_until_renewed(start, msg, later.drop_last(), topic);
        assert(later.last() == later[later.len() - 1]);
    }
}

/// What the bus handed out to the task that fills a queue, each with whether the
/// queue took it, where it was offered.
pub type Offers = Seq<(BusEvent, bool)>;

/// Whether that task goes on.
pub open spec fn draining(offers: Offers) -> bool
    decreases offers.len(),
{
    offers.len() == 0 || draining(offers.drop_last()) && match ws::drain_step(offers.last().0) {
        DrainAction::Enqueue(_) => !(ws::offer_step(offers.last().1) is Stop),
        DrainAction::Wait => true,
        DrainAction::Stop => false,
    }
}

/// What that task has put into the queue, in order.
pub open spec fn enqueued(offers: Offers) -> Seq<ApiEvent>
    decreases offers.len(),
{
    if offers.len() == 0 {
        Seq::empty()
    } else {
        let before = enqueued(offers.drop_last());
        match ws::drain_step(offers.last().0) {
            DrainAction::Enqueue(event) => if draining(offers.drop_last()) && offers.last().1 {
                before.push(event)
            } else {
                before
            },
            _ => before,
        }
    }
}

/// What the bus handed out to that task.
pub open spec fn offered(offers: Offers) -> Seq<BusEvent> {
    offers.map_values(|offer: (BusEvent, bool)| offer.0)
}

/// The queue gets the events that the bus hands out, each once and in order: all
/// of them until the bus is closed or the queue's other end is gone.
pub proof fn law_drain_passes_every_event_on(offers: Offers)
    ensures
        enqueued(offers).is_prefix_of(events_among(offered(offers))),
        draining(offers) ==> enqueued(offers) == events_among(offered(offers)),
        draining(offers) && offers.len() > 0 ==> !(offers.last().0 is Closed),
        offers.len() > 0 && draining(offers.drop_last()) && offers.last().0 is Closed
            ==> enqueued(offers) == events_among(offered(offers)),
    decreases offers.len(),
{
    if offers.len() > 0 {
        law_drain_passes_every_event_on(offers.drop_last());
        assert(offered(offers).drop_last() =~= offered(offers.drop_last()));
    }
}

/// The task stops only where the bus is closed or the queue refuses an event;
/// lost events do not stop it.
pub proof fn law_drain_outlives_lost_events(offers: Offers)
    requires
        forall|i: int|
            0 <= i < offers.len() ==> !((#[trigger] offers[i]).0 is Closed) && (offers[i].0 is Event
                ==> offers[i].1),
    ensures
        draining(offers),
        enqueued(offers) == events_among(offered(offers)),
    decreases offers.len(),
{
    if offers.len() > 0 {
        assert(offers.last() == offers[offers.len() - 1]);
        law_drain_outlives_lost_events(offers.drop_last());
        assert(offered(offers).drop_last() =~= offered(offers.drop_last()));
    }
}

/// A run as it comes through a queue: the queue holds events only, so neither
/// losses nor the end of the bus are seen behind it.
pub open spec fn through_queue(events: Seq<SocketEvent>) -> Seq<SocketEvent>
    decreases events.len(),
{
    if events.len() == 0 {
        Seq::empty()
    } else {
        let before = through_queue(events.drop_last());
        match events.last() {
            SocketEvent::Bus(BusEvent::Lagged(_)) => before,
            SocketEvent::Bus(BusEvent::Closed) => before,
            event => before.push(event),
        }
    }
}

/// Behind the queue, the bus's events are those that the task put into it.
pub proof fn law_queue_hands_out_what_was_enqueued(events: Seq<SocketEvent>, offers: Offers)
    requires
        bus_part(events) == offered(offers),
        draining(offers),
    ensures
        events_among(bus_part(through_queue(events))) == enqueued(offers),
{
    law_drain_passes_every_event_on(offers);
    lemma_through_queue(events);
}

proof fn lemma_through_queue(events: Seq<SocketEvent>)
    ensures
        events_among(bus_part(through_queue(events))) == events_among(bus_part(events)),
    decreases events.len(),
{
    if events.len() > 0 {
        let rest = events.drop_last();
        lemma_through_queue(rest);
        if let SocketEvent::Bus(event) = events.last() {
            assert(bus_part(events).drop_last() =~= bus_part(rest));
            if event is Event {
                assert(through_queue(events).drop_last() =~= through_queue(rest));
                assert(bus_part(through_queue(events)).drop_last() =~= bus_part(
                    through_queue(rest),
                ));
            }
        } else {
            assert(through_queue(events).drop_last() =~= through_queue(rest));
        }
    }
}

/// An internal and an external subscriber are sent the same events: the one
/// through its queue, the other straight from the bus, until the bus is closed.
pub proof fn law_both_kinds_are_sent_the_same(
    subscriptions: Set<Topic>,
    events: Seq<SocketEvent>,
)
    requires
        forall|i: int|
            0 <= i < events.len() - 1 ==> #[trigger] events[i] != SocketEvent::Bus(
                BusEvent::Closed,
            ),
    ensures
        ({
            let internal = SocketView {
                kind: SubscriberType::Internal,
                subscriptions,
                doing: SocketAction::Wait,
            };
            let external = SocketView {
                kind: SubscriberType::External,
                subscriptions,
                doing: SocketAction::Wait,
            };
            &&& deliveries(internal, through_queue(events)) == deliveries(external, events)
            &&& along(internal, through_queue(events)).subscriptions == along(
                external,
                events,
            ).subscriptions
            &&& events.len() == 0 || events.last() != SocketEvent::Bus(BusEvent::Closed)
                ==> along(internal, through_queue(events)).doing == along(external, events).doing
        }),
    decreases events.len(),
{
    let internal = SocketView {
        kind: SubscriberType::Internal,
        subscriptions,
        doing: SocketAction::Wait,
    };
    let external = SocketView {
        kind: SubscriberType::External,
        subscriptions,
        doing: SocketAction::Wait,
    };
    if events.len() > 0 {
        let rest = events.drop_last();
        if rest.len() > 0 {
            assert(rest.last() == events[events.len() - 2]);
        }
        law_both_kinds_are_sent_the_same(subscriptions, rest);
        lemma_kind_is_kept(internal, through_queue(rest));
        lemma_kind_is_kept(external, rest);
        if !(events.last() matches SocketEvent::Bus(BusEvent::Lagged(_))) && events.last()
            != SocketEvent::Bus(BusEvent::Closed) {
            assert(through_queue(events).drop_last() =~= through_queue(rest));
        }
    }
}

proof fn lemma_kind_is_kept(start: SocketView, events: Seq<SocketEvent>)
    ensures
        along(start, events).kind == start.kind,
    decreases events.len(),
{
    if events.len() > 0 {
        lemma_kind_is_kept(start, events.drop_last());
    }
}

/// A subscription to all sessions asks for every event; one to a single session
/// for that session's events and, alone, for no others.
pub proof fn law_subscriptions_ask_for_their_sessions(event: ApiEvent, id: Uuid)
    ensures
        ws::wanted(set![Topic::AllSessions], event),
        ws::wanted(set![Topic::Session(id)], event) <==> event.session_id == id,
{
}

/// Withdrawing the subscription to one session does not touch the one to all
/// sessions, nor that to another session; withdrawing the one to all leaves
/// each single one.
pub proof fn law_subscriptions_are_independent(
    subscriptions: Set<Topic>,
    event: ApiEvent,
    other: Uuid,
)
    ensures
        subscriptions.contains(Topic::AllSessions) ==> ws::wanted(
            subscriptions.remove(Topic::Session(other)),
            event,
        ),
        other != event.session_id ==> ws::wanted(subscriptions.remove(Topic::Session(other)), event)
            == ws::wanted(subscriptions, event),
        subscriptions.contains(Topic::Session(event.session_id)) ==> ws::wanted(
            subscriptions.remove(Topic::AllSessions),
            event,
        ),
{
}

/// A text that is no control message, or whose topic is not known, changes
/// nothing and leaves the connection open.
pub proof fn law_unknown_messages_are_ignored(subscriptions: Set<Topic>, msg: Incoming)
    requires
        msg matches Incoming::Text(text) && (text matches Some(message) ==> ws::topic_of(
            match message {
                ClientMessage::Subscribe { subscribe } => subscribe@,
                ClientMessage::Unsubscribe { unsubscribe } => unsubscribe@,
            },
        ) is None),
    ensures
        ws::subscribed(subscriptions, msg) == subscriptions,
        ws::stays_open(msg),
{
}

/// An internal subscriber outlives the bus, an external one does not; lost
/// events end neither connection.
pub proof fn law_only_external_subscribers_end_with_the_bus(connection: SocketView, lost: u64)
    requires
        connection.doing is Wait,
    ensures
        connection.after(SocketEvent::Bus(BusEvent::Closed)).doing is Close <==> connection.kind
            == SubscriberType::External,
        connection.after(SocketEvent::Bus(BusEvent::Lagged(lost))) == connection,
{
}

/// A token is worth something if and only if a live session carries its hash.
pub proof fn law_only_live_sessions_connect(
    rows: Result<Vec<ServiceSession>, AppError>,
    token_hash: Seq<char>,
)
    ensures
        ws::token_worth(rows, token_hash) is Some <==> (rows matches Ok(rows) && exists|i: int|
            0 <= i < rows@.len() && (#[trigger] rows@[i]).token_hash@ == token_hash
                && rows@[i].alive),
{
    if let Ok(rows) = rows {
        select::lemma_first_where(rows@, ws::live_session(token_hash));
        if let Some(row) = select::first_where(rows@, ws::live_session(token_hash)) {
            let i = choose|i: int| 0 <= i < rows@.len() && rows@[i] == row;
            assert(rows@[i].alive);
        } else {
            assert forall|i: int| 0 <= i < rows@.len() implies !((
            #[trigger] rows@[i]).token_hash@ == token_hash && rows@[i].alive) by {
                assert(!ws::live_session(token_hash)(rows@[i]));
            }
        }
    }
}

/// A waiting connection asks for a ping on every tick, whoever is connected and
/// whatever the subscriptions are, and is otherwise as before.
pub proof fn law_every_tick_is_a_ping(connection: SocketView)
    requires
        connection.doing is Wait,
    ensures
        connection.after(SocketEvent::Tick).doing == SocketAction::Ping,
        connection.after(SocketEvent::Tick).subscriptions == connection.subscriptions,
        connection.after(SocketEvent::Tick).kind == connection.kind,
{
}

/// A waiting connection asks for an event of the bus to be delivered if and only
/// if the client is subscribed to all sessions or to the event's own, and then
/// for that event; otherwise it goes on waiting.
pub proof fn law_event_is_delivered_if_subscribed(connection: SocketView, event: ApiEvent)
    requires
        connection.doing is Wait,
    ensures
        ({
            let next = connection.after(SocketEvent::Bus(BusEvent::Event(event)));
            &&& next.doing == SocketAction::Deliver(event) <==> (
            connection.subscriptions.contains(Topic::AllSessions)
                || connection.subscriptions.contains(Topic::Session(event.session_id)))
            &&& next.doing == SocketAction::Deliver(event) || next.doing == SocketAction::Wait
            &&& next.subscriptions == connection.subscriptions
            &&& next.kind == connection.kind
        }),
{
}

/// The end of the bus, and losses, change no subscription; the former ends the
/// connection of an external subscriber only, the latter none.
pub proof fn law_bus_reports_leave_the_subscriptions(connection: SocketView, lost: u64)
    requires
        connection.doing is Wait,
    ensures
        ({
            let next = connection.after(SocketEvent::Bus(BusEvent::Closed));
            &&& next.kind == connection.kind
            &&& next.subscriptions == connection.subscriptions
            &&& connection.kind == SubscriberType::External ==> next.doing == SocketAction::Close
            &&& connection.kind == SubscriberType::Internal ==> next.doing == SocketAction::Wait
        }),
        connection.after(SocketEvent::Bus(BusEvent::Lagged(lost))) == connection,
{
}

/// What comes in from the client ends a waiting connection if and only if it is
/// the wish to close, a failure, or the end; a text or any other frame never
/// does.
pub proof fn law_connection_ends_with_the_client(connection: SocketView, msg: Incoming)
    requires
        connection.doing is Wait,
    ensures
        ({
            let next = connection.after(SocketEvent::Client(msg)).doing;
            &&& msg is Close || msg is Failed || msg is Ended ==> next == SocketAction::Close
            &&& msg is Text || msg is Other ==> next == SocketAction::Wait
        }),
        connection.after(SocketEvent::Client(msg)).kind == connection.kind,
{
}

/// A message to subscribe adds the topic that it names, and no other; one to
/// unsubscribe takes out the topic that it names, and no other. One that names
/// no topic, and whatever is no such message, leaves the subscriptions.
pub proof fn law_client_chooses_its_topics(connection: SocketView, msg: Incoming, topic: Topic)
    requires
        connection.doing is Wait,
    ensures
        ({
            let before = connection.subscriptions.contains(topic);
            let after = connection.after(SocketEvent::Client(msg)).subscriptions.contains(topic);
            match msg {
                Incoming::Text(Some(ClientMessage::Subscribe { subscribe })) => after == (before
                    || ws::topic_of(subscribe@) == Some(topic)),
                Incoming::Text(Some(ClientMessage::Unsubscribe { unsubscribe })) => after == (before
                    && ws::topic_of(unsubscribe@) != Some(topic)),
                _ => after == before,
            }
        }),
{
}

/// What processing a client's message returns and does to the subscriptions, on
/// its own.
pub proof fn law_client_message_is_processed(
    subscriptions: Set<Topic>,
    msg: Incoming,
    topic: Topic,
)
    ensures
        ws::stays_open(msg) <==> (msg is Text || msg is Other),
        ws::subscribed(subscriptions, msg).contains(topic) == (match msg {
            Incoming::Text(Some(ClientMessage::Subscribe { subscribe })) => subscriptions.contains(
                topic,
            ) || ws::topic_of(subscribe@) == Some(topic),
            Incoming::Text(Some(ClientMessage::Unsubscribe { unsubscribe })) =>
            subscriptions.contains(topic) && ws::topic_of(unsubscribe@) != Some(topic),
            _ => subscriptions.contains(topic),
        }),
{
}

/// While something is being sent, only its outcome counts: a failure ends the
/// connection, and anything else lets it wait again, with its subscriptions.
pub proof fn law_sending_goes_on_to_its_outcome(connection: SocketView, event: SocketEvent)
    requires
        connection.doing is Ping || connection.doing is Deliver,
    ensures
        connection.after(event).kind == connection.kind,
        connection.after(event).subscriptions == connection.subscriptions,
        connection.after(event).doing == (match event {
            SocketEvent::Sent(SendOutcome::Failed) => SocketAction::Close,
            SocketEvent::Sent(_) => SocketAction::Wait,
            _ => connection.doing,
        }),
{
}

/// An outcome that comes while nothing is being sent ends the connection if it is
/// a failure, and else changes nothing.
pub proof fn law_stray_outcome_changes_nothing_but_a_failure(
    connection: SocketView,
    outcome: SendOutcome,
)
    requires
        connection.doing is Wait,
    ensures
        ({
            let next = connection.after(SocketEvent::Sent(outcome));
            &&& outcome is Failed ==> next.doing == SocketAction::Close
            &&& !(outcome is Failed) ==> next.doing == SocketAction::Wait
            &&& next.subscriptions == connection.subscriptions
            &&& next.kind == connection.kind
        }),
{
}

/// A connection starts waiting, for the subscriber that it was made for, and
/// without subscriptions.
pub proof fn law_connection_starts_without_subscriptions(kind: SubscriberType, topic: Topic)
    ensures
        SocketView::opened(kind).kind == kind,
        SocketView::opened(kind).doing == SocketAction::Wait,
        !SocketView::opened(kind).subscriptions.contains(topic),
{
}

/// All sessions are named `sessions`, and by no other text. A session is named
/// `sessions/` and a spelling of its id, and by no other text.
pub proof fn law_topic_is_what_its_name_says(raw: Seq<char>, id: Uuid)
    ensures
        ws::topic_of(raw) == Some(Topic::AllSessions) <==> raw == "sessions"@,
        ws::topic_of(raw) == Some(Topic::Session(id)) <==> exists|rest: Seq<char>|
            raw == "sessions/"@ + rest && #[trigger] ids::spells_uuid(rest, id.bits),
{
    let prefix = "sessions/"@;
    if let Some(topic) = ws::topic_of(raw) {
        assert(ws::names_topic(raw, topic));
    }
    if raw == "sessions"@ {
        assert(ws::names_topic(raw, Topic::AllSessions));
        law_name_is_of_one_topic(raw, Topic::AllSessions, ws::topic_of(raw)->0);
    }
    if ws::topic_of(raw) == Some(Topic::Session(id)) {
        let rest = raw.skip(prefix.len() as int);
        assert(raw =~= prefix + rest);
        assert(ids::spells_uuid(rest, id.bits));
    }
    if exists|rest: Seq<char>| raw == prefix + rest && #[trigger] ids::spells_uuid(rest, id.bits) {
        let rest = choose|rest: Seq<char>|
            raw == prefix + rest && #[trigger] ids::spells_uuid(rest, id.bits);
        assert(raw.skip(prefix.len() as int) =~= rest);
        assert(raw.take(prefix.len() as int) =~= prefix);
        assert(ws::names_topic(raw, Topic::Session(id)));
        law_name_is_of_one_topic(raw, Topic::Session(id), ws::topic_of(raw)->0);
    }
}

/// A token is served as internal if and only if its live session is one of our
/// own services, which have these three names; and as external if and only if it
/// is one of anyone else. The live session is the first that carries the hash.
pub proof fn law_token_is_served_as_its_service(
    rows: Vec<ServiceSession>,
    token_hash: Seq<char>,
    i: int,
)
    requires
        0 <= i < rows@.len(),
        rows@[i].token_hash@ == token_hash,
        rows@[i].alive,
        forall|j: int|
            0 <= j < i ==> (#[trigger] rows@[j]).token_hash@ != token_hash || !rows@[j].alive,
    ensures
        ws::token_worth(Ok(rows), token_hash) == Some(
            if rows@[i].service_name@ == "chronicle-worker"@ || rows@[i].service_name@
                == "chronicle-bot"@ || rows@[i].service_name@ == "chronicle-feeder"@ {
                SubscriberType::Internal
            } else {
                SubscriberType::External
            },
        ),
{
    let live = ws::live_session(token_hash);
    select::lemma_first_where_skip(rows@, live, i);
    assert(rows@.skip(i)[0] == rows@[i]);
}

/// A connection is admitted as its token is worth, and without a token, a live
/// session or a readable table not at all.
pub proof fn law_admission_takes_a_live_session(
    rows: Result<Vec<ServiceSession>, AppError>,
    token_hash: Option<String>,
)
    ensures
        token_hash is None ==> ws::admitted(rows, token_hash) is None,
        rows is Err ==> ws::admitted(rows, token_hash) is None,
        token_hash matches Some(hash) ==> ws::admitted(rows, token_hash) == ws::token_worth(
            rows,
            hash@,
        ),
        ws::admitted(rows, token_hash) is Some <==> (rows matches Ok(rows) && token_hash matches Some(
            hash,
        ) && exists|i: int|
            0 <= i < rows@.len() && (#[trigger] rows@[i]).token_hash@ == hash@ && rows@[i].alive),
{
    if let Some(hash) = token_hash {
        law_only_live_sessions_connect(rows, hash@);
    }
}

/// The task that fills a queue offers every event of the bus to it, goes on after
/// losses, and stops when the bus is closed or the queue takes nothing more.
pub proof fn law_drain_offers_every_event(event: ApiEvent, lost: u64)
    ensures
        ws::drain_step(BusEvent::Event(event)) == DrainAction::Enqueue(event),
        ws::drain_step(BusEvent::Lagged(lost)) == DrainAction::Wait,
        ws::drain_step(BusEvent::Closed) == DrainAction::Stop,
        ws::offer_step(true) == DrainAction::Wait,
        ws::offer_step(false) == DrainAction::Stop,
{
}

/// The server pings every thirty seconds, and a queue holds a thousand events.
pub proof fn law_rates_are_fixed()
    ensures
        ws::PING_SECONDS == 30,
        ws::QUEUE_CAPACITY == 1000,
{
}

/// The view of a connection is what it holds.
pub proof fn law_view_of_a_connection(socket: ws::Socket)
    ensures
        socket@.kind == socket.kind,
        socket@.doing == socket.doing,
        socket@.subscriptions == socket.subscriptions@,
{
}

} // verus!
