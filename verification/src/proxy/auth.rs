//! The identity watcher's decisions: how each event of the watch stream
//! changes the consumer directory and the rate counters.

use crate::operator::controller::{TrpPort, TrpPortView};
use crate::proxy::consumer::{consumer_of, Consumer};
use crate::proxy::limiter::RateCounter;
use crate::proxy::state::{
    lemma_with_consumer_wf, lemma_without_consumer_wf, lemma_without_consumers_wf, State,
    StateView,
};
use vstd::prelude::*;

verus! {

/// One event of the watch stream over the port resources.
#[derive(Debug, PartialEq, Eq)]
pub enum WatchEvent {
    /// The stream was established or re-established: a replay of every
    /// port follows, and nothing known before may survive it.
    Reset,
    /// A port seen during the replay.
    ReplayUpsert(TrpPort),
    /// The replay is complete.
    ReplayDone,
    /// A port was created or changed.
    Upsert(TrpPort),
    /// A port was deleted.
    Remove(TrpPort),
}

/// The mathematical value of a [`WatchEvent`].
pub enum WatchEventView {
    Reset,
    ReplayUpsert(TrpPortView),
    ReplayDone,
    Upsert(TrpPortView),
    Remove(TrpPortView),
}

impl View for WatchEvent {
    type V = WatchEventView;

    open spec fn view(&self) -> WatchEventView {
        match self {
            WatchEvent::Reset => WatchEventView::Reset,
            WatchEvent::ReplayUpsert(port) => WatchEventView::ReplayUpsert(port@),
            WatchEvent::ReplayDone => WatchEventView::ReplayDone,
            WatchEvent::Upsert(port) => WatchEventView::Upsert(port@),
            WatchEvent::Remove(port) => WatchEventView::Remove(port@),
        }
    }
}

/// What the stream handed over when it was asked for its next item.
#[derive(Debug, PartialEq, Eq)]
pub enum StreamItem {
    /// An event.
    Event(WatchEvent),
    /// Nothing, though the stream has not ended.
    Empty,
    /// The stream failed; the text says how.
    Failed(String),
}

/// What the watcher does after an item of the stream.
#[derive(Debug, Clone, Copy, PartialEq, Eq, Structural)]
pub enum WatchAction {
    /// Ask the stream for its next item.
    Continue,
    /// Stop the process: the directory may be stale from here on.
    Terminate,
}

/// The state after a port was seen, during the replay or later. A
/// provisioned port adds or replaces its consumer and drops the counters of
/// its key; a port without a status changes nothing.
pub open spec fn after_upsert(state: StateView, port: TrpPortView) -> StateView {
    match consumer_of(port) {
        Some(consumer) => state.with_consumer(consumer),
        None => state,
    }
}

/// The state after a port was deleted: the consumer filed under the port's
/// mirrored token is gone, and its counters with it.
pub open spec fn after_remove(state: StateView, port: TrpPortView) -> StateView {
    match port.status {
        Some(status) => state.without_consumer(status.auth_token),
        None => state,
    }
}

/// The state after an event of the watch stream.
pub open spec fn after_event(state: StateView, event: WatchEventView) -> StateView {
    match event {
        WatchEventView::Reset => state.without_consumers(),
        WatchEventView::ReplayUpsert(port) => after_upsert(state, port),
        WatchEventView::ReplayDone => state,
        WatchEventView::Upsert(port) => after_upsert(state, port),
        WatchEventView::Remove(port) => after_remove(state, port),
    }
}

/// The counters after an event of the watch stream: none after the start
/// of a replay; without those of its key after a provisioned port was seen
/// or a port was deleted; the very same otherwise, and in every case the
/// very same under every other key.
pub open spec fn counters_after_event(
    counters: Map<Seq<char>, Seq<RateCounter>>,
    event: WatchEventView,
) -> Map<Seq<char>, Seq<RateCounter>> {
    match event {
        WatchEventView::Reset => Map::empty(),
        WatchEventView::ReplayUpsert(port) | WatchEventView::Upsert(port) => match consumer_of(
            port,
        ) {
            Some(consumer) => counters.remove(consumer.key),
            None => counters,
        },
        WatchEventView::ReplayDone => counters,
        WatchEventView::Remove(port) => match port.status {
            Some(status) => counters.remove(status.auth_token),
            None => counters,
        },
    }
}

/// Every event of the watch stream keeps the state well formed.
pub proof fn lemma_after_event_wf(state: StateView, event: WatchEventView)
    requires
        state.wf(),
    ensures
        after_event(state, event).wf(),
{
    match event {
        WatchEventView::Reset => {
            lemma_without_consumers_wf(state);
        },
        WatchEventView::ReplayUpsert(port) | WatchEventView::Upsert(port) => {
            if let Some(consumer) = consumer_of(port) {
                lemma_with_consumer_wf(state, consumer);
            }
        },
        WatchEventView::ReplayDone => {},
        WatchEventView::Remove(port) => {
            if let Some(status) = port.status {
                lemma_without_consumer_wf(state, status.auth_token);
            }
        },
    }
}

/// The start of a replay is a barrier: what the state held of consumers
/// and counters before it has no bearing on the state after it. Only the
/// tiers pass.
pub proof fn lemma_reset_is_a_barrier(one: StateView, other: StateView)
    requires
        one.tiers == other.tiers,
    ensures
        after_event(one, WatchEventView::Reset) == after_event(other, WatchEventView::Reset),
        after_event(one, WatchEventView::Reset).consumers == Map::<
            Seq<char>,
            crate::proxy::consumer::ConsumerView,
        >::empty(),
        after_event(one, WatchEventView::Reset).limiter == Map::<
            Seq<char>,
            Seq<crate::proxy::tiers::TierRate>,
        >::empty(),
{
}

/// No event of the watch stream touches the tier catalog.
pub proof fn lemma_event_keeps_tiers(state: StateView, event: WatchEventView)
    ensures
        after_event(state, event).tiers == state.tiers,
{
}

/// An event that is not the start of a replay leaves the counters of
/// every key but its own as they are: the very same counters, with what
/// they have counted.
pub proof fn lemma_event_keeps_other_counters(
    counters: Map<Seq<char>, Seq<RateCounter>>,
    event: WatchEventView,
    other: Seq<char>,
)
    requires
        event != WatchEventView::Reset,
        match event {
            WatchEventView::ReplayUpsert(port) | WatchEventView::Upsert(port) => consumer_of(port)
                matches Some(consumer) ==> consumer.key != other,
            WatchEventView::Remove(port) => port.status matches Some(status)
                ==> status.auth_token != other,
            _ => true,
        },
    ensures
        counters_after_event(counters, event).contains_key(other) == counters.contains_key(other),
        counters.contains_key(other) ==> counters_after_event(counters, event)[other]
            == counters[other],
{
}

/// Seeing the same port twice in a replay leaves the state as seeing it
/// once does.
pub proof fn lemma_replay_is_idempotent(state: StateView, port: TrpPortView)
    ensures
        after_event(
            after_event(state, WatchEventView::ReplayUpsert(port)),
            WatchEventView::ReplayUpsert(port),
        ) == after_event(state, WatchEventView::ReplayUpsert(port)),
{
    if let Some(consumer) = consumer_of(port) {
        let once = state.with_consumer(consumer);
        let twice = once.with_consumer(consumer);
        assert(twice.consumers =~= once.consumers);
        assert(twice.limiter =~= once.limiter);
    }
}

/// Of two provisioned ports with the same key seen one after the other in
/// a replay, the directory keeps the consumer of the later one, and after
/// each of them the key has no counters.
pub proof fn lemma_replay_keeps_latest(state: StateView, earlier: TrpPortView, later: TrpPortView)
    requires
        consumer_of(earlier).is_some(),
        consumer_of(later).is_some(),
        consumer_of(earlier).unwrap().key == consumer_of(later).unwrap().key,
    ensures
        ({
            let key = consumer_of(later).unwrap().key;
            let first = after_event(state, WatchEventView::ReplayUpsert(earlier));
            let second = after_event(first, WatchEventView::ReplayUpsert(later));
            &&& !first.limiter.contains_key(key)
            &&& !second.limiter.contains_key(key)
            &&& second.consumers.contains_key(key)
            &&& second.consumers[key] == consumer_of(later).unwrap()
            &&& second == after_event(state, WatchEventView::ReplayUpsert(later))
        }),
{
    let c1 = consumer_of(earlier).unwrap();
    let c2 = consumer_of(later).unwrap();
    let direct = state.with_consumer(c2);
    let second = state.with_consumer(c1).with_consumer(c2);
    assert(second.consumers =~= direct.consumers);
    assert(second.limiter =~= direct.limiter);
}

/// Handles the start of a replay.
pub fn on_reset(state: &mut State)
    ensures
        final(state)@ == old(state)@.without_consumers(),
        final(state).counters() == counters_after_event(
            old(state).counters(),
            WatchEventView::Reset,
        ),
{
    state.clear_consumers();
}

/// Handles a port seen during the replay or changed later.
pub fn on_upsert(state: &mut State, port: &TrpPort)
    ensures
        final(state)@ == after_upsert(old(state)@, port@),
        final(state).counters() == counters_after_event(
            old(state).counters(),
            WatchEventView::Upsert(port@),
        ),
{
    match Consumer::from_port(port) {
        Some(consumer) => state.put_consumer(consumer),
        None => {},
    }
}

/// Handles a deleted port.
pub fn on_remove(state: &mut State, port: &TrpPort)
    ensures
        final(state)@ == after_remove(old(state)@, port@),
        final(state).counters() == counters_after_event(
            old(state).counters(),
            WatchEventView::Remove(port@),
        ),
{
    match &port.status {
        Some(status) => state.delete_consumer(status.auth_token.as_str()),
        None => {},
    }
}

/// Applies one event of the watch stream to the state.
pub fn apply_event(state: &mut State, event: &WatchEvent)
    ensures
        final(state)@ == after_event(old(state)@, event@),
        final(state).counters() == counters_after_event(old(state).counters(), event@),
        old(state)@.wf() ==> final(state)@.wf(),
{
    proof {
        if old(state)@.wf() {
            lemma_after_event_wf(old(state)@, event@);
        }
    }
    match event {
        WatchEvent::Reset => on_reset(state),
        WatchEvent::ReplayUpsert(port) => on_upsert(state, port),
        WatchEvent::ReplayDone => {},
        WatchEvent::Upsert(port) => on_upsert(state, port),
        WatchEvent::Remove(port) => on_remove(state, port),
    }
}

/// The state after an item of the stream: an event is applied, anything
/// else changes nothing.
pub open spec fn after_item(state: StateView, item: StreamItem) -> StateView {
    match item {
        StreamItem::Event(event) => after_event(state, event@),
        _ => state,
    }
}

/// The counters after an item of the stream: those after its event, the
/// very same after anything else.
pub open spec fn counters_after_item(
    counters: Map<Seq<char>, Seq<RateCounter>>,
    item: StreamItem,
) -> Map<Seq<char>, Seq<RateCounter>> {
    match item {
        StreamItem::Event(event) => counters_after_event(counters, event@),
        _ => counters,
    }
}

/// What the watcher does after an item: it goes on after an event or an
/// empty answer and stops the process when the stream has failed.
pub open spec fn action_for(item: StreamItem) -> WatchAction {
    match item {
        StreamItem::Failed(_) => WatchAction::Terminate,
        _ => WatchAction::Continue,
    }
}

/// Says what the watcher does after an item.
pub fn action_of(item: &StreamItem) -> (action: WatchAction)
    ensures
        action == action_for(*item),
{
    match item {
        StreamItem::Failed(_) => WatchAction::Terminate,
        _ => WatchAction::Continue,
    }
}

/// Takes one item of the watch stream: applies an event to the state and
/// says whether the watcher goes on.
pub fn handle_item(state: &mut State, item: &StreamItem) -> (action: WatchAction)
    ensures
        final(state)@ == after_item(old(state)@, *item),
        final(state).counters() == counters_after_item(old(state).counters(), *item),
        action == action_for(*item),
        old(state)@.wf() ==> final(state)@.wf(),
{
    match item {
        StreamItem::Event(event) => apply_event(state, event),
        _ => {},
    }
    action_of(item)
}

} // verus!
