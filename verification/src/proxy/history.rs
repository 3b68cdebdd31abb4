//! The state over time: every change that the watchers and the requests
//! make, taken one after the other, and what holds after any number of
//! them.

use crate::operator::controller::TrpPortView;
use crate::proxy::auth::{after_event, lemma_after_event_wf, WatchEventView};
use crate::proxy::config::ConfigView;
use crate::proxy::consumer::consumer_of;
use crate::proxy::filter::{
    screening_of, state_after, verdict_of, RequestView, ScreeningView, Verdict,
};
use crate::proxy::reload::{after_reading, lemma_after_reading_wf, TierError};
use crate::proxy::state::{lemma_with_counters_wf, StateView};
use crate::proxy::tiers::TierView;
use vstd::prelude::*;

verus! {

/// One change of the state. The state sits behind a lock, so the changes
/// of the two watchers and of the requests take place one at a time.
pub enum Step {
    /// The identity watcher took an event.
    Watch(WatchEventView),
    /// The tier watcher took a reading of the tier file.
    Reading(Result<Seq<TierView>, TierError>),
    /// A request passed through the filter of a deployment.
    Request(ConfigView, RequestView),
}

/// The state after one change.
pub open spec fn after_step(state: StateView, step: Step) -> StateView {
    match step {
        Step::Watch(event) => after_event(state, event),
        Step::Reading(reading) => after_reading(state, reading),
        Step::Request(config, request) => state_after(
            state,
            screening_of(state, config, request),
        ),
    }
}

/// The state after a run of changes, the first of them first.
pub open spec fn after_steps(state: StateView, steps: Seq<Step>) -> StateView
    decreases steps.len(),
{
    if steps.len() == 0 {
        state
    } else {
        after_step(after_steps(state, steps.drop_last()), steps.last())
    }
}

/// One change keeps the state well formed.
pub proof fn lemma_step_keeps_wf(state: StateView, step: Step)
    requires
        state.wf(),
    ensures
        after_step(state, step).wf(),
{
    match step {
        Step::Watch(event) => {
            lemma_after_event_wf(state, event);
        },
        Step::Reading(reading) => {
            lemma_after_reading_wf(state, reading);
        },
        Step::Request(config, request) => {
            if let ScreeningView::Admitted(consumer) = screening_of(state, config, request) {
                lemma_with_counters_wf(state, consumer.key);
            }
        },
    }
}

/// Whatever the watchers and the requests do, and in whatever order, the
/// state that began empty is well formed: counters exist only for consumers
/// that are known and whose tier is known, and they were made for the rules
/// that the catalog holds for that tier now.
pub proof fn lemma_reachable_state_is_wf(steps: Seq<Step>)
    ensures
        after_steps(StateView::empty(), steps).wf(),
    decreases steps.len(),
{
    if steps.len() > 0 {
        lemma_reachable_state_is_wf(steps.drop_last());
        lemma_step_keeps_wf(after_steps(StateView::empty(), steps.drop_last()), steps.last());
    }
}

/// In a state reached from the empty one, the counters of a key are never
/// those of rules that the catalog has given up: they are made for the
/// rules that govern the key at that moment.
pub proof fn lemma_counters_follow_catalog(steps: Seq<Step>, key: Seq<char>)
    requires
        after_steps(StateView::empty(), steps).limiter.contains_key(key),
    ensures
        ({
            let state = after_steps(StateView::empty(), steps);
            &&& state.consumers.contains_key(key)
            &&& state.tiers.contains_key(state.consumers[key].tier)
            &&& state.limiter[key] == state.tiers[state.consumers[key].tier].rates
        }),
{
    lemma_reachable_state_is_wf(steps);
}

/// Whether a change files a consumer under `key`: it is the sighting of a
/// provisioned port whose mirrored token is the key.
pub open spec fn files_key(step: Step, key: Seq<char>) -> bool {
    match step {
        Step::Watch(WatchEventView::ReplayUpsert(port)) => consumer_of(port) matches Some(consumer)
            && consumer.key == key,
        Step::Watch(WatchEventView::Upsert(port)) => consumer_of(port) matches Some(consumer)
            && consumer.key == key,
        _ => false,
    }
}

/// A key under which no consumer is filed stays so through every change
/// that does not file one under it.
pub proof fn lemma_absent_key_stays_absent(state: StateView, steps: Seq<Step>, key: Seq<char>)
    requires
        !state.consumers.contains_key(key),
        forall|i: int| 0 <= i < steps.len() ==> !files_key(#[trigger] steps[i], key),
    ensures
        !after_steps(state, steps).consumers.contains_key(key),
    decreases steps.len(),
{
    if steps.len() > 0 {
        let front = steps.drop_last();
        assert forall|i: int| 0 <= i < front.len() implies !files_key(#[trigger] front[i], key) by {
            assert(front[i] == steps[i]);
        }
        lemma_absent_key_stays_absent(state, front, key);
        assert(!files_key(steps[steps.len() - 1], key));
    }
}

/// Once a port was deleted, every later request with its key that is
/// neither a preflight request nor a health probe is turned away as
/// unauthenticated, whatever happens in between, until a port with that key
/// is sighted again.
pub proof fn lemma_removed_key_stays_unauthenticated(
    state: StateView,
    port: TrpPortView,
    steps: Seq<Step>,
    config: ConfigView,
    request: RequestView,
    limited: bool,
)
    requires
        port.status matches Some(status) && request.key() == Some(status.auth_token),
        forall|i: int|
            0 <= i < steps.len() ==> !files_key(#[trigger] steps[i], port.status.unwrap().auth_token),
        !request.is_preflight(),
        !request.is_health(config),
    ensures
        verdict_of(
            screening_of(
                after_steps(after_event(state, WatchEventView::Remove(port)), steps),
                config,
                request,
            ),
            limited,
        ) == Verdict::Unauthenticated,
{
    let key = port.status.unwrap().auth_token;
    lemma_absent_key_stays_absent(after_event(state, WatchEventView::Remove(port)), steps, key);
}

} // verus!
