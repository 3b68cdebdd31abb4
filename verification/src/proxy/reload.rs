//! The tier watcher's decisions: what a reading of the tier file does to
//! the catalog and the rate counters, at startup and on every later change
//! of the file.

use crate::proxy::limiter::RateCounter;
use crate::proxy::state::{all_tiers_valid, catalog_of, tier_views, State, StateView};
use crate::proxy::tiers::{all_valid, Tier, TierView};
use vstd::prelude::*;

verus! {

/// Why a reading of the tier file was refused.
#[derive(Debug, Clone, Copy, PartialEq, Eq, Structural)]
pub enum TierError {
    /// The file could not be read.
    Unreadable,
    /// The file is not a well-formed tier document.
    Malformed,
    /// The tier at this place of the document has a rule with a negative
    /// limit or with an interval that is zero or too long.
    InvalidRule(usize),
}

/// The tiers that a document defines. A document without a tier table is
/// valid and defines none.
pub open spec fn tiers_of(document: Option<Seq<TierView>>) -> Seq<TierView> {
    match document {
        Some(tiers) => tiers,
        None => Seq::empty(),
    }
}

/// The mathematical value of what was read: the tiers in the order of the
/// document, or the fault.
pub open spec fn reading_view(reading: Result<Option<Vec<Tier>>, TierError>) -> Result<
    Seq<TierView>,
    TierError,
> {
    match reading {
        Ok(Some(tiers)) => Ok(tier_views(tiers@)),
        Ok(None) => Ok(Seq::empty()),
        Err(fault) => Err(fault),
    }
}

/// Whether `fault` is what a reading is refused for: the reading's own
/// fault, or the first tier with an invalid rule.
pub open spec fn refused_for(reading: Result<Seq<TierView>, TierError>, fault: TierError) -> bool {
    match reading {
        Err(own) => fault == own,
        Ok(tiers) => fault matches TierError::InvalidRule(i) && i < tiers.len() && !all_valid(
            tiers[i as int].rates,
        ) && forall|j: int| 0 <= j < i ==> all_valid((#[trigger] tiers[j]).rates),
    }
}

/// Whether a reading is accepted: it has no fault and every rule is valid.
pub open spec fn accepted(reading: Result<Seq<TierView>, TierError>) -> bool {
    reading matches Ok(tiers) && all_tiers_valid(tiers)
}

/// The state after a reading: an accepted one replaces the whole catalog
/// and drops every counter, a refused one changes nothing.
pub open spec fn after_reading(
    state: StateView,
    reading: Result<Seq<TierView>, TierError>,
) -> StateView {
    match reading {
        Ok(tiers) => if all_tiers_valid(tiers) {
            state.with_tiers(tiers)
        } else {
            state
        },
        Err(_) => state,
    }
}

/// The counters after a reading: none after an accepted one, the very same
/// after a refused one.
pub open spec fn counters_after_reading(
    counters: Map<Seq<char>, Seq<RateCounter>>,
    reading: Result<Seq<TierView>, TierError>,
) -> Map<Seq<char>, Seq<RateCounter>> {
    if accepted(reading) {
        Map::empty()
    } else {
        counters
    }
}

/// A reading keeps the state well formed.
pub proof fn lemma_after_reading_wf(state: StateView, reading: Result<Seq<TierView>, TierError>)
    requires
        state.wf(),
    ensures
        after_reading(state, reading).wf(),
{
    if let Ok(tiers) = reading {
        if all_tiers_valid(tiers) {
            crate::proxy::state::lemma_with_tiers_wf(state, tiers);
        }
    }
}

/// After an accepted reading no counter is left, and every consumer is
/// governed by the rules that the new document gives its tier: the counters
/// that its next request makes are made for exactly those rules.
pub proof fn lemma_reading_replaces_rules(state: StateView, tiers: Seq<TierView>, key: Seq<char>)
    requires
        all_tiers_valid(tiers),
        state.consumers.contains_key(key),
    ensures
        ({
            let after = after_reading(state, Ok(tiers));
            let tier = state.consumers[key].tier;
            &&& after.limiter == Map::<Seq<char>, Seq<crate::proxy::tiers::TierRate>>::empty()
            &&& after.consumers == state.consumers
            &&& after.tiers == catalog_of(tiers)
            &&& catalog_of(tiers).contains_key(tier) ==> {
                &&& after.rules_for(key) == catalog_of(tiers)[tier].rates
                &&& after.with_counters(key).limiter.contains_key(key)
                &&& after.with_counters(key).limiter[key] == catalog_of(tiers)[tier].rates
            }
            &&& !catalog_of(tiers).contains_key(tier) ==> after.rules_for(key) == Seq::<
                crate::proxy::tiers::TierRate,
            >::empty()
        }),
{
}

/// No reading of the tier file touches the consumer directory.
pub proof fn lemma_reading_keeps_consumers(
    state: StateView,
    reading: Result<Seq<TierView>, TierError>,
)
    ensures
        after_reading(state, reading).consumers == state.consumers,
{
}

/// A reading that is refused while the file is watched changes neither
/// catalog nor counters: the counters are the very same, with what they
/// have counted. The watcher reports the fault and keeps watching.
pub proof fn lemma_refused_reading_changes_nothing(
    state: StateView,
    counters: Map<Seq<char>, Seq<RateCounter>>,
    reading: Result<Seq<TierView>, TierError>,
    action: TierAction,
)
    requires
        !accepted(reading),
        action_fits(TierPhase::Watching, reading, action),
    ensures
        state_after_reading(TierPhase::Watching, state, reading) == state,
        counters_after_reading(counters, reading) == counters,
        phase_after(TierPhase::Watching, reading) == TierPhase::Watching,
        action matches TierAction::Report(fault) && refused_for(reading, fault),
{
}

fn first_invalid(tiers: &Vec<Tier>) -> (place: Option<usize>)
    ensures
        place.is_none() == all_tiers_valid(tier_views(tiers@)),
        place matches Some(i) ==> refused_for(
            Ok(tier_views(tiers@)),
            TierError::InvalidRule(i),
        ),
{
    let mut i: usize = 0;
    while i < tiers.len()
        invariant
            i <= tiers.len(),
            forall|j: int| 0 <= j < i ==> all_valid((#[trigger] tier_views(tiers@)[j]).rates),
        decreases tiers.len() - i,
    {
        if !tiers[i].is_valid() {
            assert(tier_views(tiers@)[i as int] == tiers@[i as int]@);
            return Some(i);
        }
        assert(tier_views(tiers@)[i as int] == tiers@[i as int]@);
        i = i + 1;
    }
    None
}

/// Takes one reading of the tier file into the state.
///
/// An accepted reading replaces the whole catalog and drops every counter,
/// so that every consumer is counted anew against the new rules. A refused
/// one leaves catalog and counters as they were and says why.
pub fn update_tiers(state: &mut State, reading: Result<Option<Vec<Tier>>, TierError>) -> (result:
    Result<(), TierError>)
    ensures
        final(state)@ == after_reading(old(state)@, reading_view(reading)),
        final(state).counters() == counters_after_reading(
            old(state).counters(),
            reading_view(reading),
        ),
        result.is_ok() == accepted(reading_view(reading)),
        result matches Err(fault) ==> refused_for(reading_view(reading), fault),
        old(state)@.wf() ==> final(state)@.wf(),
{
    proof {
        if old(state)@.wf() {
            lemma_after_reading_wf(old(state)@, reading_view(reading));
        }
    }
    match reading {
        Err(fault) => Err(fault),
        Ok(document) => {
            let tiers = match document {
                Some(tiers) => tiers,
                None => Vec::new(),
            };
            assert(tier_views(tiers@) =~= reading_view(reading).unwrap());
            match first_invalid(&tiers) {
                Some(i) => Err(TierError::InvalidRule(i)),
                None => {
                    state.set_tiers(&tiers);
                    Ok(())
                },
            }
        },
    }
}

/// Where the tier watcher stands.
#[derive(Debug, Clone, Copy, PartialEq, Eq, Structural)]
pub enum TierPhase {
    /// The file has not been read yet.
    Boot,
    /// The first reading was accepted; the file is watched for changes.
    Watching,
    /// The watcher has given up.
    Stopped,
}

/// What the tier watcher does after a reading.
#[derive(Debug, Clone, Copy, PartialEq, Eq, Structural)]
pub enum TierAction {
    /// The first reading was accepted: start watching the file.
    Watch,
    /// A later reading was accepted: the tiers are the new ones.
    Reloaded,
    /// A later reading was refused: report it and keep watching.
    Report(TierError),
    /// The first reading was refused: the service cannot start.
    Abort(TierError),
    /// The watcher has given up and ignores the reading.
    Ignore,
}

/// The phase after a reading.
pub open spec fn phase_after(
    phase: TierPhase,
    reading: Result<Seq<TierView>, TierError>,
) -> TierPhase {
    match phase {
        TierPhase::Boot => if accepted(reading) {
            TierPhase::Watching
        } else {
            TierPhase::Stopped
        },
        TierPhase::Watching => TierPhase::Watching,
        TierPhase::Stopped => TierPhase::Stopped,
    }
}

/// The state after a reading taken in `phase`. A watcher that has given up
/// takes no reading.
pub open spec fn state_after_reading(
    phase: TierPhase,
    state: StateView,
    reading: Result<Seq<TierView>, TierError>,
) -> StateView {
    match phase {
        TierPhase::Stopped => state,
        _ => after_reading(state, reading),
    }
}

/// Whether `action` is what the watcher does after a reading taken in
/// `phase`.
pub open spec fn action_fits(
    phase: TierPhase,
    reading: Result<Seq<TierView>, TierError>,
    action: TierAction,
) -> bool {
    match phase {
        TierPhase::Stopped => action == TierAction::Ignore,
        TierPhase::Boot => if accepted(reading) {
            action == TierAction::Watch
        } else {
            action matches TierAction::Abort(fault) && refused_for(reading, fault)
        },
        TierPhase::Watching => if accepted(reading) {
            action == TierAction::Reloaded
        } else {
            action matches TierAction::Report(fault) && refused_for(reading, fault)
        },
    }
}

/// The tier watcher: it takes the readings of the tier file one by one.
#[derive(Debug)]
pub struct TierAgent {
    phase: TierPhase,
}

impl TierAgent {
    /// Where the watcher stands.
    pub closed spec fn phase(&self) -> TierPhase {
        self.phase
    }

    /// A watcher that has not read the file yet.
    pub fn new() -> (agent: TierAgent)
        ensures
            agent.phase() == TierPhase::Boot,
    {
        TierAgent { phase: TierPhase::Boot }
    }

    /// Where the watcher stands.
    pub fn get_phase(&self) -> (phase: TierPhase)
        ensures
            phase == self.phase(),
    {
        self.phase
    }

    /// Takes one reading of the tier file: the first one at startup, a
    /// further one whenever the file has changed.
    pub fn take_reading(
        &mut self,
        state: &mut State,
        reading: Result<Option<Vec<Tier>>, TierError>,
    ) -> (action: TierAction)
        ensures
            final(self).phase() == phase_after(old(self).phase(), reading_view(reading)),
            final(state)@ == state_after_reading(
                old(self).phase(),
                old(state)@,
                reading_view(reading),
            ),
            final(state).counters() == (if old(self).phase() == TierPhase::Stopped {
                old(state).counters()
            } else {
                counters_after_reading(old(state).counters(), reading_view(reading))
            }),
            action_fits(old(self).phase(), reading_view(reading), action),
            old(state)@.wf() ==> final(state)@.wf(),
    {
        match self.phase {
            TierPhase::Stopped => TierAction::Ignore,
            TierPhase::Boot => match update_tiers(state, reading) {
                Ok(()) => {
                    self.phase = TierPhase::Watching;
                    TierAction::Watch
                },
                Err(fault) => {
                    self.phase = TierPhase::Stopped;
                    TierAction::Abort(fault)
                },
            },
            TierPhase::Watching => match update_tiers(state, reading) {
                Ok(()) => TierAction::Reloaded,
                Err(fault) => TierAction::Report(fault),
            },
        }
    }

    /// Notes that the file cannot be watched: the watcher gives up.
    pub fn watch_failed(&mut self)
        ensures
            final(self).phase() == TierPhase::Stopped,
    {
        self.phase = TierPhase::Stopped;
    }
}

} // verus!
