//! The shared state of the data plane: the consumer directory, the tier
//! catalog and the registry of rate counters, with the rules that keep the
//! three consistent.

use crate::proxy::consumer::{Consumer, ConsumerView};
use crate::proxy::limiter::{
    all_fit, counters_for, decided_by_rules, decides, exceeds_any, record_all, rules_of,
    RateCounter,
};
use crate::proxy::tiers::{all_valid, Tier, TierRate, TierView};
use vstd::hash_map::StringHashMap;
use vstd::prelude::*;

verus! {

/// The mathematical value of a [`State`]: the consumers by key, the tiers
/// by name, and for each consumer key that has counters the rules they were
/// made for. The counters themselves, whose estimators hold what was counted,
/// are [`State::counters`].
pub struct StateView {
    pub consumers: Map<Seq<char>, ConsumerView>,
    pub tiers: Map<Seq<char>, TierView>,
    pub limiter: Map<Seq<char>, Seq<TierRate>>,
}

/// The catalog that a list of tiers gives: each tier under its name, a
/// later tier replacing an earlier one of the same name.
pub open spec fn catalog_of(tiers: Seq<TierView>) -> Map<Seq<char>, TierView>
    decreases tiers.len(),
{
    if tiers.len() == 0 {
        Map::empty()
    } else {
        catalog_of(tiers.drop_last()).insert(tiers.last().name, tiers.last())
    }
}

impl StateView {
    /// The state at startup: nothing known.
    pub open spec fn empty() -> StateView {
        StateView { consumers: Map::empty(), tiers: Map::empty(), limiter: Map::empty() }
    }

    /// The tier that governs a key: the tier named by the consumer of that
    /// key, where both are known.
    pub open spec fn tier_of(self, key: Seq<char>) -> Option<TierView> {
        if self.consumers.contains_key(key) && self.tiers.contains_key(self.consumers[key].tier) {
            Some(self.tiers[self.consumers[key].tier])
        } else {
            None
        }
    }

    /// The rules that govern a key. A key without a known consumer or tier
    /// is governed by none.
    pub open spec fn rules_for(self, key: Seq<char>) -> Seq<TierRate> {
        match self.tier_of(key) {
            Some(tier) => tier.rates,
            None => Seq::empty(),
        }
    }

    /// The invariant of the state. Every consumer is filed under its own
    /// key and every tier under its own name, every rule is valid, and
    /// counters exist only for keys with a known consumer and tier and
    /// were made for exactly the rules the catalog now holds for that tier.
    pub open spec fn wf(self) -> bool {
        &&& forall|k: Seq<char>| #[trigger]
            self.consumers.contains_key(k) ==> self.consumers[k].key == k
        &&& forall|n: Seq<char>| #[trigger]
            self.tiers.contains_key(n) ==> self.tiers[n].name == n && all_valid(
                self.tiers[n].rates,
            )
        &&& forall|k: Seq<char>| #[trigger]
            self.limiter.contains_key(k) ==> self.tier_of(k).is_some() && self.limiter[k]
                == self.rules_for(k)
    }

    /// The state after a consumer was added or replaced: it is filed under
    /// its key, and the counters of that key are dropped.
    pub open spec fn with_consumer(self, consumer: ConsumerView) -> StateView {
        StateView {
            consumers: self.consumers.insert(consumer.key, consumer),
            tiers: self.tiers,
            limiter: self.limiter.remove(consumer.key),
        }
    }

    /// The state after the consumer of `key` and its counters were deleted.
    pub open spec fn without_consumer(self, key: Seq<char>) -> StateView {
        StateView {
            consumers: self.consumers.remove(key),
            tiers: self.tiers,
            limiter: self.limiter.remove(key),
        }
    }

    /// The state after every consumer and every counter was dropped. The
    /// tiers stay.
    pub open spec fn without_consumers(self) -> StateView {
        StateView { consumers: Map::empty(), tiers: self.tiers, limiter: Map::empty() }
    }

    /// The state after the catalog was replaced: the new tiers, and no
    /// counters at all.
    pub open spec fn with_tiers(self, tiers: Seq<TierView>) -> StateView {
        StateView { consumers: self.consumers, tiers: catalog_of(tiers), limiter: Map::empty() }
    }

    /// The state after the counters of `key` were made, if they were
    /// missing and a tier governs the key.
    pub open spec fn with_counters(self, key: Seq<char>) -> StateView {
        if !self.limiter.contains_key(key) && self.tier_of(key).is_some() {
            StateView {
                consumers: self.consumers,
                tiers: self.tiers,
                limiter: self.limiter.insert(key, self.rules_for(key)),
            }
        } else {
            self
        }
    }
}

/// The mathematical values of a list of tiers, in order.
pub open spec fn tier_views(tiers: Seq<Tier>) -> Seq<TierView> {
    Seq::new(tiers.len(), |i: int| tiers[i]@)
}

/// Whether every rule of every tier of a list is valid.
pub open spec fn all_tiers_valid(tiers: Seq<TierView>) -> bool {
    forall|i: int| 0 <= i < tiers.len() ==> all_valid((#[trigger] tiers[i]).rates)
}

/// Every tier of a catalog made from a list is filed under its own name
/// and is one of the list.
pub proof fn lemma_catalog_of(tiers: Seq<TierView>)
    ensures
        forall|n: Seq<char>| #[trigger]
            catalog_of(tiers).contains_key(n) ==> catalog_of(tiers)[n].name == n && exists|
                i: int,
            |
                0 <= i < tiers.len() && tiers[i] == catalog_of(tiers)[n],
        forall|i: int|
            0 <= i < tiers.len() ==> catalog_of(tiers).contains_key((#[trigger] tiers[i]).name),
    decreases tiers.len(),
{
    if tiers.len() > 0 {
        let front = tiers.drop_last();
        lemma_catalog_of(front);
        assert forall|n: Seq<char>| #[trigger] catalog_of(tiers).contains_key(n) implies catalog_of(
            tiers,
        )[n].name == n && exists|i: int| 0 <= i < tiers.len() && tiers[i] == catalog_of(tiers)[n] by {
            if n == tiers.last().name {
                assert(tiers[tiers.len() - 1] == catalog_of(tiers)[n]);
            } else {
                assert(catalog_of(front).contains_key(n));
                let i = choose|i: int| 0 <= i < front.len() && front[i] == catalog_of(front)[n];
                assert(tiers[i] == catalog_of(tiers)[n]);
            }
        }
        assert forall|i: int| 0 <= i < tiers.len() implies catalog_of(tiers).contains_key(
            (#[trigger] tiers[i]).name,
        ) by {
            if i < tiers.len() - 1 {
                assert(front[i] == tiers[i]);
            }
        }
    }
}

/// Adding or replacing a consumer keeps the state well formed.
pub proof fn lemma_with_consumer_wf(state: StateView, consumer: ConsumerView)
    requires
        state.wf(),
    ensures
        state.with_consumer(consumer).wf(),
{
    let after = state.with_consumer(consumer);
    assert forall|k: Seq<char>| #[trigger] after.limiter.contains_key(k) implies after.tier_of(
        k,
    ).is_some() && after.limiter[k] == after.rules_for(k) by {
        assert(state.limiter.contains_key(k));
        assert(k != consumer.key);
        assert(after.consumers[k] == state.consumers[k]);
    }
}

/// Deleting a consumer keeps the state well formed.
pub proof fn lemma_without_consumer_wf(state: StateView, key: Seq<char>)
    requires
        state.wf(),
    ensures
        state.without_consumer(key).wf(),
{
    let after = state.without_consumer(key);
    assert forall|k: Seq<char>| #[trigger] after.limiter.contains_key(k) implies after.tier_of(
        k,
    ).is_some() && after.limiter[k] == after.rules_for(k) by {
        assert(state.limiter.contains_key(k));
        assert(after.consumers[k] == state.consumers[k]);
    }
}

/// Dropping every consumer keeps the state well formed.
pub proof fn lemma_without_consumers_wf(state: StateView)
    requires
        state.wf(),
    ensures
        state.without_consumers().wf(),
{
}

/// Replacing the catalog by tiers whose rules are valid keeps the state
/// well formed.
pub proof fn lemma_with_tiers_wf(state: StateView, tiers: Seq<TierView>)
    requires
        state.wf(),
        all_tiers_valid(tiers),
    ensures
        state.with_tiers(tiers).wf(),
{
    lemma_catalog_of(tiers);
}

/// Making the counters of a key keeps the state well formed.
pub proof fn lemma_with_counters_wf(state: StateView, key: Seq<char>)
    requires
        state.wf(),
    ensures
        state.with_counters(key).wf(),
{
    let after = state.with_counters(key);
    assert forall|k: Seq<char>| #[trigger] after.limiter.contains_key(k) implies after.tier_of(
        k,
    ).is_some() && after.limiter[k] == after.rules_for(k) by {
        if k != key {
            assert(state.limiter.contains_key(k));
        }
    }
}

/// Whether `after` is `before` once the counters of `key` were asked for:
/// the counters of every other key are the very same, counters that
/// existed are kept as they are, and counters that were made count in
/// windows of their rules' intervals.
pub open spec fn counters_made(
    before: Map<Seq<char>, Seq<RateCounter>>,
    after: Map<Seq<char>, Seq<RateCounter>>,
    key: Seq<char>,
) -> bool {
    &&& after.remove(key) == before.remove(key)
    &&& before.contains_key(key) ==> after == before
    &&& !before.contains_key(key) && after.contains_key(key) ==> all_fit(after[key])
}

/// Asking for the counters of one key leaves those of every other key the
/// very same, with what they have counted.
pub proof fn lemma_counters_made_keeps_others(
    before: Map<Seq<char>, Seq<RateCounter>>,
    after: Map<Seq<char>, Seq<RateCounter>>,
    key: Seq<char>,
    other: Seq<char>,
)
    requires
        counters_made(before, after, key),
        other != key,
    ensures
        after.contains_key(other) == before.contains_key(other),
        before.contains_key(other) ==> after[other] == before[other],
{
    assert(after.remove(key).contains_key(other) == after.contains_key(other));
    assert(before.remove(key).contains_key(other) == before.contains_key(other));
    if before.contains_key(other) {
        assert(after.remove(key)[other] == after[other]);
        assert(before.remove(key)[other] == before[other]);
    }
}

/// The store of the data plane.
pub struct State {
    consumers: StringHashMap<Consumer>,
    tiers: StringHashMap<Tier>,
    limiter: StringHashMap<Vec<RateCounter>>,
}

impl View for State {
    type V = StateView;

    closed spec fn view(&self) -> StateView {
        StateView {
            consumers: self.consumers@.map_values(|c: Consumer| c@),
            tiers: self.tiers@.map_values(|t: Tier| t@),
            limiter: self.limiter@.map_values(|v: Vec<RateCounter>| rules_of(v@)),
        }
    }
}

impl Default for State {
    fn default() -> (state: Self)
        ensures
            state@ == StateView::empty(),
            state@.wf(),
            state.counters() == Map::<Seq<char>, Seq<RateCounter>>::empty(),
    {
        State::new()
    }
}

impl State {
    /// The counters that the store holds, by consumer key, each sequence in
    /// the order of the rules it was made for.
    pub closed spec fn counters(&self) -> Map<Seq<char>, Seq<RateCounter>> {
        self.limiter@.map_values(|v: Vec<RateCounter>| v@)
    }

    /// The rules in the view of the store are those of its counters: the
    /// same keys, and under each key the rules that its counters hold.
    pub proof fn lemma_view_follows_counters(&self)
        ensures
            self@.limiter == self.counters().map_values(|c: Seq<RateCounter>| rules_of(c)),
            forall|k: Seq<char>| #[trigger]
                self.counters().contains_key(k) == self@.limiter.contains_key(k),
    {
        assert(self@.limiter =~= self.counters().map_values(|c: Seq<RateCounter>| rules_of(c)));
    }

    /// An empty store.
    pub fn new() -> (state: State)
        ensures
            state@ == StateView::empty(),
            state@.wf(),
            state.counters() == Map::<Seq<char>, Seq<RateCounter>>::empty(),
    {
        let state = State {
            consumers: StringHashMap::new(),
            tiers: StringHashMap::new(),
            limiter: StringHashMap::new(),
        };
        assert(state@.consumers =~= Map::empty());
        assert(state@.tiers =~= Map::empty());
        assert(state@.limiter =~= Map::empty());
        assert(state.counters() =~= Map::empty());
        state
    }

    /// Looks a consumer up by its key.
    pub fn get_consumer(&self, key: &str) -> (consumer: Option<Consumer>)
        ensures
            consumer.is_some() == self@.consumers.contains_key(key@),
            consumer matches Some(c) ==> c@ == self@.consumers[key@],
    {
        match self.consumers.get(key) {
            Some(consumer) => Some(consumer.clone()),
            None => None,
        }
    }

    /// Looks a tier up by its name.
    pub fn get_tier(&self, name: &str) -> (tier: Option<Tier>)
        ensures
            tier.is_some() == self@.tiers.contains_key(name@),
            tier matches Some(t) ==> t@ == self@.tiers[name@],
    {
        match self.tiers.get(name) {
            Some(tier) => Some(tier.clone()),
            None => None,
        }
    }

    /// Whether counters exist for a key.
    pub fn has_limiter(&self, key: &str) -> (present: bool)
        ensures
            present == self@.limiter.contains_key(key@),
    {
        self.limiter.contains_key(key)
    }

    /// Adds or replaces a consumer and drops the counters of its key. The
    /// counters of every other key stay the very same.
    pub fn put_consumer(&mut self, consumer: Consumer)
        ensures
            final(self)@ == old(self)@.with_consumer(consumer@),
            final(self).counters() == old(self).counters().remove(consumer@.key),
            old(self)@.wf() ==> final(self)@.wf(),
    {
        proof {
            if old(self)@.wf() {
                lemma_with_consumer_wf(old(self)@, consumer@);
            }
        }
        self.limiter.remove(consumer.key.as_str());
        let key = consumer.key.clone();
        self.consumers.insert(key, consumer);
        assert(self@.consumers =~= old(self)@.consumers.insert(consumer@.key, consumer@));
        assert(self@.limiter =~= old(self)@.limiter.remove(consumer@.key));
        assert(self.counters() =~= old(self).counters().remove(consumer@.key));
    }

    /// Deletes the consumer of `key` and its counters. The counters of every
    /// other key stay the very same.
    pub fn delete_consumer(&mut self, key: &str)
        ensures
            final(self)@ == old(self)@.without_consumer(key@),
            final(self).counters() == old(self).counters().remove(key@),
            old(self)@.wf() ==> final(self)@.wf(),
    {
        proof {
            if old(self)@.wf() {
                lemma_without_consumer_wf(old(self)@, key@);
            }
        }
        self.consumers.remove(key);
        self.limiter.remove(key);
        assert(self@.consumers =~= old(self)@.consumers.remove(key@));
        assert(self@.limiter =~= old(self)@.limiter.remove(key@));
        assert(self.counters() =~= old(self).counters().remove(key@));
    }

    /// Replaces the whole catalog by the given tiers and drops every
    /// counter.
    pub(crate) fn set_tiers(&mut self, tiers: &Vec<Tier>)
        ensures
            final(self)@ == old(self)@.with_tiers(tier_views(tiers@)),
            final(self).counters() == Map::<Seq<char>, Seq<RateCounter>>::empty(),
            old(self)@.wf() && all_tiers_valid(tier_views(tiers@)) ==> final(self)@.wf(),
    {
        proof {
            if old(self)@.wf() && all_tiers_valid(tier_views(tiers@)) {
                lemma_with_tiers_wf(old(self)@, tier_views(tiers@));
            }
        }
        let ghost views = tier_views(tiers@);
        let mut catalog: StringHashMap<Tier> = StringHashMap::new();
        let mut i: usize = 0;
        assert(catalog@.map_values(|t: Tier| t@) =~= catalog_of(views.subrange(0, 0)));
        while i < tiers.len()
            invariant
                i <= tiers.len(),
                views == tier_views(tiers@),
                catalog@.map_values(|t: Tier| t@) == catalog_of(views.subrange(0, i as int)),
            decreases tiers.len() - i,
        {
            let tier = tiers[i].clone();
            let name = tier.name.clone();
            let ghost before = catalog@;
            catalog.insert(name, tier);
            proof {
                let prefix = views.subrange(0, i + 1);
                assert(prefix.drop_last() =~= views.subrange(0, i as int));
                assert(prefix.last() == tiers@[i as int]@);
                assert(catalog@.map_values(|t: Tier| t@) =~= before.map_values(|t: Tier| t@).insert(
                    tier@.name,
                    tier@,
                ));
            }
            i = i + 1;
        }
        assert(views.subrange(0, i as int) =~= views);
        self.tiers = catalog;
        self.limiter.clear();
        assert(self@.limiter =~= Map::empty());
        assert(self.counters() =~= Map::empty());
    }

    /// Records one request of `key` against each of its counters, if they
    /// exist already, and says whether the consumer is over its budget.
    ///
    /// The estimate of a counter is the number of requests that its
    /// estimator has seen in the current window of the rule's interval,
    /// this one included. The window before it is not weighed in.
    ///
    /// `None` means that a tier governs the key and its counters have not
    /// been made yet: nothing was recorded, and [`State::is_limited`] is to
    /// be called. A key that no tier governs is never limited.
    pub fn check_limit(&self, key: &str) -> (limited: Option<bool>)
        requires
            self@.wf(),
        ensures
            limited.is_none() == (self@.tier_of(key@).is_some() && !self@.limiter.contains_key(
                key@,
            )),
            limited matches Some(over) ==> decided_by_rules(self@.rules_for(key@), over),
    {
        let consumer = match self.consumers.get(key) {
            Some(consumer) => consumer,
            None => {
                assert(decides(self@.rules_for(key@), Seq::empty(), false));
                return Some(false);
            },
        };
        let tier = match self.tiers.get(consumer.tier.as_str()) {
            Some(tier) => tier,
            None => {
                assert(decides(self@.rules_for(key@), Seq::empty(), false));
                return Some(false);
            },
        };
        assert(self@.tier_of(key@) == Some(tier@));
        match self.limiter.get(key) {
            None => None,
            Some(counters) => {
                assert(self@.limiter.contains_key(key@));
                assert(self@.limiter[key@] == rules_of(counters@));
                let counts = record_all(counters, key);
                let over = exceeds_any(&tier.rates, &counts);
                assert(decides(self@.rules_for(key@), counts@, over));
                Some(over)
            },
        }
    }

    /// Makes the counters of `key` where a tier governs it and they are
    /// missing, one fresh counter per rule of that tier, each counting in
    /// windows of its rule's interval. Counters that exist are kept, those
    /// of `key` and those of every other key.
    pub fn add_limiter(&mut self, key: &str)
        requires
            old(self)@.wf(),
        ensures
            final(self)@ == old(self)@.with_counters(key@),
            counters_made(old(self).counters(), final(self).counters(), key@),
            final(self)@.wf(),
    {
        proof {
            lemma_with_counters_wf(old(self)@, key@);
        }
        if self.limiter.contains_key(key) {
            return ;
        }
        let consumer = match self.consumers.get(key) {
            Some(consumer) => consumer,
            None => { return ; },
        };
        let tier = match self.tiers.get(consumer.tier.as_str()) {
            Some(tier) => tier,
            None => { return ; },
        };
        assert(self@.tier_of(key@) == Some(tier@));
        let counters = counters_for(&tier.rates);
        let ghost made = counters@;
        self.limiter.insert(key.to_owned(), counters);
        assert(self@.limiter =~= old(self)@.limiter.insert(key@, old(self)@.rules_for(key@)));
        assert(self.counters() =~= old(self).counters().insert(key@, made));
        assert(self.counters().remove(key@) =~= old(self).counters().remove(key@));
    }

    /// Records one request of `key` against each of its counters, making
    /// them first where they are missing, and says whether the consumer is
    /// over its budget: whether some estimate is above the limit of its
    /// rule. A key that no tier governs is never limited. Counters that
    /// exist are the ones recorded against, and are kept.
    ///
    /// The estimate of a counter is the number of requests that its
    /// estimator has seen in the current window of the rule's interval,
    /// this one included. The window before it is not weighed in.
    pub fn is_limited(&mut self, key: &str) -> (limited: bool)
        requires
            old(self)@.wf(),
        ensures
            final(self)@ == old(self)@.with_counters(key@),
            counters_made(old(self).counters(), final(self).counters(), key@),
            final(self)@.wf(),
            decided_by_rules(old(self)@.rules_for(key@), limited),
    {
        self.add_limiter(key);
        match self.check_limit(key) {
            Some(over) => over,
            None => false,
        }
    }

    /// Drops every consumer and every counter.
    pub fn clear_consumers(&mut self)
        ensures
            final(self)@ == old(self)@.without_consumers(),
            final(self).counters() == Map::<Seq<char>, Seq<RateCounter>>::empty(),
            old(self)@.wf() ==> final(self)@.wf(),
    {
        self.consumers.clear();
        self.limiter.clear();
        assert(self@.consumers =~= Map::empty());
        assert(self@.limiter =~= Map::empty());
        assert(self.counters() =~= Map::empty());
    }
}

} // verus!
