//! Rate counters: one `pingora_limits` estimator for each rule that
//! governs a consumer.

use crate::proxy::tiers::{all_valid, TierRate, MAX_INTERVAL_SECS};
use pingora_limits::rate::Rate;
use std::time::Duration;
use vstd::prelude::*;

verus! {

/// The estimator of `pingora_limits`. It is carried around and never looked
/// into.
#[verifier::external_type_specification]
#[verifier::external_body]
pub struct ExRate(Rate);

/// The length in seconds of the window that an estimator was made with:
/// the interval handed to `pingora_limits::rate::Rate::new`, which the
/// estimator keeps for its lifetime.
pub uninterp spec fn window_of(rate: Rate) -> u64;

/// Makes an estimator whose window lasts `interval` seconds, with
/// `pingora_limits::rate::Rate::new`.
///
/// Trusted: the estimator's window is the interval given. Nothing is
/// claimed of its counts. The bound keeps the window, which the estimator
/// holds in milliseconds and doubles, within 64 bits.
#[verifier::external_body]
fn new_rate(interval: u64) -> (rate: Rate)
    requires
        interval <= MAX_INTERVAL_SECS,
    ensures
        window_of(rate) == interval,
{
    Rate::new(Duration::from_secs(interval))
}

/// Reports one event for `key` with `pingora_limits::rate::Rate::observe`
/// and hands back the count it returns: the events seen in the current
/// window, this one included.
///
/// Trusted: the count depends on the clock and on what was reported before,
/// so nothing is claimed of it.
#[verifier::external_body]
fn observe(rate: &Rate, key: &str) -> (count: isize) {
    rate.observe(&key, 1)
}

/// One rule of a tier, copied at the time the counter was made, and the
/// estimator that counts a consumer's events against it.
pub struct RateCounter {
    rule: TierRate,
    rate: Rate,
}

impl RateCounter {
    /// The rule the counter was made for.
    pub closed spec fn rule(&self) -> TierRate {
        self.rule
    }

    /// The length in seconds of the window in which the counter's
    /// estimator counts.
    pub closed spec fn window(&self) -> u64 {
        window_of(self.rate)
    }

    /// Whether the counter counts in windows of its rule's interval.
    pub open spec fn fits(&self) -> bool {
        self.window() == self.rule().interval
    }

    /// A fresh counter for `rule`: it holds a copy of the rule and counts
    /// in windows of the rule's interval.
    pub fn new(rule: TierRate) -> (counter: RateCounter)
        requires
            rule.valid(),
        ensures
            counter.rule() == rule,
            counter.window() == rule.interval,
    {
        RateCounter { rule, rate: new_rate(rule.interval) }
    }

    /// The rule the counter was made for.
    pub fn get_rule(&self) -> (rule: TierRate)
        ensures
            rule == self.rule(),
    {
        self.rule
    }

    /// Records one event for `key` and returns the estimate for the current
    /// window. The estimate is the estimator's own; nothing is known of it.
    fn record(&self, key: &str) -> (count: isize) {
        observe(&self.rate, key)
    }
}

/// The rules that a sequence of counters was made for, in order.
pub open spec fn rules_of(counters: Seq<RateCounter>) -> Seq<TierRate> {
    Seq::new(counters.len(), |i: int| counters[i].rule())
}

/// Whether every counter of a sequence counts in windows of its rule's
/// interval.
pub open spec fn all_fit(counters: Seq<RateCounter>) -> bool {
    forall|i: int| 0 <= i < counters.len() ==> (#[trigger] counters[i]).fits()
}

/// Whether some estimate is above the limit of its rule.
pub open spec fn any_exceeded(rules: Seq<TierRate>, counts: Seq<isize>) -> bool {
    exists|i: int|
        0 <= i < rules.len() && i < counts.len() && counts[i] > (#[trigger] rules[i]).limit
}

/// Whether `limited` is what `counts`, one estimate per rule, decide.
pub open spec fn decides(rules: Seq<TierRate>, counts: Seq<isize>, limited: bool) -> bool {
    counts.len() == rules.len() && limited == any_exceeded(rules, counts)
}

/// Whether `limited` is what the rules decide for some estimates. With no
/// rules the only decision is `false`.
pub open spec fn decided_by_rules(rules: Seq<TierRate>, limited: bool) -> bool {
    exists|counts: Seq<isize>| #[trigger] decides(rules, counts, limited)
}

/// With a single rule the decision is the comparison of the one estimate
/// with the rule's limit: under a limit of five the estimates up to five
/// pass, and six does not.
pub proof fn lemma_single_rule_decides_by_limit(rule: TierRate, count: isize)
    ensures
        any_exceeded(seq![rule], seq![count]) == (count > rule.limit),
{
    if count > rule.limit {
        assert(seq![count][0] > (#[trigger] seq![rule][0]).limit);
    }
}

/// A request is over budget as soon as one rule is breached, whatever the
/// estimates of the other rules are.
pub proof fn lemma_one_breach_suffices(rules: Seq<TierRate>, counts: Seq<isize>, breached: int)
    requires
        0 <= breached < rules.len(),
        breached < counts.len(),
        counts[breached] > rules[breached].limit,
    ensures
        any_exceeded(rules, counts),
{
}

/// Decides from one estimate per rule whether a consumer is over its
/// budget: it is as soon as one estimate is above the limit of its rule.
pub fn exceeds_any(rules: &Vec<TierRate>, counts: &Vec<isize>) -> (limited: bool)
    ensures
        limited == any_exceeded(rules@, counts@),
{
    let mut i: usize = 0;
    while i < rules.len() && i < counts.len()
        invariant
            forall|j: int|
                0 <= j < i && j < rules.len() && j < counts.len() ==> counts@[j] <= (
                #[trigger] rules@[j]).limit,
        decreases rules.len() - i,
    {
        if counts[i] > rules[i].limit {
            return true;
        }
        i = i + 1;
    }
    false
}

/// Makes one fresh counter for each rule, in the order of the rules, each
/// counting in windows of its rule's interval.
pub fn counters_for(rules: &Vec<TierRate>) -> (counters: Vec<RateCounter>)
    requires
        all_valid(rules@),
    ensures
        rules_of(counters@) == rules@,
        all_fit(counters@),
{
    let mut counters: Vec<RateCounter> = Vec::new();
    let mut i: usize = 0;
    while i < rules.len()
        invariant
            i <= rules.len(),
            all_valid(rules@),
            counters@.len() == i,
            rules_of(counters@) == rules@.subrange(0, i as int),
            all_fit(counters@),
        decreases rules.len() - i,
    {
        let ghost before = counters@;
        counters.push(RateCounter::new(rules[i]));
        assert forall|j: int| 0 <= j < i + 1 implies rules_of(counters@)[j] == rules@[j] by {
            if j < i {
                assert(counters@[j] == before[j]);
                assert(rules_of(before)[j] == rules@.subrange(0, i as int)[j]);
            }
        }
        assert(rules_of(counters@) =~= rules@.subrange(0, i + 1));
        assert forall|j: int| 0 <= j < counters@.len() implies (#[trigger] counters@[j]).fits() by {
            if j < i {
                assert(counters@[j] == before[j]);
            }
        }
        i = i + 1;
    }
    assert(rules@.subrange(0, i as int) =~= rules@);
    counters
}

/// Records one event for `key` against every counter and returns the
/// estimates, one per counter and in their order.
pub fn record_all(counters: &Vec<RateCounter>, key: &str) -> (counts: Vec<isize>)
    ensures
        counts@.len() == counters@.len(),
{
    let mut counts: Vec<isize> = Vec::new();
    let mut i: usize = 0;
    while i < counters.len()
        invariant
            i <= counters.len(),
            counts@.len() == i,
        decreases counters.len() - i,
    {
        counts.push(counters[i].record(key));
        i = i + 1;
    }
    counts
}

} // verus!
