//! Throughput tiers: named bundles of rate rules, and the reading of a
//! rule's interval from its textual form.

use crate::pattern::{captures, regex_captures};
use crate::text::{digits_value, is_digits, parse_digits, text_eq};
use vstd::string::StringExecFns;
use vstd::prelude::*;

verus! {

/// The longest interval a rate rule may have, in seconds: the rate counter
/// keeps its clock in milliseconds and doubles the interval.
pub const MAX_INTERVAL_SECS: u64 = 9_223_372_036_854_775;

/// One rate rule: at most `limit` events in a window of `interval` seconds.
#[derive(Debug, Clone, Copy, PartialEq, Eq, Structural)]
pub struct TierRate {
    pub limit: isize,
    pub interval: u64,
}

impl TierRate {
    /// A rule with the given limit and interval in seconds.
    pub fn new(limit: isize, interval: u64) -> (rate: TierRate)
        ensures
            rate == (TierRate { limit, interval }),
    {
        TierRate { limit, interval }
    }

    /// A rule is valid when its limit is not negative and its interval is
    /// positive and no longer than [`MAX_INTERVAL_SECS`].
    pub open spec fn valid(self) -> bool {
        self.limit >= 0 && 0 < self.interval <= MAX_INTERVAL_SECS
    }

    /// Tests whether the rule is valid.
    pub fn is_valid(&self) -> (ok: bool)
        ensures
            ok == self.valid(),
    {
        self.limit >= 0 && 0 < self.interval && self.interval <= MAX_INTERVAL_SECS
    }
}

/// Whether every rule of a sequence is valid.
pub open spec fn all_valid(rates: Seq<TierRate>) -> bool {
    forall|i: int| 0 <= i < rates.len() ==> (#[trigger] rates[i]).valid()
}

/// A named bundle of rate rules. A consumer of the tier must stay within
/// every one of them.
#[derive(Debug, PartialEq, Eq)]
pub struct Tier {
    pub name: String,
    pub rates: Vec<TierRate>,
}

/// The mathematical value of a [`Tier`].
pub struct TierView {
    pub name: Seq<char>,
    pub rates: Seq<TierRate>,
}

impl View for Tier {
    type V = TierView;

    open spec fn view(&self) -> TierView {
        TierView { name: self.name@, rates: self.rates@ }
    }
}

impl Clone for Tier {
    fn clone(&self) -> (copy: Self)
        ensures
            copy@ == self@,
    {
        let mut rates: Vec<TierRate> = Vec::new();
        let mut i: usize = 0;
        while i < self.rates.len()
            invariant
                i <= self.rates.len(),
                rates@ == self.rates@.subrange(0, i as int),
            decreases self.rates.len() - i,
        {
            rates.push(self.rates[i]);
            assert(rates@ =~= self.rates@.subrange(0, i + 1));
            i = i + 1;
        }
        assert(rates@ =~= self.rates@);
        Tier { name: self.name.clone(), rates }
    }
}

impl Tier {
    /// A tier with the given name and rules.
    pub fn new(name: String, rates: Vec<TierRate>) -> (tier: Tier)
        ensures
            tier@ == (TierView { name: name@, rates: rates@ }),
    {
        Tier { name, rates }
    }

    /// Tests whether every rule of the tier is valid.
    pub fn is_valid(&self) -> (ok: bool)
        ensures
            ok == all_valid(self@.rates),
    {
        let mut i: usize = 0;
        while i < self.rates.len()
            invariant
                i <= self.rates.len(),
                forall|j: int| 0 <= j < i ==> (#[trigger] self.rates@[j]).valid(),
            decreases self.rates.len() - i,
        {
            if !self.rates[i].is_valid() {
                return false;
            }
            i = i + 1;
        }
        true
    }
}

/// The regular expression that an interval is searched with: a run of
/// digits followed by one word character. Only a match of the whole text
/// counts.
pub const INTERVAL_PATTERN: &'static str = r"([\d]+)([\w])";

/// Why the text of an interval was refused.
#[derive(Debug, Clone, Copy, PartialEq, Eq, Structural)]
pub enum IntervalError {
    /// The text is not a number followed by a unit, from its first
    /// character to its last.
    Format,
    /// The number is not written in ASCII digits or does not fit in 64 bits.
    Number,
    /// The number is zero: an interval has a length.
    Zero,
    /// The unit is none of `s`, `m`, `h`, `d`.
    Symbol,
    /// The interval in seconds does not fit in 64 bits.
    Overflow,
}

impl IntervalError {
    /// The words that report the error.
    pub open spec fn spec_message(self) -> Seq<char> {
        match self {
            IntervalError::Format => "Invalid tier interval format"@,
            IntervalError::Number => "Invalid number tier interval"@,
            IntervalError::Zero => "Invalid zero tier interval"@,
            IntervalError::Symbol => "Invalid symbol tier interval"@,
            IntervalError::Overflow => "Invalid length tier interval"@,
        }
    }

    /// The words that report the error.
    pub fn message(self) -> (message: &'static str)
        ensures
            message@ == self.spec_message(),
    {
        match self {
            IntervalError::Format => "Invalid tier interval format",
            IntervalError::Number => "Invalid number tier interval",
            IntervalError::Zero => "Invalid zero tier interval",
            IntervalError::Symbol => "Invalid symbol tier interval",
            IntervalError::Overflow => "Invalid length tier interval",
        }
    }
}

/// How many seconds one unit lasts, or `None` for an unknown unit.
pub open spec fn unit_seconds(symbol: Seq<char>) -> Option<nat> {
    if symbol == seq!['s'] {
        Some(1)
    } else if symbol == seq!['m'] {
        Some(60)
    } else if symbol == seq!['h'] {
        Some(3600)
    } else if symbol == seq!['d'] {
        Some(86400)
    } else {
        None
    }
}

/// The interval in seconds that a number and a unit write. The number is
/// a run of ASCII digits without a sign, and it is not zero.
pub open spec fn interval_of_parts(digits: Seq<char>, symbol: Seq<char>) -> Result<
    u64,
    IntervalError,
> {
    if !is_digits(digits) || digits_value(digits) > u64::MAX {
        Err(IntervalError::Number)
    } else if digits_value(digits) == 0 {
        Err(IntervalError::Zero)
    } else {
        match unit_seconds(symbol) {
            None => Err(IntervalError::Symbol),
            Some(unit) => if digits_value(digits) * unit > u64::MAX {
                Err(IntervalError::Overflow)
            } else {
                Ok((digits_value(digits) * unit) as u64)
            },
        }
    }
}

/// Whether the capture groups of a search cover the whole of `text` with a
/// number and a unit: there are three groups at least, the match is the
/// whole text, and the text is the number of group 1 followed by the unit
/// of group 2.
pub open spec fn covers_text(groups: Option<Seq<Option<Seq<char>>>>, text: Seq<char>) -> bool {
    groups matches Some(g) && g.len() >= 3 && g[0] == Some(text) && g[1].is_some()
        && g[2].is_some() && text == g[1].unwrap() + g[2].unwrap()
}

/// The interval in seconds that `text` writes, given the capture groups of
/// a search of it: group 1 is the number, group 2 the unit. A text that the
/// match does not cover from its first character to its last is refused.
pub open spec fn interval_of_captures(
    groups: Option<Seq<Option<Seq<char>>>>,
    text: Seq<char>,
) -> Result<u64, IntervalError> {
    if covers_text(groups, text) {
        interval_of_parts(groups.unwrap()[1].unwrap(), groups.unwrap()[2].unwrap())
    } else {
        Err(IntervalError::Format)
    }
}

/// An interval that a number and a unit write is positive.
pub proof fn lemma_interval_of_parts_is_positive(digits: Seq<char>, symbol: Seq<char>)
    ensures
        interval_of_parts(digits, symbol) matches Ok(seconds) ==> seconds > 0,
{
    if let Ok(seconds) = interval_of_parts(digits, symbol) {
        let n = digits_value(digits);
        let unit = unit_seconds(symbol).unwrap();
        assert(n >= 1 && unit >= 1);
        assert(n * unit >= 1) by (nonlinear_arith)
            requires
                n >= 1,
                unit >= 1,
        ;
    }
}

/// An interval is accepted only for a text of the form number, unit: a run
/// of ASCII digits followed by one of the units, and nothing before,
/// between or after. Its length is the number times the seconds of the
/// unit, and it is positive.
pub proof fn lemma_accepted_interval_has_the_form(
    groups: Option<Seq<Option<Seq<char>>>>,
    text: Seq<char>,
)
    requires
        interval_of_captures(groups, text).is_ok(),
    ensures
        interval_of_captures(groups, text).unwrap() > 0,
        exists|digits: Seq<char>, symbol: Seq<char>| #[trigger]
            has_the_form(text, digits, symbol) && interval_of_captures(groups, text) == Ok::<
                u64,
                IntervalError,
            >((digits_value(digits) * unit_seconds(symbol).unwrap()) as u64),
{
    let digits = groups.unwrap()[1].unwrap();
    let symbol = groups.unwrap()[2].unwrap();
    lemma_interval_of_parts_is_positive(digits, symbol);
    assert(has_the_form(text, digits, symbol));
}

/// Whether `text` is `digits` followed by `symbol`, the first a run of
/// ASCII digits and the second a unit.
pub open spec fn has_the_form(text: Seq<char>, digits: Seq<char>, symbol: Seq<char>) -> bool {
    text == digits + symbol && is_digits(digits) && unit_seconds(symbol).is_some()
}

fn unit_of(symbol: &str) -> (unit: Option<u64>)
    ensures
        unit.is_some() == unit_seconds(symbol@).is_some(),
        unit matches Some(u) ==> unit_seconds(symbol@) == Some(u as nat),
{
    proof {
        reveal_strlit("s");
        reveal_strlit("m");
        reveal_strlit("h");
        reveal_strlit("d");
        assert("s"@ =~= seq!['s']);
        assert("m"@ =~= seq!['m']);
        assert("h"@ =~= seq!['h']);
        assert("d"@ =~= seq!['d']);
    }
    if text_eq(symbol, "s") {
        Some(1)
    } else if text_eq(symbol, "m") {
        Some(60)
    } else if text_eq(symbol, "h") {
        Some(3600)
    } else if text_eq(symbol, "d") {
        Some(86400)
    } else {
        None
    }
}

/// Turns a number and a unit into seconds. What comes out is positive.
pub fn interval_from_parts(digits: &str, symbol: &str) -> (interval: Result<u64, IntervalError>)
    ensures
        interval == interval_of_parts(digits@, symbol@),
        interval matches Ok(seconds) ==> seconds > 0,
{
    proof {
        lemma_interval_of_parts_is_positive(digits@, symbol@);
    }
    let number = match parse_digits(digits) {
        Some(n) => n,
        None => { return Err(IntervalError::Number); },
    };
    if number == 0 {
        return Err(IntervalError::Zero);
    }
    let unit = match unit_of(symbol) {
        Some(u) => u,
        None => { return Err(IntervalError::Symbol); },
    };
    match number.checked_mul(unit) {
        Some(seconds) => Ok(seconds),
        None => Err(IntervalError::Overflow),
    }
}

/// Turns the capture groups of a search of `text` with
/// [`INTERVAL_PATTERN`] into seconds. The match has to be the whole text.
pub fn interval_from_captures(groups: &Option<Vec<Option<String>>>, text: &str) -> (interval:
    Result<u64, IntervalError>)
    ensures
        interval == interval_of_captures(groups.deep_view(), text@),
        interval matches Ok(seconds) ==> seconds > 0,
{
    match groups {
        None => Err(IntervalError::Format),
        Some(g) => {
            if g.len() < 3 {
                return Err(IntervalError::Format);
            }
            assert(groups.deep_view().unwrap()[0] == g@[0].deep_view());
            assert(groups.deep_view().unwrap()[1] == g@[1].deep_view());
            assert(groups.deep_view().unwrap()[2] == g@[2].deep_view());
            match (&g[0], &g[1], &g[2]) {
                (Some(whole), Some(digits), Some(symbol)) => {
                    if !text_eq(whole.as_str(), text) {
                        return Err(IntervalError::Format);
                    }
                    let mut joined = digits.clone();
                    joined.append(symbol.as_str());
                    if !text_eq(joined.as_str(), text) {
                        return Err(IntervalError::Format);
                    }
                    interval_from_parts(digits.as_str(), symbol.as_str())
                },
                _ => Err(IntervalError::Format),
            }
        },
    }
}

/// Reads an interval such as `30s`, `5m`, `1h` or `7d` and gives it in
/// seconds. An interval of no length, such as `0s`, is refused.
///
/// The whole text has to be a number followed by a unit. It is searched
/// with [`INTERVAL_PATTERN`], and a match that leaves out a part of the
/// text is refused.
pub fn deserialize_duration(value: &str) -> (interval: Result<u64, IntervalError>)
    ensures
        interval == interval_of_captures(regex_captures(INTERVAL_PATTERN@, value@), value@),
        interval matches Ok(seconds) ==> seconds > 0,
{
    let groups = captures(INTERVAL_PATTERN, value);
    interval_from_captures(&groups, value)
}

} // verus!
