//! The usage collector's decisions: what it asks the metrics store, which
//! answers count as failures, and to whom a sample of traffic is billed.

use crate::pattern::{captures, regex_captures};
use crate::text::{push_signed_decimal, signed_decimal};
use vstd::prelude::*;
use vstd::string::StringExecFns;

verus! {

/// The feature that usage is reported for.
pub const FEATURE: &'static str = "TrpPort";

/// The regular expression that splits a consumer's label into project and
/// port: `prj-`, the project up to the last dot that something follows, and
/// the port after it.
pub const CONSUMER_PATTERN: &'static str = r"prj-(.+)\.(.+)";

/// The query up to the length of its window: the requests by consumer,
/// network and tier, without those that were turned away or found no
/// backend.
pub const QUERY_HEAD: &'static str =
    "sum by (consumer, network, tier) (increase(trp_proxy_http_total_request{status_code!~\"401|429|503\"}[";

/// The query for the requests that each consumer was served in the last
/// `window` seconds before the time `at`, in seconds since the epoch.
/// Requests that were turned away or found no backend are left out.
pub open spec fn usage_query_of(window: int, at: int) -> Seq<char> {
    QUERY_HEAD@ + signed_decimal(window) + "s] @ "@ + signed_decimal(at) + "))"@
}

/// Writes the query for the usage of the last `window` seconds before `at`.
pub fn usage_query(window: i64, at: i64) -> (query: String)
    ensures
        query@ == usage_query_of(window as int, at as int),
{
    let mut query = String::from_str(QUERY_HEAD);
    push_signed_decimal(&mut query, window);
    query.append("s] @ ");
    push_signed_decimal(&mut query, at);
    query.append("))");
    query
}

/// The address at which the metrics store answers `query`.
pub open spec fn query_url_of(prometheus_url: Seq<char>, query: Seq<char>) -> Seq<char> {
    prometheus_url + "/query?query="@ + query
}

/// Writes the address at which the metrics store answers `query`.
pub fn query_url(prometheus_url: &str, query: &str) -> (url: String)
    ensures
        url@ == query_url_of(prometheus_url@, query@),
{
    let mut url = String::from_str(prometheus_url);
    url.append("/query?query=");
    url.append(query);
    url
}

/// Whether an answer with this status is a failure: a client error or a
/// server error.
pub fn is_failure(status: u16) -> (failed: bool)
    ensures
        failed == (400 <= status <= 599),
{
    400 <= status && status <= 599
}

/// The labels of one sample of traffic.
#[derive(Debug, PartialEq, Eq)]
pub struct Sample {
    pub consumer: Option<String>,
    pub network: Option<String>,
    pub tier: Option<String>,
}

/// To whom a sample of traffic is billed.
#[derive(Debug, PartialEq, Eq)]
pub struct Usage {
    pub project: String,
    pub resource_name: String,
    pub tier: String,
}

/// The mathematical value of a [`Usage`].
pub struct UsageView {
    pub project: Seq<char>,
    pub resource_name: Seq<char>,
    pub tier: Seq<char>,
}

impl View for Usage {
    type V = UsageView;

    open spec fn view(&self) -> UsageView {
        UsageView { project: self.project@, resource_name: self.resource_name@, tier: self.tier@ }
    }
}

/// To whom a sample of `tier` is billed, given the capture groups of a
/// search of its consumer label: group 1 is the project, group 2 the port.
/// A label that does not match is billed to nobody.
pub open spec fn usage_of_captures(
    groups: Option<Seq<Option<Seq<char>>>>,
    tier: Seq<char>,
) -> Option<UsageView> {
    match groups {
        None => None,
        Some(g) => if g.len() < 3 {
            None
        } else {
            match (g[1], g[2]) {
                (Some(project), Some(resource_name)) => Some(
                    UsageView { project, resource_name, tier },
                ),
                _ => None,
            }
        },
    }
}

/// To whom a sample is billed. A sample that lacks a label is billed to
/// nobody.
pub open spec fn usage_of(
    consumer: Option<Seq<char>>,
    network: Option<Seq<char>>,
    tier: Option<Seq<char>>,
) -> Option<UsageView> {
    match (consumer, network, tier) {
        (Some(consumer), Some(_), Some(tier)) => usage_of_captures(
            regex_captures(CONSUMER_PATTERN@, consumer),
            tier,
        ),
        _ => None,
    }
}

/// Says to whom a sample of `tier` is billed, from the capture groups of a
/// search of its consumer label with [`CONSUMER_PATTERN`].
pub fn usage_from_captures(groups: &Option<Vec<Option<String>>>, tier: &str) -> (usage: Option<
    Usage,
>)
    ensures
        usage.is_some() == usage_of_captures(groups.deep_view(), tier@).is_some(),
        usage matches Some(u) ==> usage_of_captures(groups.deep_view(), tier@) == Some(u@),
{
    match groups {
        None => None,
        Some(g) => {
            if g.len() < 3 {
                return None;
            }
            assert(groups.deep_view().unwrap()[1] == g@[1].deep_view());
            assert(groups.deep_view().unwrap()[2] == g@[2].deep_view());
            match (&g[1], &g[2]) {
                (Some(project), Some(resource_name)) => Some(
                    Usage {
                        project: project.clone(),
                        resource_name: resource_name.clone(),
                        tier: String::from_str(tier),
                    },
                ),
                _ => None,
            }
        },
    }
}

/// The mathematical value of an optional text.
pub open spec fn text_view(text: Option<String>) -> Option<Seq<char>> {
    match text {
        Some(text) => Some(text@),
        None => None,
    }
}

/// Says to whom a sample of traffic is billed.
pub fn usage_for(sample: &Sample) -> (usage: Option<Usage>)
    ensures
        usage.is_some() == usage_of(
            text_view(sample.consumer),
            text_view(sample.network),
            text_view(sample.tier),
        ).is_some(),
        usage matches Some(u) ==> usage_of(
            text_view(sample.consumer),
            text_view(sample.network),
            text_view(sample.tier),
        ) == Some(u@),
{
    match (&sample.consumer, &sample.network, &sample.tier) {
        (Some(consumer), Some(_), Some(tier)) => {
            let groups = captures(CONSUMER_PATTERN, consumer.as_str());
            usage_from_captures(&groups, tier.as_str())
        },
        _ => None,
    }
}

} // verus!
