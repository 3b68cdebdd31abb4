//! The request filter: the ordered checks that every request passes before
//! it is routed to the backend, and the accounting when it is done.

use crate::operator::controller::TrpPortView;
use crate::proxy::auth::{after_event, WatchEventView};
use crate::proxy::config::{Config, ConfigView};
use crate::proxy::consumer::{Consumer, ConsumerView};
use crate::proxy::limiter::{decided_by_rules, RateCounter};
use crate::proxy::state::{counters_made, State, StateView};
use crate::text::{decimal, find_value, pair_views, text_eq, u64_text, value_of};
use vstd::prelude::*;

verus! {

/// The request header that carries the consumer's key.
pub const DMTR_API_KEY: &'static str = "dmtr-api-key";

/// The method of a preflight request, which carries no credential.
pub const PREFLIGHT_METHOD: &'static str = "OPTIONS";

/// The body of the answer to a health probe.
pub const HEALTH_BODY: &'static str = "OK";

/// The status of the answer to a health probe.
pub const STATUS_OK: u16 = 200;

/// The status that turns away a request without a valid credential.
pub const STATUS_UNAUTHENTICATED: u16 = 401;

/// The status that turns away a request over its consumer's budget.
pub const STATUS_RATE_LIMITED: u16 = 429;

/// What the filter reads of a request: its method, its path and its headers
/// as pairs of name and value, the names in lower case.
#[derive(Debug, PartialEq, Eq)]
pub struct Request {
    pub method: String,
    pub path: String,
    pub headers: Vec<(String, String)>,
}

/// The mathematical value of a [`Request`].
pub struct RequestView {
    pub method: Seq<char>,
    pub path: Seq<char>,
    pub headers: Seq<(Seq<char>, Seq<char>)>,
}

impl View for Request {
    type V = RequestView;

    open spec fn view(&self) -> RequestView {
        RequestView {
            method: self.method@,
            path: self.path@,
            headers: pair_views(self.headers@),
        }
    }
}

impl RequestView {
    /// Whether the request is a preflight request.
    pub open spec fn is_preflight(self) -> bool {
        self.method == PREFLIGHT_METHOD@
    }

    /// Whether the request asks for the health path of the deployment.
    pub open spec fn is_health(self, config: ConfigView) -> bool {
        self.path == config.health_endpoint
    }

    /// The key that the request carries, if it carries one.
    pub open spec fn key(self) -> Option<Seq<char>> {
        value_of(self.headers, DMTR_API_KEY@)
    }
}

/// What the filter keeps of a request until it is accounted for.
#[derive(Debug, PartialEq, Eq)]
pub struct Context {
    pub instance: String,
    pub consumer: Consumer,
    pub is_health_request: bool,
}

/// The mathematical value of a [`Context`].
pub struct ContextView {
    pub instance: Seq<char>,
    pub consumer: ConsumerView,
    pub is_health_request: bool,
}

impl View for Context {
    type V = ContextView;

    open spec fn view(&self) -> ContextView {
        ContextView {
            instance: self.instance@,
            consumer: self.consumer@,
            is_health_request: self.is_health_request,
        }
    }
}

impl ContextView {
    /// The context of a request of which nothing is known yet.
    pub open spec fn empty() -> ContextView {
        ContextView {
            instance: Seq::empty(),
            consumer: ConsumerView::empty(),
            is_health_request: false,
        }
    }
}

impl Default for Context {
    fn default() -> (ctx: Self)
        ensures
            ctx@ == ContextView::empty(),
    {
        Context { instance: String::new(), consumer: Consumer::default(), is_health_request: false }
    }
}

/// How far a request gets before rate limiting is asked.
#[derive(Debug, PartialEq, Eq)]
pub enum Screening {
    /// A preflight request: no check applies.
    Preflight,
    /// A health probe: it is answered on the spot.
    Health,
    /// No key, an unknown key, or a key of another network.
    Unauthenticated,
    /// The request is the named consumer's, who belongs to this network.
    Admitted(Consumer),
}

/// The mathematical value of a [`Screening`].
pub enum ScreeningView {
    Preflight,
    Health,
    Unauthenticated,
    Admitted(ConsumerView),
}

impl View for Screening {
    type V = ScreeningView;

    open spec fn view(&self) -> ScreeningView {
        match self {
            Screening::Preflight => ScreeningView::Preflight,
            Screening::Health => ScreeningView::Health,
            Screening::Unauthenticated => ScreeningView::Unauthenticated,
            Screening::Admitted(consumer) => ScreeningView::Admitted(consumer@),
        }
    }
}

/// What becomes of a request.
#[derive(Debug, Clone, Copy, PartialEq, Eq, Structural)]
pub enum Verdict {
    /// It goes on to the backend.
    Forward,
    /// It is a health probe and is answered with success; the connection is
    /// not kept alive.
    Healthy,
    /// It is turned away for want of a valid credential.
    Unauthenticated,
    /// It is turned away because its consumer is over budget.
    RateLimited,
}

impl Verdict {
    /// The status of the answer that the filter itself gives; `None` where
    /// the request goes on to the backend.
    pub open spec fn spec_status(self) -> Option<u16> {
        match self {
            Verdict::Forward => None,
            Verdict::Healthy => Some(STATUS_OK),
            Verdict::Unauthenticated => Some(STATUS_UNAUTHENTICATED),
            Verdict::RateLimited => Some(STATUS_RATE_LIMITED),
        }
    }

    /// The status of the answer that the filter itself gives; `None` where
    /// the request goes on to the backend.
    #[verifier::when_used_as_spec(spec_status)]
    pub fn status(self) -> (status: Option<u16>)
        ensures
            status == self.spec_status(),
    {
        match self {
            Verdict::Forward => None,
            Verdict::Healthy => Some(STATUS_OK),
            Verdict::Unauthenticated => Some(STATUS_UNAUTHENTICATED),
            Verdict::RateLimited => Some(STATUS_RATE_LIMITED),
        }
    }

    /// The body of the answer that the filter itself gives to a health
    /// probe.
    pub fn body(self) -> (body: Option<&'static str>)
        ensures
            body.is_some() == (self == Verdict::Healthy),
            body matches Some(text) ==> text@ == HEALTH_BODY@,
    {
        match self {
            Verdict::Healthy => Some(HEALTH_BODY),
            _ => None,
        }
    }

    /// Whether the connection may be kept alive: not after a health probe.
    pub fn keeps_alive(self) -> (keep: bool)
        ensures
            keep == (self != Verdict::Healthy),
    {
        match self {
            Verdict::Healthy => false,
            _ => true,
        }
    }

    /// Whether the filter has answered the request itself.
    pub fn is_answered(self) -> (answered: bool)
        ensures
            answered == (self != Verdict::Forward),
    {
        match self {
            Verdict::Forward => false,
            _ => true,
        }
    }
}

/// How far a request gets before rate limiting is asked. The checks come
/// in this order: preflight, health path, presence of the key, the key's
/// consumer, the consumer's network.
pub open spec fn screening_of(
    state: StateView,
    config: ConfigView,
    request: RequestView,
) -> ScreeningView {
    if request.is_preflight() {
        ScreeningView::Preflight
    } else if request.is_health(config) {
        ScreeningView::Health
    } else {
        match request.key() {
            None => ScreeningView::Unauthenticated,
            Some(key) => if !state.consumers.contains_key(key) {
                ScreeningView::Unauthenticated
            } else if state.consumers[key].network != config.network {
                ScreeningView::Unauthenticated
            } else {
                ScreeningView::Admitted(state.consumers[key])
            },
        }
    }
}

/// What becomes of a request that got as far as `screening`, given what
/// rate limiting said of an admitted one.
pub open spec fn verdict_of(screening: ScreeningView, limited: bool) -> Verdict {
    match screening {
        ScreeningView::Preflight => Verdict::Forward,
        ScreeningView::Health => Verdict::Healthy,
        ScreeningView::Unauthenticated => Verdict::Unauthenticated,
        ScreeningView::Admitted(_) => if limited {
            Verdict::RateLimited
        } else {
            Verdict::Forward
        },
    }
}

/// The context of a request after the filter: a health probe is marked, an
/// admitted request carries its consumer, and whatever may go on to the
/// backend carries the backend's address.
pub open spec fn context_after(
    ctx: ContextView,
    config: ConfigView,
    screening: ScreeningView,
) -> ContextView {
    match screening {
        ScreeningView::Preflight => ContextView { instance: config.instance(), ..ctx },
        ScreeningView::Health => ContextView { is_health_request: true, ..ctx },
        ScreeningView::Unauthenticated => ctx,
        ScreeningView::Admitted(consumer) => ContextView {
            instance: config.instance(),
            consumer,
            ..ctx
        },
    }
}

/// The state after the filter: the counters of an admitted consumer exist,
/// nothing else has changed.
pub open spec fn state_after(state: StateView, screening: ScreeningView) -> StateView {
    match screening {
        ScreeningView::Admitted(consumer) => state.with_counters(consumer.key),
        _ => state,
    }
}

/// Whether `after` are the counters after the filter, given those before
/// it: an admitted request has the counters of its consumer made where they
/// were missing and kept where they existed, and no request changes the
/// counters of any other key.
pub open spec fn counters_fit_screening(
    before: Map<Seq<char>, Seq<RateCounter>>,
    after: Map<Seq<char>, Seq<RateCounter>>,
    screening: ScreeningView,
) -> bool {
    match screening {
        ScreeningView::Admitted(consumer) => counters_made(before, after, consumer.key),
        _ => after == before,
    }
}

/// A request that is neither a preflight request nor a health probe and
/// that carries no key, or a key under which no consumer is filed, is
/// turned away as unauthenticated, whatever rate limiting would say, and
/// leaves the state as it was.
pub proof fn lemma_unknown_key_is_unauthenticated(
    state: StateView,
    config: ConfigView,
    request: RequestView,
    limited: bool,
)
    requires
        !request.is_preflight(),
        !request.is_health(config),
        request.key() matches Some(key) ==> !state.consumers.contains_key(key),
    ensures
        verdict_of(screening_of(state, config, request), limited) == Verdict::Unauthenticated,
        state_after(state, screening_of(state, config, request)) == state,
{
}

/// A request that is neither a preflight request nor a health probe and
/// whose key belongs to a consumer of another network than the
/// deployment's is turned away as unauthenticated, though the key is valid.
pub proof fn lemma_other_network_is_unauthenticated(
    state: StateView,
    config: ConfigView,
    request: RequestView,
    limited: bool,
)
    requires
        !request.is_preflight(),
        !request.is_health(config),
        request.key() matches Some(key) && state.consumers.contains_key(key)
            && state.consumers[key].network != config.network,
    ensures
        verdict_of(screening_of(state, config, request), limited) == Verdict::Unauthenticated,
        state_after(state, screening_of(state, config, request)) == state,
{
}

/// A health probe that is no preflight request is answered with success
/// whatever key it carries and whatever rate limiting would say; it changes
/// no state, and whatever the answer's status it is never counted.
pub proof fn lemma_health_probe_succeeds_uncounted(
    state: StateView,
    config: ConfigView,
    request: RequestView,
    ctx: ContextView,
    limited: bool,
    response_code: Option<u16>,
)
    requires
        !request.is_preflight(),
        request.is_health(config),
    ensures
        verdict_of(screening_of(state, config, request), limited) == Verdict::Healthy,
        Verdict::Healthy.spec_status() == Some(STATUS_OK),
        state_after(state, screening_of(state, config, request)) == state,
        accounting_of(
            config,
            context_after(ctx, config, screening_of(state, config, request)),
            response_code,
        ).is_none(),
{
}

/// A preflight request goes on to the backend of the deployment whatever
/// key it carries and whatever rate limiting would say, and no counter is
/// made or touched for it.
pub proof fn lemma_preflight_bypasses_checks(
    state: StateView,
    config: ConfigView,
    request: RequestView,
    ctx: ContextView,
    limited: bool,
)
    requires
        request.is_preflight(),
    ensures
        verdict_of(screening_of(state, config, request), limited) == Verdict::Forward,
        state_after(state, screening_of(state, config, request)) == state,
        context_after(ctx, config, screening_of(state, config, request)).instance
            == config.instance(),
{
}

/// Whatever goes on to the backend goes to the one backend of the
/// deployment: the address in the context of a forwarded request is the one
/// that the settings give.
pub proof fn lemma_forwarded_request_targets_backend(
    state: StateView,
    config: ConfigView,
    request: RequestView,
    ctx: ContextView,
    limited: bool,
)
    requires
        verdict_of(screening_of(state, config, request), limited) == Verdict::Forward,
    ensures
        context_after(ctx, config, screening_of(state, config, request)).instance
            == config.instance(),
{
}

/// A request changes neither the consumer directory nor the tier catalog,
/// and of the counters none but those of its own key, which are made if
/// they were missing.
pub proof fn lemma_request_touches_own_counters_only(
    state: StateView,
    config: ConfigView,
    request: RequestView,
    key: Seq<char>,
)
    requires
        state.wf(),
        request.key() != Some(key),
    ensures
        state_after(state, screening_of(state, config, request)).consumers == state.consumers,
        state_after(state, screening_of(state, config, request)).tiers == state.tiers,
        state_after(state, screening_of(state, config, request)).limiter.contains_key(key)
            == state.limiter.contains_key(key),
        state.limiter.contains_key(key) ==> state_after(
            state,
            screening_of(state, config, request),
        ).limiter[key] == state.limiter[key],
{
    if let ScreeningView::Admitted(consumer) = screening_of(state, config, request) {
        let own = request.key().unwrap();
        assert(state.consumers.contains_key(own));
        assert(consumer.key == own);
    }
}

/// After a port was deleted, its consumer and its counters are gone, and a
/// request with its key that is neither a preflight request nor a health
/// probe is turned away as unauthenticated.
pub proof fn lemma_removed_key_is_unauthenticated(
    state: StateView,
    port: TrpPortView,
    config: ConfigView,
    request: RequestView,
    limited: bool,
)
    requires
        port.status matches Some(status) && request.key() == Some(status.auth_token),
        !request.is_preflight(),
        !request.is_health(config),
    ensures
        !after_event(state, WatchEventView::Remove(port)).consumers.contains_key(
            port.status.unwrap().auth_token,
        ),
        !after_event(state, WatchEventView::Remove(port)).limiter.contains_key(
            port.status.unwrap().auth_token,
        ),
        verdict_of(
            screening_of(after_event(state, WatchEventView::Remove(port)), config, request),
            limited,
        ) == Verdict::Unauthenticated,
{
}

/// Reads the consumer's key from the request.
pub fn extract_key(request: &Request) -> (key: Option<String>)
    ensures
        key.is_some() == request@.key().is_some(),
        key matches Some(k) ==> request@.key() == Some(k@),
{
    match find_value(&request.headers, DMTR_API_KEY) {
        Some(value) => Some(value.clone()),
        None => None,
    }
}

/// Runs the checks that come before rate limiting.
pub fn screen(state: &State, config: &Config, request: &Request) -> (screening: Screening)
    ensures
        screening@ == screening_of(state@, config@, request@),
{
    if text_eq(request.method.as_str(), PREFLIGHT_METHOD) {
        return Screening::Preflight;
    }
    if text_eq(request.path.as_str(), config.health_endpoint.as_str()) {
        return Screening::Health;
    }
    let key = match extract_key(request) {
        Some(key) => key,
        None => { return Screening::Unauthenticated; },
    };
    let consumer = match state.get_consumer(key.as_str()) {
        Some(consumer) => consumer,
        None => { return Screening::Unauthenticated; },
    };
    if !text_eq(consumer.network.as_str(), config.network.as_str()) {
        return Screening::Unauthenticated;
    }
    Screening::Admitted(consumer)
}

/// Says what becomes of a request that got as far as `screening`.
pub fn conclude(screening: &Screening, limited: bool) -> (verdict: Verdict)
    ensures
        verdict == verdict_of(screening@, limited),
{
    match screening {
        Screening::Preflight => Verdict::Forward,
        Screening::Health => Verdict::Healthy,
        Screening::Unauthenticated => Verdict::Unauthenticated,
        Screening::Admitted(_) => if limited {
            Verdict::RateLimited
        } else {
            Verdict::Forward
        },
    }
}

/// Marks the request as a health probe, which is not accounted for.
pub fn respond_health(ctx: &mut Context)
    ensures
        final(ctx)@ == (ContextView { is_health_request: true, ..old(ctx)@ }),
{
    ctx.is_health_request = true;
}

/// Writes into the context what the screening found.
pub fn note_screening(ctx: &mut Context, config: &Config, screening: Screening)
    ensures
        final(ctx)@ == context_after(old(ctx)@, config@, screening@),
{
    match screening {
        Screening::Preflight => {
            ctx.instance = config.instance();
        },
        Screening::Health => {
            respond_health(ctx);
        },
        Screening::Unauthenticated => {},
        Screening::Admitted(consumer) => {
            ctx.instance = config.instance();
            ctx.consumer = consumer;
        },
    }
}

/// Passes one request through the filter.
///
/// The checks before rate limiting decide alone for a preflight request, a
/// health probe and a request without a valid credential. An admitted
/// request is recorded against its consumer's counters, which are made
/// first where they are missing, and is turned away if some estimate is
/// above the limit of its rule.
pub fn request_filter(
    state: &mut State,
    config: &Config,
    request: &Request,
    ctx: &mut Context,
) -> (verdict: Verdict)
    requires
        old(state)@.wf(),
    ensures
        final(state)@.wf(),
        final(state)@ == state_after(
            old(state)@,
            screening_of(old(state)@, config@, request@),
        ),
        counters_fit_screening(
            old(state).counters(),
            final(state).counters(),
            screening_of(old(state)@, config@, request@),
        ),
        final(ctx)@ == context_after(
            old(ctx)@,
            config@,
            screening_of(old(state)@, config@, request@),
        ),
        verdict == verdict_of(
            screening_of(old(state)@, config@, request@),
            verdict == Verdict::RateLimited,
        ),
        screening_of(old(state)@, config@, request@) matches ScreeningView::Admitted(consumer)
            ==> decided_by_rules(
            old(state)@.rules_for(consumer.key),
            verdict == Verdict::RateLimited,
        ),
{
    let screening = screen(state, config, request);
    let limited = match &screening {
        Screening::Admitted(consumer) => state.is_limited(consumer.key.as_str()),
        _ => false,
    };
    let verdict = conclude(&screening, limited);
    note_screening(ctx, config, screening);
    verdict
}

/// Whether the filter has to make counters before it can decide: the
/// request is an admitted consumer's whom a tier governs and who has no
/// counters yet.
pub open spec fn needs_counters(state: StateView, screening: ScreeningView) -> bool {
    screening matches ScreeningView::Admitted(consumer) && state.tier_of(consumer.key).is_some()
        && !state.limiter.contains_key(consumer.key)
}

/// Passes one request through the filter without changing the state, where
/// that can be done: always but for the first request of a consumer whom a
/// tier governs, whose counters have yet to be made.
///
/// `None` says that this is such a request: nothing was recorded, the
/// context is as it was, and [`request_filter`] is to be called. Otherwise
/// the verdict and the context are those that [`request_filter`] gives.
pub fn try_request_filter(
    state: &State,
    config: &Config,
    request: &Request,
    ctx: &mut Context,
) -> (verdict: Option<Verdict>)
    requires
        state@.wf(),
    ensures
        verdict.is_none() == needs_counters(state@, screening_of(state@, config@, request@)),
        verdict.is_none() ==> final(ctx)@ == old(ctx)@,
        verdict matches Some(v) ==> final(ctx)@ == context_after(
            old(ctx)@,
            config@,
            screening_of(state@, config@, request@),
        ),
        verdict matches Some(v) ==> v == verdict_of(
            screening_of(state@, config@, request@),
            v == Verdict::RateLimited,
        ),
        verdict matches Some(v) ==> (screening_of(state@, config@, request@)
            matches ScreeningView::Admitted(consumer) ==> decided_by_rules(
            state@.rules_for(consumer.key),
            v == Verdict::RateLimited,
        )),
{
    let screening = screen(state, config, request);
    let limited = match &screening {
        Screening::Admitted(consumer) => match state.check_limit(consumer.key.as_str()) {
            Some(limited) => limited,
            None => { return None; },
        },
        _ => false,
    };
    let verdict = conclude(&screening, limited);
    note_screening(ctx, config, screening);
    Some(verdict)
}

/// Where a forwarded request is sent.
#[derive(Debug, PartialEq, Eq)]
pub struct Peer {
    /// Host and port of the backend.
    pub address: String,
    /// Whether the connection is encrypted.
    pub tls: bool,
    /// The server name offered on an encrypted connection.
    pub sni: String,
}

/// Selects the backend of a request that the filter let through: the address
/// noted in its context, reached in plain text.
pub fn upstream_peer(ctx: &Context) -> (peer: Peer)
    ensures
        peer.address@ == ctx@.instance,
        !peer.tls,
        peer.sni@ == Seq::<char>::empty(),
{
    Peer { address: ctx.instance.clone(), tls: false, sni: String::new() }
}

/// The labels under which one finished request is counted.
#[derive(Debug, PartialEq, Eq)]
pub struct RequestLabels {
    pub consumer: String,
    pub namespace: String,
    pub instance: String,
    pub status_code: String,
    pub network: String,
    pub tier: String,
}

/// The mathematical value of [`RequestLabels`].
pub struct RequestLabelsView {
    pub consumer: Seq<char>,
    pub namespace: Seq<char>,
    pub instance: Seq<char>,
    pub status_code: Seq<char>,
    pub network: Seq<char>,
    pub tier: Seq<char>,
}

impl View for RequestLabels {
    type V = RequestLabelsView;

    open spec fn view(&self) -> RequestLabelsView {
        RequestLabelsView {
            consumer: self.consumer@,
            namespace: self.namespace@,
            instance: self.instance@,
            status_code: self.status_code@,
            network: self.network@,
            tier: self.tier@,
        }
    }
}

/// The name of the counter of finished requests.
pub const REQUEST_COUNTER: &'static str = "trp_proxy_http_total_request";

/// What the counter of finished requests counts, in words.
pub const REQUEST_COUNTER_HELP: &'static str = "Total http request";

/// The names of the labels of the counter, in the order in which
/// [`RequestLabels::values`] gives their values.
pub fn label_names() -> (names: Vec<&'static str>)
    ensures
        names@.len() == 6,
        names@[0]@ == "consumer"@,
        names@[1]@ == "namespace"@,
        names@[2]@ == "instance"@,
        names@[3]@ == "status_code"@,
        names@[4]@ == "network"@,
        names@[5]@ == "tier"@,
{
    let mut names: Vec<&'static str> = Vec::new();
    names.push("consumer");
    names.push("namespace");
    names.push("instance");
    names.push("status_code");
    names.push("network");
    names.push("tier");
    names
}

impl RequestLabels {
    /// The values of the labels: consumer, namespace, instance, status
    /// code, network, tier.
    pub fn values(&self) -> (values: Vec<&str>)
        ensures
            values@.len() == 6,
            values@[0]@ == self@.consumer,
            values@[1]@ == self@.namespace,
            values@[2]@ == self@.instance,
            values@[3]@ == self@.status_code,
            values@[4]@ == self@.network,
            values@[5]@ == self@.tier,
    {
        let mut values: Vec<&str> = Vec::new();
        values.push(self.consumer.as_str());
        values.push(self.namespace.as_str());
        values.push(self.instance.as_str());
        values.push(self.status_code.as_str());
        values.push(self.network.as_str());
        values.push(self.tier.as_str());
        values
    }
}

/// The labels of a request of `consumer` that was sent to `instance` and
/// answered with `status`, counted by the proxy of `namespace`.
pub open spec fn labels_of(
    consumer: ConsumerView,
    namespace: Seq<char>,
    instance: Seq<char>,
    status: u16,
) -> RequestLabelsView {
    RequestLabelsView {
        consumer: consumer.label(),
        namespace,
        instance,
        status_code: decimal(status as nat),
        network: consumer.network,
        tier: consumer.tier,
    }
}

/// The accounting of a finished request: none for a health probe, else one
/// count under the labels of its context. A request that was never
/// answered counts under status 0.
pub open spec fn accounting_of(
    config: ConfigView,
    ctx: ContextView,
    response_code: Option<u16>,
) -> Option<RequestLabelsView> {
    if ctx.is_health_request {
        None
    } else {
        Some(
            labels_of(
                ctx.consumer,
                config.proxy_namespace,
                ctx.instance,
                match response_code {
                    Some(code) => code,
                    None => 0,
                },
            ),
        )
    }
}

/// Builds the labels under which one request is counted.
pub fn request_labels(
    consumer: &Consumer,
    namespace: &str,
    instance: &str,
    status: u16,
) -> (labels: RequestLabels)
    ensures
        labels@ == labels_of(consumer@, namespace@, instance@, status),
{
    RequestLabels {
        consumer: consumer.to_string(),
        namespace: namespace.to_owned(),
        instance: instance.to_owned(),
        status_code: u64_text(status as u64),
        network: consumer.network.clone(),
        tier: consumer.tier.clone(),
    }
}

/// Accounts for a finished request: says under which labels it is counted,
/// or `None` for a health probe, which is never counted.
pub fn logging(config: &Config, ctx: &Context, response_code: Option<u16>) -> (labels: Option<
    RequestLabels,
>)
    ensures
        labels.is_some() == accounting_of(config@, ctx@, response_code).is_some(),
        labels matches Some(l) ==> accounting_of(config@, ctx@, response_code) == Some(l@),
{
    if ctx.is_health_request {
        return None;
    }
    let status = match response_code {
        Some(code) => code,
        None => 0,
    };
    Some(
        request_labels(
            &ctx.consumer,
            config.proxy_namespace.as_str(),
            ctx.instance.as_str(),
            status,
        ),
    )
}

} // verus!
