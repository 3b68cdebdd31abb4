use std::time::{Duration, Instant};
use trp_proxy::operator::controller::{TrpPort, TrpPortSpec, TrpPortStatus};
use trp_proxy::proxy::auth::{
    action_of, apply_event, handle_item, on_remove, on_reset, on_upsert, StreamItem, WatchAction,
    WatchEvent,
};
use trp_proxy::proxy::consumer::Consumer;
use trp_proxy::proxy::limiter::{counters_for, exceeds_any, record_all, RateCounter};
use trp_proxy::proxy::reload::{update_tiers, TierAction, TierAgent, TierError, TierPhase};
use trp_proxy::proxy::state::State;
use trp_proxy::proxy::tiers::{Tier, TierRate};

fn port(name: &str, tier: &str, network: &str, token: Option<&str>) -> TrpPort {
    TrpPort {
        name: name.to_string(),
        namespace: "prj-acme".to_string(),
        spec: TrpPortSpec {
            network: network.to_string(),
            throughput_tier: tier.to_string(),
            auth_token: "spec-token".to_string(),
        },
        status: token.map(|token| TrpPortStatus {
            endpoint_url: "https://trp-m1.demeter.run".to_string(),
            authenticated_endpoint_url: None,
            auth_token: token.to_string(),
        }),
    }
}

fn consumer(name: &str, tier: &str, network: &str, key: &str) -> Consumer {
    Consumer {
        namespace: "prj-acme".to_string(),
        port_name: name.to_string(),
        tier: tier.to_string(),
        key: key.to_string(),
        network: network.to_string(),
    }
}

fn tier(name: &str, rates: &[(isize, u64)]) -> Tier {
    Tier::new(name.to_string(), rates.iter().map(|(limit, interval)| TierRate::new(*limit, *interval)).collect())
}

fn wait(duration: Duration) {
    let start = Instant::now();
    while start.elapsed() < duration {
        std::hint::spin_loop();
    }
}

#[test]
fn new_state_knows_nothing() {
    let state = State::new();
    assert_eq!(state.get_consumer("k1"), None);
    assert_eq!(state.get_tier("free"), None);
    assert!(!state.has_limiter("k1"));
}

#[test]
fn consumer_from_port_takes_status_token_as_key() {
    let made = Consumer::from_port(&port("port-a", "free", "mainnet", Some("k1")));
    assert_eq!(made, Some(consumer("port-a", "free", "mainnet", "k1")));
    assert_eq!(Consumer::from_port(&port("port-a", "free", "mainnet", None)), None);
    let mut homeless = port("port-a", "free", "mainnet", Some("k1"));
    homeless.namespace = String::new();
    assert_eq!(Consumer::from_port(&homeless).unwrap().to_string(), ".port-a");
}

#[test]
fn consumer_label_joins_namespace_and_port() {
    assert_eq!(consumer("port-a", "free", "mainnet", "k1").to_string(), "prj-acme.port-a");
    assert_eq!(Consumer::default().to_string(), ".");
}

#[test]
fn upsert_files_consumer_under_its_key() {
    let mut state = State::new();
    apply_event(&mut state, &WatchEvent::Upsert(port("port-a", "free", "mainnet", Some("k1"))));
    assert_eq!(state.get_consumer("k1"), Some(consumer("port-a", "free", "mainnet", "k1")));
    assert_eq!(state.get_consumer("spec-token"), None);
    assert_eq!(state.get_consumer("port-a"), None);
}

#[test]
fn upsert_without_status_is_ignored() {
    let mut state = State::new();
    apply_event(&mut state, &WatchEvent::Upsert(port("port-a", "free", "mainnet", None)));
    apply_event(&mut state, &WatchEvent::ReplayUpsert(port("port-b", "free", "mainnet", None)));
    assert_eq!(state.get_consumer("spec-token"), None);
    assert_eq!(state.get_consumer(""), None);
}

#[test]
fn replay_upsert_twice_is_as_once() {
    let mut once = State::new();
    let mut twice = State::new();
    let event = WatchEvent::ReplayUpsert(port("port-a", "free", "mainnet", Some("k1")));
    apply_event(&mut once, &event);
    apply_event(&mut twice, &event);
    apply_event(&mut twice, &event);
    assert_eq!(once.get_consumer("k1"), twice.get_consumer("k1"));
    assert_eq!(twice.get_consumer("k1"), Some(consumer("port-a", "free", "mainnet", "k1")));
    assert!(!twice.has_limiter("k1"));
}

#[test]
fn replay_upsert_keeps_latest_and_drops_counters() {
    let mut state = State::new();
    assert_eq!(update_tiers(&mut state, Ok(Some(vec![tier("free", &[(5, 60)]), tier("paid", &[(50, 60)])]))), Ok(()));
    apply_event(&mut state, &WatchEvent::ReplayUpsert(port("port-a", "free", "mainnet", Some("k1"))));
    assert!(!state.is_limited("k1"));
    assert!(state.has_limiter("k1"));
    apply_event(&mut state, &WatchEvent::ReplayUpsert(port("port-a", "paid", "mainnet", Some("k1"))));
    assert!(!state.has_limiter("k1"));
    assert_eq!(state.get_consumer("k1"), Some(consumer("port-a", "paid", "mainnet", "k1")));
    // Counted anew against the rules of the new tier.
    for _ in 0..50 {
        assert!(!state.is_limited("k1"));
    }
    assert!(state.is_limited("k1"));
}

#[test]
fn remove_deletes_consumer_and_counters() {
    let mut state = State::new();
    assert_eq!(update_tiers(&mut state, Ok(Some(vec![tier("free", &[(5, 60)])]))), Ok(()));
    apply_event(&mut state, &WatchEvent::Upsert(port("port-a", "free", "mainnet", Some("k1"))));
    apply_event(&mut state, &WatchEvent::Upsert(port("port-b", "free", "mainnet", Some("k2"))));
    assert!(!state.is_limited("k1"));
    assert!(!state.is_limited("k2"));
    apply_event(&mut state, &WatchEvent::Remove(port("port-a", "free", "mainnet", Some("k1"))));
    assert_eq!(state.get_consumer("k1"), None);
    assert!(!state.has_limiter("k1"));
    assert_eq!(state.get_consumer("k2"), Some(consumer("port-b", "free", "mainnet", "k2")));
    assert!(state.has_limiter("k2"));
}

#[test]
fn remove_without_status_changes_nothing() {
    let mut state = State::new();
    apply_event(&mut state, &WatchEvent::Upsert(port("port-a", "free", "mainnet", Some("k1"))));
    on_remove(&mut state, &port("port-a", "free", "mainnet", None));
    assert_eq!(state.get_consumer("k1"), Some(consumer("port-a", "free", "mainnet", "k1")));
}

#[test]
fn reset_clears_consumers_and_counters_but_not_tiers() {
    let mut state = State::new();
    assert_eq!(update_tiers(&mut state, Ok(Some(vec![tier("free", &[(5, 60)])]))), Ok(()));
    on_upsert(&mut state, &port("port-a", "free", "mainnet", Some("k1")));
    assert!(!state.is_limited("k1"));
    on_reset(&mut state);
    assert_eq!(state.get_consumer("k1"), None);
    assert!(!state.has_limiter("k1"));
    assert_eq!(state.get_tier("free"), Some(tier("free", &[(5, 60)])));
}

#[test]
fn replay_done_changes_nothing() {
    let mut state = State::new();
    apply_event(&mut state, &WatchEvent::Upsert(port("port-a", "free", "mainnet", Some("k1"))));
    apply_event(&mut state, &WatchEvent::ReplayDone);
    assert_eq!(state.get_consumer("k1"), Some(consumer("port-a", "free", "mainnet", "k1")));
}

#[test]
fn stream_failure_terminates() {
    let mut state = State::new();
    let event = StreamItem::Event(WatchEvent::Upsert(port("port-a", "free", "mainnet", Some("k1"))));
    assert_eq!(handle_item(&mut state, &event), WatchAction::Continue);
    assert_eq!(handle_item(&mut state, &StreamItem::Empty), WatchAction::Continue);
    assert_eq!(handle_item(&mut state, &StreamItem::Failed("connection reset".to_string())), WatchAction::Terminate);
    assert_eq!(state.get_consumer("k1"), Some(consumer("port-a", "free", "mainnet", "k1")));
}

#[test]
fn update_tiers_replaces_whole_catalog() {
    let mut state = State::new();
    assert_eq!(update_tiers(&mut state, Ok(Some(vec![tier("free", &[(5, 1)]), tier("paid", &[(50, 1), (1000, 86400)])]))), Ok(()));
    assert_eq!(state.get_tier("free"), Some(tier("free", &[(5, 1)])));
    assert_eq!(state.get_tier("paid"), Some(tier("paid", &[(50, 1), (1000, 86400)])));
    assert_eq!(update_tiers(&mut state, Ok(Some(vec![tier("paid", &[(60, 1)])]))), Ok(()));
    assert_eq!(state.get_tier("free"), None);
    assert_eq!(state.get_tier("paid"), Some(tier("paid", &[(60, 1)])));
}

#[test]
fn update_tiers_later_tier_of_same_name_wins() {
    let mut state = State::new();
    assert_eq!(update_tiers(&mut state, Ok(Some(vec![tier("free", &[(5, 1)]), tier("free", &[(7, 1)])]))), Ok(()));
    assert_eq!(state.get_tier("free"), Some(tier("free", &[(7, 1)])));
}

#[test]
fn update_tiers_without_table_gives_empty_catalog() {
    let mut state = State::new();
    assert_eq!(update_tiers(&mut state, Ok(Some(vec![tier("free", &[(5, 1)])]))), Ok(()));
    assert_eq!(update_tiers(&mut state, Ok(None)), Ok(()));
    assert_eq!(state.get_tier("free"), None);
}

#[test]
fn update_tiers_refused_reading_changes_nothing() {
    let mut state = State::new();
    assert_eq!(update_tiers(&mut state, Ok(Some(vec![tier("free", &[(5, 60)])]))), Ok(()));
    on_upsert(&mut state, &port("port-a", "free", "mainnet", Some("k1")));
    assert!(!state.is_limited("k1"));
    assert_eq!(update_tiers(&mut state, Err(TierError::Malformed)), Err(TierError::Malformed));
    assert_eq!(update_tiers(&mut state, Err(TierError::Unreadable)), Err(TierError::Unreadable));
    assert_eq!(state.get_tier("free"), Some(tier("free", &[(5, 60)])));
    assert!(state.has_limiter("k1"));
}

#[test]
fn update_tiers_names_first_tier_with_invalid_rule() {
    let mut state = State::new();
    assert_eq!(update_tiers(&mut state, Ok(Some(vec![tier("free", &[(5, 60)])]))), Ok(()));
    let reading = vec![tier("a", &[(1, 1)]), tier("b", &[(1, 1), (1, 0)]), tier("c", &[(-1, 1)])];
    assert_eq!(update_tiers(&mut state, Ok(Some(reading))), Err(TierError::InvalidRule(1)));
    assert_eq!(update_tiers(&mut state, Ok(Some(vec![tier("c", &[(-1, 1)])]))), Err(TierError::InvalidRule(0)));
    assert_eq!(state.get_tier("free"), Some(tier("free", &[(5, 60)])));
    assert_eq!(state.get_tier("a"), None);
}

#[test]
fn tier_agent_aborts_on_refused_first_reading() {
    let mut state = State::new();
    let mut agent = TierAgent::new();
    assert_eq!(agent.get_phase(), TierPhase::Boot);
    assert_eq!(agent.take_reading(&mut state, Err(TierError::Unreadable)), TierAction::Abort(TierError::Unreadable));
    assert_eq!(agent.get_phase(), TierPhase::Stopped);
    assert_eq!(agent.take_reading(&mut state, Ok(Some(vec![tier("free", &[(5, 60)])]))), TierAction::Ignore);
    assert_eq!(state.get_tier("free"), None);
}

#[test]
fn tier_agent_reports_refused_later_reading_and_keeps_watching() {
    let mut state = State::new();
    let mut agent = TierAgent::new();
    assert_eq!(agent.take_reading(&mut state, Ok(Some(vec![tier("free", &[(5, 60)])]))), TierAction::Watch);
    assert_eq!(agent.get_phase(), TierPhase::Watching);
    assert_eq!(agent.take_reading(&mut state, Err(TierError::Malformed)), TierAction::Report(TierError::Malformed));
    assert_eq!(agent.get_phase(), TierPhase::Watching);
    assert_eq!(state.get_tier("free"), Some(tier("free", &[(5, 60)])));
    assert_eq!(agent.take_reading(&mut state, Ok(Some(vec![tier("free", &[(9, 60)])]))), TierAction::Reloaded);
    assert_eq!(state.get_tier("free"), Some(tier("free", &[(9, 60)])));
    assert_eq!(agent.take_reading(&mut state, Ok(Some(vec![tier("free", &[(9, 0)])]))), TierAction::Report(TierError::InvalidRule(0)));
    agent.watch_failed();
    assert_eq!(agent.get_phase(), TierPhase::Stopped);
}

#[test]
fn unknown_key_or_tier_is_never_limited() {
    let mut state = State::new();
    assert_eq!(update_tiers(&mut state, Ok(Some(vec![tier("free", &[(0, 60)])]))), Ok(()));
    on_upsert(&mut state, &port("port-a", "gold", "mainnet", Some("k1")));
    for _ in 0..20 {
        assert!(!state.is_limited("k1"));
        assert!(!state.is_limited("nobody"));
    }
    assert!(!state.has_limiter("k1"));
    assert!(!state.has_limiter("nobody"));
    assert_eq!(state.check_limit("k1"), Some(false));
    assert_eq!(state.check_limit("nobody"), Some(false));
}

#[test]
fn tier_without_rules_never_limits() {
    let mut state = State::new();
    assert_eq!(update_tiers(&mut state, Ok(Some(vec![tier("open", &[])]))), Ok(()));
    on_upsert(&mut state, &port("port-a", "open", "mainnet", Some("k1")));
    for _ in 0..20 {
        assert!(!state.is_limited("k1"));
    }
    assert!(state.has_limiter("k1"));
}

#[test]
fn limit_of_zero_limits_first_request() {
    let mut state = State::new();
    assert_eq!(update_tiers(&mut state, Ok(Some(vec![tier("none", &[(0, 60)])]))), Ok(()));
    on_upsert(&mut state, &port("port-a", "none", "mainnet", Some("k1")));
    assert!(state.is_limited("k1"));
}

#[test]
fn five_per_second_admits_five_then_limits_then_resumes() {
    let mut state = State::new();
    assert_eq!(update_tiers(&mut state, Ok(Some(vec![tier("free", &[(5, 1)])]))), Ok(()));
    on_upsert(&mut state, &port("port-a", "free", "mainnet", Some("k1")));
    for _ in 0..5 {
        assert!(!state.is_limited("k1"));
    }
    assert!(state.is_limited("k1"));
    assert!(state.is_limited("k1"));
    wait(Duration::from_millis(1100));
    assert!(!state.is_limited("k1"));
}

#[test]
fn every_rule_of_a_tier_applies() {
    let mut state = State::new();
    assert_eq!(update_tiers(&mut state, Ok(Some(vec![tier("two", &[(100, 1), (3, 3600)])]))), Ok(()));
    on_upsert(&mut state, &port("port-a", "two", "mainnet", Some("k1")));
    for _ in 0..3 {
        assert!(!state.is_limited("k1"));
    }
    assert!(state.is_limited("k1"));
}

#[test]
fn consumers_are_counted_apart() {
    let mut state = State::new();
    assert_eq!(update_tiers(&mut state, Ok(Some(vec![tier("free", &[(2, 60)])]))), Ok(()));
    on_upsert(&mut state, &port("port-a", "free", "mainnet", Some("k1")));
    on_upsert(&mut state, &port("port-b", "free", "mainnet", Some("k2")));
    assert!(!state.is_limited("k1"));
    assert!(!state.is_limited("k1"));
    assert!(state.is_limited("k1"));
    assert!(!state.is_limited("k2"));
}

#[test]
fn check_limit_asks_for_counters_first() {
    let mut state = State::new();
    assert_eq!(update_tiers(&mut state, Ok(Some(vec![tier("free", &[(1, 60)])]))), Ok(()));
    on_upsert(&mut state, &port("port-a", "free", "mainnet", Some("k1")));
    assert_eq!(state.check_limit("k1"), None);
    state.add_limiter("k1");
    assert!(state.has_limiter("k1"));
    assert_eq!(state.check_limit("k1"), Some(false));
    assert_eq!(state.check_limit("k1"), Some(true));
    // Making the counters again keeps the ones that exist.
    state.add_limiter("k1");
    assert_eq!(state.check_limit("k1"), Some(true));
}

#[test]
fn reload_with_stricter_limit_applies_at_once() {
    let mut state = State::new();
    assert_eq!(update_tiers(&mut state, Ok(Some(vec![tier("free", &[(10, 60)])]))), Ok(()));
    on_upsert(&mut state, &port("port-a", "free", "mainnet", Some("k1")));
    for _ in 0..4 {
        assert!(!state.is_limited("k1"));
    }
    assert_eq!(update_tiers(&mut state, Ok(Some(vec![tier("free", &[(2, 60)])]))), Ok(()));
    assert!(!state.has_limiter("k1"));
    assert!(!state.is_limited("k1"));
    assert!(!state.is_limited("k1"));
    assert!(state.is_limited("k1"));
}

#[test]
fn exceeds_any_compares_each_estimate_with_its_limit() {
    let rules = vec![TierRate::new(5, 1), TierRate::new(100, 86400)];
    assert!(!exceeds_any(&rules, &vec![5, 100]));
    assert!(exceeds_any(&rules, &vec![6, 100]));
    assert!(exceeds_any(&rules, &vec![1, 101]));
    assert!(!exceeds_any(&rules, &vec![0, 0]));
    assert!(!exceeds_any(&rules, &vec![-3, isize::MIN]));
    assert!(!exceeds_any(&vec![], &vec![]));
    assert!(!exceeds_any(&rules, &vec![]));
    assert!(exceeds_any(&rules, &vec![6]));
}

#[test]
fn counters_count_one_event_per_record() {
    let rules = vec![TierRate::new(5, 60), TierRate::new(100, 3600)];
    let counters = counters_for(&rules);
    assert_eq!(counters.len(), 2);
    assert_eq!(counters[0].get_rule(), rules[0]);
    assert_eq!(counters[1].get_rule(), rules[1]);
    assert_eq!(record_all(&counters, "k1"), vec![1, 1]);
    assert_eq!(record_all(&counters, "k1"), vec![2, 2]);
    assert_eq!(record_all(&counters, "k1"), vec![3, 3]);
    let single = vec![RateCounter::new(TierRate::new(1, 1))];
    assert_eq!(single[0].get_rule(), TierRate { limit: 1, interval: 1 });
    assert_eq!(record_all(&single, "k"), vec![1]);
    assert_eq!(record_all(&Vec::new(), "k"), Vec::<isize>::new());
}

#[test]
fn action_of_terminates_only_on_failure() {
    assert_eq!(action_of(&StreamItem::Event(WatchEvent::Reset)), WatchAction::Continue);
    assert_eq!(action_of(&StreamItem::Event(WatchEvent::ReplayDone)), WatchAction::Continue);
    assert_eq!(action_of(&StreamItem::Empty), WatchAction::Continue);
    assert_eq!(action_of(&StreamItem::Failed(String::new())), WatchAction::Terminate);
}

#[test]
fn default_state_knows_nothing() {
    let mut state = State::default();
    assert_eq!(state.get_consumer(""), None);
    assert!(!state.is_limited(""));
    assert!(!state.has_limiter(""));
}

#[test]
fn store_primitives() {
    let mut state = State::new();
    state.put_consumer(consumer("port-a", "free", "mainnet", "k1"));
    state.put_consumer(consumer("port-b", "free", "mainnet", "k2"));
    assert_eq!(state.get_consumer("k1"), Some(consumer("port-a", "free", "mainnet", "k1")));
    state.put_consumer(consumer("port-c", "paid", "preprod", "k1"));
    assert_eq!(state.get_consumer("k1"), Some(consumer("port-c", "paid", "preprod", "k1")));
    state.delete_consumer("k1");
    state.delete_consumer("k1");
    assert_eq!(state.get_consumer("k1"), None);
    assert_eq!(state.get_consumer("k2"), Some(consumer("port-b", "free", "mainnet", "k2")));
    state.clear_consumers();
    assert_eq!(state.get_consumer("k2"), None);
}

#[test]
fn window_lasts_the_rules_interval() {
    let mut state = State::new();
    assert_eq!(update_tiers(&mut state, Ok(Some(vec![tier("slow", &[(1, 2)])]))), Ok(()));
    on_upsert(&mut state, &port("port-a", "slow", "mainnet", Some("k1")));
    assert!(!state.is_limited("k1"));
    assert!(state.is_limited("k1"));
    // One second later the window of two seconds is still open.
    wait(Duration::from_millis(1100));
    assert!(state.is_limited("k1"));
    wait(Duration::from_millis(1100));
    assert!(!state.is_limited("k1"));
}

#[test]
fn counters_of_other_keys_are_kept() {
    let mut state = State::new();
    assert_eq!(update_tiers(&mut state, Ok(Some(vec![tier("free", &[(2, 60)])]))), Ok(()));
    on_upsert(&mut state, &port("port-a", "free", "mainnet", Some("k1")));
    on_upsert(&mut state, &port("port-b", "free", "mainnet", Some("k2")));
    assert!(!state.is_limited("k2"));
    assert!(!state.is_limited("k2"));
    // What was counted for k2 outlives what happens to k1 and a refused reading.
    assert!(!state.is_limited("k1"));
    apply_event(&mut state, &WatchEvent::Upsert(port("port-a", "free", "mainnet", Some("k1"))));
    apply_event(&mut state, &WatchEvent::ReplayUpsert(port("port-a", "free", "mainnet", Some("k1"))));
    apply_event(&mut state, &WatchEvent::Remove(port("port-a", "free", "mainnet", Some("k1"))));
    apply_event(&mut state, &WatchEvent::ReplayDone);
    assert_eq!(update_tiers(&mut state, Err(TierError::Malformed)), Err(TierError::Malformed));
    assert_eq!(update_tiers(&mut state, Ok(Some(vec![tier("free", &[(9, 0)])]))), Err(TierError::InvalidRule(0)));
    state.add_limiter("k2");
    assert!(state.is_limited("k2"));
    assert_eq!(state.check_limit("k2"), Some(true));
}
