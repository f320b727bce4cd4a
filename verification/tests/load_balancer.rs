use reverse_proxy::load_balancer::{LoadBalancer, LoadBalancerStrategy};

fn backends(names: &[&str]) -> Vec<String> {
    names.iter().map(|s| s.to_string()).collect()
}

#[test]
fn round_robin_cycle_visits_each_backend_once() {
    let list = backends(&["https://a", "https://b", "https://c"]);
    let mut lb = LoadBalancer::with_strategy(&list, LoadBalancerStrategy::RoundRobin);
    let mut seen = Vec::new();
    for _ in 0..3 {
        seen.push(lb.get_backend(&list).unwrap());
    }
    let mut sorted = seen.clone();
    sorted.sort();
    sorted.dedup();
    assert_eq!(sorted.len(), 3, "one full cycle must visit all three backends");
    // The next cycle repeats the same order.
    assert_eq!(lb.get_backend(&list).unwrap(), seen[0]);
}

#[test]
fn round_robin_order_follows_counter() {
    let list = backends(&["https://a", "https://b"]);
    let mut lb = LoadBalancer::with_strategy(&list, LoadBalancerStrategy::RoundRobin);
    assert_eq!(lb.get_backend(&list).unwrap(), "https://a");
    assert_eq!(lb.get_backend(&list).unwrap(), "https://b");
    assert_eq!(lb.get_backend(&list).unwrap(), "https://a");
}

#[test]
fn empty_healthy_list_yields_none_for_every_strategy() {
    let empty: Vec<String> = Vec::new();
    let configured = backends(&["https://a"]);
    for strategy in [
        LoadBalancerStrategy::RoundRobin,
        LoadBalancerStrategy::Random,
        LoadBalancerStrategy::LeastConnections,
        LoadBalancerStrategy::WeightedRoundRobin,
    ] {
        let mut lb = LoadBalancer::with_strategy(&configured, strategy);
        assert!(lb.get_backend(&empty).is_none());
    }
}

#[test]
fn every_strategy_picks_from_the_list() {
    let list = backends(&["https://a", "https://b", "https://c"]);
    for strategy in [
        LoadBalancerStrategy::RoundRobin,
        LoadBalancerStrategy::Random,
        LoadBalancerStrategy::LeastConnections,
        LoadBalancerStrategy::WeightedRoundRobin,
    ] {
        let mut lb = LoadBalancer::with_strategy(&list, strategy);
        let picked = lb.get_backend(&list).unwrap();
        assert!(list.contains(&picked));
    }
}

#[test]
fn fallback_strategies_behave_like_round_robin() {
    let list = backends(&["https://a", "https://b"]);
    let mut lc = LoadBalancer::with_strategy(&list, LoadBalancerStrategy::LeastConnections);
    assert_eq!(lc.get_backend(&list).unwrap(), "https://a");
    assert_eq!(lc.get_backend(&list).unwrap(), "https://b");
    let mut wrr = LoadBalancer::with_strategy(&list, LoadBalancerStrategy::WeightedRoundRobin);
    assert_eq!(wrr.get_backend(&list).unwrap(), "https://a");
    assert_eq!(wrr.get_backend(&list).unwrap(), "https://b");
}

#[test]
fn strategy_names_parse_case_insensitively() {
    assert_eq!(LoadBalancerStrategy::from_name("random"), LoadBalancerStrategy::Random);
    assert_eq!(LoadBalancerStrategy::from_name("RANDOM"), LoadBalancerStrategy::Random);
    assert_eq!(
        LoadBalancerStrategy::from_name("Least_Connections"),
        LoadBalancerStrategy::LeastConnections
    );
    assert_eq!(
        LoadBalancerStrategy::from_name("weighted_round_robin"),
        LoadBalancerStrategy::WeightedRoundRobin
    );
    assert_eq!(LoadBalancerStrategy::from_name("round_robin"), LoadBalancerStrategy::RoundRobin);
    assert_eq!(LoadBalancerStrategy::from_name("whatever"), LoadBalancerStrategy::RoundRobin);
}

#[test]
fn update_backends_replaces_list_and_resets_counter() {
    let list = backends(&["https://a", "https://b"]);
    let mut lb = LoadBalancer::with_strategy(&list, LoadBalancerStrategy::RoundRobin);
    lb.get_backend(&list).unwrap();
    let replacement = backends(&["https://x", "https://y"]);
    lb.update_backends(replacement.clone());
    assert_eq!(lb.get_all_backends(), &replacement);
    // Counter reset: selection starts from the front again.
    assert_eq!(lb.get_backend(&replacement).unwrap(), "https://x");
}
