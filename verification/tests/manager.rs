use std::sync::Arc;

use tonic::transport::Endpoint;
use tonic_pool::First;
use tonic_pool::ManagerError;
use tonic_pool::RoundRobin;
use tonic_pool::Selector;
use tonic_pool::TonicChannelManager;
use tonic_pool::index_for_count;

#[test]
fn test_choose_first() {
    let endpoints = vec![
        Endpoint::from_static("http://localhost:8080"),
        Endpoint::from_static("http://localhost:8081"),
    ];
    let manager = TonicChannelManager::new(endpoints.clone(), Arc::new(Selector::First(First)));
    assert_eq!(manager.choose_one().uri(), (&endpoints[0]).uri());
    assert_eq!(manager.choose_one().uri(), (&endpoints[0]).uri());
}

#[test]
fn test_choose_round_robin() {
    let endpoints = vec![
        Endpoint::from_static("http://localhost:8080"),
        Endpoint::from_static("http://localhost:8081"),
    ];
    let manager = TonicChannelManager::new_round_robin(endpoints.clone());
    assert_eq!(manager.choose_one().uri(), (&endpoints[0]).uri());
    assert_eq!(manager.choose_one().uri(), (&endpoints[1]).uri());
    assert_eq!(manager.choose_one().uri(), (&endpoints[0]).uri());
    assert_eq!(manager.choose_one().uri(), (&endpoints[1]).uri());
}

#[test]
fn round_robin_full_cycle_then_wrap() {
    let endpoints = vec![
        Endpoint::from_static("http://localhost:8080"),
        Endpoint::from_static("http://localhost:8081"),
        Endpoint::from_static("http://localhost:8082"),
    ];
    let manager = TonicChannelManager::new_round_robin(endpoints.clone());
    assert_eq!(manager.choose_one().uri(), (&endpoints[0]).uri());
    assert_eq!(manager.choose_one().uri(), (&endpoints[1]).uri());
    assert_eq!(manager.choose_one().uri(), (&endpoints[2]).uri());
    assert_eq!(manager.choose_one().uri(), (&endpoints[0]).uri());
}

#[test]
fn round_robin_single_endpoint_always_same() {
    let endpoints = vec![Endpoint::from_static("http://localhost:8080")];
    let manager = TonicChannelManager::new_round_robin(endpoints.clone());
    for _ in 0..5 {
        assert_eq!(manager.choose_one().uri(), (&endpoints[0]).uri());
    }
}

#[test]
fn first_ignores_call_count() {
    let endpoints = vec![
        Endpoint::from_static("http://localhost:8080"),
        Endpoint::from_static("http://localhost:8081"),
        Endpoint::from_static("http://localhost:8082"),
    ];
    let manager = TonicChannelManager::new(endpoints.clone(), Arc::new(Selector::First(First)));
    for _ in 0..7 {
        assert_eq!(manager.choose_one().uri(), (&endpoints[0]).uri());
    }
}

#[test]
fn explicit_round_robin_selector_rotates() {
    let endpoints = vec![
        Endpoint::from_static("http://localhost:8080"),
        Endpoint::from_static("http://localhost:8081"),
    ];
    let manager = TonicChannelManager::new(
        endpoints.clone(),
        Arc::new(Selector::RoundRobin(RoundRobin::new())),
    );
    assert_eq!(manager.choose_one().uri(), (&endpoints[0]).uri());
    assert_eq!(manager.choose_one().uri(), (&endpoints[1]).uri());
    assert_eq!(manager.choose_one().uri(), (&endpoints[0]).uri());
}

#[test]
fn new_single_always_targets_its_endpoint() {
    let endpoint = Endpoint::from_static("http://localhost:8080");
    let manager = TonicChannelManager::new_single(endpoint.clone());
    assert_eq!(manager.endpoint_count(), 1);
    assert_eq!(manager.choose_one().uri(), endpoint.uri());
    assert_eq!(manager.choose_one().uri(), endpoint.uri());
    assert_eq!(manager.choose_one().uri(), endpoint.uri());
}

#[test]
fn from_static_single_parses_and_installs_first() {
    let manager = TonicChannelManager::from_static_single("http://localhost:8080");
    assert_eq!(manager.endpoint_count(), 1);
    let uri = manager.choose_one().uri().to_owned();
    assert_eq!(manager.choose_one().uri(), &uri);
}

#[test]
fn try_from_static_single_accepts_well_formed() {
    let manager = TonicChannelManager::try_from_static_single("http://localhost:8080");
    assert!(manager.is_some());
    assert_eq!(manager.unwrap().endpoint_count(), 1);
}

#[test]
fn try_from_static_single_rejects_malformed() {
    let manager = TonicChannelManager::try_from_static_single("not a valid uri");
    assert!(manager.is_none());
}

#[test]
fn from_shared_single_accepts_well_formed() {
    let manager = TonicChannelManager::from_shared_single("http://localhost:8080");
    assert!(manager.is_ok());
    let manager = manager.unwrap();
    assert_eq!(manager.endpoint_count(), 1);
    let expected = Endpoint::from_static("http://localhost:8080");
    assert_eq!(manager.choose_one().uri(), expected.uri());
}

#[test]
fn from_shared_single_rejects_malformed() {
    let manager = TonicChannelManager::from_shared_single("not a valid uri");
    assert!(matches!(manager, Err(ManagerError::DescriptorParse(_))));
}

#[test]
fn has_broken_always_reports_usable() {
    let rt = tokio::runtime::Builder::new_current_thread()
        .enable_all()
        .build()
        .unwrap();
    let _guard = rt.enter();
    let manager = TonicChannelManager::from_static_single("http://localhost:8080");
    let mut channel = Endpoint::from_static("http://localhost:8080").connect_lazy();
    assert!(!manager.has_broken(&mut channel));
    assert!(!manager.has_broken(&mut channel));
}

#[test]
fn dialing_unreachable_endpoint_surfaces_error() {
    let rt = tokio::runtime::Builder::new_current_thread()
        .enable_all()
        .build()
        .unwrap();
    let manager = TonicChannelManager::from_static_single("http://127.0.0.1:1");
    let dialed = rt.block_on(manager.choose_one().connect());
    assert!(dialed.is_err());
}

#[test]
fn index_for_count_takes_residue() {
    assert_eq!(index_for_count(0, 3), 0);
    assert_eq!(index_for_count(1, 3), 1);
    assert_eq!(index_for_count(2, 3), 2);
    assert_eq!(index_for_count(3, 3), 0);
    assert_eq!(index_for_count(5, 3), 2);
    assert_eq!(index_for_count(u32::MAX, 2), 1);
    assert_eq!(index_for_count(7, 1), 0);
}
