//! Lifecycle tests for the in-memory relayer repository.

use relayer_repository::{
    InMemoryRelayerRepository, NetworkType, RelayerEvmPolicy, RelayerNetworkPolicy,
    RelayerRepoModel, RelayerUpdateRequest, RepositoryError,
};

fn create_test_relayer(id: String) -> RelayerRepoModel {
    RelayerRepoModel {
        id: id.clone(),
        name: format!("Relayer {}", id.clone()),
        network: "TestNet".to_string(),
        paused: false,
        network_type: NetworkType::Evm,
        policies: RelayerNetworkPolicy::Evm(RelayerEvmPolicy {
            gas_price_cap: None,
            whitelist_receivers: None,
            eip1559_pricing: Some(false),
            private_transactions: false,
            min_balance: 0,
            gas_limit_estimation: Some(true),
        }),
        signer_id: "test".to_string(),
        address: "0x".to_string(),
        notification_id: None,
        system_disabled: false,
        custom_rpc_urls: None,
    }
}

#[test]
fn test_new_repository_is_empty() {
    let repo = InMemoryRelayerRepository::new();
    assert_eq!(repo.count().unwrap(), 0);
}

#[test]
fn test_add_relayer() {
    let mut repo = InMemoryRelayerRepository::new();
    let relayer = create_test_relayer("test".to_string());

    repo.create(relayer.clone()).unwrap();
    assert_eq!(repo.count().unwrap(), 1);

    let stored = repo.get_by_id("test".to_string()).unwrap();
    assert_eq!(stored.id, relayer.id);
    assert_eq!(stored.name, relayer.name);
}

#[test]
fn test_update_relayer() {
    let mut repo = InMemoryRelayerRepository::new();
    let mut relayer = create_test_relayer("test".to_string());

    repo.create(relayer.clone()).unwrap();

    relayer.name = "Updated Name".to_string();
    repo.update("test".to_string(), relayer.clone()).unwrap();

    let updated = repo.get_by_id("test".to_string()).unwrap();
    assert_eq!(updated.name, "Updated Name");
}

#[test]
fn test_list_relayers() {
    let mut repo = InMemoryRelayerRepository::new();
    let relayer1 = create_test_relayer("test".to_string());
    let relayer2 = create_test_relayer("test2".to_string());

    repo.create(relayer1.clone()).unwrap();
    repo.create(relayer2).unwrap();

    let relayers = repo.list_all().unwrap();
    assert_eq!(relayers.len(), 2);
}

#[test]
fn test_list_active_relayers() {
    let mut repo = InMemoryRelayerRepository::new();
    let relayer1 = create_test_relayer("test".to_string());
    let mut relayer2 = create_test_relayer("test2".to_string());

    relayer2.paused = true;

    repo.create(relayer1.clone()).unwrap();
    repo.create(relayer2).unwrap();

    let active_relayers = repo.list_active().unwrap();
    assert_eq!(active_relayers.len(), 1);
    assert_eq!(active_relayers[0].id, "test".to_string());
}

#[test]
fn test_update_nonexistent_relayer() {
    let mut repo = InMemoryRelayerRepository::new();
    let relayer = create_test_relayer("test".to_string());

    let result = repo.update("test".to_string(), relayer);
    assert!(matches!(result, Err(RepositoryError::NotFound(_))));
}

#[test]
fn test_get_nonexistent_relayer() {
    let repo = InMemoryRelayerRepository::new();

    let result = repo.get_by_id("test".to_string());
    assert!(matches!(result, Err(RepositoryError::NotFound(_))));
}

#[test]
fn test_partial_update_relayer() {
    let mut repo = InMemoryRelayerRepository::new();

    let relayer_id = "test_relayer".to_string();
    let initial_relayer = create_test_relayer(relayer_id.clone());

    repo.create(initial_relayer.clone()).unwrap();

    let update_req = RelayerUpdateRequest { paused: Some(true) };

    let updated_relayer = repo.partial_update(relayer_id.clone(), update_req).unwrap();

    assert_eq!(updated_relayer.id, initial_relayer.id);
    assert!(updated_relayer.paused);
}

#[test]
fn test_disable_relayer() {
    let mut repo = InMemoryRelayerRepository::new();

    let relayer_id = "test_relayer".to_string();
    let initial_relayer = create_test_relayer(relayer_id.clone());

    repo.create(initial_relayer.clone()).unwrap();

    let disabled_relayer = repo.disable_relayer(relayer_id.clone()).unwrap();

    assert_eq!(disabled_relayer.id, initial_relayer.id);
    assert!(disabled_relayer.system_disabled);
}

#[test]
fn test_enable_relayer() {
    let mut repo = InMemoryRelayerRepository::new();

    let relayer_id = "test_relayer".to_string();
    let mut initial_relayer = create_test_relayer(relayer_id.clone());

    initial_relayer.system_disabled = true;

    repo.create(initial_relayer.clone()).unwrap();

    let enabled_relayer = repo.enable_relayer(relayer_id.clone()).unwrap();

    assert_eq!(enabled_relayer.id, initial_relayer.id);
    assert!(!enabled_relayer.system_disabled);
}

#[test]
fn test_update_policy() {
    let mut repo = InMemoryRelayerRepository::new();
    let relayer = create_test_relayer("test".to_string());

    repo.create(relayer.clone()).unwrap();

    let new_policy = RelayerNetworkPolicy::Evm(RelayerEvmPolicy {
        gas_price_cap: Some(50000000000),
        whitelist_receivers: Some(vec!["0x1234".to_string()]),
        eip1559_pricing: Some(true),
        private_transactions: true,
        min_balance: 1000000,
        gas_limit_estimation: Some(true),
    });

    let updated_relayer = repo
        .update_policy("test".to_string(), new_policy.clone())
        .unwrap();

    match updated_relayer.policies {
        RelayerNetworkPolicy::Evm(policy) => {
            assert_eq!(policy.gas_price_cap, Some(50000000000));
            assert_eq!(policy.whitelist_receivers, Some(vec!["0x1234".to_string()]));
            assert_eq!(policy.eip1559_pricing, Some(true));
            assert!(policy.private_transactions);
            assert_eq!(policy.min_balance, 1000000);
        }
        _ => panic!("Unexpected policy type"),
    }
}

#[test]
fn test_has_entries() {
    let mut repo = InMemoryRelayerRepository::new();
    assert!(!repo.has_entries().unwrap());

    let relayer = create_test_relayer("test".to_string());

    repo.create(relayer.clone()).unwrap();
    assert!(repo.has_entries().unwrap());
}

#[test]
fn test_drop_all_entries() {
    let mut repo = InMemoryRelayerRepository::new();
    let relayer = create_test_relayer("test".to_string());

    repo.create(relayer.clone()).unwrap();

    assert!(repo.has_entries().unwrap());

    repo.drop_all_entries().unwrap();
    assert!(!repo.has_entries().unwrap());
}
