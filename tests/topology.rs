use fingerprinting::config::{AgentReferenceConfig, CooperativeTopologyConfig};
use fingerprinting::error::FingerprintError;
use fingerprinting::health::{HealthRegistry, HealthRegistryService};
use fingerprinting::topology::GrpcAgentsTopology;

fn topology() -> GrpcAgentsTopology {
    GrpcAgentsTopology::new(
        3,
        2,
        vec![
            (1, vec!["10.0.0.1:9000".to_string()]),
            (2, vec!["10.0.0.2:9000".to_string(), "10.0.0.3:9000".to_string()]),
        ],
    )
    .unwrap()
}

#[test]
fn topology_rejects_empty_or_repeated_agents() {
    let empty = GrpcAgentsTopology::new(2, 1, vec![(1, vec!["a:1".to_string()]), (2, vec![])]);
    assert_eq!(empty.err(), Some(FingerprintError::ConfigInvalid));
    let twice = GrpcAgentsTopology::new(
        2,
        1,
        vec![(1, vec!["a:1".to_string()]), (2, vec!["b:1".to_string()]), (1, vec!["c:1".to_string()])],
    );
    assert_eq!(twice.err(), Some(FingerprintError::ConfigInvalid));
    assert!(GrpcAgentsTopology::new(2, 1, vec![]).is_ok());
}

#[test]
fn endpoints_are_picked_per_agent() {
    let t = topology();
    assert_eq!(t.count(), 3);
    assert_eq!(t.threshold(), 2);
    assert_eq!(t.endpoint(2, 0).unwrap(), "10.0.0.2:9000");
    assert_eq!(t.endpoint(2, 3).unwrap(), "10.0.0.3:9000");
    assert_eq!(t.endpoint(3, 0), Err(FingerprintError::PeerUnavailable));
    assert_eq!(t.endpoint(0, 0), Err(FingerprintError::PeerUnavailable));
    assert_eq!(t.endpoint(4, 0), Err(FingerprintError::PeerUnavailable));
    let chosen = t.select_endpoint(2).unwrap();
    assert!(chosen == "10.0.0.2:9000" || chosen == "10.0.0.3:9000");
    assert_eq!(t.select_endpoint(1).unwrap(), "10.0.0.1:9000");
    assert_eq!(t.select_endpoint(3), Err(FingerprintError::PeerUnavailable));
    assert_eq!(t.select_endpoint(0), Err(FingerprintError::PeerUnavailable));
}

fn config(agent_id: usize, agents: usize, threshold: usize, members: &[usize]) -> CooperativeTopologyConfig {
    CooperativeTopologyConfig {
        agent_id,
        secret_shard: String::new(),
        agents,
        threshold,
        members: members
            .iter()
            .map(|&i| AgentReferenceConfig { agent_id: i, address: format!("agent-{}:9000", i) })
            .collect(),
    }
}

#[test]
fn cooperative_configuration_is_checked() {
    assert_eq!(config(1, 3, 2, &[2, 3]).validate(), Ok(()));
    assert_eq!(config(2, 3, 3, &[1, 2, 3]).validate(), Ok(()));
    assert_eq!(config(4, 3, 2, &[1, 2, 3]).validate(), Err(FingerprintError::ConfigInvalid));
    assert_eq!(config(0, 3, 2, &[1, 2, 3]).validate(), Err(FingerprintError::ConfigInvalid));
    assert_eq!(config(1, 3, 4, &[2, 3]).validate(), Err(FingerprintError::ConfigInvalid));
    assert_eq!(config(1, 3, 0, &[2, 3]).validate(), Err(FingerprintError::ConfigInvalid));
    assert_eq!(config(1, 3, 2, &[2]).validate(), Err(FingerprintError::ConfigInvalid));
}

#[test]
fn health_registry_reports_registered_services() {
    let mut registry = HealthRegistry::new();
    assert_eq!(registry.check("fingerprint"), None);
    registry.register(HealthRegistryService { name: "fingerprint".to_string() });
    registry.register(HealthRegistryService { name: "agent".to_string() });
    assert_eq!(registry.check("fingerprint"), Some(true));
    assert_eq!(registry.check("agent"), Some(true));
    assert_eq!(registry.check("other"), None);
}
