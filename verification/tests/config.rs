use state_bridge_relay::config::{
    provider_throttle, window_size, ConfigError, ProviderConfig, ServiceConfig, StateBridgeConfig,
    TreeConfig,
};
use state_bridge_relay::primitives::Uint256;

fn provider() -> ProviderConfig {
    ProviderConfig::from_fields("http://localhost:8545", Some(10)).unwrap()
}

#[test]
fn window_size_default_is_5000() {
    assert_eq!(window_size(), 5000);
}

#[test]
fn provider_throttle_default_is_150() {
    assert_eq!(provider_throttle(), 150);
}

#[test]
fn provider_config_takes_default_throttle() {
    let p = ProviderConfig::from_fields("http://localhost:8545", None).unwrap();
    assert_eq!(p.throttle, 150);
    assert_eq!(p.rpc_endpoint, "http://localhost:8545/");
}

#[test]
fn provider_config_keeps_written_throttle() {
    let p = ProviderConfig::from_fields("https://rpc.example.org/v1", Some(7)).unwrap();
    assert_eq!(p.throttle, 7);
    assert_eq!(p.rpc_endpoint, "https://rpc.example.org/v1");
}

#[test]
fn provider_config_refuses_non_url() {
    let p = ProviderConfig::from_fields("not a url", None);
    assert!(matches!(
        p,
        Err(ConfigError::InvalidRpcEndpoint(url::ParseError::RelativeUrlWithoutBase))
    ));
}

#[test]
fn tree_config_defaults() {
    let t = TreeConfig::from_fields([9u8; 20], None, None, provider());
    assert_eq!(t.address, [9u8; 20]);
    assert_eq!(t.window_size, 5000);
    assert_eq!(t.creation_block, 0);
    assert_eq!(t.provider.throttle, 10);
    let t = TreeConfig::from_fields([9u8; 20], Some(100), Some(17), provider());
    assert_eq!(t.window_size, 100);
    assert_eq!(t.creation_block, 17);
}

#[test]
fn state_bridge_config_defaults() {
    let b = StateBridgeConfig::from_fields([1u8; 20], [2u8; 20], None, provider(), None);
    assert_eq!(b.state_bridge, [1u8; 20]);
    assert_eq!(b.bridged_world_id, [2u8; 20]);
    assert_eq!(b.window_size, 5000);
    assert_eq!(b.relaying_period_seconds, 0);
    assert_eq!(b.relaying_period(), 0);
}

#[test]
fn relaying_period_is_in_nanoseconds() {
    let b = StateBridgeConfig::from_fields([1u8; 20], [2u8; 20], Some(1), provider(), Some(5));
    assert_eq!(b.relaying_period(), 5_000_000_000);
    let b = StateBridgeConfig::from_fields([1u8; 20], [2u8; 20], None, provider(), Some(u64::MAX));
    assert_eq!(b.relaying_period(), (u64::MAX as u128) * 1_000_000_000);
}

#[test]
fn service_config_without_bridges_has_none() {
    let tree = TreeConfig::from_fields([9u8; 20], None, None, provider());
    let c = ServiceConfig::from_fields(tree, None, None, None);
    assert!(c.state_bridge.is_empty());
    assert!(c.telemetry.is_none());
    assert!(c.max_gas_price.is_none());
}

#[test]
fn service_config_keeps_bridges_and_gas_price() {
    let tree = TreeConfig::from_fields([9u8; 20], None, None, provider());
    let b = StateBridgeConfig::from_fields([1u8; 20], [2u8; 20], None, provider(), Some(3));
    let c = ServiceConfig::from_fields(
        tree,
        Some(vec![b]),
        None,
        Some(Uint256 { limbs: [1_000_000_000, 0, 0, 0] }),
    );
    assert_eq!(c.state_bridge.len(), 1);
    assert_eq!(c.state_bridge[0].relaying_period_seconds, 3);
    assert_eq!(c.max_gas_price.unwrap().limbs, [1_000_000_000, 0, 0, 0]);
}
