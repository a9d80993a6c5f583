use vstd::prelude::*;

use crate::endpoint::{parse_url, parsed_url};
use crate::primitives::{Address, Uint256};

verus! {

/// The number of blocks scanned at once when none is configured.
pub fn window_size() -> (res: u64)
    ensures
        res == 5000,
{
    5000
}

/// The requests per second allowed to a provider when none is configured.
pub fn provider_throttle() -> (res: u32)
    ensures
        res == 150,
{
    150
}

/// Why a configuration could not be built.
#[derive(Debug)]
pub enum ConfigError {
    /// The RPC endpoint of a provider is not a URL.
    InvalidRpcEndpoint(url::ParseError),
}

/// How to reach a chain's node.
pub struct ProviderConfig {
    /// The serialization of the parsed Ethereum RPC endpoint.
    pub rpc_endpoint: String,
    pub throttle: u32,
}

/// Where the canonical World ID tree lives on layer 1.
pub struct TreeConfig {
    pub address: Address,
    pub window_size: u64,
    pub creation_block: u64,
    pub provider: ProviderConfig,
}

/// One target chain: the state bridge on layer 1 that relays to it, the
/// bridged World ID on the target chain, and how often to relay.
pub struct StateBridgeConfig {
    pub state_bridge: Address,
    pub bridged_world_id: Address,
    pub window_size: u64,
    pub provider: ProviderConfig,
    pub relaying_period_seconds: u64,
}

/// Where metrics are sent.
pub struct MetricsConfig {
    pub host: String,
    pub port: u16,
    pub queue_size: usize,
    pub buffer_size: usize,
    pub prefix: String,
}

/// Logging, tracing and metrics settings.
pub struct TelemetryConfig {
    /// Service name, used for logging, metrics and tracing.
    pub service_name: String,
    pub traces_endpoint: Option<String>,
    pub metrics: Option<MetricsConfig>,
}

/// The whole service configuration.
pub struct ServiceConfig {
    pub canonical_tree: TreeConfig,
    pub state_bridge: Vec<StateBridgeConfig>,
    pub telemetry: Option<TelemetryConfig>,
    pub max_gas_price: Option<Uint256>,
}

impl ProviderConfig {
    /// Builds a provider setting from its written fields: the endpoint must
    /// parse as a URL, and a missing throttle takes the default.
    pub fn from_fields(rpc_endpoint: &str, throttle: Option<u32>) -> (res: Result<
        ProviderConfig,
        ConfigError,
    >)
        ensures
            parsed_url(rpc_endpoint@) is None <==> res is Err,
            parsed_url(rpc_endpoint@) matches Some(url) ==> res matches Ok(p) && p.rpc_endpoint@
                == url && p.throttle == (match throttle {
                Some(t) => t,
                None => 150,
            }),
    {
        match parse_url(rpc_endpoint) {
            Ok(url) => {
                let throttle = match throttle {
                    Some(t) => t,
                    None => provider_throttle(),
                };
                Ok(ProviderConfig { rpc_endpoint: url, throttle })
            },
            Err(e) => Err(ConfigError::InvalidRpcEndpoint(e)),
        }
    }
}

impl TreeConfig {
    /// Builds the tree setting from its written fields: a missing window size
    /// takes the default, a missing creation block is block zero.
    pub fn from_fields(
        address: Address,
        window_size: Option<u64>,
        creation_block: Option<u64>,
        provider: ProviderConfig,
    ) -> (res: TreeConfig)
        ensures
            res.address == address,
            res.window_size == (match window_size {
                Some(w) => w,
                None => 5000,
            }),
            res.creation_block == (match creation_block {
                Some(b) => b,
                None => 0,
            }),
            res.provider == provider,
    {
        let window_size = match window_size {
            Some(w) => w,
            None => self::window_size(),
        };
        let creation_block = match creation_block {
            Some(b) => b,
            None => 0,
        };
        TreeConfig { address, window_size, creation_block, provider }
    }
}

impl StateBridgeConfig {
    /// Builds a bridge setting from its written fields: a missing window size
    /// takes the default, a missing relaying period is zero seconds.
    pub fn from_fields(
        state_bridge: Address,
        bridged_world_id: Address,
        window_size: Option<u64>,
        provider: ProviderConfig,
        relaying_period_seconds: Option<u64>,
    ) -> (res: StateBridgeConfig)
        ensures
            res.state_bridge == state_bridge,
            res.bridged_world_id == bridged_world_id,
            res.window_size == (match window_size {
                Some(w) => w,
                None => 5000,
            }),
            res.provider == provider,
            res.relaying_period_seconds == (match relaying_period_seconds {
                Some(s) => s,
                None => 0,
            }),
    {
        let window_size = match window_size {
            Some(w) => w,
            None => self::window_size(),
        };
        let relaying_period_seconds = match relaying_period_seconds {
            Some(s) => s,
            None => 0,
        };
        StateBridgeConfig {
            state_bridge,
            bridged_world_id,
            window_size,
            provider,
            relaying_period_seconds,
        }
    }

    /// The relaying period in nanoseconds, as `Duration::from_secs` makes it.
    pub fn relaying_period(&self) -> (res: u128)
        ensures
            res == self.relaying_period_seconds * 1_000_000_000,
    {
        (self.relaying_period_seconds as u128) * 1_000_000_000
    }
}

impl ServiceConfig {
    /// Builds the service configuration from its written fields: missing
    /// bridges leave the list empty.
    pub fn from_fields(
        canonical_tree: TreeConfig,
        state_bridge: Option<Vec<StateBridgeConfig>>,
        telemetry: Option<TelemetryConfig>,
        max_gas_price: Option<Uint256>,
    ) -> (res: ServiceConfig)
        ensures
            res.canonical_tree == canonical_tree,
            res.state_bridge@ == (match state_bridge {
                Some(v) => v@,
                None => Seq::empty(),
            }),
            res.telemetry == telemetry,
            res.max_gas_price == max_gas_price,
    {
        let state_bridge = match state_bridge {
            Some(v) => v,
            None => Vec::new(),
        };
        ServiceConfig { canonical_tree, state_bridge, telemetry, max_gas_price }
    }
}

} // verus!
