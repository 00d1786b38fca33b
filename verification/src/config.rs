//! Configuration of the proxy, immutable after startup. Loading it from a
//! file is the application shell's business; the library only consumes the
//! values.

use vstd::prelude::*;

verus! {

/// The single allowed origin attached to every response.
pub struct Cors {
    pub origin: String,
}

/// One gateway endpoint: where rewritten IPFS URLs are sent.
pub struct Host {
    pub protocol: String,
    pub host: String,
    pub port: u16,
    pub path: String,
}

/// The primary IPFS gateway and an optional fallback tried once on
/// transport failure.
pub struct IpfsGatewayConfig {
    pub primary: Host,
    pub fallback: Option<Host>,
}

/// Connection settings of the verdict store.
pub struct DatabaseConfig {
    pub host: String,
    pub port: u16,
    pub username: String,
    pub password: String,
    pub db: String,
    pub pool_max_connections: u32,
    pub pool_idle_connections: u32,
    pub pool_connection_timeout: u64,
}

/// The region the cloud moderation provider runs in.
pub struct AwsConfig {
    pub region: String,
}

/// Which moderation provider to use and its settings.
pub struct ModerationConfig {
    pub provider: crate::moderation::ModerationService,
    pub aws: Option<AwsConfig>,
    pub labels: Vec<String>,
}

/// One API key with its descriptive name; the name labels usage metrics.
pub struct ApiKey {
    pub name: String,
    pub key: String,
}

/// The accepted API keys.
pub struct SecurityConfig {
    pub api_keys: Vec<ApiKey>,
}

/// Which cache implementation backs the document cache.
#[derive(PartialEq, Eq, Structural, Clone, Copy, Debug)]
pub enum CacheType {
    InMemoryCache,
    HybridCache,
    RedisCache,
    DiskCache,
    S3Cache,
    Disabled,
}

/// Settings of the in-memory cache.
pub struct InMemoryCacheConfig {
    pub max_cache_size_mb: u64,
}

/// Cache selection and settings.
pub struct CacheConfig {
    pub cache_type: CacheType,
    pub in_memory_cache_config: Option<InMemoryCacheConfig>,
}

/// Everything the proxy reads at startup.
pub struct Configuration {
    pub ipfs: IpfsGatewayConfig,
    pub cors: Cors,
    pub workers: u16,
    pub bind_address: crate::ipfilter::IpAddress,
    pub port: u16,
    pub timeout: u64,
    pub metrics_enabled: bool,
    pub dashboard_enabled: bool,
    pub max_document_size: Option<u64>,
    pub client_useragent: Option<String>,
    pub security: SecurityConfig,
    pub database: DatabaseConfig,
    pub moderation: ModerationConfig,
    pub cache_config: CacheConfig,
}

/// A megabyte count as bytes, capped at the largest `u64`.
pub open spec fn spec_mb_to_bytes(mb: u64) -> u64 {
    if mb * 1024 * 1024 > u64::MAX {
        u64::MAX
    } else {
        (mb * 1024 * 1024) as u64
    }
}

/// The byte budget of the in-memory cache, from its configured size in
/// megabytes; the cache is absent for every other configuration.
pub fn cache_budget(config: &CacheConfig) -> (r: Option<u64>)
    ensures
        match r {
            Some(bytes) => {
                &&& config.cache_type == CacheType::InMemoryCache
                &&& config.in_memory_cache_config matches Some(c) && bytes == spec_mb_to_bytes(
                    c.max_cache_size_mb,
                )
            },
            None => config.cache_type != CacheType::InMemoryCache
                || config.in_memory_cache_config is None,
        },
{
    match config.cache_type {
        CacheType::InMemoryCache => {
            match &config.in_memory_cache_config {
                Some(c) => {
                    match c.max_cache_size_mb.checked_mul(1048576) {
                        Some(v) => Some(v),
                        Option::None => Some(u64::MAX),
                    }
                },
                Option::None => Option::None,
            }
        },
        _ => Option::None,
    }
}

} // verus!
