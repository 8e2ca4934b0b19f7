//! Configuration model of the process around the serving core.
//!
//! These types carry what the option-layering logic reads and merges:
//! listen addresses, TLS settings, storage locations and logging. Loading
//! them from files or the environment is the boundary's business; the
//! merging of command-line overrides over a loaded base is pure and lives
//! here.

use vstd::prelude::*;

use vstd::string::StringExecFns;

verus! {

/// Whether the process serves alone or as part of a cluster.
#[derive(Clone, Copy, Debug, PartialEq, Eq, Structural)]
pub enum Mode {
    Standalone,
    Distributed,
}

/// How a protocol server applies TLS.
#[derive(Clone, Copy, Debug, PartialEq, Eq, Structural)]
pub enum TlsMode {
    Disable,
    Prefer,
    Require,
}

/// TLS settings of one protocol server.
#[derive(Debug, PartialEq, Eq)]
pub struct TlsOption {
    pub mode: TlsMode,
    pub cert_path: String,
    pub key_path: String,
}

impl Clone for TlsOption {
    fn clone(&self) -> (r: TlsOption)
        ensures
            r == *self,
    {
        TlsOption {
            mode: self.mode,
            cert_path: self.cert_path.clone(),
            key_path: self.key_path.clone(),
        }
    }
}

/// The TLS mode an optional setting resolves to: disabled where unset.
pub open spec fn resolved_tls_mode(mode: Option<TlsMode>) -> TlsMode {
    match mode {
        Some(m) => m,
        None => TlsMode::Disable,
    }
}

/// The path an optional setting resolves to: empty where unset.
pub open spec fn resolved_path(path: Option<String>) -> Seq<char> {
    match path {
        Some(p) => p@,
        None => Seq::empty(),
    }
}

impl TlsOption {
    /// TLS settings from optional command-line values; what is unset
    /// resolves to its default.
    pub fn new(mode: Option<TlsMode>, cert_path: Option<String>, key_path: Option<String>) -> (r:
        TlsOption)
        ensures
            r.mode == resolved_tls_mode(mode),
            r.cert_path@ == resolved_path(cert_path),
            r.key_path@ == resolved_path(key_path),
    {
        let m = match mode {
            Some(m) => m,
            None => TlsMode::Disable,
        };
        let cert = match cert_path {
            Some(p) => p,
            None => String::new(),
        };
        let key = match key_path {
            Some(p) => p,
            None => String::new(),
        };
        TlsOption { mode: m, cert_path: cert, key_path: key }
    }
}

impl Default for TlsOption {
    fn default() -> (r: TlsOption)
        ensures
            r.mode is Disable,
            r.cert_path@ == Seq::<char>::empty(),
            r.key_path@ == Seq::<char>::empty(),
    {
        TlsOption { mode: TlsMode::Disable, cert_path: String::new(), key_path: String::new() }
    }
}

/// HTTP server settings.
#[derive(Clone, Debug, PartialEq, Eq)]
pub struct HttpOptions {
    pub addr: String,
}

impl Default for HttpOptions {
    fn default() -> (r: HttpOptions)
        ensures
            r.addr@ == "127.0.0.1:4000"@,
    {
        HttpOptions { addr: String::from_str("127.0.0.1:4000") }
    }
}

/// Frontend RPC server settings.
#[derive(Clone, Debug, PartialEq, Eq)]
pub struct GrpcOptions {
    pub addr: String,
}

impl Default for GrpcOptions {
    fn default() -> (r: GrpcOptions)
        ensures
            r.addr@ == "127.0.0.1:4001"@,
    {
        GrpcOptions { addr: String::from_str("127.0.0.1:4001") }
    }
}

/// MySQL protocol server settings.
#[derive(Clone, Debug, PartialEq, Eq)]
pub struct MysqlOptions {
    pub addr: String,
    pub tls: TlsOption,
}

impl Default for MysqlOptions {
    fn default() -> (r: MysqlOptions)
        ensures
            r.addr@ == "127.0.0.1:4002"@,
            r.tls.mode is Disable,
            r.tls.cert_path@ == Seq::<char>::empty(),
            r.tls.key_path@ == Seq::<char>::empty(),
    {
        MysqlOptions { addr: String::from_str("127.0.0.1:4002"), tls: TlsOption::default() }
    }
}

/// PostgreSQL protocol server settings.
#[derive(Clone, Debug, PartialEq, Eq)]
pub struct PostgresOptions {
    pub addr: String,
    pub tls: TlsOption,
}

impl Default for PostgresOptions {
    fn default() -> (r: PostgresOptions)
        ensures
            r.addr@ == "127.0.0.1:4003"@,
            r.tls.mode is Disable,
            r.tls.cert_path@ == Seq::<char>::empty(),
            r.tls.key_path@ == Seq::<char>::empty(),
    {
        PostgresOptions { addr: String::from_str("127.0.0.1:4003"), tls: TlsOption::default() }
    }
}

/// Line-protocol (telnet dialect) server settings.
#[derive(Clone, Debug, PartialEq, Eq)]
pub struct OpentsdbOptions {
    pub addr: String,
}

impl Default for OpentsdbOptions {
    fn default() -> (r: OpentsdbOptions)
        ensures
            r.addr@ == "127.0.0.1:4242"@,
    {
        OpentsdbOptions { addr: String::from_str("127.0.0.1:4242") }
    }
}

/// Line-protocol (HTTP dialect) settings.
#[derive(Clone, Copy, Debug, PartialEq, Eq, Structural)]
pub struct InfluxdbOptions {
    pub enable: bool,
}

impl Default for InfluxdbOptions {
    fn default() -> (r: InfluxdbOptions)
        ensures
            r.enable,
    {
        InfluxdbOptions { enable: true }
    }
}

/// Metric store protocol settings.
#[derive(Clone, Copy, Debug, PartialEq, Eq, Structural)]
pub struct PromStoreOptions {
    pub enable: bool,
}

impl Default for PromStoreOptions {
    fn default() -> (r: PromStoreOptions)
        ensures
            r.enable,
    {
        PromStoreOptions { enable: true }
    }
}

/// Write-ahead log settings.
#[derive(Clone, Debug, PartialEq, Eq)]
pub struct WalConfig {
    pub dir: String,
}

impl Default for WalConfig {
    fn default() -> (r: WalConfig)
        ensures
            r.dir@ == "./wal"@,
    {
        WalConfig { dir: String::from_str("./wal") }
    }
}

/// Storage settings; `data_home` roots everything the process persists.
#[derive(Clone, Debug, PartialEq, Eq)]
pub struct StorageConfig {
    pub data_home: String,
}

impl Default for StorageConfig {
    fn default() -> (r: StorageConfig)
        ensures
            r.data_home@ == "./data"@,
    {
        StorageConfig { data_home: String::from_str("./data") }
    }
}

/// Metadata store settings.
#[derive(Clone, Copy, Debug, PartialEq, Eq, Structural)]
pub struct KvStoreConfig {
    pub file_size_mib: u64,
}

impl Default for KvStoreConfig {
    fn default() -> (r: KvStoreConfig)
        ensures
            r.file_size_mib == 256,
    {
        KvStoreConfig { file_size_mib: 256 }
    }
}

/// Procedure manager settings.
#[derive(Clone, Copy, Debug, PartialEq, Eq, Structural)]
pub struct ProcedureConfig {
    pub max_retry_times: u32,
}

impl Default for ProcedureConfig {
    fn default() -> (r: ProcedureConfig)
        ensures
            r.max_retry_times == 3,
    {
        ProcedureConfig { max_retry_times: 3 }
    }
}

/// Logging settings.
#[derive(Clone, Debug, PartialEq, Eq)]
pub struct LoggingOptions {
    pub dir: String,
    pub level: Option<String>,
}

impl Default for LoggingOptions {
    fn default() -> (r: LoggingOptions)
        ensures
            r.dir@ == "./logs"@,
            r.level is None,
    {
        LoggingOptions { dir: String::from_str("./logs"), level: None }
    }
}

/// Metadata server client settings, present only in distributed mode.
#[derive(Clone, Debug, PartialEq, Eq)]
pub struct MetaClientOptions {
    pub addr: String,
}

/// Options that the frontend role consumes.
#[derive(Clone, Debug, PartialEq, Eq)]
pub struct FrontendOptions {
    pub mode: Mode,
    pub http: HttpOptions,
    pub grpc: GrpcOptions,
    pub mysql: MysqlOptions,
    pub postgres: PostgresOptions,
    pub opentsdb: OpentsdbOptions,
    pub influxdb: InfluxdbOptions,
    pub prom_store: PromStoreOptions,
    pub meta_client: Option<MetaClientOptions>,
    pub logging: LoggingOptions,
}

/// The datanode's reserved RPC listen address.
pub open spec fn default_datanode_rpc_addr() -> Seq<char> {
    "127.0.0.1:3001"@
}

/// Options that the datanode role consumes.
#[derive(Clone, Debug, PartialEq, Eq)]
pub struct DatanodeOptions {
    pub node_id: Option<u64>,
    pub enable_telemetry: bool,
    pub rpc_addr: String,
    pub wal: WalConfig,
    pub storage: StorageConfig,
}

impl Default for DatanodeOptions {
    fn default() -> (r: DatanodeOptions)
        ensures
            r.node_id is None,
            r.enable_telemetry,
            r.rpc_addr@ == default_datanode_rpc_addr(),
            r.wal.dir@ == "./wal"@,
            r.storage.data_home@ == "./data"@,
    {
        DatanodeOptions {
            node_id: None,
            enable_telemetry: true,
            rpc_addr: String::from_str("127.0.0.1:3001"),
            wal: WalConfig::default(),
            storage: StorageConfig::default(),
        }
    }
}

/// Everything a standalone process needs: options for both roles it hosts,
/// plus the stores and logging they share.
#[derive(Clone, Debug, PartialEq, Eq)]
pub struct MixOptions {
    pub procedure_cfg: ProcedureConfig,
    pub kv_store_cfg: KvStoreConfig,
    pub data_home: String,
    pub fe_opts: FrontendOptions,
    pub dn_opts: DatanodeOptions,
    pub logging_opts: LoggingOptions,
}

/// Resolved options of one invocation.
#[derive(Clone, Debug, PartialEq, Eq)]
pub enum Options {
    Standalone(Box<MixOptions>),
    Cli(Box<LoggingOptions>),
}

/// Overrides applied on top of every subcommand's own options.
#[derive(Clone, Debug, PartialEq, Eq)]
pub struct TopLevelOptions {
    pub log_dir: Option<String>,
    pub log_level: Option<String>,
}

impl Default for TopLevelOptions {
    fn default() -> (r: TopLevelOptions)
        ensures
            r.log_dir is None,
            r.log_level is None,
    {
        TopLevelOptions { log_dir: None, log_level: None }
    }
}

/// A copy of an optional string, equal to the original.
pub fn clone_opt_string(s: &Option<String>) -> (r: Option<String>)
    ensures
        r == *s,
{
    match s {
        Some(p) => Some(p.clone()),
        None => None,
    }
}

/// Where the metadata store lives under the data home.
pub fn kv_store_dir(data_home: &str) -> (r: String)
    ensures
        r@ == data_home@ + "/kv_store"@,
{
    String::from_str(data_home).concat("/kv_store")
}

} // verus!
