//! The standalone subcommand: one process hosting both roles.
//!
//! Option layering is pure: over a base loaded at the boundary (a file, the
//! environment, or the defaults), the command-line flags override field by
//! field, and the merged options split into what each role consumes. A
//! frontend RPC address that collides with the datanode's reserved address
//! is rejected before anything is started.

use vstd::prelude::*;

use crate::error::Error;
use crate::options::DatanodeOptions;
use crate::options::FrontendOptions;
use crate::options::GrpcOptions;
use crate::options::HttpOptions;
use crate::options::InfluxdbOptions;
use crate::options::KvStoreConfig;
use crate::options::LoggingOptions;
use crate::options::MixOptions;
use crate::options::Mode;
use crate::options::MysqlOptions;
use crate::options::OpentsdbOptions;
use crate::options::Options;
use crate::options::PostgresOptions;
use crate::options::ProcedureConfig;
use crate::options::PromStoreOptions;
use crate::options::StorageConfig;
use crate::options::TlsMode;
use crate::options::TlsOption;
use crate::options::TopLevelOptions;
use crate::options::WalConfig;
use crate::options::default_datanode_rpc_addr;
use crate::options::resolved_path;
use crate::options::resolved_tls_mode;
use vstd::string::StringExecFns;

verus! {

/// Options of a standalone process before they are split by role.
#[derive(Clone, Debug, PartialEq, Eq)]
pub struct StandaloneOptions {
    pub mode: Mode,
    pub enable_telemetry: bool,
    pub http_options: HttpOptions,
    pub grpc_options: GrpcOptions,
    pub mysql_options: MysqlOptions,
    pub postgres_options: PostgresOptions,
    pub opentsdb_options: OpentsdbOptions,
    pub influxdb_options: InfluxdbOptions,
    pub prom_store_options: PromStoreOptions,
    pub wal: WalConfig,
    pub storage: StorageConfig,
    pub kv_store: KvStoreConfig,
    pub procedure: ProcedureConfig,
    pub logging: LoggingOptions,
}

impl Default for StandaloneOptions {
    fn default() -> (r: StandaloneOptions)
        ensures
            r.mode is Standalone,
            r.enable_telemetry,
            r.http_options.addr@ == "127.0.0.1:4000"@,
            r.grpc_options.addr@ == "127.0.0.1:4001"@,
            r.mysql_options.addr@ == "127.0.0.1:4002"@,
            r.mysql_options.tls.mode is Disable,
            r.mysql_options.tls.cert_path@ == Seq::<char>::empty(),
            r.mysql_options.tls.key_path@ == Seq::<char>::empty(),
            r.postgres_options.addr@ == "127.0.0.1:4003"@,
            r.postgres_options.tls.mode is Disable,
            r.postgres_options.tls.cert_path@ == Seq::<char>::empty(),
            r.postgres_options.tls.key_path@ == Seq::<char>::empty(),
            r.opentsdb_options.addr@ == "127.0.0.1:4242"@,
            r.influxdb_options.enable,
            r.prom_store_options.enable,
            r.wal.dir@ == "./wal"@,
            r.storage.data_home@ == "./data"@,
            r.kv_store.file_size_mib == 256,
            r.procedure.max_retry_times == 3,
            r.logging.dir@ == "./logs"@,
            r.logging.level is None,
    {
        StandaloneOptions {
            mode: Mode::Standalone,
            enable_telemetry: true,
            http_options: HttpOptions::default(),
            grpc_options: GrpcOptions::default(),
            mysql_options: MysqlOptions::default(),
            postgres_options: PostgresOptions::default(),
            opentsdb_options: OpentsdbOptions::default(),
            influxdb_options: InfluxdbOptions::default(),
            prom_store_options: PromStoreOptions::default(),
            wal: WalConfig::default(),
            storage: StorageConfig::default(),
            kv_store: KvStoreConfig::default(),
            procedure: ProcedureConfig::default(),
            logging: LoggingOptions::default(),
        }
    }
}

impl StandaloneOptions {
    /// The slice of these options that the frontend role consumes; a
    /// standalone process has no metadata server client.
    pub fn frontend_options(self) -> (r: FrontendOptions)
        ensures
            r.mode == self.mode,
            r.http == self.http_options,
            r.grpc == self.grpc_options,
            r.mysql == self.mysql_options,
            r.postgres == self.postgres_options,
            r.opentsdb == self.opentsdb_options,
            r.influxdb == self.influxdb_options,
            r.prom_store == self.prom_store_options,
            r.meta_client is None,
            r.logging == self.logging,
    {
        FrontendOptions {
            mode: self.mode,
            http: self.http_options,
            grpc: self.grpc_options,
            mysql: self.mysql_options,
            postgres: self.postgres_options,
            opentsdb: self.opentsdb_options,
            influxdb: self.influxdb_options,
            prom_store: self.prom_store_options,
            meta_client: None,
            logging: self.logging,
        }
    }

    /// The slice of these options that the datanode role consumes; the
    /// datanode of a standalone process is node zero on its reserved
    /// address.
    pub fn datanode_options(self) -> (r: DatanodeOptions)
        ensures
            r.node_id == Some(0u64),
            r.enable_telemetry == self.enable_telemetry,
            r.rpc_addr@ == default_datanode_rpc_addr(),
            r.wal == self.wal,
            r.storage == self.storage,
    {
        let defaults = DatanodeOptions::default();
        DatanodeOptions {
            node_id: Some(0),
            enable_telemetry: self.enable_telemetry,
            rpc_addr: defaults.rpc_addr,
            wal: self.wal,
            storage: self.storage,
        }
    }
}

/// The standalone subcommand's flags, as parsed at the boundary.
#[derive(Clone, Debug, PartialEq, Eq)]
pub struct Standalone {
    pub http_addr: Option<String>,
    pub rpc_addr: Option<String>,
    pub mysql_addr: Option<String>,
    pub postgres_addr: Option<String>,
    pub opentsdb_addr: Option<String>,
    pub influxdb_enable: bool,
    pub config_file: Option<String>,
    pub enable_memory_catalog: bool,
    pub tls_mode: Option<TlsMode>,
    pub tls_cert_path: Option<String>,
    pub tls_key_path: Option<String>,
    pub user_provider: Option<String>,
}

/// The address a field holds after an optional override.
pub open spec fn overridden(over: Option<String>, cur: Seq<char>) -> Seq<char> {
    match over {
        Some(a) => a@,
        None => cur,
    }
}

/// A requested frontend RPC address that collides with the datanode's
/// reserved address.
pub open spec fn rpc_addr_conflicts(rpc_addr: Option<String>) -> bool {
    rpc_addr matches Some(a) && a@ == default_datanode_rpc_addr()
}

impl Standalone {
    /// Layers these flags over the given base options and splits the result
    /// by role. Fails, starting nothing, where the requested frontend RPC
    /// address is the datanode's reserved one.
    pub fn load_options(&self, top_level_options: TopLevelOptions, base: StandaloneOptions) -> (r:
        Result<Options, Error>)
        ensures
            r is Err <==> rpc_addr_conflicts(self.rpc_addr),
            r matches Err(e) ==> (e matches Error::IllegalConfig { msg } && msg@
                == "gRPC listen address conflicts with datanode reserved gRPC addr: "@
                + default_datanode_rpc_addr()),
            r matches Ok(o) ==> (o matches Options::Standalone(m) && {
                &&& m.fe_opts.mode is Standalone
                &&& m.fe_opts.http.addr@ == overridden(self.http_addr, base.http_options.addr@)
                &&& m.fe_opts.grpc.addr@ == overridden(self.rpc_addr, base.grpc_options.addr@)
                &&& m.fe_opts.mysql.addr@ == overridden(self.mysql_addr, base.mysql_options.addr@)
                &&& self.mysql_addr is Some ==> {
                    &&& m.fe_opts.mysql.tls.mode == resolved_tls_mode(self.tls_mode)
                    &&& m.fe_opts.mysql.tls.cert_path@ == resolved_path(self.tls_cert_path)
                    &&& m.fe_opts.mysql.tls.key_path@ == resolved_path(self.tls_key_path)
                }
                &&& self.mysql_addr is None ==> m.fe_opts.mysql == base.mysql_options
                &&& m.fe_opts.postgres.addr@ == overridden(
                    self.postgres_addr,
                    base.postgres_options.addr@,
                )
                &&& self.postgres_addr is Some ==> {
                    &&& m.fe_opts.postgres.tls.mode == resolved_tls_mode(self.tls_mode)
                    &&& m.fe_opts.postgres.tls.cert_path@ == resolved_path(self.tls_cert_path)
                    &&& m.fe_opts.postgres.tls.key_path@ == resolved_path(self.tls_key_path)
                }
                &&& self.postgres_addr is None ==> m.fe_opts.postgres == base.postgres_options
                &&& m.fe_opts.opentsdb.addr@ == overridden(
                    self.opentsdb_addr,
                    base.opentsdb_options.addr@,
                )
                &&& self.influxdb_enable ==> m.fe_opts.influxdb.enable
                &&& !self.influxdb_enable ==> m.fe_opts.influxdb == base.influxdb_options
                &&& m.fe_opts.prom_store == base.prom_store_options
                &&& m.fe_opts.meta_client is None
                &&& m.logging_opts.dir@ == overridden(top_level_options.log_dir, base.logging.dir@)
                &&& top_level_options.log_level is Some ==> m.logging_opts.level
                    == top_level_options.log_level
                &&& top_level_options.log_level is None ==> m.logging_opts.level
                    == base.logging.level
                &&& m.fe_opts.logging == m.logging_opts
                &&& m.dn_opts.node_id == Some(0u64)
                &&& m.dn_opts.enable_telemetry == base.enable_telemetry
                &&& m.dn_opts.rpc_addr@ == default_datanode_rpc_addr()
                &&& m.dn_opts.wal == base.wal
                &&& m.dn_opts.storage == base.storage
                &&& m.data_home@ == base.storage.data_home@
                &&& m.kv_store_cfg == base.kv_store
                &&& m.procedure_cfg == base.procedure
            }),
    {
        let mut opts = base;

        opts.mode = Mode::Standalone;

        if let Some(dir) = &top_level_options.log_dir {
            opts.logging.dir = dir.clone();
        }

        if top_level_options.log_level.is_some() {
            opts.logging.level = top_level_options.log_level;
        }

        let tls_opts = TlsOption::new(
            self.tls_mode,
            crate::options::clone_opt_string(&self.tls_cert_path),
            crate::options::clone_opt_string(&self.tls_key_path),
        );

        if let Some(addr) = &self.http_addr {
            opts.http_options.addr = addr.clone();
        }

        if let Some(addr) = &self.rpc_addr {
            // The frontend may not listen where the datanode is reserved to.
            let datanode_grpc_addr = DatanodeOptions::default().rpc_addr;
            if addr.eq(&datanode_grpc_addr) {
                let msg = String::from_str(
                    "gRPC listen address conflicts with datanode reserved gRPC addr: ",
                ).concat(datanode_grpc_addr.as_str());
                return Err(Error::IllegalConfig { msg });
            }
            opts.grpc_options.addr = addr.clone();
        }

        if let Some(addr) = &self.mysql_addr {
            opts.mysql_options.addr = addr.clone();
            opts.mysql_options.tls = tls_opts.clone();
        }

        if let Some(addr) = &self.postgres_addr {
            opts.postgres_options.addr = addr.clone();
            opts.postgres_options.tls = tls_opts;
        }

        if let Some(addr) = &self.opentsdb_addr {
            opts.opentsdb_options.addr = addr.clone();
        }

        if self.influxdb_enable {
            opts.influxdb_options = InfluxdbOptions { enable: true };
        }

        let kv_store_cfg = opts.kv_store;
        let procedure_cfg = opts.procedure;
        let data_home = opts.storage.data_home.clone();
        let level_copy = match &opts.logging.level {
            Some(l) => Some(l.clone()),
            None => None,
        };
        let logging_opts = LoggingOptions { dir: opts.logging.dir.clone(), level: level_copy };
        assert(logging_opts == opts.logging);
        let dn_opts = DatanodeOptions {
            node_id: Some(0),
            enable_telemetry: opts.enable_telemetry,
            rpc_addr: DatanodeOptions::default().rpc_addr,
            wal: opts.wal,
            storage: opts.storage,
        };
        let fe_opts = FrontendOptions {
            mode: opts.mode,
            http: opts.http_options,
            grpc: opts.grpc_options,
            mysql: opts.mysql_options,
            postgres: opts.postgres_options,
            opentsdb: opts.opentsdb_options,
            influxdb: opts.influxdb_options,
            prom_store: opts.prom_store_options,
            meta_client: None,
            logging: opts.logging,
        };

        Ok(
            Options::Standalone(
                Box::new(
                    MixOptions {
                        procedure_cfg,
                        kv_store_cfg,
                        data_home,
                        fe_opts,
                        dn_opts,
                        logging_opts,
                    },
                ),
            ),
        )
    }
}

} // verus!
