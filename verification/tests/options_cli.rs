use engram::cli::Commands;
use engram::error::Error;
use engram::lifecycle::{ComponentState, Instance};
use engram::options::{kv_store_dir, Mode, Options, TlsMode, TlsOption, TopLevelOptions};
use engram::subcmd::repl::REPL;
use engram::subcmd::standalone::{Standalone, StandaloneOptions};

fn bare_standalone() -> Standalone {
    Standalone {
        http_addr: None,
        rpc_addr: None,
        mysql_addr: None,
        postgres_addr: None,
        opentsdb_addr: None,
        influxdb_enable: false,
        config_file: None,
        enable_memory_catalog: false,
        tls_mode: None,
        tls_cert_path: None,
        tls_key_path: None,
        user_provider: None,
    }
}

#[test]
fn defaults_describe_a_local_standalone_process() {
    let opts = StandaloneOptions::default();
    assert_eq!(opts.mode, Mode::Standalone);
    assert!(opts.enable_telemetry);
    assert_eq!(opts.http_options.addr, "127.0.0.1:4000");
    assert_eq!(opts.grpc_options.addr, "127.0.0.1:4001");
    assert_eq!(opts.mysql_options.addr, "127.0.0.1:4002");
    assert_eq!(opts.mysql_options.tls, TlsOption::default());
    assert_eq!(opts.postgres_options.addr, "127.0.0.1:4003");
    assert_eq!(opts.postgres_options.tls, TlsOption::default());
    assert_eq!(opts.opentsdb_options.addr, "127.0.0.1:4242");
    assert!(opts.influxdb_options.enable);
    assert_eq!(opts.logging.dir, "./logs");
    assert_eq!(opts.logging.level, None);
}

#[test]
fn command_line_flags_override_the_base_field_by_field() {
    let mut cmd = bare_standalone();
    cmd.http_addr = Some("0.0.0.0:8080".to_string());
    cmd.mysql_addr = Some("0.0.0.0:3306".to_string());
    cmd.tls_mode = Some(TlsMode::Require);
    cmd.tls_cert_path = Some("/certs/server.crt".to_string());
    cmd.influxdb_enable = true;

    let top = TopLevelOptions { log_dir: Some("/var/log/engram".to_string()), log_level: None };
    let options = cmd.load_options(top, StandaloneOptions::default()).unwrap();
    let m = match options {
        Options::Standalone(m) => m,
        other => panic!("expected standalone options, got {:?}", other),
    };
    assert_eq!(m.fe_opts.http.addr, "0.0.0.0:8080");
    assert_eq!(m.fe_opts.grpc.addr, "127.0.0.1:4001"); // untouched base value
    assert_eq!(m.fe_opts.mysql.addr, "0.0.0.0:3306");
    assert_eq!(m.fe_opts.mysql.tls.mode, TlsMode::Require);
    assert_eq!(m.fe_opts.mysql.tls.cert_path, "/certs/server.crt");
    // No postgres override, so its TLS stays the base's.
    assert_eq!(m.fe_opts.postgres.tls.mode, TlsMode::Disable);
    assert!(m.fe_opts.influxdb.enable);
    assert_eq!(m.fe_opts.meta_client, None);
    assert_eq!(m.logging_opts.dir, "/var/log/engram");
    assert_eq!(m.fe_opts.logging, m.logging_opts);
    assert_eq!(m.dn_opts.node_id, Some(0));
    assert_eq!(m.dn_opts.rpc_addr, "127.0.0.1:3001");
    assert_eq!(m.data_home, "./data");
}

#[test]
fn the_datanode_reserved_address_is_rejected() {
    let mut cmd = bare_standalone();
    cmd.rpc_addr = Some("127.0.0.1:3001".to_string());
    let err = cmd
        .load_options(TopLevelOptions::default(), StandaloneOptions::default())
        .unwrap_err();
    assert_eq!(
        err,
        Error::IllegalConfig {
            msg: "gRPC listen address conflicts with datanode reserved gRPC addr: 127.0.0.1:3001"
                .to_string()
        }
    );
}

#[test]
fn any_other_rpc_address_is_accepted() {
    let mut cmd = bare_standalone();
    cmd.rpc_addr = Some("127.0.0.1:5001".to_string());
    let options = cmd
        .load_options(TopLevelOptions::default(), StandaloneOptions::default())
        .unwrap();
    match options {
        Options::Standalone(m) => assert_eq!(m.fe_opts.grpc.addr, "127.0.0.1:5001"),
        other => panic!("expected standalone options, got {:?}", other),
    }
}

#[test]
fn repl_options_are_logging_only() {
    let repl = REPL { grpc_addr: "127.0.0.1:4001".to_string(), meta_addr: None, disable_helper: false };
    let top = TopLevelOptions {
        log_dir: Some("/tmp/logs".to_string()),
        log_level: Some("debug".to_string()),
    };
    match repl.load_options(top).unwrap() {
        Options::Cli(l) => {
            assert_eq!(l.dir, "/tmp/logs");
            assert_eq!(l.level, Some("debug".to_string()));
        }
        other => panic!("expected logging-only options, got {:?}", other),
    }
}

#[test]
fn each_subcommand_resolves_its_own_options() {
    let standalone = Commands::Standalone(bare_standalone());
    assert!(matches!(
        standalone.load_options(StandaloneOptions::default()).unwrap(),
        Options::Standalone(_)
    ));
    let repl = Commands::REPL(REPL {
        grpc_addr: "127.0.0.1:4001".to_string(),
        meta_addr: None,
        disable_helper: true,
    });
    assert!(matches!(repl.load_options(StandaloneOptions::default()).unwrap(), Options::Cli(_)));
}

#[test]
fn unset_tls_flags_resolve_to_disabled() {
    let tls = TlsOption::new(None, None, None);
    assert_eq!(tls.mode, TlsMode::Disable);
    assert_eq!(tls.cert_path, "");
    assert_eq!(tls.key_path, "");
}

#[test]
fn the_metadata_store_lives_under_the_data_home() {
    assert_eq!(kv_store_dir("./data"), "./data/kv_store");
}

#[test]
fn the_instance_starts_and_stops_in_order() {
    let mut instance = Instance::new();
    instance.start_datanode();
    assert_eq!(instance.datanode, ComponentState::Started);
    assert_eq!(instance.frontend, ComponentState::Stopped);
    instance.start_frontend();
    assert_eq!(instance.frontend, ComponentState::Started);
    instance.stop();
    assert_eq!(instance.datanode, ComponentState::Stopped);
    assert_eq!(instance.frontend, ComponentState::Stopped);
}
