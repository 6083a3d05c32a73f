use databend::config::Config;
use databend::config::ConfigViaEnv;
use databend::config::RaftConfig;
use databend::config::RaftConfigViaEnv;
use databend::error::MetaError;
use databend::inner::Config as InnerConfig;
use databend::inner::RaftConfig as InnerRaftConfig;

fn sample_raft_config() -> RaftConfig {
    RaftConfig {
        config_id: "c1".to_string(),
        raft_listen_host: "0.0.0.0".to_string(),
        raft_advertise_host: "node1".to_string(),
        raft_api_port: 29004,
        raft_dir: "/var/meta".to_string(),
        no_sync: true,
        snapshot_logs_since_last: 7,
        heartbeat_interval: 8,
        install_snapshot_timeout: 9,
        max_applied_log_to_keep: 10,
        single: false,
        join: vec!["127.0.0.1:28103".to_string(), "127.0.0.1:28203".to_string()],
        id: 3,
        sled_tree_prefix: "t_".to_string(),
    }
}

fn sample_config() -> Config {
    Config {
        config_file: "meta.toml".to_string(),
        log_level: "DEBUG".to_string(),
        log_dir: "/var/log".to_string(),
        metric_api_address: "0.0.0.0:1".to_string(),
        admin_api_address: "0.0.0.0:2".to_string(),
        admin_tls_server_cert: "a.cert".to_string(),
        admin_tls_server_key: "a.key".to_string(),
        grpc_api_address: "0.0.0.0:3".to_string(),
        grpc_tls_server_cert: "g.cert".to_string(),
        grpc_tls_server_key: "g.key".to_string(),
        raft_config: sample_raft_config(),
    }
}

#[test]
fn test_raft_config_default() {
    let c = RaftConfig::default();
    assert_eq!(c.config_id, "");
    assert_eq!(c.raft_listen_host, "127.0.0.1");
    assert_eq!(c.raft_advertise_host, "localhost");
    assert_eq!(c.raft_api_port, 28004);
    assert_eq!(c.raft_dir, "./.databend/meta");
    assert!(!c.no_sync);
    assert_eq!(c.snapshot_logs_since_last, 1024);
    assert_eq!(c.heartbeat_interval, 1000);
    assert_eq!(c.install_snapshot_timeout, 4000);
    assert_eq!(c.max_applied_log_to_keep, 1000);
    assert!(!c.single);
    assert!(c.join.is_empty());
    assert_eq!(c.id, 0);
    assert_eq!(c.sled_tree_prefix, "");
}

#[test]
fn test_config_default() {
    let c = Config::default();
    assert_eq!(c.config_file, "");
    assert_eq!(c.log_level, "INFO");
    assert_eq!(c.log_dir, "./.databend/logs");
    assert_eq!(c.metric_api_address, "127.0.0.1:28001");
    assert_eq!(c.admin_api_address, "127.0.0.1:28002");
    assert_eq!(c.admin_tls_server_cert, "");
    assert_eq!(c.admin_tls_server_key, "");
    assert_eq!(c.grpc_api_address, "127.0.0.1:9191");
    assert_eq!(c.grpc_tls_server_cert, "");
    assert_eq!(c.grpc_tls_server_key, "");
    assert_eq!(c.raft_config, RaftConfig::default());
}

#[test]
fn test_env_defaults_follow_config_defaults() {
    let e = ConfigViaEnv::default();
    assert_eq!(e, ConfigViaEnv::from(Config::default()));
    assert_eq!(e.metasrv_log_level, "INFO");
    assert_eq!(e.metasrv_grpc_api_address, "127.0.0.1:9191");
    assert_eq!(e.raft_config.kvsrv_api_port, 28004);
    assert_eq!(e.raft_config.kvsrv_heartbeat_intervalt, 1000);
    assert_eq!(RaftConfigViaEnv::default(), RaftConfigViaEnv::from(RaftConfig::default()));
}

#[test]
fn test_raft_config_env_names() {
    let e = RaftConfigViaEnv::from(sample_raft_config());
    assert_eq!(e.config_id, "c1");
    assert_eq!(e.kvsrv_listen_host, "0.0.0.0");
    assert_eq!(e.kvsrv_advertise_host, "node1");
    assert_eq!(e.kvsrv_api_port, 29004);
    assert_eq!(e.kvsrv_raft_dir, "/var/meta");
    assert!(e.kvsrv_no_sync);
    assert_eq!(e.kvsrv_snapshot_logs_since_last, 7);
    assert_eq!(e.kvsrv_heartbeat_intervalt, 8);
    assert_eq!(e.kvsrv_install_snapshot_timeout, 9);
    assert_eq!(e.raft_max_applied_log_to_keep, 10);
    assert!(!e.kvsrv_single);
    assert_eq!(e.metasrv_join.len(), 2);
    assert_eq!(e.kvsrv_id, 3);
    assert_eq!(e.sled_tree_prefix, "t_");
}

#[test]
fn test_config_env_names() {
    let e = ConfigViaEnv::from(sample_config());
    assert_eq!(e.metasrv_config_file, "meta.toml");
    assert_eq!(e.metasrv_log_level, "DEBUG");
    assert_eq!(e.metasrv_log_dir, "/var/log");
    assert_eq!(e.metasrv_metric_api_address, "0.0.0.0:1");
    assert_eq!(e.admin_api_address, "0.0.0.0:2");
    assert_eq!(e.admin_tls_server_cert, "a.cert");
    assert_eq!(e.admin_tls_server_key, "a.key");
    assert_eq!(e.metasrv_grpc_api_address, "0.0.0.0:3");
    assert_eq!(e.grpc_tls_server_cert, "g.cert");
    assert_eq!(e.grpc_tls_server_key, "g.key");
    assert_eq!(e.raft_config, RaftConfigViaEnv::from(sample_raft_config()));
}

#[test]
fn test_env_round_trip() {
    let c = sample_config();
    let back: Config = ConfigViaEnv::from(c.clone()).into();
    assert_eq!(back, c);
    let r = sample_raft_config();
    let back: RaftConfig = RaftConfigViaEnv::from(r.clone()).into();
    assert_eq!(back, r);
}

#[test]
fn test_inner_round_trip() {
    let c = sample_config();
    let inner: Result<InnerConfig, MetaError> = c.clone().try_into();
    let inner = inner.unwrap();
    assert_eq!(inner.log_level, "DEBUG");
    assert_eq!(inner.raft_config.raft_api_port, 29004);
    assert_eq!(Config::from(inner), c);
}

#[test]
fn test_default_config_is_valid() {
    let inner: Result<InnerConfig, MetaError> = Config::default().try_into();
    assert!(inner.is_ok());
    let inner: Result<InnerRaftConfig, MetaError> = RaftConfig::default().try_into();
    assert!(inner.is_ok());
}

#[test]
fn test_join_and_single_rejected() {
    let mut c = sample_config();
    c.raft_config.single = true;
    let expected = MetaError::InvalidConfig("--join and --single can not be both set".to_string());
    let r: Result<InnerConfig, MetaError> = c.clone().try_into();
    assert_eq!(r.unwrap_err(), expected);
    let r: Result<InnerRaftConfig, MetaError> = c.raft_config.clone().try_into();
    assert_eq!(r.unwrap_err(), expected);

    // single without join is fine
    c.raft_config.join = vec![];
    let r: Result<InnerConfig, MetaError> = c.try_into();
    assert!(r.is_ok());
}

#[test]
fn test_inner_check() {
    let mut i = InnerRaftConfig::default();
    assert!(i.check().is_ok());
    i.join = vec!["a:1".to_string()];
    assert!(i.check().is_ok());
    i.single = true;
    assert_eq!(
        i.check(),
        Err(MetaError::InvalidConfig("--join and --single can not be both set".to_string()))
    );
}

#[test]
fn test_config_file_to_load() {
    let mut c = Config::default();
    assert_eq!(c.config_file_to_load(None), "");
    assert_eq!(c.config_file_to_load(Some("env.toml".to_string())), "env.toml");
    c.config_file = "arg.toml".to_string();
    assert_eq!(c.config_file_to_load(Some("env.toml".to_string())), "arg.toml");
    assert_eq!(c.config_file_to_load(None), "arg.toml");
}
