//! The configuration of a meta service node as it is given on the command
//! line, in a TOML file or through the environment, and its conversions to and
//! from the configuration that the service itself uses.

use vstd::prelude::*;

use crate::error::MetaError;
use crate::inner::Config as InnerConfig;
use crate::inner::RaftConfig as InnerRaftConfig;
use crate::inner::join_and_single_message;

verus! {

/// The raft settings of a node as they are given on the command line or in a file.
#[derive(Debug, Clone, PartialEq, Eq)]
pub struct RaftConfig {
    /// Identify a config.
    /// This is only meant to make debugging easier with more than one Config involved.
    pub config_id: String,
    /// The local listening host for metadata communication.
    pub raft_listen_host: String,
    /// The hostname that other nodes will use to connect this node.
    pub raft_advertise_host: String,
    /// The listening port for metadata communication.
    pub raft_api_port: u32,
    /// The dir to store persisted meta state, including raft logs, state machine etc.
    pub raft_dir: String,
    /// Whether to skip the fsync of meta writes to disk.
    pub no_sync: bool,
    /// The number of logs since the last snapshot to trigger next snapshot.
    pub snapshot_logs_since_last: u64,
    /// The interval in milli seconds at which a leader sends heartbeats to followers.
    pub heartbeat_interval: u64,
    /// The max time in milli seconds that a leader waits for an install-snapshot ack.
    pub install_snapshot_timeout: u64,
    /// The maximum number of applied logs to keep before purging.
    pub max_applied_log_to_keep: u64,
    /// Single node metasrv: create a single node cluster if none is initialized.
    pub single: bool,
    /// Addresses of nodes of a cluster that this node asks to join.
    pub join: Vec<String>,
    /// The node id, used only when the server is not yet initialized.
    pub id: u64,
    /// For test only: the tree name prefix.
    pub sled_tree_prefix: String,
}

/// The raft settings under the names of the environment variables that set them.
#[derive(Debug, Clone, PartialEq, Eq)]
pub struct RaftConfigViaEnv {
    pub config_id: String,
    pub kvsrv_listen_host: String,
    pub kvsrv_advertise_host: String,
    pub kvsrv_api_port: u32,
    pub kvsrv_raft_dir: String,
    pub kvsrv_no_sync: bool,
    pub kvsrv_snapshot_logs_since_last: u64,
    pub kvsrv_heartbeat_intervalt: u64,
    pub kvsrv_install_snapshot_timeout: u64,
    pub raft_max_applied_log_to_keep: u64,
    pub kvsrv_single: bool,
    pub metasrv_join: Vec<String>,
    pub kvsrv_id: u64,
    pub sled_tree_prefix: String,
}

/// The settings of a node as they are given on the command line or in a file.
#[derive(Debug, Clone, PartialEq, Eq)]
pub struct Config {
    pub config_file: String,
    pub log_level: String,
    pub log_dir: String,
    pub metric_api_address: String,
    pub admin_api_address: String,
    pub admin_tls_server_cert: String,
    pub admin_tls_server_key: String,
    pub grpc_api_address: String,
    /// Certificate for server to identify itself
    pub grpc_tls_server_cert: String,
    pub grpc_tls_server_key: String,
    pub raft_config: RaftConfig,
}

/// The settings of a node under the names of the environment variables that set them.
#[derive(Debug, Clone, PartialEq, Eq)]
pub struct ConfigViaEnv {
    pub metasrv_config_file: String,
    pub metasrv_log_level: String,
    pub metasrv_log_dir: String,
    pub metasrv_metric_api_address: String,
    pub admin_api_address: String,
    pub admin_tls_server_cert: String,
    pub admin_tls_server_key: String,
    pub metasrv_grpc_api_address: String,
    pub grpc_tls_server_cert: String,
    pub grpc_tls_server_key: String,
    pub raft_config: RaftConfigViaEnv,
}

// ---------------------------------------------------------------------------
// The conversions, field by field.

/// The raft settings of the service, as given settings.
pub open spec fn raft_config_of_inner(i: InnerRaftConfig) -> RaftConfig {
    RaftConfig {
        config_id: i.config_id,
        raft_listen_host: i.raft_listen_host,
        raft_advertise_host: i.raft_advertise_host,
        raft_api_port: i.raft_api_port,
        raft_dir: i.raft_dir,
        no_sync: i.no_sync,
        snapshot_logs_since_last: i.snapshot_logs_since_last,
        heartbeat_interval: i.heartbeat_interval,
        install_snapshot_timeout: i.install_snapshot_timeout,
        max_applied_log_to_keep: i.max_applied_log_to_keep,
        single: i.single,
        join: i.join,
        id: i.id,
        sled_tree_prefix: i.sled_tree_prefix,
    }
}

/// Given raft settings, as the service's own settings.
pub open spec fn inner_of_raft_config(c: RaftConfig) -> InnerRaftConfig {
    InnerRaftConfig {
        config_id: c.config_id,
        raft_listen_host: c.raft_listen_host,
        raft_advertise_host: c.raft_advertise_host,
        raft_api_port: c.raft_api_port,
        raft_dir: c.raft_dir,
        no_sync: c.no_sync,
        snapshot_logs_since_last: c.snapshot_logs_since_last,
        heartbeat_interval: c.heartbeat_interval,
        install_snapshot_timeout: c.install_snapshot_timeout,
        max_applied_log_to_keep: c.max_applied_log_to_keep,
        single: c.single,
        join: c.join,
        id: c.id,
        sled_tree_prefix: c.sled_tree_prefix,
    }
}

/// Given raft settings under their environment names.
pub open spec fn raft_env_of_raft_config(c: RaftConfig) -> RaftConfigViaEnv {
    RaftConfigViaEnv {
        config_id: c.config_id,
        kvsrv_listen_host: c.raft_listen_host,
        kvsrv_advertise_host: c.raft_advertise_host,
        kvsrv_api_port: c.raft_api_port,
        kvsrv_raft_dir: c.raft_dir,
        kvsrv_no_sync: c.no_sync,
        kvsrv_snapshot_logs_since_last: c.snapshot_logs_since_last,
        kvsrv_heartbeat_intervalt: c.heartbeat_interval,
        kvsrv_install_snapshot_timeout: c.install_snapshot_timeout,
        raft_max_applied_log_to_keep: c.max_applied_log_to_keep,
        kvsrv_single: c.single,
        metasrv_join: c.join,
        kvsrv_id: c.id,
        sled_tree_prefix: c.sled_tree_prefix,
    }
}

/// Raft settings read from the environment, as given settings.
pub open spec fn raft_config_of_raft_env(e: RaftConfigViaEnv) -> RaftConfig {
    RaftConfig {
        config_id: e.config_id,
        raft_listen_host: e.kvsrv_listen_host,
        raft_advertise_host: e.kvsrv_advertise_host,
        raft_api_port: e.kvsrv_api_port,
        raft_dir: e.kvsrv_raft_dir,
        no_sync: e.kvsrv_no_sync,
        snapshot_logs_since_last: e.kvsrv_snapshot_logs_since_last,
        heartbeat_interval: e.kvsrv_heartbeat_intervalt,
        install_snapshot_timeout: e.kvsrv_install_snapshot_timeout,
        max_applied_log_to_keep: e.raft_max_applied_log_to_keep,
        single: e.kvsrv_single,
        join: e.metasrv_join,
        id: e.kvsrv_id,
        sled_tree_prefix: e.sled_tree_prefix,
    }
}

/// The settings of the service, as given settings.
pub open spec fn config_of_inner(i: InnerConfig) -> Config {
    Config {
        config_file: i.config_file,
        log_level: i.log_level,
        log_dir: i.log_dir,
        metric_api_address: i.metric_api_address,
        admin_api_address: i.admin_api_address,
        admin_tls_server_cert: i.admin_tls_server_cert,
        admin_tls_server_key: i.admin_tls_server_key,
        grpc_api_address: i.grpc_api_address,
        grpc_tls_server_cert: i.grpc_tls_server_cert,
        grpc_tls_server_key: i.grpc_tls_server_key,
        raft_config: raft_config_of_inner(i.raft_config),
    }
}

/// Given settings, as the service's own settings.
pub open spec fn inner_of_config(c: Config) -> InnerConfig {
    InnerConfig {
        config_file: c.config_file,
        log_level: c.log_level,
        log_dir: c.log_dir,
        metric_api_address: c.metric_api_address,
        admin_api_address: c.admin_api_address,
        admin_tls_server_cert: c.admin_tls_server_cert,
        admin_tls_server_key: c.admin_tls_server_key,
        grpc_api_address: c.grpc_api_address,
        grpc_tls_server_cert: c.grpc_tls_server_cert,
        grpc_tls_server_key: c.grpc_tls_server_key,
        raft_config: inner_of_raft_config(c.raft_config),
    }
}

/// Given settings under their environment names.
pub open spec fn env_of_config(c: Config) -> ConfigViaEnv {
    ConfigViaEnv {
        metasrv_config_file: c.config_file,
        metasrv_log_level: c.log_level,
        metasrv_log_dir: c.log_dir,
        metasrv_metric_api_address: c.metric_api_address,
        admin_api_address: c.admin_api_address,
        admin_tls_server_cert: c.admin_tls_server_cert,
        admin_tls_server_key: c.admin_tls_server_key,
        metasrv_grpc_api_address: c.grpc_api_address,
        grpc_tls_server_cert: c.grpc_tls_server_cert,
        grpc_tls_server_key: c.grpc_tls_server_key,
        raft_config: raft_env_of_raft_config(c.raft_config),
    }
}

/// Settings read from the environment, as given settings.
pub open spec fn config_of_env(e: ConfigViaEnv) -> Config {
    Config {
        config_file: e.metasrv_config_file,
        log_level: e.metasrv_log_level,
        log_dir: e.metasrv_log_dir,
        metric_api_address: e.metasrv_metric_api_address,
        admin_api_address: e.admin_api_address,
        admin_tls_server_cert: e.admin_tls_server_cert,
        admin_tls_server_key: e.admin_tls_server_key,
        grpc_api_address: e.metasrv_grpc_api_address,
        grpc_tls_server_cert: e.grpc_tls_server_cert,
        grpc_tls_server_key: e.grpc_tls_server_key,
        raft_config: raft_config_of_raft_env(e.raft_config),
    }
}

// ---------------------------------------------------------------------------
// Raft settings.

impl RaftConfig {
    /// The service accepts these settings.
    pub open spec fn spec_is_valid(&self) -> bool {
        inner_of_raft_config(*self).spec_is_valid()
    }

    /// These are the settings that a node uses when nothing else is given.
    pub open spec fn spec_is_default(&self) -> bool {
        inner_of_raft_config(*self).spec_is_default()
    }
}

impl From<InnerRaftConfig> for RaftConfig {
    fn from(inner: InnerRaftConfig) -> (r: Self)
        ensures
            r == raft_config_of_inner(inner),
            r.config_id == inner.config_id,
            r.raft_listen_host == inner.raft_listen_host,
            r.raft_advertise_host == inner.raft_advertise_host,
            r.raft_api_port == inner.raft_api_port,
            r.raft_dir == inner.raft_dir,
            r.no_sync == inner.no_sync,
            r.snapshot_logs_since_last == inner.snapshot_logs_since_last,
            r.heartbeat_interval == inner.heartbeat_interval,
            r.install_snapshot_timeout == inner.install_snapshot_timeout,
            r.max_applied_log_to_keep == inner.max_applied_log_to_keep,
            r.single == inner.single,
            r.join == inner.join,
            r.id == inner.id,
            r.sled_tree_prefix == inner.sled_tree_prefix,
    {
        RaftConfig {
            config_id: inner.config_id,
            raft_listen_host: inner.raft_listen_host,
            raft_advertise_host: inner.raft_advertise_host,
            raft_api_port: inner.raft_api_port,
            raft_dir: inner.raft_dir,
            no_sync: inner.no_sync,
            snapshot_logs_since_last: inner.snapshot_logs_since_last,
            heartbeat_interval: inner.heartbeat_interval,
            install_snapshot_timeout: inner.install_snapshot_timeout,
            max_applied_log_to_keep: inner.max_applied_log_to_keep,
            single: inner.single,
            join: inner.join,
            id: inner.id,
            sled_tree_prefix: inner.sled_tree_prefix,
        }
    }
}

impl vstd::std_specs::convert::FromSpecImpl<InnerRaftConfig> for RaftConfig {
    open spec fn obeys_from_spec() -> bool {
        true
    }

    open spec fn from_spec(inner: InnerRaftConfig) -> Self {
        raft_config_of_inner(inner)
    }
}

/// Given raft settings become the service's own settings when they pass its
/// check; else the check's error comes back.
impl TryFrom<RaftConfig> for InnerRaftConfig {
    type Error = MetaError;

    fn try_from(cfg: RaftConfig) -> (r: Result<InnerRaftConfig, MetaError>)
        ensures
            cfg.spec_is_valid() ==> r == Ok::<InnerRaftConfig, MetaError>(inner_of_raft_config(cfg)),
            r is Ok <==> !(cfg.join@.len() > 0 && cfg.single),
            r is Ok ==> ({
                &&& r->Ok_0.config_id == cfg.config_id
                &&& r->Ok_0.raft_listen_host == cfg.raft_listen_host
                &&& r->Ok_0.raft_advertise_host == cfg.raft_advertise_host
                &&& r->Ok_0.raft_api_port == cfg.raft_api_port
                &&& r->Ok_0.raft_dir == cfg.raft_dir
                &&& r->Ok_0.no_sync == cfg.no_sync
                &&& r->Ok_0.snapshot_logs_since_last == cfg.snapshot_logs_since_last
                &&& r->Ok_0.heartbeat_interval == cfg.heartbeat_interval
                &&& r->Ok_0.install_snapshot_timeout == cfg.install_snapshot_timeout
                &&& r->Ok_0.max_applied_log_to_keep == cfg.max_applied_log_to_keep
                &&& r->Ok_0.single == cfg.single
                &&& r->Ok_0.join == cfg.join
                &&& r->Ok_0.id == cfg.id
                &&& r->Ok_0.sled_tree_prefix == cfg.sled_tree_prefix
            }),
            !cfg.spec_is_valid() ==> (r matches Err(MetaError::InvalidConfig(m)) && m@
                == join_and_single_message()),
    {
        let irc = InnerRaftConfig {
            config_id: cfg.config_id,
            raft_listen_host: cfg.raft_listen_host,
            raft_advertise_host: cfg.raft_advertise_host,
            raft_api_port: cfg.raft_api_port,
            raft_dir: cfg.raft_dir,
            no_sync: cfg.no_sync,
            snapshot_logs_since_last: cfg.snapshot_logs_since_last,
            heartbeat_interval: cfg.heartbeat_interval,
            install_snapshot_timeout: cfg.install_snapshot_timeout,
            max_applied_log_to_keep: cfg.max_applied_log_to_keep,
            single: cfg.single,
            join: cfg.join,
            id: cfg.id,
            sled_tree_prefix: cfg.sled_tree_prefix,
        };
        match irc.check() {
            Ok(()) => Ok(irc),
            Err(e) => Err(e),
        }
    }
}

/// The contract of this conversion stands on `try_from` itself: its error
/// carries a text, and a `String` is not determined by the characters that
/// a specification can name, so no single value can be given here for it.
impl vstd::std_specs::convert::TryFromSpecImpl<RaftConfig> for InnerRaftConfig {
    open spec fn obeys_try_from_spec() -> bool {
        false
    }

    open spec fn try_from_spec(cfg: RaftConfig) -> Result<InnerRaftConfig, MetaError> {
        Ok(inner_of_raft_config(cfg))
    }
}

impl Default for RaftConfig {
    fn default() -> (r: Self)
        ensures
            r.spec_is_default(),
    {
        InnerRaftConfig::default().into()
    }
}

impl From<RaftConfig> for RaftConfigViaEnv {
    fn from(cfg: RaftConfig) -> (r: Self)
        ensures
            r == raft_env_of_raft_config(cfg),
            r.config_id == cfg.config_id,
            r.kvsrv_listen_host == cfg.raft_listen_host,
            r.kvsrv_advertise_host == cfg.raft_advertise_host,
            r.kvsrv_api_port == cfg.raft_api_port,
            r.kvsrv_raft_dir == cfg.raft_dir,
            r.kvsrv_no_sync == cfg.no_sync,
            r.kvsrv_snapshot_logs_since_last == cfg.snapshot_logs_since_last,
            r.kvsrv_heartbeat_intervalt == cfg.heartbeat_interval,
            r.kvsrv_install_snapshot_timeout == cfg.install_snapshot_timeout,
            r.raft_max_applied_log_to_keep == cfg.max_applied_log_to_keep,
            r.kvsrv_single == cfg.single,
            r.metasrv_join == cfg.join,
            r.kvsrv_id == cfg.id,
            r.sled_tree_prefix == cfg.sled_tree_prefix,
    {
        RaftConfigViaEnv {
            config_id: cfg.config_id,
            kvsrv_listen_host: cfg.raft_listen_host,
            kvsrv_advertise_host: cfg.raft_advertise_host,
            kvsrv_api_port: cfg.raft_api_port,
            kvsrv_raft_dir: cfg.raft_dir,
            kvsrv_no_sync: cfg.no_sync,
            kvsrv_snapshot_logs_since_last: cfg.snapshot_logs_since_last,
            kvsrv_heartbeat_intervalt: cfg.heartbeat_interval,
            kvsrv_install_snapshot_timeout: cfg.install_snapshot_timeout,
            raft_max_applied_log_to_keep: cfg.max_applied_log_to_keep,
            kvsrv_single: cfg.single,
            metasrv_join: cfg.join,
            kvsrv_id: cfg.id,
            sled_tree_prefix: cfg.sled_tree_prefix,
        }
    }
}

impl vstd::std_specs::convert::FromSpecImpl<RaftConfig> for RaftConfigViaEnv {
    open spec fn obeys_from_spec() -> bool {
        true
    }

    open spec fn from_spec(cfg: RaftConfig) -> Self {
        raft_env_of_raft_config(cfg)
    }
}

impl From<RaftConfigViaEnv> for RaftConfig {
    fn from(env: RaftConfigViaEnv) -> (r: Self)
        ensures
            r == raft_config_of_raft_env(env),
            r.config_id == env.config_id,
            r.raft_listen_host == env.kvsrv_listen_host,
            r.raft_advertise_host == env.kvsrv_advertise_host,
            r.raft_api_port == env.kvsrv_api_port,
            r.raft_dir == env.kvsrv_raft_dir,
            r.no_sync == env.kvsrv_no_sync,
            r.snapshot_logs_since_last == env.kvsrv_snapshot_logs_since_last,
            r.heartbeat_interval == env.kvsrv_heartbeat_intervalt,
            r.install_snapshot_timeout == env.kvsrv_install_snapshot_timeout,
            r.max_applied_log_to_keep == env.raft_max_applied_log_to_keep,
            r.single == env.kvsrv_single,
            r.join == env.metasrv_join,
            r.id == env.kvsrv_id,
            r.sled_tree_prefix == env.sled_tree_prefix,
    {
        RaftConfig {
            config_id: env.config_id,
            raft_listen_host: env.kvsrv_listen_host,
            raft_advertise_host: env.kvsrv_advertise_host,
            raft_api_port: env.kvsrv_api_port,
            raft_dir: env.kvsrv_raft_dir,
            no_sync: env.kvsrv_no_sync,
            snapshot_logs_since_last: env.kvsrv_snapshot_logs_since_last,
            heartbeat_interval: env.kvsrv_heartbeat_intervalt,
            install_snapshot_timeout: env.kvsrv_install_snapshot_timeout,
            max_applied_log_to_keep: env.raft_max_applied_log_to_keep,
            single: env.kvsrv_single,
            join: env.metasrv_join,
            id: env.kvsrv_id,
            sled_tree_prefix: env.sled_tree_prefix,
        }
    }
}

impl vstd::std_specs::convert::FromSpecImpl<RaftConfigViaEnv> for RaftConfig {
    open spec fn obeys_from_spec() -> bool {
        true
    }

    open spec fn from_spec(env: RaftConfigViaEnv) -> Self {
        raft_config_of_raft_env(env)
    }
}

impl Default for RaftConfigViaEnv {
    fn default() -> (r: Self)
        ensures
            raft_config_of_raft_env(r).spec_is_default(),
    {
        let cfg = RaftConfig::default();
        proof {
            lemma_raft_env_round_trip(cfg);
        }
        cfg.into()
    }
}

// ---------------------------------------------------------------------------
// Node settings.

impl Config {
    /// The service accepts these settings.
    pub open spec fn spec_is_valid(&self) -> bool {
        self.raft_config.spec_is_valid()
    }

    /// These are the settings that a node uses when nothing else is given.
    pub open spec fn spec_is_default(&self) -> bool {
        inner_of_config(*self).spec_is_default()
    }

    /// The file to read settings from: the one these settings name, else the
    /// one the environment names (`METASRV_CONFIG_FILE`), else none (empty).
    pub open spec fn spec_config_file_to_load(&self, env_config_file: Option<String>) -> Seq<char> {
        if self.config_file@.len() > 0 {
            self.config_file@
        } else {
            match env_config_file {
                Some(path) => path@,
                None => ""@,
            }
        }
    }

    /// Chooses the file to read settings from, given the value of the
    /// environment variable `METASRV_CONFIG_FILE` where it is set.
    pub fn config_file_to_load(&self, env_config_file: Option<String>) -> (r: String)
        ensures
            r@ == self.spec_config_file_to_load(env_config_file),
    {
        if !self.config_file.as_str().is_empty() {
            self.config_file.clone()
        } else if let Some(path) = env_config_file {
            path
        } else {
            "".to_owned()
        }
    }
}

impl Default for Config {
    fn default() -> (r: Self)
        ensures
            r.spec_is_default(),
    {
        InnerConfig::default().into()
    }
}

/// Given settings become the service's own settings when their raft
/// settings pass the service's check; else the check's error comes back.
impl TryFrom<Config> for InnerConfig {
    type Error = MetaError;

    fn try_from(cfg: Config) -> (r: Result<InnerConfig, MetaError>)
        ensures
            cfg.spec_is_valid() ==> r == Ok::<InnerConfig, MetaError>(inner_of_config(cfg)),
            r is Ok <==> !(cfg.raft_config.join@.len() > 0 && cfg.raft_config.single),
            r is Ok ==> ({
                &&& r->Ok_0.config_file == cfg.config_file
                &&& r->Ok_0.log_level == cfg.log_level
                &&& r->Ok_0.log_dir == cfg.log_dir
                &&& r->Ok_0.metric_api_address == cfg.metric_api_address
                &&& r->Ok_0.admin_api_address == cfg.admin_api_address
                &&& r->Ok_0.admin_tls_server_cert == cfg.admin_tls_server_cert
                &&& r->Ok_0.admin_tls_server_key == cfg.admin_tls_server_key
                &&& r->Ok_0.grpc_api_address == cfg.grpc_api_address
                &&& r->Ok_0.grpc_tls_server_cert == cfg.grpc_tls_server_cert
                &&& r->Ok_0.grpc_tls_server_key == cfg.grpc_tls_server_key
                &&& r->Ok_0.raft_config.config_id == cfg.raft_config.config_id
                &&& r->Ok_0.raft_config.raft_listen_host == cfg.raft_config.raft_listen_host
                &&& r->Ok_0.raft_config.raft_advertise_host == cfg.raft_config.raft_advertise_host
                &&& r->Ok_0.raft_config.raft_api_port == cfg.raft_config.raft_api_port
                &&& r->Ok_0.raft_config.raft_dir == cfg.raft_config.raft_dir
                &&& r->Ok_0.raft_config.no_sync == cfg.raft_config.no_sync
                &&& r->Ok_0.raft_config.snapshot_logs_since_last == cfg.raft_config.snapshot_logs_since_last
                &&& r->Ok_0.raft_config.heartbeat_interval == cfg.raft_config.heartbeat_interval
                &&& r->Ok_0.raft_config.install_snapshot_timeout == cfg.raft_config.install_snapshot_timeout
                &&& r->Ok_0.raft_config.max_applied_log_to_keep == cfg.raft_config.max_applied_log_to_keep
                &&& r->Ok_0.raft_config.single == cfg.raft_config.single
                &&& r->Ok_0.raft_config.join == cfg.raft_config.join
                &&& r->Ok_0.raft_config.id == cfg.raft_config.id
                &&& r->Ok_0.raft_config.sled_tree_prefix == cfg.raft_config.sled_tree_prefix
            }),
            !cfg.spec_is_valid() ==> (r matches Err(MetaError::InvalidConfig(m)) && m@
                == join_and_single_message()),
    {
        let raft_config: Result<InnerRaftConfig, MetaError> = cfg.raft_config.try_into();
        match raft_config {
            Ok(raft_config) => Ok(InnerConfig {
                config_file: cfg.config_file,
                log_level: cfg.log_level,
                log_dir: cfg.log_dir,
                metric_api_address: cfg.metric_api_address,
                admin_api_address: cfg.admin_api_address,
                admin_tls_server_cert: cfg.admin_tls_server_cert,
                admin_tls_server_key: cfg.admin_tls_server_key,
                grpc_api_address: cfg.grpc_api_address,
                grpc_tls_server_cert: cfg.grpc_tls_server_cert,
                grpc_tls_server_key: cfg.grpc_tls_server_key,
                raft_config,
            }),
            Err(e) => Err(e),
        }
    }
}

/// As for the raft settings, the contract stands on `try_from` itself.
impl vstd::std_specs::convert::TryFromSpecImpl<Config> for InnerConfig {
    open spec fn obeys_try_from_spec() -> bool {
        false
    }

    open spec fn try_from_spec(cfg: Config) -> Result<InnerConfig, MetaError> {
        Ok(inner_of_config(cfg))
    }
}

impl From<InnerConfig> for Config {
    fn from(inner: InnerConfig) -> (r: Self)
        ensures
            r == config_of_inner(inner),
            r.config_file == inner.config_file,
            r.log_level == inner.log_level,
            r.log_dir == inner.log_dir,
            r.metric_api_address == inner.metric_api_address,
            r.admin_api_address == inner.admin_api_address,
            r.admin_tls_server_cert == inner.admin_tls_server_cert,
            r.admin_tls_server_key == inner.admin_tls_server_key,
            r.grpc_api_address == inner.grpc_api_address,
            r.grpc_tls_server_cert == inner.grpc_tls_server_cert,
            r.grpc_tls_server_key == inner.grpc_tls_server_key,
            r.raft_config.config_id == inner.raft_config.config_id,
            r.raft_config.raft_listen_host == inner.raft_config.raft_listen_host,
            r.raft_config.raft_advertise_host == inner.raft_config.raft_advertise_host,
            r.raft_config.raft_api_port == inner.raft_config.raft_api_port,
            r.raft_config.raft_dir == inner.raft_config.raft_dir,
            r.raft_config.no_sync == inner.raft_config.no_sync,
            r.raft_config.snapshot_logs_since_last == inner.raft_config.snapshot_logs_since_last,
            r.raft_config.heartbeat_interval == inner.raft_config.heartbeat_interval,
            r.raft_config.install_snapshot_timeout == inner.raft_config.install_snapshot_timeout,
            r.raft_config.max_applied_log_to_keep == inner.raft_config.max_applied_log_to_keep,
            r.raft_config.single == inner.raft_config.single,
            r.raft_config.join == inner.raft_config.join,
            r.raft_config.id == inner.raft_config.id,
            r.raft_config.sled_tree_prefix == inner.raft_config.sled_tree_prefix,
    {
        Config {
            config_file: inner.config_file,
            log_level: inner.log_level,
            log_dir: inner.log_dir,
            metric_api_address: inner.metric_api_address,
            admin_api_address: inner.admin_api_address,
            admin_tls_server_cert: inner.admin_tls_server_cert,
            admin_tls_server_key: inner.admin_tls_server_key,
            grpc_api_address: inner.grpc_api_address,
            grpc_tls_server_cert: inner.grpc_tls_server_cert,
            grpc_tls_server_key: inner.grpc_tls_server_key,
            raft_config: inner.raft_config.into(),
        }
    }
}

impl vstd::std_specs::convert::FromSpecImpl<InnerConfig> for Config {
    open spec fn obeys_from_spec() -> bool {
        true
    }

    open spec fn from_spec(inner: InnerConfig) -> Self {
        config_of_inner(inner)
    }
}

impl From<Config> for ConfigViaEnv {
    fn from(cfg: Config) -> (r: Self)
        ensures
            r == env_of_config(cfg),
            r.metasrv_config_file == cfg.config_file,
            r.metasrv_log_level == cfg.log_level,
            r.metasrv_log_dir == cfg.log_dir,
            r.metasrv_metric_api_address == cfg.metric_api_address,
            r.admin_api_address == cfg.admin_api_address,
            r.admin_tls_server_cert == cfg.admin_tls_server_cert,
            r.admin_tls_server_key == cfg.admin_tls_server_key,
            r.metasrv_grpc_api_address == cfg.grpc_api_address,
            r.grpc_tls_server_cert == cfg.grpc_tls_server_cert,
            r.grpc_tls_server_key == cfg.grpc_tls_server_key,
            r.raft_config.config_id == cfg.raft_config.config_id,
            r.raft_config.kvsrv_listen_host == cfg.raft_config.raft_listen_host,
            r.raft_config.kvsrv_advertise_host == cfg.raft_config.raft_advertise_host,
            r.raft_config.kvsrv_api_port == cfg.raft_config.raft_api_port,
            r.raft_config.kvsrv_raft_dir == cfg.raft_config.raft_dir,
            r.raft_config.kvsrv_no_sync == cfg.raft_config.no_sync,
            r.raft_config.kvsrv_snapshot_logs_since_last == cfg.raft_config.snapshot_logs_since_last,
            r.raft_config.kvsrv_heartbeat_intervalt == cfg.raft_config.heartbeat_interval,
            r.raft_config.kvsrv_install_snapshot_timeout == cfg.raft_config.install_snapshot_timeout,
            r.raft_config.raft_max_applied_log_to_keep == cfg.raft_config.max_applied_log_to_keep,
            r.raft_config.kvsrv_single == cfg.raft_config.single,
            r.raft_config.metasrv_join == cfg.raft_config.join,
            r.raft_config.kvsrv_id == cfg.raft_config.id,
            r.raft_config.sled_tree_prefix == cfg.raft_config.sled_tree_prefix,
    {
        ConfigViaEnv {
            metasrv_config_file: cfg.config_file,
            metasrv_log_level: cfg.log_level,
            metasrv_log_dir: cfg.log_dir,
            metasrv_metric_api_address: cfg.metric_api_address,
            admin_api_address: cfg.admin_api_address,
            admin_tls_server_cert: cfg.admin_tls_server_cert,
            admin_tls_server_key: cfg.admin_tls_server_key,
            metasrv_grpc_api_address: cfg.grpc_api_address,
            grpc_tls_server_cert: cfg.grpc_tls_server_cert,
            grpc_tls_server_key: cfg.grpc_tls_server_key,
            raft_config: cfg.raft_config.into(),
        }
    }
}

impl vstd::std_specs::convert::FromSpecImpl<Config> for ConfigViaEnv {
    open spec fn obeys_from_spec() -> bool {
        true
    }

    open spec fn from_spec(cfg: Config) -> Self {
        env_of_config(cfg)
    }
}

impl From<ConfigViaEnv> for Config {
    fn from(env: ConfigViaEnv) -> (r: Self)
        ensures
            r == config_of_env(env),
            r.config_file == env.metasrv_config_file,
            r.log_level == env.metasrv_log_level,
            r.log_dir == env.metasrv_log_dir,
            r.metric_api_address == env.metasrv_metric_api_address,
            r.admin_api_address == env.admin_api_address,
            r.admin_tls_server_cert == env.admin_tls_server_cert,
            r.admin_tls_server_key == env.admin_tls_server_key,
            r.grpc_api_address == env.metasrv_grpc_api_address,
            r.grpc_tls_server_cert == env.grpc_tls_server_cert,
            r.grpc_tls_server_key == env.grpc_tls_server_key,
            r.raft_config.config_id == env.raft_config.config_id,
            r.raft_config.raft_listen_host == env.raft_config.kvsrv_listen_host,
            r.raft_config.raft_advertise_host == env.raft_config.kvsrv_advertise_host,
            r.raft_config.raft_api_port == env.raft_config.kvsrv_api_port,
            r.raft_config.raft_dir == env.raft_config.kvsrv_raft_dir,
            r.raft_config.no_sync == env.raft_config.kvsrv_no_sync,
            r.raft_config.snapshot_logs_since_last == env.raft_config.kvsrv_snapshot_logs_since_last,
            r.raft_config.heartbeat_interval == env.raft_config.kvsrv_heartbeat_intervalt,
            r.raft_config.install_snapshot_timeout == env.raft_config.kvsrv_install_snapshot_timeout,
            r.raft_config.max_applied_log_to_keep == env.raft_config.raft_max_applied_log_to_keep,
            r.raft_config.single == env.raft_config.kvsrv_single,
            r.raft_config.join == env.raft_config.metasrv_join,
            r.raft_config.id == env.raft_config.kvsrv_id,
            r.raft_config.sled_tree_prefix == env.raft_config.sled_tree_prefix,
    {
        Config {
            config_file: env.metasrv_config_file,
            log_level: env.metasrv_log_level,
            log_dir: env.metasrv_log_dir,
            metric_api_address: env.metasrv_metric_api_address,
            admin_api_address: env.admin_api_address,
            admin_tls_server_cert: env.admin_tls_server_cert,
            admin_tls_server_key: env.admin_tls_server_key,
            grpc_api_address: env.metasrv_grpc_api_address,
            grpc_tls_server_cert: env.grpc_tls_server_cert,
            grpc_tls_server_key: env.grpc_tls_server_key,
            raft_config: env.raft_config.into(),
        }
    }
}

impl vstd::std_specs::convert::FromSpecImpl<ConfigViaEnv> for Config {
    open spec fn obeys_from_spec() -> bool {
        true
    }

    open spec fn from_spec(env: ConfigViaEnv) -> Self {
        config_of_env(env)
    }
}

impl Default for ConfigViaEnv {
    fn default() -> (r: Self)
        ensures
            config_of_env(r).spec_is_default(),
    {
        let cfg = Config::default();
        proof {
            lemma_config_env_round_trip(cfg);
        }
        cfg.into()
    }
}

// ---------------------------------------------------------------------------
// Laws.

/// Giving raft settings under their environment names and reading them back
/// gives the same settings.
pub proof fn lemma_raft_env_round_trip(c: RaftConfig)
    ensures
        raft_config_of_raft_env(raft_env_of_raft_config(c)) == c,
{
}

/// Reading raft settings from the environment and giving them under their
/// environment names again gives the same values.
pub proof fn lemma_raft_env_round_trip_back(e: RaftConfigViaEnv)
    ensures
        raft_env_of_raft_config(raft_config_of_raft_env(e)) == e,
{
}

/// Giving settings under their environment names and reading them back gives
/// the same settings.
pub proof fn lemma_config_env_round_trip(c: Config)
    ensures
        config_of_env(env_of_config(c)) == c,
{
    lemma_raft_env_round_trip(c.raft_config);
}

/// Reading settings from the environment and giving them under their
/// environment names again gives the same values.
pub proof fn lemma_config_env_round_trip_back(e: ConfigViaEnv)
    ensures
        env_of_config(config_of_env(e)) == e,
{
    lemma_raft_env_round_trip_back(e.raft_config);
}

/// The service's raft settings, shown as given settings and taken back, are
/// the same settings, and the conversion back succeeds exactly when they pass
/// the service's check.
pub proof fn lemma_raft_inner_round_trip(i: InnerRaftConfig)
    ensures
        inner_of_raft_config(raft_config_of_inner(i)) == i,
        raft_config_of_inner(i).spec_is_valid() == i.spec_is_valid(),
{
}

/// Given raft settings, taken into the service and shown again, are the same.
pub proof fn lemma_raft_outer_round_trip(c: RaftConfig)
    ensures
        raft_config_of_inner(inner_of_raft_config(c)) == c,
{
}

/// The service's settings, shown as given settings and taken back, are the
/// same settings, and the conversion back succeeds exactly when they pass the
/// service's check.
pub proof fn lemma_config_inner_round_trip(i: InnerConfig)
    ensures
        inner_of_config(config_of_inner(i)) == i,
        config_of_inner(i).spec_is_valid() == i.raft_config.spec_is_valid(),
{
    lemma_raft_inner_round_trip(i.raft_config);
}

/// Given settings, taken into the service and shown again, are the same.
pub proof fn lemma_config_outer_round_trip(c: Config)
    ensures
        config_of_inner(inner_of_config(c)) == c,
{
    lemma_raft_outer_round_trip(c.raft_config);
}

/// Each given raft setting shown from the service's settings is the service's setting of the same name.
pub proof fn lemma_raft_config_of_inner_fields(i: InnerRaftConfig)
    ensures
        raft_config_of_inner(i).config_id == i.config_id,
        raft_config_of_inner(i).raft_listen_host == i.raft_listen_host,
        raft_config_of_inner(i).raft_advertise_host == i.raft_advertise_host,
        raft_config_of_inner(i).raft_api_port == i.raft_api_port,
        raft_config_of_inner(i).raft_dir == i.raft_dir,
        raft_config_of_inner(i).no_sync == i.no_sync,
        raft_config_of_inner(i).snapshot_logs_since_last == i.snapshot_logs_since_last,
        raft_config_of_inner(i).heartbeat_interval == i.heartbeat_interval,
        raft_config_of_inner(i).install_snapshot_timeout == i.install_snapshot_timeout,
        raft_config_of_inner(i).max_applied_log_to_keep == i.max_applied_log_to_keep,
        raft_config_of_inner(i).single == i.single,
        raft_config_of_inner(i).join == i.join,
        raft_config_of_inner(i).id == i.id,
        raft_config_of_inner(i).sled_tree_prefix == i.sled_tree_prefix,
{
}

/// Each of the service's raft settings taken from given settings is the given setting of the same name.
pub proof fn lemma_inner_of_raft_config_fields(c: RaftConfig)
    ensures
        inner_of_raft_config(c).config_id == c.config_id,
        inner_of_raft_config(c).raft_listen_host == c.raft_listen_host,
        inner_of_raft_config(c).raft_advertise_host == c.raft_advertise_host,
        inner_of_raft_config(c).raft_api_port == c.raft_api_port,
        inner_of_raft_config(c).raft_dir == c.raft_dir,
        inner_of_raft_config(c).no_sync == c.no_sync,
        inner_of_raft_config(c).snapshot_logs_since_last == c.snapshot_logs_since_last,
        inner_of_raft_config(c).heartbeat_interval == c.heartbeat_interval,
        inner_of_raft_config(c).install_snapshot_timeout == c.install_snapshot_timeout,
        inner_of_raft_config(c).max_applied_log_to_keep == c.max_applied_log_to_keep,
        inner_of_raft_config(c).single == c.single,
        inner_of_raft_config(c).join == c.join,
        inner_of_raft_config(c).id == c.id,
        inner_of_raft_config(c).sled_tree_prefix == c.sled_tree_prefix,
{
}

/// Each raft setting under its environment name is the given setting it stands for.
pub proof fn lemma_raft_env_fields(c: RaftConfig)
    ensures
        raft_env_of_raft_config(c).config_id == c.config_id,
        raft_env_of_raft_config(c).kvsrv_listen_host == c.raft_listen_host,
        raft_env_of_raft_config(c).kvsrv_advertise_host == c.raft_advertise_host,
        raft_env_of_raft_config(c).kvsrv_api_port == c.raft_api_port,
        raft_env_of_raft_config(c).kvsrv_raft_dir == c.raft_dir,
        raft_env_of_raft_config(c).kvsrv_no_sync == c.no_sync,
        raft_env_of_raft_config(c).kvsrv_snapshot_logs_since_last == c.snapshot_logs_since_last,
        raft_env_of_raft_config(c).kvsrv_heartbeat_intervalt == c.heartbeat_interval,
        raft_env_of_raft_config(c).kvsrv_install_snapshot_timeout == c.install_snapshot_timeout,
        raft_env_of_raft_config(c).raft_max_applied_log_to_keep == c.max_applied_log_to_keep,
        raft_env_of_raft_config(c).kvsrv_single == c.single,
        raft_env_of_raft_config(c).metasrv_join == c.join,
        raft_env_of_raft_config(c).kvsrv_id == c.id,
        raft_env_of_raft_config(c).sled_tree_prefix == c.sled_tree_prefix,
{
}

/// Each raft setting read from the environment is the environment setting it stands for.
pub proof fn lemma_raft_config_of_env_fields(e: RaftConfigViaEnv)
    ensures
        raft_config_of_raft_env(e).config_id == e.config_id,
        raft_config_of_raft_env(e).raft_listen_host == e.kvsrv_listen_host,
        raft_config_of_raft_env(e).raft_advertise_host == e.kvsrv_advertise_host,
        raft_config_of_raft_env(e).raft_api_port == e.kvsrv_api_port,
        raft_config_of_raft_env(e).raft_dir == e.kvsrv_raft_dir,
        raft_config_of_raft_env(e).no_sync == e.kvsrv_no_sync,
        raft_config_of_raft_env(e).snapshot_logs_since_last == e.kvsrv_snapshot_logs_since_last,
        raft_config_of_raft_env(e).heartbeat_interval == e.kvsrv_heartbeat_intervalt,
        raft_config_of_raft_env(e).install_snapshot_timeout == e.kvsrv_install_snapshot_timeout,
        raft_config_of_raft_env(e).max_applied_log_to_keep == e.raft_max_applied_log_to_keep,
        raft_config_of_raft_env(e).single == e.kvsrv_single,
        raft_config_of_raft_env(e).join == e.metasrv_join,
        raft_config_of_raft_env(e).id == e.kvsrv_id,
        raft_config_of_raft_env(e).sled_tree_prefix == e.sled_tree_prefix,
{
}

/// Each given setting shown from the service's settings is the service's setting of the same name.
pub proof fn lemma_config_of_inner_fields(i: InnerConfig)
    ensures
        config_of_inner(i).config_file == i.config_file,
        config_of_inner(i).log_level == i.log_level,
        config_of_inner(i).log_dir == i.log_dir,
        config_of_inner(i).metric_api_address == i.metric_api_address,
        config_of_inner(i).admin_api_address == i.admin_api_address,
        config_of_inner(i).admin_tls_server_cert == i.admin_tls_server_cert,
        config_of_inner(i).admin_tls_server_key == i.admin_tls_server_key,
        config_of_inner(i).grpc_api_address == i.grpc_api_address,
        config_of_inner(i).grpc_tls_server_cert == i.grpc_tls_server_cert,
        config_of_inner(i).grpc_tls_server_key == i.grpc_tls_server_key,
        config_of_inner(i).raft_config.config_id == i.raft_config.config_id,
        config_of_inner(i).raft_config.raft_listen_host == i.raft_config.raft_listen_host,
        config_of_inner(i).raft_config.raft_advertise_host == i.raft_config.raft_advertise_host,
        config_of_inner(i).raft_config.raft_api_port == i.raft_config.raft_api_port,
        config_of_inner(i).raft_config.raft_dir == i.raft_config.raft_dir,
        config_of_inner(i).raft_config.no_sync == i.raft_config.no_sync,
        config_of_inner(i).raft_config.snapshot_logs_since_last == i.raft_config.snapshot_logs_since_last,
        config_of_inner(i).raft_config.heartbeat_interval == i.raft_config.heartbeat_interval,
        config_of_inner(i).raft_config.install_snapshot_timeout == i.raft_config.install_snapshot_timeout,
        config_of_inner(i).raft_config.max_applied_log_to_keep == i.raft_config.max_applied_log_to_keep,
        config_of_inner(i).raft_config.single == i.raft_config.single,
        config_of_inner(i).raft_config.join == i.raft_config.join,
        config_of_inner(i).raft_config.id == i.raft_config.id,
        config_of_inner(i).raft_config.sled_tree_prefix == i.raft_config.sled_tree_prefix,
{
}

/// Each of the service's settings taken from given settings is the given setting of the same name.
pub proof fn lemma_inner_of_config_fields(c: Config)
    ensures
        inner_of_config(c).config_file == c.config_file,
        inner_of_config(c).log_level == c.log_level,
        inner_of_config(c).log_dir == c.log_dir,
        inner_of_config(c).metric_api_address == c.metric_api_address,
        inner_of_config(c).admin_api_address == c.admin_api_address,
        inner_of_config(c).admin_tls_server_cert == c.admin_tls_server_cert,
        inner_of_config(c).admin_tls_server_key == c.admin_tls_server_key,
        inner_of_config(c).grpc_api_address == c.grpc_api_address,
        inner_of_config(c).grpc_tls_server_cert == c.grpc_tls_server_cert,
        inner_of_config(c).grpc_tls_server_key == c.grpc_tls_server_key,
        inner_of_config(c).raft_config.config_id == c.raft_config.config_id,
        inner_of_config(c).raft_config.raft_listen_host == c.raft_config.raft_listen_host,
        inner_of_config(c).raft_config.raft_advertise_host == c.raft_config.raft_advertise_host,
        inner_of_config(c).raft_config.raft_api_port == c.raft_config.raft_api_port,
        inner_of_config(c).raft_config.raft_dir == c.raft_config.raft_dir,
        inner_of_config(c).raft_config.no_sync == c.raft_config.no_sync,
        inner_of_config(c).raft_config.snapshot_logs_since_last == c.raft_config.snapshot_logs_since_last,
        inner_of_config(c).raft_config.heartbeat_interval == c.raft_config.heartbeat_interval,
        inner_of_config(c).raft_config.install_snapshot_timeout == c.raft_config.install_snapshot_timeout,
        inner_of_config(c).raft_config.max_applied_log_to_keep == c.raft_config.max_applied_log_to_keep,
        inner_of_config(c).raft_config.single == c.raft_config.single,
        inner_of_config(c).raft_config.join == c.raft_config.join,
        inner_of_config(c).raft_config.id == c.raft_config.id,
        inner_of_config(c).raft_config.sled_tree_prefix == c.raft_config.sled_tree_prefix,
{
}

/// Each setting under its environment name is the given setting it stands for.
pub proof fn lemma_env_of_config_fields(c: Config)
    ensures
        env_of_config(c).metasrv_config_file == c.config_file,
        env_of_config(c).metasrv_log_level == c.log_level,
        env_of_config(c).metasrv_log_dir == c.log_dir,
        env_of_config(c).metasrv_metric_api_address == c.metric_api_address,
        env_of_config(c).admin_api_address == c.admin_api_address,
        env_of_config(c).admin_tls_server_cert == c.admin_tls_server_cert,
        env_of_config(c).admin_tls_server_key == c.admin_tls_server_key,
        env_of_config(c).metasrv_grpc_api_address == c.grpc_api_address,
        env_of_config(c).grpc_tls_server_cert == c.grpc_tls_server_cert,
        env_of_config(c).grpc_tls_server_key == c.grpc_tls_server_key,
        env_of_config(c).raft_config.config_id == c.raft_config.config_id,
        env_of_config(c).raft_config.kvsrv_listen_host == c.raft_config.raft_listen_host,
        env_of_config(c).raft_config.kvsrv_advertise_host == c.raft_config.raft_advertise_host,
        env_of_config(c).raft_config.kvsrv_api_port == c.raft_config.raft_api_port,
        env_of_config(c).raft_config.kvsrv_raft_dir == c.raft_config.raft_dir,
        env_of_config(c).raft_config.kvsrv_no_sync == c.raft_config.no_sync,
        env_of_config(c).raft_config.kvsrv_snapshot_logs_since_last == c.raft_config.snapshot_logs_since_last,
        env_of_config(c).raft_config.kvsrv_heartbeat_intervalt == c.raft_config.heartbeat_interval,
        env_of_config(c).raft_config.kvsrv_install_snapshot_timeout == c.raft_config.install_snapshot_timeout,
        env_of_config(c).raft_config.raft_max_applied_log_to_keep == c.raft_config.max_applied_log_to_keep,
        env_of_config(c).raft_config.kvsrv_single == c.raft_config.single,
        env_of_config(c).raft_config.metasrv_join == c.raft_config.join,
        env_of_config(c).raft_config.kvsrv_id == c.raft_config.id,
        env_of_config(c).raft_config.sled_tree_prefix == c.raft_config.sled_tree_prefix,
{
}

/// Each setting read from the environment is the environment setting it stands for.
pub proof fn lemma_config_of_env_fields(e: ConfigViaEnv)
    ensures
        config_of_env(e).config_file == e.metasrv_config_file,
        config_of_env(e).log_level == e.metasrv_log_level,
        config_of_env(e).log_dir == e.metasrv_log_dir,
        config_of_env(e).metric_api_address == e.metasrv_metric_api_address,
        config_of_env(e).admin_api_address == e.admin_api_address,
        config_of_env(e).admin_tls_server_cert == e.admin_tls_server_cert,
        config_of_env(e).admin_tls_server_key == e.admin_tls_server_key,
        config_of_env(e).grpc_api_address == e.metasrv_grpc_api_address,
        config_of_env(e).grpc_tls_server_cert == e.grpc_tls_server_cert,
        config_of_env(e).grpc_tls_server_key == e.grpc_tls_server_key,
        config_of_env(e).raft_config.config_id == e.raft_config.config_id,
        config_of_env(e).raft_config.raft_listen_host == e.raft_config.kvsrv_listen_host,
        config_of_env(e).raft_config.raft_advertise_host == e.raft_config.kvsrv_advertise_host,
        config_of_env(e).raft_config.raft_api_port == e.raft_config.kvsrv_api_port,
        config_of_env(e).raft_config.raft_dir == e.raft_config.kvsrv_raft_dir,
        config_of_env(e).raft_config.no_sync == e.raft_config.kvsrv_no_sync,
        config_of_env(e).raft_config.snapshot_logs_since_last == e.raft_config.kvsrv_snapshot_logs_since_last,
        config_of_env(e).raft_config.heartbeat_interval == e.raft_config.kvsrv_heartbeat_intervalt,
        config_of_env(e).raft_config.install_snapshot_timeout == e.raft_config.kvsrv_install_snapshot_timeout,
        config_of_env(e).raft_config.max_applied_log_to_keep == e.raft_config.raft_max_applied_log_to_keep,
        config_of_env(e).raft_config.single == e.raft_config.kvsrv_single,
        config_of_env(e).raft_config.join == e.raft_config.metasrv_join,
        config_of_env(e).raft_config.id == e.raft_config.kvsrv_id,
        config_of_env(e).raft_config.sled_tree_prefix == e.raft_config.sled_tree_prefix,
{
}

/// Given raft settings are accepted by the service exactly when they do not
/// both join a cluster and start a single-node one.
pub proof fn lemma_raft_config_validity(c: RaftConfig)
    ensures
        c.spec_is_valid() <==> !(c.join@.len() > 0 && c.single),
        c.join@.len() == 0 ==> c.spec_is_valid(),
{
}

/// Given settings are accepted by the service exactly when their raft
/// settings do not both join a cluster and start a single-node one.
pub proof fn lemma_config_validity(c: Config)
    ensures
        c.spec_is_valid() <==> !(c.raft_config.join@.len() > 0 && c.raft_config.single),
{
}

/// The default settings pass the service's check: they convert without error.
pub proof fn lemma_default_is_valid(c: Config)
    requires
        c.spec_is_default(),
    ensures
        c.spec_is_valid(),
        c.raft_config.spec_is_default(),
{
}

} // verus!
