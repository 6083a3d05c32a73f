//! The settings of a meta service node in the form the service itself uses,
//! with their defaults and the check that the service makes of them.

use vstd::prelude::*;

use crate::error::MetaError;

verus! {

/// The raft settings of a meta service node as the service itself uses them.
#[derive(Debug, Clone, PartialEq, Eq)]
pub struct RaftConfig {
    pub config_id: String,
    pub raft_listen_host: String,
    pub raft_advertise_host: String,
    pub raft_api_port: u32,
    pub raft_dir: String,
    pub no_sync: bool,
    pub snapshot_logs_since_last: u64,
    pub heartbeat_interval: u64,
    pub install_snapshot_timeout: u64,
    pub max_applied_log_to_keep: u64,
    pub single: bool,
    pub join: Vec<String>,
    pub id: u64,
    pub sled_tree_prefix: String,
}

/// The text of the error that `check` reports.
pub open spec fn join_and_single_message() -> Seq<char> {
    "--join and --single can not be both set"@
}

impl RaftConfig {
    /// A node may not both join a cluster and start a cluster of its own.
    pub open spec fn spec_is_valid(&self) -> bool {
        !(self.join@.len() > 0 && self.single)
    }

    /// The values that a node uses when nothing else is given.
    pub open spec fn spec_is_default(&self) -> bool {
        &&& self.config_id@ == ""@
        &&& self.raft_listen_host@ == "127.0.0.1"@
        &&& self.raft_advertise_host@ == "localhost"@
        &&& self.raft_api_port == 28004
        &&& self.raft_dir@ == "./.databend/meta"@
        &&& !self.no_sync
        &&& self.snapshot_logs_since_last == 1024
        &&& self.heartbeat_interval == 1000
        &&& self.install_snapshot_timeout == 4000
        &&& self.max_applied_log_to_keep == 1000
        &&& !self.single
        &&& self.join@.len() == 0
        &&& self.id == 0
        &&& self.sled_tree_prefix@ == ""@
    }

    /// Rejects a configuration that sets both `join` and `single`.
    pub fn check(&self) -> (r: Result<(), MetaError>)
        ensures
            r is Ok <==> self.spec_is_valid(),
            r is Err <==> (self.join@.len() > 0 && self.single),
            r matches Err(e) ==> (e matches MetaError::InvalidConfig(m) && m@
                == join_and_single_message()),
    {
        if self.join.len() > 0 && self.single {
            return Err(MetaError::InvalidConfig("--join and --single can not be both set".to_owned()));
        }
        Ok(())
    }
}

/// The service's check rejects raft settings exactly when they both join a
/// cluster and start a single-node one; without a list to join, any settings
/// pass, whatever `single` and `id` are.
pub proof fn lemma_raft_config_validity(c: RaftConfig)
    ensures
        c.spec_is_valid() <==> !(c.join@.len() > 0 && c.single),
        c.join@.len() == 0 ==> c.spec_is_valid(),
        !c.single ==> c.spec_is_valid(),
{
}

impl Default for RaftConfig {
    fn default() -> (r: Self)
        ensures
            r.spec_is_default(),
    {
        RaftConfig {
            config_id: "".to_owned(),
            raft_listen_host: "127.0.0.1".to_owned(),
            raft_advertise_host: "localhost".to_owned(),
            raft_api_port: 28004,
            raft_dir: "./.databend/meta".to_owned(),
            no_sync: false,
            snapshot_logs_since_last: 1024,
            heartbeat_interval: 1000,
            install_snapshot_timeout: 4000,
            max_applied_log_to_keep: 1000,
            single: false,
            join: Vec::new(),
            id: 0,
            sled_tree_prefix: "".to_owned(),
        }
    }
}

/// The settings of a meta service node as the service itself uses them.
#[derive(Debug, Clone, PartialEq, Eq)]
pub struct Config {
    pub config_file: String,
    pub log_level: String,
    pub log_dir: String,
    pub metric_api_address: String,
    pub admin_api_address: String,
    pub admin_tls_server_cert: String,
    pub admin_tls_server_key: String,
    pub grpc_api_address: String,
    pub grpc_tls_server_cert: String,
    pub grpc_tls_server_key: String,
    pub raft_config: RaftConfig,
}

impl Config {
    /// The values that a node uses when nothing else is given.
    pub open spec fn spec_is_default(&self) -> bool {
        &&& self.config_file@ == ""@
        &&& self.log_level@ == "INFO"@
        &&& self.log_dir@ == "./.databend/logs"@
        &&& self.metric_api_address@ == "127.0.0.1:28001"@
        &&& self.admin_api_address@ == "127.0.0.1:28002"@
        &&& self.admin_tls_server_cert@ == ""@
        &&& self.admin_tls_server_key@ == ""@
        &&& self.grpc_api_address@ == "127.0.0.1:9191"@
        &&& self.grpc_tls_server_cert@ == ""@
        &&& self.grpc_tls_server_key@ == ""@
        &&& self.raft_config.spec_is_default()
    }
}

impl Default for Config {
    fn default() -> (r: Self)
        ensures
            r.spec_is_default(),
    {
        Config {
            config_file: "".to_owned(),
            log_level: "INFO".to_owned(),
            log_dir: "./.databend/logs".to_owned(),
            metric_api_address: "127.0.0.1:28001".to_owned(),
            admin_api_address: "127.0.0.1:28002".to_owned(),
            admin_tls_server_cert: "".to_owned(),
            admin_tls_server_key: "".to_owned(),
            grpc_api_address: "127.0.0.1:9191".to_owned(),
            grpc_tls_server_cert: "".to_owned(),
            grpc_tls_server_key: "".to_owned(),
            raft_config: RaftConfig::default(),
        }
    }
}

} // verus!
