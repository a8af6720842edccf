//! The defaults: the source of lowest precedence.

use vstd::prelude::*;
use crate::merge_laws::merge_of_one;
use crate::partial::PartialConfig;
use crate::slots::{merged, ConfigSlots};
use crate::source::{ConfigError, PartialConfigBuilder};

verus! {

pub const DEFAULT_STORAGE: &'static str = "yaml";

pub const DEFAULT_TRANSPORT: &'static str = "raw";

pub const DEFAULT_CERT_DIR: &'static str = "/etc/splinter/certs/";

pub const DEFAULT_STATE_DIR: &'static str = "/var/lib/splinter/";

pub const DEFAULT_SERVICE_ENDPOINT: &'static str = "127.0.0.1:8043";

pub const DEFAULT_NETWORK_ENDPOINT: &'static str = "127.0.0.1:8044";

pub const DEFAULT_BIND: &'static str = "127.0.0.1:8080";

pub const DEFAULT_DATABASE: &'static str = "127.0.0.1:5432";

pub const CLIENT_CERT: &'static str = "client.crt";

pub const CLIENT_KEY: &'static str = "private/client.key";

pub const SERVER_CERT: &'static str = "server.crt";

pub const SERVER_KEY: &'static str = "private/server.key";

pub const CA_PEM: &'static str = "ca.pem";

/// In seconds.
pub const HEARTBEAT_DEFAULT: u64 = 30;

pub const DEFAULT_ADMIN_SERVICE_COORDINATOR_TIMEOUT_MILLIS: u64 = 30000;

/// The path of `file` under the directory `dir`. An absolute `file` stands
/// for itself. Any other is appended to `dir`, after a `/` where `dir` is
/// not empty and does not end in one.
pub open spec fn joined_path(dir: Seq<char>, file: Seq<char>) -> Seq<char> {
    if file.len() > 0 && file[0] == '/' {
        file
    } else if dir.len() > 0 && dir.last() != '/' {
        dir + seq!['/'] + file
    } else {
        dir + file
    }
}

/// The path of a certificate file, from the certificate directory and the
/// name of the file in it. The path is always given, whether or not a file
/// is there: nothing on disk is looked at.
pub fn get_cert_file_path(cert_dir: &str, file: &str) -> (path: Option<String>)
    ensures
        path.deep_view() == Some(joined_path(cert_dir@, file@)),
{
    let dir_len: usize = cert_dir.unicode_len();
    let file_len: usize = file.unicode_len();
    if file_len > 0 && file.get_char(0) == '/' {
        Some(file.to_owned())
    } else if dir_len > 0 && cert_dir.get_char(dir_len - 1) != '/' {
        proof {
            reveal_strlit("/");
            assert("/"@ =~= seq!['/']);
        }
        Some(cert_dir.to_owned().concat("/").concat(file))
    } else {
        Some(cert_dir.to_owned().concat(file))
    }
}

/// The record of the defaults. The node's identity and the registry have no
/// default; neither has the database, unless it is asked for.
pub open spec fn default_slots() -> ConfigSlots {
    ConfigSlots {
        storage: Some(DEFAULT_STORAGE@),
        transport: Some(DEFAULT_TRANSPORT@),
        cert_dir: Some(DEFAULT_CERT_DIR@),
        ca_certs: Some(joined_path(DEFAULT_CERT_DIR@, CA_PEM@)),
        client_cert: Some(joined_path(DEFAULT_CERT_DIR@, CLIENT_CERT@)),
        client_key: Some(joined_path(DEFAULT_CERT_DIR@, CLIENT_KEY@)),
        server_cert: Some(joined_path(DEFAULT_CERT_DIR@, SERVER_CERT@)),
        server_key: Some(joined_path(DEFAULT_CERT_DIR@, SERVER_KEY@)),
        service_endpoint: Some(DEFAULT_SERVICE_ENDPOINT@),
        network_endpoint: Some(DEFAULT_NETWORK_ENDPOINT@),
        peers: Some(Seq::empty()),
        node_id: None,
        bind: Some(DEFAULT_BIND@),
        database: None,
        registry_backend: None,
        registry_file: None,
        heartbeat_interval: Some(HEARTBEAT_DEFAULT),
        admin_service_coordinator_timeout: Some(DEFAULT_ADMIN_SERVICE_COORDINATOR_TIMEOUT_MILLIS),
        state_dir: Some(DEFAULT_STATE_DIR@),
    }
}

/// Holds the default configuration values.
pub struct DefaultConfig {
    storage: Option<String>,
    transport: Option<String>,
    cert_dir: Option<String>,
    ca_certs: Option<String>,
    client_cert: Option<String>,
    client_key: Option<String>,
    server_cert: Option<String>,
    server_key: Option<String>,
    service_endpoint: Option<String>,
    network_endpoint: Option<String>,
    peers: Option<Vec<String>>,
    node_id: Option<String>,
    bind: Option<String>,
    database: Option<String>,
    registry_backend: Option<String>,
    registry_file: Option<String>,
    heartbeat_interval: Option<u64>,
    admin_service_coordinator_timeout: Option<u64>,
    state_dir: Option<String>,
}

impl View for DefaultConfig {
    type V = ConfigSlots;

    closed spec fn view(&self) -> ConfigSlots {
        ConfigSlots {
            storage: self.storage.deep_view(),
            transport: self.transport.deep_view(),
            cert_dir: self.cert_dir.deep_view(),
            ca_certs: self.ca_certs.deep_view(),
            client_cert: self.client_cert.deep_view(),
            client_key: self.client_key.deep_view(),
            server_cert: self.server_cert.deep_view(),
            server_key: self.server_key.deep_view(),
            service_endpoint: self.service_endpoint.deep_view(),
            network_endpoint: self.network_endpoint.deep_view(),
            peers: self.peers.deep_view(),
            node_id: self.node_id.deep_view(),
            bind: self.bind.deep_view(),
            database: self.database.deep_view(),
            registry_backend: self.registry_backend.deep_view(),
            registry_file: self.registry_file.deep_view(),
            heartbeat_interval: self.heartbeat_interval,
            admin_service_coordinator_timeout: self.admin_service_coordinator_timeout,
            state_dir: self.state_dir.deep_view(),
        }
    }
}

impl DefaultConfig {
    /// The defaults of a daemon without a database. Each certificate path
    /// is the certificate directory joined with the name of the file in it,
    /// whether or not such a file is there.
    pub fn new() -> (defaults: Self)
        ensures
            defaults@ == default_slots(),
            defaults@.cert_dir is Some,
            defaults@.ca_certs == Some(joined_path(defaults@.cert_dir->0, CA_PEM@)),
            defaults@.client_cert == Some(joined_path(defaults@.cert_dir->0, CLIENT_CERT@)),
            defaults@.client_key == Some(joined_path(defaults@.cert_dir->0, CLIENT_KEY@)),
            defaults@.server_cert == Some(joined_path(defaults@.cert_dir->0, SERVER_CERT@)),
            defaults@.server_key == Some(joined_path(defaults@.cert_dir->0, SERVER_KEY@)),
    {
        let defaults = DefaultConfig {
            storage: Some(DEFAULT_STORAGE.to_owned()),
            transport: Some(DEFAULT_TRANSPORT.to_owned()),
            cert_dir: Some(DEFAULT_CERT_DIR.to_owned()),
            ca_certs: get_cert_file_path(DEFAULT_CERT_DIR, CA_PEM),
            client_cert: get_cert_file_path(DEFAULT_CERT_DIR, CLIENT_CERT),
            client_key: get_cert_file_path(DEFAULT_CERT_DIR, CLIENT_KEY),
            server_cert: get_cert_file_path(DEFAULT_CERT_DIR, SERVER_CERT),
            server_key: get_cert_file_path(DEFAULT_CERT_DIR, SERVER_KEY),
            service_endpoint: Some(DEFAULT_SERVICE_ENDPOINT.to_owned()),
            network_endpoint: Some(DEFAULT_NETWORK_ENDPOINT.to_owned()),
            peers: Some(vec![]),
            node_id: None,
            bind: Some(DEFAULT_BIND.to_owned()),
            database: None,
            registry_backend: None,
            registry_file: None,
            heartbeat_interval: Some(HEARTBEAT_DEFAULT),
            admin_service_coordinator_timeout: Some(
                DEFAULT_ADMIN_SERVICE_COORDINATOR_TIMEOUT_MILLIS,
            ),
            state_dir: Some(DEFAULT_STATE_DIR.to_owned()),
        };
        assert(defaults@.peers =~= default_slots().peers);
        defaults
    }

    /// The same defaults for a daemon with a database: the default
    /// connection string is added.
    pub fn with_database(self) -> (defaults: Self)
        ensures
            defaults@ == (ConfigSlots { database: Some(DEFAULT_DATABASE@), ..self@ }),
    {
        DefaultConfig { database: Some(DEFAULT_DATABASE.to_owned()), ..self }
    }
}

impl PartialConfigBuilder for DefaultConfig {
    /// The record of the defaults. This source never fails.
    fn build(self) -> (built: Result<PartialConfig, ConfigError>)
        ensures
            built matches Ok(config) && config@ == self@,
    {
        let partial_config = PartialConfig::default()
            .with_storage(self.storage)
            .with_transport(self.transport)
            .with_cert_dir(self.cert_dir)
            .with_ca_certs(self.ca_certs)
            .with_client_cert(self.client_cert)
            .with_client_key(self.client_key)
            .with_server_cert(self.server_cert)
            .with_server_key(self.server_key)
            .with_service_endpoint(self.service_endpoint)
            .with_network_endpoint(self.network_endpoint)
            .with_peers(self.peers)
            .with_node_id(self.node_id)
            .with_bind(self.bind)
            .with_registry_backend(self.registry_backend)
            .with_registry_file(self.registry_file)
            .with_heartbeat_interval(self.heartbeat_interval)
            .with_admin_service_coordinator_timeout(self.admin_service_coordinator_timeout)
            .with_state_dir(self.state_dir)
            .with_database(self.database);
        Ok(partial_config)
    }
}

/// The defaults, written out. The default certificate directory ends in a
/// `/` and no file name starts with one, so each certificate path is the
/// directory followed by the name.
pub proof fn default_values()
    ensures
        default_slots() == (ConfigSlots {
            storage: Some("yaml"@),
            transport: Some("raw"@),
            cert_dir: Some("/etc/splinter/certs/"@),
            ca_certs: Some("/etc/splinter/certs/ca.pem"@),
            client_cert: Some("/etc/splinter/certs/client.crt"@),
            client_key: Some("/etc/splinter/certs/private/client.key"@),
            server_cert: Some("/etc/splinter/certs/server.crt"@),
            server_key: Some("/etc/splinter/certs/private/server.key"@),
            service_endpoint: Some("127.0.0.1:8043"@),
            network_endpoint: Some("127.0.0.1:8044"@),
            peers: Some(Seq::empty()),
            node_id: None,
            bind: Some("127.0.0.1:8080"@),
            database: None,
            registry_backend: None,
            registry_file: None,
            heartbeat_interval: Some(30),
            admin_service_coordinator_timeout: Some(30000),
            state_dir: Some("/var/lib/splinter/"@),
        }),
{
    reveal_strlit("/etc/splinter/certs/");
    reveal_strlit("ca.pem");
    reveal_strlit("client.crt");
    reveal_strlit("private/client.key");
    reveal_strlit("server.crt");
    reveal_strlit("private/server.key");
    reveal_strlit("/etc/splinter/certs/ca.pem");
    reveal_strlit("/etc/splinter/certs/client.crt");
    reveal_strlit("/etc/splinter/certs/private/client.key");
    reveal_strlit("/etc/splinter/certs/server.crt");
    reveal_strlit("/etc/splinter/certs/private/server.key");
    assert(joined_path(DEFAULT_CERT_DIR@, CA_PEM@) =~= "/etc/splinter/certs/ca.pem"@);
    assert(joined_path(DEFAULT_CERT_DIR@, CLIENT_CERT@) =~= "/etc/splinter/certs/client.crt"@);
    assert(joined_path(DEFAULT_CERT_DIR@, CLIENT_KEY@)
        =~= "/etc/splinter/certs/private/client.key"@);
    assert(joined_path(DEFAULT_CERT_DIR@, SERVER_CERT@) =~= "/etc/splinter/certs/server.crt"@);
    assert(joined_path(DEFAULT_CERT_DIR@, SERVER_KEY@)
        =~= "/etc/splinter/certs/private/server.key"@);
}

/// With the defaults as the only source, the merge is the defaults, field
/// for field: what they set is set to the same value, and what they leave
/// absent stays absent.
pub proof fn merge_of_defaults()
    ensures
        merged(seq![default_slots()]) == default_slots(),
{
    merge_of_one(default_slots());
}

} // verus!
