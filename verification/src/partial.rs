//! The sparse configuration record that every source produces.

use std::time::Duration;
use vstd::prelude::*;
use crate::slots::ConfigSlots;
use crate::timeout::{is_timeout, timeout_of};

verus! {

/// What one source says of the configuration: a slot per field, absent where
/// the source says nothing of the field. No value is checked here; an
/// endpoint or a path is kept as the string that the source gave.
#[derive(Debug, PartialEq, Eq)]
pub struct PartialConfig {
    storage: Option<String>,
    transport: Option<String>,
    cert_dir: Option<String>,
    ca_certs: Option<String>,
    client_cert: Option<String>,
    client_key: Option<String>,
    server_cert: Option<String>,
    server_key: Option<String>,
    service_endpoint: Option<String>,
    network_endpoint: Option<String>,
    peers: Option<Vec<String>>,
    node_id: Option<String>,
    bind: Option<String>,
    database: Option<String>,
    registry_backend: Option<String>,
    registry_file: Option<String>,
    heartbeat_interval: Option<u64>,
    admin_service_coordinator_timeout: Option<u64>,
    state_dir: Option<String>,
}

impl View for PartialConfig {
    type V = ConfigSlots;

    closed spec fn view(&self) -> ConfigSlots {
        ConfigSlots {
            storage: self.storage.deep_view(),
            transport: self.transport.deep_view(),
            cert_dir: self.cert_dir.deep_view(),
            ca_certs: self.ca_certs.deep_view(),
            client_cert: self.client_cert.deep_view(),
            client_key: self.client_key.deep_view(),
            server_cert: self.server_cert.deep_view(),
            server_key: self.server_key.deep_view(),
            service_endpoint: self.service_endpoint.deep_view(),
            network_endpoint: self.network_endpoint.deep_view(),
            peers: self.peers.deep_view(),
            node_id: self.node_id.deep_view(),
            bind: self.bind.deep_view(),
            database: self.database.deep_view(),
            registry_backend: self.registry_backend.deep_view(),
            registry_file: self.registry_file.deep_view(),
            heartbeat_interval: self.heartbeat_interval,
            admin_service_coordinator_timeout: self.admin_service_coordinator_timeout,
            state_dir: self.state_dir.deep_view(),
        }
    }
}

impl DeepView for PartialConfig {
    type V = ConfigSlots;

    open spec fn deep_view(&self) -> ConfigSlots {
        self@
    }
}

impl Default for PartialConfig {
    /// The record of a source that says nothing: every slot is absent.
    fn default() -> (config: Self)
        ensures
            config@ == ConfigSlots::absent(),
    {
        PartialConfig {
            storage: None,
            transport: None,
            cert_dir: None,
            ca_certs: None,
            client_cert: None,
            client_key: None,
            server_cert: None,
            server_key: None,
            service_endpoint: None,
            network_endpoint: None,
            peers: None,
            node_id: None,
            bind: None,
            database: None,
            registry_backend: None,
            registry_file: None,
            heartbeat_interval: None,
            admin_service_coordinator_timeout: None,
            state_dir: None,
        }
    }
}

impl Clone for PartialConfig {
    fn clone(&self) -> (copy: Self)
        ensures
            copy@ == self@,
    {
        PartialConfig {
            storage: self.storage(),
            transport: self.transport(),
            cert_dir: self.cert_dir(),
            ca_certs: self.ca_certs(),
            client_cert: self.client_cert(),
            client_key: self.client_key(),
            server_cert: self.server_cert(),
            server_key: self.server_key(),
            service_endpoint: self.service_endpoint(),
            network_endpoint: self.network_endpoint(),
            peers: self.peers(),
            node_id: self.node_id(),
            bind: self.bind(),
            database: self.database(),
            registry_backend: self.registry_backend(),
            registry_file: self.registry_file(),
            heartbeat_interval: self.heartbeat_interval(),
            admin_service_coordinator_timeout: self.admin_service_coordinator_timeout,
            state_dir: self.state_dir(),
        }
    }
}

impl PartialConfig {
    /// The name of the storage backend, where the source gave it.
    pub fn storage(&self) -> (value: Option<String>)
        ensures
            value.deep_view() == self@.storage,
    {
        self.storage.clone()
    }

    /// The name of the transport, where the source gave it.
    pub fn transport(&self) -> (value: Option<String>)
        ensures
            value.deep_view() == self@.transport,
    {
        self.transport.clone()
    }

    /// The directory that holds the TLS material, where the source gave it.
    pub fn cert_dir(&self) -> (value: Option<String>)
        ensures
            value.deep_view() == self@.cert_dir,
    {
        self.cert_dir.clone()
    }

    /// The path of the trusted CA certificates, where the source gave it.
    pub fn ca_certs(&self) -> (value: Option<String>)
        ensures
            value.deep_view() == self@.ca_certs,
    {
        self.ca_certs.clone()
    }

    /// The path of the client certificate, where the source gave it.
    pub fn client_cert(&self) -> (value: Option<String>)
        ensures
            value.deep_view() == self@.client_cert,
    {
        self.client_cert.clone()
    }

    /// The path of the client's private key, where the source gave it.
    pub fn client_key(&self) -> (value: Option<String>)
        ensures
            value.deep_view() == self@.client_key,
    {
        self.client_key.clone()
    }

    /// The path of the server certificate, where the source gave it.
    pub fn server_cert(&self) -> (value: Option<String>)
        ensures
            value.deep_view() == self@.server_cert,
    {
        self.server_cert.clone()
    }

    /// The path of the server's private key, where the source gave it.
    pub fn server_key(&self) -> (value: Option<String>)
        ensures
            value.deep_view() == self@.server_key,
    {
        self.server_key.clone()
    }

    /// The endpoint that services connect to, where the source gave it.
    pub fn service_endpoint(&self) -> (value: Option<String>)
        ensures
            value.deep_view() == self@.service_endpoint,
    {
        self.service_endpoint.clone()
    }

    /// The endpoint that other nodes connect to, where the source gave it.
    pub fn network_endpoint(&self) -> (value: Option<String>)
        ensures
            value.deep_view() == self@.network_endpoint,
    {
        self.network_endpoint.clone()
    }

    /// The endpoints of the peers to connect to at start-up, where the source gave it.
    pub fn peers(&self) -> (value: Option<Vec<String>>)
        ensures
            value.deep_view() == self@.peers,
    {
        self.peers.clone()
    }

    /// The identity of the node, where the source gave it.
    pub fn node_id(&self) -> (value: Option<String>)
        ensures
            value.deep_view() == self@.node_id,
    {
        self.node_id.clone()
    }

    /// The endpoint that the REST API binds to, where the source gave it.
    pub fn bind(&self) -> (value: Option<String>)
        ensures
            value.deep_view() == self@.bind,
    {
        self.bind.clone()
    }

    /// The connection string of the database, where the source gave it.
    pub fn database(&self) -> (value: Option<String>)
        ensures
            value.deep_view() == self@.database,
    {
        self.database.clone()
    }

    /// The kind of registry backend, where the source gave it.
    pub fn registry_backend(&self) -> (value: Option<String>)
        ensures
            value.deep_view() == self@.registry_backend,
    {
        self.registry_backend.clone()
    }

    /// The file behind the registry backend, where the source gave it.
    pub fn registry_file(&self) -> (value: Option<String>)
        ensures
            value.deep_view() == self@.registry_file,
    {
        self.registry_file.clone()
    }

    /// The heartbeat interval, in seconds, where the source gave it.
    pub fn heartbeat_interval(&self) -> (value: Option<u64>)
        ensures
            value == self@.heartbeat_interval,
    {
        self.heartbeat_interval
    }

    /// The coordinator timeout of the admin service, where the source gave it. The record keeps
    /// it in milliseconds and hands it out as a duration.
    pub fn admin_service_coordinator_timeout(&self) -> (value: Option<Duration>)
        ensures
            is_timeout(value, self@.admin_service_coordinator_timeout),
    {
        timeout_of(self.admin_service_coordinator_timeout)
    }

    /// The directory that holds the daemon's state, where the source gave it.
    pub fn state_dir(&self) -> (value: Option<String>)
        ensures
            value.deep_view() == self@.state_dir,
    {
        self.state_dir.clone()
    }

    /// Sets the name of the storage backend, or makes the slot absent.
    pub fn with_storage(self, storage: Option<String>) -> (config: Self)
        ensures
            config@ == (ConfigSlots { storage: storage.deep_view(), ..self@ }),
    {
        PartialConfig { storage, ..self }
    }

    /// Sets the name of the transport, or makes the slot absent.
    pub fn with_transport(self, transport: Option<String>) -> (config: Self)
        ensures
            config@ == (ConfigSlots { transport: transport.deep_view(), ..self@ }),
    {
        PartialConfig { transport, ..self }
    }

    /// Sets the directory that holds the TLS material, or makes the slot absent.
    pub fn with_cert_dir(self, cert_dir: Option<String>) -> (config: Self)
        ensures
            config@ == (ConfigSlots { cert_dir: cert_dir.deep_view(), ..self@ }),
    {
        PartialConfig { cert_dir, ..self }
    }

    /// Sets the path of the trusted CA certificates, or makes the slot absent.
    pub fn with_ca_certs(self, ca_certs: Option<String>) -> (config: Self)
        ensures
            config@ == (ConfigSlots { ca_certs: ca_certs.deep_view(), ..self@ }),
    {
        PartialConfig { ca_certs, ..self }
    }

    /// Sets the path of the client certificate, or makes the slot absent.
    pub fn with_client_cert(self, client_cert: Option<String>) -> (config: Self)
        ensures
            config@ == (ConfigSlots { client_cert: client_cert.deep_view(), ..self@ }),
    {
        PartialConfig { client_cert, ..self }
    }

    /// Sets the path of the client's private key, or makes the slot absent.
    pub fn with_client_key(self, client_key: Option<String>) -> (config: Self)
        ensures
            config@ == (ConfigSlots { client_key: client_key.deep_view(), ..self@ }),
    {
        PartialConfig { client_key, ..self }
    }

    /// Sets the path of the server certificate, or makes the slot absent.
    pub fn with_server_cert(self, server_cert: Option<String>) -> (config: Self)
        ensures
            config@ == (ConfigSlots { server_cert: server_cert.deep_view(), ..self@ }),
    {
        PartialConfig { server_cert, ..self }
    }

    /// Sets the path of the server's private key, or makes the slot absent.
    pub fn with_server_key(self, server_key: Option<String>) -> (config: Self)
        ensures
            config@ == (ConfigSlots { server_key: server_key.deep_view(), ..self@ }),
    {
        PartialConfig { server_key, ..self }
    }

    /// Sets the endpoint that services connect to, or makes the slot absent.
    pub fn with_service_endpoint(self, service_endpoint: Option<String>) -> (config: Self)
        ensures
            config@ == (ConfigSlots { service_endpoint: service_endpoint.deep_view(), ..self@ }),
    {
        PartialConfig { service_endpoint, ..self }
    }

    /// Sets the endpoint that other nodes connect to, or makes the slot absent.
    pub fn with_network_endpoint(self, network_endpoint: Option<String>) -> (config: Self)
        ensures
            config@ == (ConfigSlots { network_endpoint: network_endpoint.deep_view(), ..self@ }),
    {
        PartialConfig { network_endpoint, ..self }
    }

    /// Sets the endpoints of the peers to connect to at start-up, or makes the slot absent.
    pub fn with_peers(self, peers: Option<Vec<String>>) -> (config: Self)
        ensures
            config@ == (ConfigSlots { peers: peers.deep_view(), ..self@ }),
    {
        PartialConfig { peers, ..self }
    }

    /// Sets the identity of the node, or makes the slot absent.
    pub fn with_node_id(self, node_id: Option<String>) -> (config: Self)
        ensures
            config@ == (ConfigSlots { node_id: node_id.deep_view(), ..self@ }),
    {
        PartialConfig { node_id, ..self }
    }

    /// Sets the endpoint that the REST API binds to, or makes the slot absent.
    pub fn with_bind(self, bind: Option<String>) -> (config: Self)
        ensures
            config@ == (ConfigSlots { bind: bind.deep_view(), ..self@ }),
    {
        PartialConfig { bind, ..self }
    }

    /// Sets the connection string of the database, or makes the slot absent.
    pub fn with_database(self, database: Option<String>) -> (config: Self)
        ensures
            config@ == (ConfigSlots { database: database.deep_view(), ..self@ }),
    {
        PartialConfig { database, ..self }
    }

    /// Sets the kind of registry backend, or makes the slot absent.
    pub fn with_registry_backend(self, registry_backend: Option<String>) -> (config: Self)
        ensures
            config@ == (ConfigSlots { registry_backend: registry_backend.deep_view(), ..self@ }),
    {
        PartialConfig { registry_backend, ..self }
    }

    /// Sets the file behind the registry backend, or makes the slot absent.
    pub fn with_registry_file(self, registry_file: Option<String>) -> (config: Self)
        ensures
            config@ == (ConfigSlots { registry_file: registry_file.deep_view(), ..self@ }),
    {
        PartialConfig { registry_file, ..self }
    }

    /// Sets the heartbeat interval, in seconds, or makes the slot absent.
    pub fn with_heartbeat_interval(self, heartbeat_interval: Option<u64>) -> (config: Self)
        ensures
            config@ == (ConfigSlots { heartbeat_interval: heartbeat_interval, ..self@ }),
    {
        PartialConfig { heartbeat_interval, ..self }
    }

    /// Sets the coordinator timeout of the admin service, in milliseconds, or makes the
    /// slot absent.
    pub fn with_admin_service_coordinator_timeout(self, timeout: Option<u64>) -> (config: Self)
        ensures
            config@ == (ConfigSlots { admin_service_coordinator_timeout: timeout, ..self@ }),
    {
        PartialConfig { admin_service_coordinator_timeout: timeout, ..self }
    }

    /// Sets the directory that holds the daemon's state, or makes the slot absent.
    pub fn with_state_dir(self, state_dir: Option<String>) -> (config: Self)
        ensures
            config@ == (ConfigSlots { state_dir: state_dir.deep_view(), ..self@ }),
    {
        PartialConfig { state_dir, ..self }
    }

    /// The coordinator timeout of the admin service as the record keeps it,
    /// in milliseconds.
    pub(crate) fn admin_service_coordinator_timeout_millis(&self) -> (value: Option<u64>)
        ensures
            value == self@.admin_service_coordinator_timeout,
    {
        self.admin_service_coordinator_timeout
    }
}

} // verus!
