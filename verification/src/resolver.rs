//! Merging the records of the sources into the configuration of the daemon.

use std::time::Duration;
use vstd::prelude::*;
use crate::merge_laws::{merged_push, merged_slot, overlay_absent};
use crate::partial::PartialConfig;
use crate::slots::{first_present, merged, ConfigSlots, Field};
use crate::source::ConfigError;
use crate::timeout::{is_timeout, timeout_of};

verus! {

/// The configuration that the daemon starts with: what merging the records
/// of the sources gave. A field is present here exactly where a source gave
/// it. Whether a field that the daemon cannot do without is among them is
/// for the reader of the field to decide.
#[derive(Debug, PartialEq, Eq)]
pub struct ResolvedConfig {
    storage: Option<String>,
    transport: Option<String>,
    cert_dir: Option<String>,
    ca_certs: Option<String>,
    client_cert: Option<String>,
    client_key: Option<String>,
    server_cert: Option<String>,
    server_key: Option<String>,
    service_endpoint: Option<String>,
    network_endpoint: Option<String>,
    peers: Option<Vec<String>>,
    node_id: Option<String>,
    bind: Option<String>,
    database: Option<String>,
    registry_backend: Option<String>,
    registry_file: Option<String>,
    heartbeat_interval: Option<u64>,
    admin_service_coordinator_timeout: Option<u64>,
    state_dir: Option<String>,
}

impl View for ResolvedConfig {
    type V = ConfigSlots;

    closed spec fn view(&self) -> ConfigSlots {
        ConfigSlots {
            storage: self.storage.deep_view(),
            transport: self.transport.deep_view(),
            cert_dir: self.cert_dir.deep_view(),
            ca_certs: self.ca_certs.deep_view(),
            client_cert: self.client_cert.deep_view(),
            client_key: self.client_key.deep_view(),
            server_cert: self.server_cert.deep_view(),
            server_key: self.server_key.deep_view(),
            service_endpoint: self.service_endpoint.deep_view(),
            network_endpoint: self.network_endpoint.deep_view(),
            peers: self.peers.deep_view(),
            node_id: self.node_id.deep_view(),
            bind: self.bind.deep_view(),
            database: self.database.deep_view(),
            registry_backend: self.registry_backend.deep_view(),
            registry_file: self.registry_file.deep_view(),
            heartbeat_interval: self.heartbeat_interval,
            admin_service_coordinator_timeout: self.admin_service_coordinator_timeout,
            state_dir: self.state_dir.deep_view(),
        }
    }
}

impl ResolvedConfig {
    /// The name of the storage backend, where a source gave it.
    pub fn storage(&self) -> (value: Option<String>)
        ensures
            value.deep_view() == self@.storage,
    {
        self.storage.clone()
    }

    /// The name of the transport, where a source gave it.
    pub fn transport(&self) -> (value: Option<String>)
        ensures
            value.deep_view() == self@.transport,
    {
        self.transport.clone()
    }

    /// The directory that holds the TLS material, where a source gave it.
    pub fn cert_dir(&self) -> (value: Option<String>)
        ensures
            value.deep_view() == self@.cert_dir,
    {
        self.cert_dir.clone()
    }

    /// The path of the trusted CA certificates, where a source gave it.
    pub fn ca_certs(&self) -> (value: Option<String>)
        ensures
            value.deep_view() == self@.ca_certs,
    {
        self.ca_certs.clone()
    }

    /// The path of the client certificate, where a source gave it.
    pub fn client_cert(&self) -> (value: Option<String>)
        ensures
            value.deep_view() == self@.client_cert,
    {
        self.client_cert.clone()
    }

    /// The path of the client's private key, where a source gave it.
    pub fn client_key(&self) -> (value: Option<String>)
        ensures
            value.deep_view() == self@.client_key,
    {
        self.client_key.clone()
    }

    /// The path of the server certificate, where a source gave it.
    pub fn server_cert(&self) -> (value: Option<String>)
        ensures
            value.deep_view() == self@.server_cert,
    {
        self.server_cert.clone()
    }

    /// The path of the server's private key, where a source gave it.
    pub fn server_key(&self) -> (value: Option<String>)
        ensures
            value.deep_view() == self@.server_key,
    {
        self.server_key.clone()
    }

    /// The endpoint that services connect to, where a source gave it.
    pub fn service_endpoint(&self) -> (value: Option<String>)
        ensures
            value.deep_view() == self@.service_endpoint,
    {
        self.service_endpoint.clone()
    }

    /// The endpoint that other nodes connect to, where a source gave it.
    pub fn network_endpoint(&self) -> (value: Option<String>)
        ensures
            value.deep_view() == self@.network_endpoint,
    {
        self.network_endpoint.clone()
    }

    /// The endpoints of the peers to connect to at start-up, where a source gave it.
    pub fn peers(&self) -> (value: Option<Vec<String>>)
        ensures
            value.deep_view() == self@.peers,
    {
        self.peers.clone()
    }

    /// The identity of the node, where a source gave it.
    pub fn node_id(&self) -> (value: Option<String>)
        ensures
            value.deep_view() == self@.node_id,
    {
        self.node_id.clone()
    }

    /// The endpoint that the REST API binds to, where a source gave it.
    pub fn bind(&self) -> (value: Option<String>)
        ensures
            value.deep_view() == self@.bind,
    {
        self.bind.clone()
    }

    /// The connection string of the database, where a source gave it.
    pub fn database(&self) -> (value: Option<String>)
        ensures
            value.deep_view() == self@.database,
    {
        self.database.clone()
    }

    /// The kind of registry backend, where a source gave it.
    pub fn registry_backend(&self) -> (value: Option<String>)
        ensures
            value.deep_view() == self@.registry_backend,
    {
        self.registry_backend.clone()
    }

    /// The file behind the registry backend, where a source gave it.
    pub fn registry_file(&self) -> (value: Option<String>)
        ensures
            value.deep_view() == self@.registry_file,
    {
        self.registry_file.clone()
    }

    /// The heartbeat interval, in seconds, where a source gave it.
    pub fn heartbeat_interval(&self) -> (value: Option<u64>)
        ensures
            value == self@.heartbeat_interval,
    {
        self.heartbeat_interval
    }

    /// The coordinator timeout of the admin service, where a source gave it.
    pub fn admin_service_coordinator_timeout(&self) -> (value: Option<Duration>)
        ensures
            is_timeout(value, self@.admin_service_coordinator_timeout),
    {
        timeout_of(self.admin_service_coordinator_timeout)
    }

    /// The directory that holds the daemon's state, where a source gave it.
    pub fn state_dir(&self) -> (value: Option<String>)
        ensures
            value.deep_view() == self@.state_dir,
    {
        self.state_dir.clone()
    }

    /// The configuration before any source was read.
    fn absent() -> (resolved: Self)
        ensures
            resolved@ == ConfigSlots::absent(),
    {
        ResolvedConfig {
            storage: None,
            transport: None,
            cert_dir: None,
            ca_certs: None,
            client_cert: None,
            client_key: None,
            server_cert: None,
            server_key: None,
            service_endpoint: None,
            network_endpoint: None,
            peers: None,
            node_id: None,
            bind: None,
            database: None,
            registry_backend: None,
            registry_file: None,
            heartbeat_interval: None,
            admin_service_coordinator_timeout: None,
            state_dir: None,
        }
    }

    /// Fills the slots that are still absent from a source of lower
    /// precedence than all that were read before.
    fn filled_from(self, source: &PartialConfig) -> (filled: Self)
        ensures
            filled@ == self@.overlay(source@),
    {
        ResolvedConfig {
            storage: match self.storage {
                Some(value) => Some(value),
                None => source.storage(),
            },
            transport: match self.transport {
                Some(value) => Some(value),
                None => source.transport(),
            },
            cert_dir: match self.cert_dir {
                Some(value) => Some(value),
                None => source.cert_dir(),
            },
            ca_certs: match self.ca_certs {
                Some(value) => Some(value),
                None => source.ca_certs(),
            },
            client_cert: match self.client_cert {
                Some(value) => Some(value),
                None => source.client_cert(),
            },
            client_key: match self.client_key {
                Some(value) => Some(value),
                None => source.client_key(),
            },
            server_cert: match self.server_cert {
                Some(value) => Some(value),
                None => source.server_cert(),
            },
            server_key: match self.server_key {
                Some(value) => Some(value),
                None => source.server_key(),
            },
            service_endpoint: match self.service_endpoint {
                Some(value) => Some(value),
                None => source.service_endpoint(),
            },
            network_endpoint: match self.network_endpoint {
                Some(value) => Some(value),
                None => source.network_endpoint(),
            },
            peers: match self.peers {
                Some(value) => Some(value),
                None => source.peers(),
            },
            node_id: match self.node_id {
                Some(value) => Some(value),
                None => source.node_id(),
            },
            bind: match self.bind {
                Some(value) => Some(value),
                None => source.bind(),
            },
            database: match self.database {
                Some(value) => Some(value),
                None => source.database(),
            },
            registry_backend: match self.registry_backend {
                Some(value) => Some(value),
                None => source.registry_backend(),
            },
            registry_file: match self.registry_file {
                Some(value) => Some(value),
                None => source.registry_file(),
            },
            heartbeat_interval: match self.heartbeat_interval {
                Some(value) => Some(value),
                None => source.heartbeat_interval(),
            },
            admin_service_coordinator_timeout: match self.admin_service_coordinator_timeout {
                Some(value) => Some(value),
                None => source.admin_service_coordinator_timeout_millis(),
            },
            state_dir: match self.state_dir {
                Some(value) => Some(value),
                None => source.state_dir(),
            },
        }
    }
}

/// What the sources count for in a merge, in their order: the record of a
/// source that gave one, and the record that says nothing for a source that
/// failed.
pub open spec fn produced(outcomes: Seq<Result<PartialConfig, ConfigError>>) -> Seq<ConfigSlots> {
    Seq::new(
        outcomes.len(),
        |index: int|
            match outcomes[index] {
                Ok(config) => config@,
                Err(_) => ConfigSlots::absent(),
            },
    )
}

/// Whether the source failed in a way that stops resolution.
pub open spec fn is_fatal_outcome(outcome: Result<PartialConfig, ConfigError>) -> bool {
    outcome matches Err(error) && error.is_fatal()
}

/// Whether the outcome at `index` is the first that stops resolution.
pub open spec fn is_first_fatal(
    outcomes: Seq<Result<PartialConfig, ConfigError>>,
    index: int,
) -> bool {
    &&& 0 <= index < outcomes.len()
    &&& is_fatal_outcome(outcomes[index])
    &&& forall|before: int| 0 <= before < index ==> !is_fatal_outcome(outcomes[before])
}

/// Merges the records of the sources.
pub struct ConfigResolver;

impl ConfigResolver {
    /// Merges the records of the sources, which stand in order of precedence,
    /// the highest first. Each field is resolved by itself: it has the value
    /// of the first source in which it is present, and is absent where no
    /// source has it. So one configuration may take different fields from
    /// different sources, and no field is combined from several: the list of
    /// peers too is that of one source. Any number of sources is merged, none
    /// included, and merging never fails.
    pub fn merge(sources: &[PartialConfig]) -> (resolved: ResolvedConfig)
        ensures
            resolved@ == merged(sources.deep_view()),
            forall|field: Field|
                resolved@.slot(field) == first_present(sources.deep_view(), field),
    {
        let ghost records = sources.deep_view();
        let mut resolved = ResolvedConfig::absent();
        let mut read: usize = 0;
        while read < sources.len()
            invariant
                read <= sources.len(),
                records == sources.deep_view(),
                resolved@ == merged(records.take(read as int)),
            decreases sources.len() - read,
        {
            proof {
                assert(records.take(read + 1) =~= records.take(read as int).push(
                    sources[read as int]@,
                ));
                merged_push(records.take(read as int), sources[read as int]@);
            }
            resolved = resolved.filled_from(&sources[read]);
            read += 1;
        }
        proof {
            assert(records.take(read as int) =~= records);
            assert forall|field: Field|
                resolved@.slot(field) == first_present(records, field) by {
                merged_slot(records, field);
            }
        }
        resolved
    }

    /// Resolves the configuration from what each source gave, in order of
    /// precedence, the highest first. A source that was unavailable counts as
    /// one that says nothing. A malformed source stops resolution: the error
    /// of the first such source is handed on as it is, and no configuration
    /// is given. Resolution fails for no other reason.
    pub fn resolve(outcomes: &[Result<PartialConfig, ConfigError>]) -> (resolution: Result<
        ResolvedConfig,
        ConfigError,
    >)
        ensures
            match resolution {
                Ok(resolved) => {
                    &&& forall|index: int|
                        0 <= index < outcomes@.len() ==> !is_fatal_outcome(outcomes@[index])
                    &&& resolved@ == merged(produced(outcomes@))
                },
                Err(error) => exists|index: int|
                    is_first_fatal(outcomes@, index) && outcomes@[index]->Err_0 == error,
            },
    {
        let ghost records = produced(outcomes@);
        let mut resolved = ResolvedConfig::absent();
        let mut read: usize = 0;
        while read < outcomes.len()
            invariant
                read <= outcomes.len(),
                records == produced(outcomes@),
                resolved@ == merged(records.take(read as int)),
                forall|index: int| 0 <= index < read ==> !is_fatal_outcome(outcomes@[index]),
            decreases outcomes.len() - read,
        {
            proof {
                assert(records.take(read + 1) =~= records.take(read as int).push(
                    records[read as int],
                ));
                merged_push(records.take(read as int), records[read as int]);
            }
            match &outcomes[read] {
                Ok(config) => {
                    resolved = resolved.filled_from(config);
                },
                Err(error) => {
                    if error.fatal() {
                        assert(is_first_fatal(outcomes@, read as int));
                        return Err(error.clone());
                    }
                    proof {
                        overlay_absent(resolved@);
                    }
                },
            }
            read += 1;
        }
        proof {
            assert(records.take(read as int) =~= records);
        }
        Ok(resolved)
    }
}

} // verus!
