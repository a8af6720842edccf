//! The mathematical model of a configuration record.
//!
//! A configuration record has one slot per field. A slot is either absent or
//! holds a value; an absent slot is different from every value, so a source
//! that says nothing about a field can be told apart from one that sets the
//! field to its usual default.

use vstd::prelude::*;

verus! {

/// The configuration fields.
pub enum Field {
    Storage,
    Transport,
    CertDir,
    CaCerts,
    ClientCert,
    ClientKey,
    ServerCert,
    ServerKey,
    ServiceEndpoint,
    NetworkEndpoint,
    Peers,
    NodeId,
    Bind,
    Database,
    RegistryBackend,
    RegistryFile,
    HeartbeatInterval,
    AdminServiceCoordinatorTimeout,
    StateDir,
}

/// What a slot holds when it is present, whatever the field.
pub enum SlotValue {
    /// A string: a name, a path, an endpoint, a connection string.
    Text(Seq<char>),
    /// An ordered list of strings.
    TextList(Seq<Seq<char>>),
    /// A count: seconds or milliseconds.
    Number(u64),
}

/// A configuration record: for each field, `None` where the slot is absent
/// and `Some` of the value where it is present.
pub struct ConfigSlots {
    pub storage: Option<Seq<char>>,
    pub transport: Option<Seq<char>>,
    pub cert_dir: Option<Seq<char>>,
    pub ca_certs: Option<Seq<char>>,
    pub client_cert: Option<Seq<char>>,
    pub client_key: Option<Seq<char>>,
    pub server_cert: Option<Seq<char>>,
    pub server_key: Option<Seq<char>>,
    pub service_endpoint: Option<Seq<char>>,
    pub network_endpoint: Option<Seq<char>>,
    pub peers: Option<Seq<Seq<char>>>,
    pub node_id: Option<Seq<char>>,
    pub bind: Option<Seq<char>>,
    pub database: Option<Seq<char>>,
    pub registry_backend: Option<Seq<char>>,
    pub registry_file: Option<Seq<char>>,
    /// In seconds.
    pub heartbeat_interval: Option<u64>,
    /// In milliseconds.
    pub admin_service_coordinator_timeout: Option<u64>,
    pub state_dir: Option<Seq<char>>,
}

/// A string slot as a slot of any field.
pub open spec fn text_slot(slot: Option<Seq<char>>) -> Option<SlotValue> {
    match slot {
        Some(text) => Some(SlotValue::Text(text)),
        None => None,
    }
}

/// A list slot as a slot of any field.
pub open spec fn list_slot(slot: Option<Seq<Seq<char>>>) -> Option<SlotValue> {
    match slot {
        Some(list) => Some(SlotValue::TextList(list)),
        None => None,
    }
}

/// A number slot as a slot of any field.
pub open spec fn number_slot(slot: Option<u64>) -> Option<SlotValue> {
    match slot {
        Some(number) => Some(SlotValue::Number(number)),
        None => None,
    }
}

/// The upper slot where it is present, the lower slot where it is not.
pub open spec fn first_of<T>(upper: Option<T>, lower: Option<T>) -> Option<T> {
    if upper is Some {
        upper
    } else {
        lower
    }
}

impl ConfigSlots {
    /// The record in which every slot is absent.
    pub open spec fn absent() -> ConfigSlots {
        ConfigSlots {
            storage: None,
            transport: None,
            cert_dir: None,
            ca_certs: None,
            client_cert: None,
            client_key: None,
            server_cert: None,
            server_key: None,
            service_endpoint: None,
            network_endpoint: None,
            peers: None,
            node_id: None,
            bind: None,
            database: None,
            registry_backend: None,
            registry_file: None,
            heartbeat_interval: None,
            admin_service_coordinator_timeout: None,
            state_dir: None,
        }
    }

    /// The slot of the given field.
    pub open spec fn slot(self, field: Field) -> Option<SlotValue> {
        match field {
            Field::Storage => text_slot(self.storage),
            Field::Transport => text_slot(self.transport),
            Field::CertDir => text_slot(self.cert_dir),
            Field::CaCerts => text_slot(self.ca_certs),
            Field::ClientCert => text_slot(self.client_cert),
            Field::ClientKey => text_slot(self.client_key),
            Field::ServerCert => text_slot(self.server_cert),
            Field::ServerKey => text_slot(self.server_key),
            Field::ServiceEndpoint => text_slot(self.service_endpoint),
            Field::NetworkEndpoint => text_slot(self.network_endpoint),
            Field::Peers => list_slot(self.peers),
            Field::NodeId => text_slot(self.node_id),
            Field::Bind => text_slot(self.bind),
            Field::Database => text_slot(self.database),
            Field::RegistryBackend => text_slot(self.registry_backend),
            Field::RegistryFile => text_slot(self.registry_file),
            Field::HeartbeatInterval => number_slot(self.heartbeat_interval),
            Field::AdminServiceCoordinatorTimeout => number_slot(
                self.admin_service_coordinator_timeout,
            ),
            Field::StateDir => text_slot(self.state_dir),
        }
    }

    /// This record laid over a record of lower precedence: each slot is this
    /// record's where it is present there, and the lower record's otherwise.
    /// A present slot replaces the lower one whole; lists are not joined.
    pub open spec fn overlay(self, lower: ConfigSlots) -> ConfigSlots {
        ConfigSlots {
            storage: first_of(self.storage, lower.storage),
            transport: first_of(self.transport, lower.transport),
            cert_dir: first_of(self.cert_dir, lower.cert_dir),
            ca_certs: first_of(self.ca_certs, lower.ca_certs),
            client_cert: first_of(self.client_cert, lower.client_cert),
            client_key: first_of(self.client_key, lower.client_key),
            server_cert: first_of(self.server_cert, lower.server_cert),
            server_key: first_of(self.server_key, lower.server_key),
            service_endpoint: first_of(self.service_endpoint, lower.service_endpoint),
            network_endpoint: first_of(self.network_endpoint, lower.network_endpoint),
            peers: first_of(self.peers, lower.peers),
            node_id: first_of(self.node_id, lower.node_id),
            bind: first_of(self.bind, lower.bind),
            database: first_of(self.database, lower.database),
            registry_backend: first_of(self.registry_backend, lower.registry_backend),
            registry_file: first_of(self.registry_file, lower.registry_file),
            heartbeat_interval: first_of(self.heartbeat_interval, lower.heartbeat_interval),
            admin_service_coordinator_timeout: first_of(
                self.admin_service_coordinator_timeout,
                lower.admin_service_coordinator_timeout,
            ),
            state_dir: first_of(self.state_dir, lower.state_dir),
        }
    }
}

/// The slot of `field` in the first of `sources` in which it is present, and
/// `None` where it is present in none of them. The sources stand in order of
/// precedence, the highest first.
pub open spec fn first_present(sources: Seq<ConfigSlots>, field: Field) -> Option<SlotValue>
    decreases sources.len(),
{
    if sources.len() == 0 {
        None
    } else if sources[0].slot(field) is Some {
        sources[0].slot(field)
    } else {
        first_present(sources.drop_first(), field)
    }
}

/// The record that merging `sources` gives: the first source laid over the
/// merge of the others. The sources stand in order of precedence, the highest
/// first.
pub open spec fn merged(sources: Seq<ConfigSlots>) -> ConfigSlots
    decreases sources.len(),
{
    if sources.len() == 0 {
        ConfigSlots::absent()
    } else {
        sources[0].overlay(merged(sources.drop_first()))
    }
}

} // verus!
