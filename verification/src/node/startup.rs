//! Starting a node: which part of the network stack to spawn next, under which
//! identity, and what a failure is reported as.

use vstd::prelude::*;

use crate::digest::{blake3_digest, hex_text};
use crate::node::identity::{identity, identity_action, IdentityAction, IdentityActionModel};
use crate::node::{network_id, network_preimage, Node, NodeError, NodeFault, PublicKeyHex};
use crate::text::join;

verus! {

/// How far a start has come.
///
/// There is no `Debug` here, nor on the events and actions of a start: they can
/// hold a private key.
pub enum Startup {
    /// Nothing has happened yet. The identity is kept in this directory.
    Fresh { data_dir: String },
    /// The address book is being spawned.
    AddressBook { data_dir: String },
    /// The stored identity is being read.
    ReadingIdentity { data_dir: String },
    /// A new identity is being made.
    MakingIdentity { data_dir: String },
    /// The new identity is being stored.
    StoringIdentity { private_key: [u8; 32] },
    /// The endpoint is being spawned.
    Endpoint,
    /// The local discovery is being spawned, for the key of the endpoint.
    Mdns(PublicKeyHex),
    /// The discovery is being spawned.
    Discovery(PublicKeyHex),
    /// The gossip layer is being spawned.
    Gossip(PublicKeyHex),
    /// The start is over.
    Done,
}

/// What a `Startup` holds.
pub enum StartupModel {
    Fresh { data_dir: Seq<char> },
    AddressBook { data_dir: Seq<char> },
    ReadingIdentity { data_dir: Seq<char> },
    MakingIdentity { data_dir: Seq<char> },
    StoringIdentity { private_key: Seq<u8> },
    Endpoint,
    Mdns(Seq<char>),
    Discovery(Seq<char>),
    Gossip(Seq<char>),
    Done,
}

impl View for Startup {
    type V = StartupModel;

    open spec fn view(&self) -> StartupModel {
        match *self {
            Startup::Fresh { data_dir } => StartupModel::Fresh { data_dir: data_dir@ },
            Startup::AddressBook { data_dir } => StartupModel::AddressBook {
                data_dir: data_dir@,
            },
            Startup::ReadingIdentity { data_dir } => StartupModel::ReadingIdentity {
                data_dir: data_dir@,
            },
            Startup::MakingIdentity { data_dir } => StartupModel::MakingIdentity {
                data_dir: data_dir@,
            },
            Startup::StoringIdentity { private_key } => StartupModel::StoringIdentity {
                private_key: private_key@,
            },
            Startup::Endpoint => StartupModel::Endpoint,
            Startup::Mdns(key) => StartupModel::Mdns(key@),
            Startup::Discovery(key) => StartupModel::Discovery(key@),
            Startup::Gossip(key) => StartupModel::Gossip(key@),
            Startup::Done => StartupModel::Done,
        }
    }
}

impl Startup {
    /// A start with the identity that is kept in `data_dir`.
    pub fn new(data_dir: &str) -> (startup: Self)
        ensures
            startup@ == (StartupModel::Fresh { data_dir: data_dir@ }),
    {
        Startup::Fresh { data_dir: data_dir.to_owned() }
    }
}

/// Whether a node advertises itself on the local network, or only listens.
#[derive(Debug, Clone, Copy, PartialEq, Eq, Structural)]
pub enum MdnsMode {
    Active,
    Passive,
}

/// What happened to a start.
pub enum StartEvent {
    /// The start was asked for.
    Begin,
    /// The part that was being spawned is there.
    Spawned,
    /// These bytes are stored as the identity, or nothing is.
    IdentityRead(Option<Vec<u8>>),
    /// This private key was made.
    IdentityMade([u8; 32]),
    /// The private key is stored.
    IdentityStored,
    /// The endpoint is there, with this node identifier.
    EndpointSpawned([u8; 32]),
    /// What was being done failed, with the reason.
    Failed(String),
}

/// What to do next for a start.
pub enum StartAction {
    SpawnAddressBook,
    /// Read the private key that is stored in this directory.
    ReadIdentity { data_dir: String },
    /// Make a private key.
    MakeIdentity,
    /// Store this private key in this directory.
    StoreIdentity { data_dir: String, private_key: [u8; 32] },
    /// Spawn the endpoint on the network with this identifier, under this private
    /// key.
    SpawnEndpoint { network_id: [u8; 32], private_key: [u8; 32] },
    /// Spawn the local discovery in this mode.
    SpawnMdns(MdnsMode),
    SpawnDiscovery,
    SpawnGossip,
    /// Nothing more: the start ended like this.
    Finish(Result<PublicKeyHex, NodeError>),
    /// The event was not one that this start waits for; nothing changed.
    OutOfTurn,
}

/// What a `StartAction` says.
pub enum StartActionModel {
    SpawnAddressBook,
    ReadIdentity { data_dir: Seq<char> },
    MakeIdentity,
    StoreIdentity { data_dir: Seq<char>, private_key: Seq<u8> },
    SpawnEndpoint { network_id: Seq<u8>, private_key: Seq<u8> },
    SpawnMdns(MdnsMode),
    SpawnDiscovery,
    SpawnGossip,
    Finish(Result<Seq<char>, NodeFault>),
    OutOfTurn,
}

impl View for StartAction {
    type V = StartActionModel;

    open spec fn view(&self) -> StartActionModel {
        match *self {
            StartAction::SpawnAddressBook => StartActionModel::SpawnAddressBook,
            StartAction::ReadIdentity { data_dir } => StartActionModel::ReadIdentity {
                data_dir: data_dir@,
            },
            StartAction::MakeIdentity => StartActionModel::MakeIdentity,
            StartAction::StoreIdentity { data_dir, private_key } => {
                StartActionModel::StoreIdentity { data_dir: data_dir@, private_key: private_key@ }
            },
            StartAction::SpawnEndpoint { network_id, private_key } => {
                StartActionModel::SpawnEndpoint {
                    network_id: network_id@,
                    private_key: private_key@,
                }
            },
            StartAction::SpawnMdns(mode) => StartActionModel::SpawnMdns(mode),
            StartAction::SpawnDiscovery => StartActionModel::SpawnDiscovery,
            StartAction::SpawnGossip => StartActionModel::SpawnGossip,
            StartAction::Finish(Ok(key)) => StartActionModel::Finish(Ok(key@)),
            StartAction::Finish(Err(error)) => StartActionModel::Finish(Err(error@)),
            StartAction::OutOfTurn => StartActionModel::OutOfTurn,
        }
    }
}

/// A node, a start of it, and what to do next.
pub struct StartState {
    pub node: Option<Seq<char>>,
    pub startup: StartupModel,
    pub action: StartActionModel,
}

/// What a failure is reported as: what failed, a colon and the reason.
pub open spec fn start_failure(startup: StartupModel, reason: Seq<char>) -> Option<NodeFault> {
    match startup {
        StartupModel::AddressBook { .. } => Some(NodeFault::Network("address book: "@ + reason)),
        StartupModel::ReadingIdentity { .. } => Some(NodeFault::Network("identity: "@ + reason)),
        StartupModel::MakingIdentity { .. } => Some(NodeFault::Network("identity: "@ + reason)),
        StartupModel::StoringIdentity { .. } => Some(NodeFault::Network("identity: "@ + reason)),
        StartupModel::Endpoint => Some(NodeFault::Network("endpoint: "@ + reason)),
        StartupModel::Mdns(_) => Some(NodeFault::Network("mdns: "@ + reason)),
        StartupModel::Discovery(_) => Some(NodeFault::Network("discovery: "@ + reason)),
        StartupModel::Gossip(_) => Some(NodeFault::Network("gossip: "@ + reason)),
        _ => None,
    }
}

/// The bytes that are stored, if any.
pub open spec fn stored_bytes(stored: Option<Vec<u8>>) -> Option<Seq<u8>> {
    match stored {
        Some(bytes) => Some(bytes@),
        None => None,
    }
}

/// The endpoint is spawned under a private key.
pub open spec fn spawn_endpoint(node: Option<Seq<char>>, private_key: Seq<u8>) -> StartState {
    StartState {
        node,
        startup: StartupModel::Endpoint,
        action: StartActionModel::SpawnEndpoint {
            network_id: blake3_digest(network_preimage()),
            private_key,
        },
    }
}

/// What a start is told where something else than a private key is stored.
pub open spec fn identity_refused() -> NodeFault {
    NodeFault::Network("identity: stored key is not 32 bytes long"@)
}

/// What an event makes of a node and a start of it.
pub open spec fn start_step(
    node: Option<Seq<char>>,
    startup: StartupModel,
    event: StartEvent,
) -> StartState {
    match (startup, event) {
        (StartupModel::Fresh { data_dir }, StartEvent::Begin) => if node is Some {
            StartState {
                node,
                startup: StartupModel::Done,
                action: StartActionModel::Finish(Err(NodeFault::AlreadyRunning)),
            }
        } else {
            StartState {
                node,
                startup: StartupModel::AddressBook { data_dir },
                action: StartActionModel::SpawnAddressBook,
            }
        },
        (StartupModel::AddressBook { data_dir }, StartEvent::Spawned) => StartState {
            node,
            startup: StartupModel::ReadingIdentity { data_dir },
            action: StartActionModel::ReadIdentity { data_dir },
        },
        (
            StartupModel::ReadingIdentity { data_dir },
            StartEvent::IdentityRead(stored),
        ) => match identity_action(stored_bytes(stored)) {
            IdentityActionModel::Use(private_key) => spawn_endpoint(node, private_key),
            IdentityActionModel::MakeAndStore => StartState {
                node,
                startup: StartupModel::MakingIdentity { data_dir },
                action: StartActionModel::MakeIdentity,
            },
            IdentityActionModel::Refuse => StartState {
                node,
                startup: StartupModel::Done,
                action: StartActionModel::Finish(Err(identity_refused())),
            },
        },
        (
            StartupModel::MakingIdentity { data_dir },
            StartEvent::IdentityMade(private_key),
        ) => StartState {
            node,
            startup: StartupModel::StoringIdentity { private_key: private_key@ },
            action: StartActionModel::StoreIdentity { data_dir, private_key: private_key@ },
        },
        (StartupModel::StoringIdentity { private_key }, StartEvent::IdentityStored) => {
            spawn_endpoint(node, private_key)
        },
        (StartupModel::Endpoint, StartEvent::EndpointSpawned(node_id)) => StartState {
            node,
            startup: StartupModel::Mdns(hex_text(node_id@)),
            action: StartActionModel::SpawnMdns(MdnsMode::Active),
        },
        (StartupModel::Mdns(key), StartEvent::Spawned) => StartState {
            node,
            startup: StartupModel::Discovery(key),
            action: StartActionModel::SpawnDiscovery,
        },
        (StartupModel::Discovery(key), StartEvent::Spawned) => StartState {
            node,
            startup: StartupModel::Gossip(key),
            action: StartActionModel::SpawnGossip,
        },
        (StartupModel::Gossip(key), StartEvent::Spawned) => StartState {
            node: Some(key),
            startup: StartupModel::Done,
            action: StartActionModel::Finish(Ok(key)),
        },
        (_, StartEvent::Failed(reason)) => match start_failure(startup, reason@) {
            Some(fault) => StartState {
                node,
                startup: StartupModel::Done,
                action: StartActionModel::Finish(Err(fault)),
            },
            None => StartState { node, startup, action: StartActionModel::OutOfTurn },
        },
        _ => StartState { node, startup, action: StartActionModel::OutOfTurn },
    }
}

fn network_failure(part: &str, reason: &str) -> (failure: (Startup, StartAction))
    ensures
        failure.0@ == StartupModel::Done,
        failure.1@ == StartActionModel::Finish(Err(NodeFault::Network(part@ + reason@))),
{
    (Startup::Done, StartAction::Finish(Err(NodeError::Network(join(part, reason)))))
}

fn endpoint_under(private_key: [u8; 32]) -> (next: (Startup, StartAction))
    ensures
        next.0@ == spawn_endpoint(None, private_key@).startup,
        next.1@ == spawn_endpoint(None, private_key@).action,
{
    (Startup::Endpoint, StartAction::SpawnEndpoint { network_id: network_id(), private_key })
}

impl Node {
    /// Start the node and begin discovering peers via mDNS.
    ///
    /// The identity is the private key stored in the directory of the start. It
    /// is made and stored by the first start, and used by every later one.
    ///
    /// Takes how far the start has come and what happened, and gives how far it
    /// has come now and what to do next. The node runs once every part of the
    /// network stack is there.
    pub fn start(&mut self, startup: Startup, event: StartEvent) -> (next: (Startup, StartAction))
        ensures
            ({
                let after = start_step(old(self)@, startup@, event);
                &&& final(self)@ == after.node
                &&& next.0@ == after.startup
                &&& next.1@ == after.action
            }),
    {
        match (startup, event) {
            (Startup::Fresh { data_dir }, StartEvent::Begin) => {
                if self.inner.is_some() {
                    (Startup::Done, StartAction::Finish(Err(NodeError::AlreadyRunning)))
                } else {
                    (Startup::AddressBook { data_dir }, StartAction::SpawnAddressBook)
                }
            },
            (Startup::AddressBook { data_dir }, StartEvent::Spawned) => {
                let action = StartAction::ReadIdentity { data_dir: data_dir.clone() };
                (Startup::ReadingIdentity { data_dir }, action)
            },
            (Startup::ReadingIdentity { data_dir }, StartEvent::IdentityRead(stored)) => {
                let action = match &stored {
                    Some(bytes) => identity(Some(bytes.as_slice())),
                    None => identity(None),
                };
                match action {
                    IdentityAction::Use(private_key) => endpoint_under(private_key),
                    IdentityAction::MakeAndStore => {
                        (Startup::MakingIdentity { data_dir }, StartAction::MakeIdentity)
                    },
                    IdentityAction::Refuse => {
                        let reason = "identity: stored key is not 32 bytes long".to_owned();
                        (Startup::Done, StartAction::Finish(Err(NodeError::Network(reason))))
                    },
                }
            },
            (Startup::ReadingIdentity { .. }, StartEvent::Failed(reason)) => {
                network_failure("identity: ", reason.as_str())
            },
            (Startup::MakingIdentity { data_dir }, StartEvent::IdentityMade(private_key)) => {
                (
                    Startup::StoringIdentity { private_key },
                    StartAction::StoreIdentity { data_dir, private_key },
                )
            },
            (Startup::MakingIdentity { .. }, StartEvent::Failed(reason)) => {
                network_failure("identity: ", reason.as_str())
            },
            (Startup::StoringIdentity { private_key }, StartEvent::IdentityStored) => {
                endpoint_under(private_key)
            },
            (Startup::StoringIdentity { .. }, StartEvent::Failed(reason)) => {
                network_failure("identity: ", reason.as_str())
            },
            (Startup::AddressBook { .. }, StartEvent::Failed(reason)) => {
                network_failure("address book: ", reason.as_str())
            },
            (Startup::Endpoint, StartEvent::EndpointSpawned(node_id)) => {
                let key = PublicKeyHex::from_node_id(&node_id);
                (Startup::Mdns(key), StartAction::SpawnMdns(MdnsMode::Active))
            },
            (Startup::Endpoint, StartEvent::Failed(reason)) => {
                network_failure("endpoint: ", reason.as_str())
            },
            (Startup::Mdns(key), StartEvent::Spawned) => {
                (Startup::Discovery(key), StartAction::SpawnDiscovery)
            },
            (Startup::Mdns(_), StartEvent::Failed(reason)) => {
                network_failure("mdns: ", reason.as_str())
            },
            (Startup::Discovery(key), StartEvent::Spawned) => {
                (Startup::Gossip(key), StartAction::SpawnGossip)
            },
            (Startup::Discovery(_), StartEvent::Failed(reason)) => {
                network_failure("discovery: ", reason.as_str())
            },
            (Startup::Gossip(key), StartEvent::Spawned) => {
                self.inner = Some(key.clone());
                (Startup::Done, StartAction::Finish(Ok(key)))
            },
            (Startup::Gossip(_), StartEvent::Failed(reason)) => {
                network_failure("gossip: ", reason.as_str())
            },
            (startup, _) => (startup, StartAction::OutOfTurn),
        }
    }
}

} // verus!
