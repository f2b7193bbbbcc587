//! What each step of a node does, on every input.

use vstd::prelude::*;
use vstd::utf8::encode_utf8;

use crate::digest::{blake3_digest, hex_text};
use crate::node::identity::{identity_action, IdentityAction, IdentityActionModel};
use crate::node::publication::{
    publish_step, Publication, PublicationModel, PublishAction, PublishActionModel, PublishEvent,
};
use crate::node::startup::{
    start_step, MdnsMode, StartAction, StartActionModel, StartEvent, StartState, Startup,
    StartupModel,
};
use crate::node::subscription::{
    relay_step, subscribe_step, Delivery, Relay, RelayAction, RelayActionModel, RelayEvent,
    SubscribeAction, SubscribeActionModel, SubscribeEvent, Subscription, SubscriptionModel,
};
use crate::node::{
    network_preimage, peer_of, short_form, topic_id, topic_preimage, NodeFault,
};

verus! {

/// The identifier of a topic is the digest of the name of the project, a slash and
/// the name of the topic; that of the network is the digest of the name of the
/// project.
pub proof fn law_topic_of_a_name(name: Seq<char>)
    ensures
        topic_preimage(name) == encode_utf8("panda-playground/"@ + name),
        topic_id(name) == blake3_digest(encode_utf8("panda-playground/"@ + name)),
        network_preimage() == encode_utf8("panda-playground"@),
{
}

/// The short form of a key is its first eight characters.
pub proof fn law_first_eight(key: Seq<char>)
    requires
        key.len() == 64,
    ensures
        short_form(key).len() == 8,
        forall|i: int| 0 <= i < 8 ==> #[trigger] short_form(key)[i] == key[i],
{
}

/// A running node connects to the peer that a public key names; a node that does
/// not run to none, and no node to what is no public key.
pub proof fn law_peer_of_a_key(key: Seq<char>, id: Seq<u8>, peer: Option<Seq<u8>>)
    ensures
        peer_of(Some(key), Some(id)) == Ok::<Seq<u8>, NodeFault>(id),
        peer_of(Some(key), None) == Err::<Seq<u8>, NodeFault>(
            NodeFault::Network("invalid node id"@),
        ),
        peer_of(None, peer) == Err::<Seq<u8>, NodeFault>(NodeFault::NotRunning),
{
}

/// A stored key of 32 bytes is used as it is, one is made where nothing is stored,
/// and anything else is refused.
pub proof fn law_identity_chosen(stored: Seq<u8>)
    ensures
        identity_action(None) == IdentityActionModel::MakeAndStore,
        stored.len() == 32 ==> identity_action(Some(stored)) == IdentityActionModel::Use(stored),
        stored.len() != 32 ==> identity_action(Some(stored)) == IdentityActionModel::Refuse,
{
}

/// How a start gets to its endpoint: the address book first, then the identity
/// that is kept in the directory. Where none is, it is made and stored there. The
/// endpoint is spawned on the network of the project, under that identity.
pub proof fn law_start_reaches_endpoint(
    node: Option<Seq<char>>,
    data_dir: Seq<char>,
    read: Vec<u8>,
    private_key: [u8; 32],
    made: Seq<u8>,
)
    ensures
        ({
            let network_id = blake3_digest(encode_utf8("panda-playground"@));
            let begin = StartupModel::Fresh { data_dir };
            let reading = StartupModel::ReadingIdentity { data_dir };
            &&& node is Some ==> start_step(node, begin, StartEvent::Begin) == (StartState {
                node,
                startup: StartupModel::Done,
                action: StartActionModel::Finish(Err(NodeFault::AlreadyRunning)),
            })
            &&& node is None ==> start_step(node, begin, StartEvent::Begin) == (StartState {
                node,
                startup: StartupModel::AddressBook { data_dir },
                action: StartActionModel::SpawnAddressBook,
            })
            &&& start_step(node, StartupModel::AddressBook { data_dir }, StartEvent::Spawned) == (
            StartState {
                node,
                startup: reading,
                action: StartActionModel::ReadIdentity { data_dir },
            })
            &&& read@.len() == 32 ==> start_step(
                node,
                reading,
                StartEvent::IdentityRead(Some(read)),
            ) == (StartState {
                node,
                startup: StartupModel::Endpoint,
                action: StartActionModel::SpawnEndpoint { network_id, private_key: read@ },
            })
            &&& read@.len() != 32 ==> start_step(
                node,
                reading,
                StartEvent::IdentityRead(Some(read)),
            ) == (StartState {
                node,
                startup: StartupModel::Done,
                action: StartActionModel::Finish(
                    Err(NodeFault::Network("identity: stored key is not 32 bytes long"@)),
                ),
            })
            &&& start_step(node, reading, StartEvent::IdentityRead(None)) == (StartState {
                node,
                startup: StartupModel::MakingIdentity { data_dir },
                action: StartActionModel::MakeIdentity,
            })
            &&& start_step(
                node,
                StartupModel::MakingIdentity { data_dir },
                StartEvent::IdentityMade(private_key),
            ) == (StartState {
                node,
                startup: StartupModel::StoringIdentity { private_key: private_key@ },
                action: StartActionModel::StoreIdentity { data_dir, private_key: private_key@ },
            })
            &&& start_step(
                node,
                StartupModel::StoringIdentity { private_key: made },
                StartEvent::IdentityStored,
            ) == (StartState {
                node,
                startup: StartupModel::Endpoint,
                action: StartActionModel::SpawnEndpoint { network_id, private_key: made },
            })
        }),
{
}

/// How a start goes on from its endpoint: active local discovery, discovery and
/// gossip, one after the other. Only then the node runs, with the key of the
/// endpoint, which is what the caller is told.
pub proof fn law_start_reaches_its_end(
    node: Option<Seq<char>>,
    node_id: [u8; 32],
    key: Seq<char>,
)
    ensures
        start_step(node, StartupModel::Endpoint, StartEvent::EndpointSpawned(node_id)) == (
        StartState {
            node,
            startup: StartupModel::Mdns(hex_text(node_id@)),
            action: StartActionModel::SpawnMdns(MdnsMode::Active),
        }),
        start_step(node, StartupModel::Mdns(key), StartEvent::Spawned) == (StartState {
            node,
            startup: StartupModel::Discovery(key),
            action: StartActionModel::SpawnDiscovery,
        }),
        start_step(node, StartupModel::Discovery(key), StartEvent::Spawned) == (StartState {
            node,
            startup: StartupModel::Gossip(key),
            action: StartActionModel::SpawnGossip,
        }),
        start_step(node, StartupModel::Gossip(key), StartEvent::Spawned) == (StartState {
            node: Some(key),
            startup: StartupModel::Done,
            action: StartActionModel::Finish(Ok(key)),
        }),
{
}

/// Where something fails, the start is over, the node is as it was, and the error
/// is the name of what failed, a colon and the whole reason.
pub proof fn law_start_failure_named(
    node: Option<Seq<char>>,
    startup: StartupModel,
    reason: String,
)
    requires
        !(startup is Fresh),
        !(startup is Done),
    ensures
        ({
            let part = match startup {
                StartupModel::AddressBook { .. } => "address book: "@,
                StartupModel::Endpoint => "endpoint: "@,
                StartupModel::Mdns(_) => "mdns: "@,
                StartupModel::Discovery(_) => "discovery: "@,
                StartupModel::Gossip(_) => "gossip: "@,
                _ => "identity: "@,
            };
            start_step(node, startup, StartEvent::Failed(reason)) == (StartState {
                node,
                startup: StartupModel::Done,
                action: StartActionModel::Finish(Err(NodeFault::Network(part + reason@))),
            })
        }),
{
}

/// An event that a start does not wait for changes nothing.
pub proof fn law_start_out_of_turn(
    node: Option<Seq<char>>,
    startup: StartupModel,
    event: StartEvent,
)
    requires
        startup is Fresh ==> !(event is Begin),
        event is Failed ==> startup is Fresh || startup is Done,
        startup is ReadingIdentity ==> !(event is IdentityRead),
        startup is MakingIdentity ==> !(event is IdentityMade),
        startup is StoringIdentity ==> !(event is IdentityStored),
        startup is Endpoint ==> !(event is EndpointSpawned),
        event is Spawned ==> !(startup is AddressBook || startup is Mdns || startup is Discovery
            || startup is Gossip),
    ensures
        start_step(node, startup, event) == (StartState {
            node,
            startup,
            action: StartActionModel::OutOfTurn,
        }),
{
}

/// A message goes to the stream of its topic, unchanged, where the node runs when
/// the publishing begins; otherwise the publishing is over at once. What fails is
/// named with the whole reason.
pub proof fn law_publish_turns(
    node: Option<Seq<char>>,
    topic_name: Seq<char>,
    message: Seq<u8>,
    reason: String,
)
    ensures
        ({
            let fresh = PublicationModel::Fresh { topic_name, message };
            let opening = PublicationModel::Opening { message };
            let topic = blake3_digest(encode_utf8("panda-playground/"@ + topic_name));
            &&& node is Some ==> publish_step(node, fresh, PublishEvent::Begin) == (
                opening,
                PublishActionModel::OpenStream(topic),
            )
            &&& node is None ==> publish_step(node, fresh, PublishEvent::Begin) == (
                PublicationModel::Done,
                PublishActionModel::Finish(Err(NodeFault::NotRunning)),
            )
            &&& publish_step(node, opening, PublishEvent::StreamOpened) == (
                PublicationModel::Sending,
                PublishActionModel::Send(message),
            )
            &&& publish_step(node, PublicationModel::Sending, PublishEvent::Sent) == (
                PublicationModel::Done,
                PublishActionModel::Finish(Ok(())),
            )
            &&& publish_step(node, opening, PublishEvent::Failed(reason)) == (
                PublicationModel::Done,
                PublishActionModel::Finish(Err(NodeFault::Network("gossip stream: "@ + reason@))),
            )
            &&& publish_step(node, PublicationModel::Sending, PublishEvent::Failed(reason)) == (
                PublicationModel::Done,
                PublishActionModel::Finish(Err(NodeFault::Network("publish: "@ + reason@))),
            )
        }),
{
}

/// An event that a publishing does not wait for changes nothing.
pub proof fn law_publish_out_of_turn(
    node: Option<Seq<char>>,
    publication: PublicationModel,
    event: PublishEvent,
)
    requires
        publication is Fresh ==> !(event is Begin),
        publication is Opening ==> !(event is StreamOpened || event is Failed),
        publication is Sending ==> !(event is Sent || event is Failed),
    ensures
        publish_step(node, publication, event) == (publication, PublishActionModel::OutOfTurn),
{
}

/// A subscription opens the stream of its topic where the node runs when it
/// begins, and is then delivered through a channel of 256 places; otherwise it is
/// over at once. What fails is named with the whole reason.
pub proof fn law_subscribe_turns(node: Option<Seq<char>>, topic_name: Seq<char>, reason: String)
    ensures
        ({
            let fresh = SubscriptionModel::Fresh { topic_name };
            let topic = blake3_digest(encode_utf8("panda-playground/"@ + topic_name));
            &&& node is Some ==> subscribe_step(node, fresh, SubscribeEvent::Begin) == (
                SubscriptionModel::Opening,
                SubscribeActionModel::OpenStream(topic),
            )
            &&& node is None ==> subscribe_step(node, fresh, SubscribeEvent::Begin) == (
                SubscriptionModel::Done,
                SubscribeActionModel::Finish(Err(NodeFault::NotRunning)),
            )
            &&& subscribe_step(node, SubscriptionModel::Opening, SubscribeEvent::StreamOpened) == (
                SubscriptionModel::Done,
                SubscribeActionModel::Finish(
                    Ok(Delivery { relay: Relay::Receiving, capacity: 256 }),
                ),
            )
            &&& subscribe_step(node, SubscriptionModel::Opening, SubscribeEvent::Failed(reason)) == (
                SubscriptionModel::Done,
                SubscribeActionModel::Finish(Err(NodeFault::Network("gossip stream: "@ + reason@))),
            )
        }),
{
}

/// An event that a subscription does not wait for changes nothing.
pub proof fn law_subscribe_out_of_turn(
    node: Option<Seq<char>>,
    subscription: SubscriptionModel,
    event: SubscribeEvent,
)
    requires
        subscription is Fresh ==> !(event is Begin),
        subscription is Opening ==> !(event is StreamOpened || event is Failed),
    ensures
        subscribe_step(node, subscription, event) == (
            subscription,
            SubscribeActionModel::OutOfTurn,
        ),
{
}

/// A relay hands on each message as it came, waits until it was taken, goes on
/// after a lag, and ends with the stream or with the subscriber.
pub proof fn law_relay_turns(message: Vec<u8>)
    ensures
        relay_step(Relay::Receiving, RelayEvent::Received(message)) == (
            Relay::Forwarding,
            RelayActionModel::Forward(message@),
        ),
        relay_step(Relay::Receiving, RelayEvent::Lagged) == (
            Relay::Receiving,
            RelayActionModel::Receive,
        ),
        relay_step(Relay::Receiving, RelayEvent::Ended) == (Relay::Stopped, RelayActionModel::Stop),
        relay_step(Relay::Forwarding, RelayEvent::Taken) == (
            Relay::Receiving,
            RelayActionModel::Receive,
        ),
        relay_step(Relay::Forwarding, RelayEvent::SubscriberGone) == (
            Relay::Stopped,
            RelayActionModel::Stop,
        ),
{
}

/// An event that a relay does not wait for changes nothing.
pub proof fn law_relay_out_of_turn(relay: Relay, event: RelayEvent)
    requires
        relay == Relay::Receiving ==> !(event is Received || event is Lagged || event is Ended),
        relay == Relay::Forwarding ==> !(event is Taken || event is SubscriberGone),
    ensures
        relay_step(relay, event) == (relay, RelayActionModel::OutOfTurn),
{
}

/// What a start asks for, and how far it has come, is what it says.
pub proof fn law_start_asks(startup: Startup, action: StartAction)
    ensures
        match startup {
            Startup::Fresh { data_dir } => startup@ == (StartupModel::Fresh {
                data_dir: data_dir@,
            }),
            Startup::AddressBook { data_dir } => startup@ == (StartupModel::AddressBook {
                data_dir: data_dir@,
            }),
            Startup::ReadingIdentity { data_dir } => startup@ == (StartupModel::ReadingIdentity {
                data_dir: data_dir@,
            }),
            Startup::MakingIdentity { data_dir } => startup@ == (StartupModel::MakingIdentity {
                data_dir: data_dir@,
            }),
            Startup::StoringIdentity { private_key } => startup@ == (
            StartupModel::StoringIdentity { private_key: private_key@ }),
            Startup::Endpoint => startup@ == StartupModel::Endpoint,
            Startup::Mdns(key) => startup@ == StartupModel::Mdns(key@),
            Startup::Discovery(key) => startup@ == StartupModel::Discovery(key@),
            Startup::Gossip(key) => startup@ == StartupModel::Gossip(key@),
            Startup::Done => startup@ == StartupModel::Done,
        },
        match action {
            StartAction::SpawnAddressBook => action@ == StartActionModel::SpawnAddressBook,
            StartAction::ReadIdentity { data_dir } => action@ == (StartActionModel::ReadIdentity {
                data_dir: data_dir@,
            }),
            StartAction::MakeIdentity => action@ == StartActionModel::MakeIdentity,
            StartAction::StoreIdentity { data_dir, private_key } => action@ == (
            StartActionModel::StoreIdentity { data_dir: data_dir@, private_key: private_key@ }),
            StartAction::SpawnEndpoint { network_id, private_key } => action@ == (
            StartActionModel::SpawnEndpoint {
                network_id: network_id@,
                private_key: private_key@,
            }),
            StartAction::SpawnMdns(mode) => action@ == StartActionModel::SpawnMdns(mode),
            StartAction::SpawnDiscovery => action@ == StartActionModel::SpawnDiscovery,
            StartAction::SpawnGossip => action@ == StartActionModel::SpawnGossip,
            StartAction::Finish(Ok(key)) => action@ == StartActionModel::Finish(Ok(key@)),
            StartAction::Finish(Err(error)) => action@ == StartActionModel::Finish(Err(error@)),
            StartAction::OutOfTurn => action@ == StartActionModel::OutOfTurn,
        },
{
}

/// What is to be done for an identity is what is said.
pub proof fn law_identity_asks(action: IdentityAction)
    ensures
        match action {
            IdentityAction::Use(key) => action@ == IdentityActionModel::Use(key@),
            IdentityAction::MakeAndStore => action@ == IdentityActionModel::MakeAndStore,
            IdentityAction::Refuse => action@ == IdentityActionModel::Refuse,
        },
{
}

/// What a publishing asks for, and how far it has come, is what it says.
pub proof fn law_publish_asks(publication: Publication, action: PublishAction)
    ensures
        match publication {
            Publication::Fresh { topic_name, message } => publication@ == (
            PublicationModel::Fresh { topic_name: topic_name@, message: message@ }),
            Publication::Opening { message } => publication@ == (PublicationModel::Opening {
                message: message@,
            }),
            Publication::Sending => publication@ == PublicationModel::Sending,
            Publication::Done => publication@ == PublicationModel::Done,
        },
        match action {
            PublishAction::OpenStream(topic) => action@ == PublishActionModel::OpenStream(topic@),
            PublishAction::Send(message) => action@ == PublishActionModel::Send(message@),
            PublishAction::Finish(Ok(_)) => action@ == PublishActionModel::Finish(Ok(())),
            PublishAction::Finish(Err(error)) => action@ == PublishActionModel::Finish(Err(error@)),
            PublishAction::OutOfTurn => action@ == PublishActionModel::OutOfTurn,
        },
{
}

/// What a subscription or a relay asks for, and how far it has come, is what it
/// says.
pub proof fn law_subscribe_asks(
    subscription: Subscription,
    action: SubscribeAction,
    relay_action: RelayAction,
)
    ensures
        match subscription {
            Subscription::Fresh { topic_name } => subscription@ == (SubscriptionModel::Fresh {
                topic_name: topic_name@,
            }),
            Subscription::Opening => subscription@ == SubscriptionModel::Opening,
            Subscription::Done => subscription@ == SubscriptionModel::Done,
        },
        match action {
            SubscribeAction::OpenStream(topic) => action@ == SubscribeActionModel::OpenStream(
                topic@,
            ),
            SubscribeAction::Finish(Ok(delivery)) => action@ == SubscribeActionModel::Finish(
                Ok(delivery),
            ),
            SubscribeAction::Finish(Err(error)) => action@ == SubscribeActionModel::Finish(
                Err(error@),
            ),
            SubscribeAction::OutOfTurn => action@ == SubscribeActionModel::OutOfTurn,
        },
        match relay_action {
            RelayAction::Receive => relay_action@ == RelayActionModel::Receive,
            RelayAction::Forward(message) => relay_action@ == RelayActionModel::Forward(message@),
            RelayAction::Stop => relay_action@ == RelayActionModel::Stop,
            RelayAction::OutOfTurn => relay_action@ == RelayActionModel::OutOfTurn,
        },
{
}

} // verus!
