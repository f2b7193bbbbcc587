//! What the functions of a node answer, and how the answers of several of them fit
//! together.
//!
//! Each law speaks of whatever a function may answer: a result that its contract
//! allows.

use vstd::prelude::*;
use vstd::utf8::encode_utf8;

use crate::digest::{blake3_digest, hex_text, is_public_key, law_hexadecimal_read};
use crate::node::identity::{identity, IdentityAction};
use crate::node::publication::{Publication, PublishAction, PublishEvent};
use crate::node::startup::{MdnsMode, StartAction, StartEvent, Startup};
use crate::node::subscription::{
    Relay, RelayAction, RelayEvent, SubscribeAction, SubscribeEvent, Subscription,
};
use crate::node::{network_id, topic_from_name, Node, NodeError, PublicKeyHex};

verus! {

/// The network and the topics are named by digests: of the name of the project,
/// and of that name, a slash and the name of the topic.
pub proof fn law_identifiers(network: [u8; 32], name: &str, topic: [u8; 32])
    requires
        call_ensures(network_id, (), network),
        call_ensures(topic_from_name, (name,), topic),
    ensures
        network@ == blake3_digest(encode_utf8("panda-playground"@)),
        topic@ == blake3_digest(encode_utf8("panda-playground/"@ + name@)),
{
}

/// The message of an error says what failed, with the reason, whole.
pub proof fn law_node_error_message(error: &NodeError, text: String)
    requires
        call_ensures(NodeError::message, (error,), text),
    ensures
        match *error {
            NodeError::Network(reason) => text@ == "network error: "@ + reason@,
            NodeError::AlreadyRunning => text@ == "node already running"@,
            NodeError::NotRunning => text@ == "node not running"@,
        },
{
}

/// The text of a key is the hexadecimal of its bytes, its short form the first
/// eight characters of it.
pub proof fn law_key_answers(
    node_id: &[u8; 32],
    key: PublicKeyHex,
    copy: PublicKeyHex,
    full: String,
    short: String,
)
    requires
        call_ensures(PublicKeyHex::from_node_id, (node_id,), key),
        call_ensures(PublicKeyHex::clone, (&key,), copy),
        call_ensures(PublicKeyHex::full, (&key,), full),
        call_ensures(PublicKeyHex::short, (&key,), short),
    ensures
        full@ == hex_text(node_id@),
        full@.len() == 64,
        short@.len() == 8,
        forall|i: int| 0 <= i < 8 ==> #[trigger] short@[i] == full@[i],
        copy@ == key@,
{
}

/// A new node does not run.
pub proof fn law_new_node(node: Node)
    requires
        call_ensures(Node::new, (), node),
    ensures
        node@ is None,
{
}

/// A running node has a key, of which it tells all or the first eight characters.
/// Without one it tells nothing.
pub proof fn law_node_tells_its_key(
    node: &Node,
    running: bool,
    full: Result<String, NodeError>,
    short: Result<String, NodeError>,
)
    requires
        call_ensures(Node::is_running, (node,), running),
        call_ensures(Node::full_id, (node,), full),
        call_ensures(Node::short_id, (node,), short),
    ensures
        match node@ {
            Some(key) => {
                &&& running
                &&& full matches Ok(whole) && whole@ == key
                &&& short matches Ok(beginning) && beginning@ == key.take(8)
            },
            None => {
                &&& !running
                &&& full matches Err(NodeError::NotRunning)
                &&& short matches Err(NodeError::NotRunning)
            },
        },
{
}

/// A running node can be shut down, whatever its key. No node runs afterwards.
pub proof fn law_shutdown_answer(node: &mut Node, answer: Result<(), NodeError>)
    requires
        call_ensures(Node::shutdown, (node,), answer),
    ensures
        final(node)@ is None,
        old(node)@ is Some ==> answer is Ok,
        old(node)@ is None ==> (answer matches Err(NodeError::NotRunning)),
{
}

/// A running node connects to the peer whose public key a text writes as 64
/// hexadecimal digits of either case, and to no other.
pub proof fn law_add_peer_answer(
    node: &Node,
    text: &str,
    answer: Result<[u8; 32], NodeError>,
    id: [u8; 32],
)
    requires
        call_ensures(Node::add_peer, (node, text), answer),
    ensures
        if node@ is Some {
            let names_id = {
                &&& text@.len() == 64
                &&& forall|i: int|
                    0 <= i < 64 ==> (#[trigger] text@[i] == hex_text(id@)[i] || 'A' <= text@[i]
                        <= 'F' && text@[i] as int + 32 == hex_text(id@)[i] as int)
            };
            &&& names_id && is_public_key(id@) <==> (answer matches Ok(peer) && peer@ == id@)
            &&& answer is Err ==> (answer matches Err(NodeError::Network(reason)) && reason@
                == "invalid node id"@)
        } else {
            answer matches Err(NodeError::NotRunning)
        },
{
    law_hexadecimal_read(text@, id@);
}

/// A running node connects to the peer with a given public key.
pub proof fn law_connect_answer(
    node: &Node,
    key: Option<[u8; 32]>,
    answer: Result<[u8; 32], NodeError>,
)
    requires
        call_ensures(Node::connect_to, (node, key), answer),
    ensures
        match (node@, key) {
            (None, _) => answer matches Err(NodeError::NotRunning),
            (Some(_), Some(id)) => answer matches Ok(peer) && peer@ == id@,
            (Some(_), None) => answer matches Err(NodeError::Network(reason)) && reason@
                == "invalid node id"@,
        },
{
}

/// A stored key of 32 bytes is used as it is, one is made where nothing is stored,
/// and anything else is refused.
pub proof fn law_identity_answer(stored: Option<&[u8]>, action: IdentityAction)
    requires
        call_ensures(identity, (stored,), action),
    ensures
        match stored {
            None => action is MakeAndStore,
            Some(bytes) => if bytes@.len() == 32 {
                action matches IdentityAction::Use(key) && key@ == bytes@
            } else {
                action is Refuse
            },
        },
{
}

/// What is begun holds what it was given.
pub proof fn law_begun(
    data_dir: &str,
    startup: Startup,
    topic_name: &str,
    message: Vec<u8>,
    publication: Publication,
    subscription: Subscription,
)
    requires
        call_ensures(Startup::new, (data_dir,), startup),
        call_ensures(Publication::new, (topic_name, message), publication),
        call_ensures(Subscription::new, (topic_name,), subscription),
    ensures
        startup matches Startup::Fresh { data_dir: dir } && dir@ == data_dir@,
        publication matches Publication::Fresh { topic_name: name, message: bytes } && name@
            == topic_name@ && bytes@ == message@,
        subscription matches Subscription::Fresh { topic_name: name } && name@ == topic_name@,
{
}

/// A start that is reported to have succeeded leaves a node that runs with the key
/// that was reported.
pub proof fn law_started_node_runs(
    node: &mut Node,
    startup: Startup,
    event: StartEvent,
    next: (Startup, StartAction),
    running: bool,
    full: Result<String, NodeError>,
)
    requires
        call_ensures(Node::start, (node, startup, event), next),
        call_ensures(Node::is_running, (&*final(node),), running),
        call_ensures(Node::full_id, (&*final(node),), full),
    ensures
        next.1 matches StartAction::Finish(Ok(key)) ==> running && (full matches Ok(text) && text@
            == key@),
        !(next.1 matches StartAction::Finish(Ok(_))) ==> final(node)@ == old(node)@,
{
}

/// What a start answers on its way to the endpoint.
pub proof fn law_start_answer_before_endpoint(
    node: &mut Node,
    startup: Startup,
    event: StartEvent,
    next: (Startup, StartAction),
)
    requires
        call_ensures(Node::start, (node, startup, event), next),
    ensures
        match (startup, event) {
            (Startup::Fresh { data_dir }, StartEvent::Begin) => if old(node)@ is Some {
                next.0 is Done && next.1 matches StartAction::Finish(
                    Err(NodeError::AlreadyRunning),
                )
            } else {
                &&& next.0 matches Startup::AddressBook { data_dir: dir }
                &&& dir@ == data_dir@
                &&& next.1 is SpawnAddressBook
            },
            (Startup::AddressBook { data_dir }, StartEvent::Spawned) => {
                &&& next.0 matches Startup::ReadingIdentity { data_dir: dir }
                &&& dir@ == data_dir@
                &&& next.1 matches StartAction::ReadIdentity { data_dir: asked }
                &&& asked@ == data_dir@
            },
            (Startup::ReadingIdentity { data_dir }, StartEvent::IdentityRead(None)) => {
                &&& next.0 matches Startup::MakingIdentity { data_dir: dir }
                &&& dir@ == data_dir@
                &&& next.1 is MakeIdentity
            },
            (Startup::ReadingIdentity { .. }, StartEvent::IdentityRead(Some(stored))) => {
                if stored@.len() == 32 {
                    &&& next.0 is Endpoint
                    &&& next.1 matches StartAction::SpawnEndpoint { network_id: network, private_key }
                    &&& network@ == blake3_digest(encode_utf8("panda-playground"@))
                    &&& private_key@ == stored@
                } else {
                    &&& next.0 is Done
                    &&& next.1 matches StartAction::Finish(Err(NodeError::Network(reason)))
                    &&& reason@ == "identity: stored key is not 32 bytes long"@
                }
            },
            (Startup::MakingIdentity { data_dir }, StartEvent::IdentityMade(made)) => {
                &&& next.0 matches Startup::StoringIdentity { private_key: kept }
                &&& kept@ == made@
                &&& next.1 matches StartAction::StoreIdentity { data_dir: dir, private_key }
                &&& dir@ == data_dir@
                &&& private_key@ == made@
            },
            (Startup::StoringIdentity { private_key: made }, StartEvent::IdentityStored) => {
                &&& next.0 is Endpoint
                &&& next.1 matches StartAction::SpawnEndpoint { network_id: network, private_key }
                &&& network@ == blake3_digest(encode_utf8("panda-playground"@))
                &&& private_key@ == made@
            },
            _ => true,
        },
{
}

/// What a start answers once there is an endpoint.
pub proof fn law_start_answer_after_endpoint(
    node: &mut Node,
    startup: Startup,
    event: StartEvent,
    next: (Startup, StartAction),
)
    requires
        call_ensures(Node::start, (node, startup, event), next),
    ensures
        match (startup, event) {
            (Startup::Endpoint, StartEvent::EndpointSpawned(node_id)) => {
                &&& next.0 matches Startup::Mdns(key)
                &&& key@ == hex_text(node_id@)
                &&& next.1 == StartAction::SpawnMdns(MdnsMode::Active)
            },
            (Startup::Mdns(key), StartEvent::Spawned) => {
                &&& next.0 matches Startup::Discovery(kept)
                &&& kept@ == key@
                &&& next.1 is SpawnDiscovery
            },
            (Startup::Discovery(key), StartEvent::Spawned) => {
                &&& next.0 matches Startup::Gossip(kept)
                &&& kept@ == key@
                &&& next.1 is SpawnGossip
            },
            (Startup::Gossip(key), StartEvent::Spawned) => {
                &&& next.0 is Done
                &&& next.1 matches StartAction::Finish(Ok(reported))
                &&& reported@ == key@
                &&& final(node)@ == Some(key@)
            },
            _ => true,
        },
{
}

/// What a start answers to a failure: the name of what failed, a colon and the
/// whole reason.
pub proof fn law_start_answer_to_failure(
    node: &mut Node,
    startup: Startup,
    reason: String,
    next: (Startup, StartAction),
)
    requires
        call_ensures(Node::start, (node, startup, StartEvent::Failed(reason)), next),
        !(startup is Fresh),
        !(startup is Done),
    ensures
        final(node)@ == old(node)@,
        next.0 is Done,
        ({
            let part = match startup {
                Startup::AddressBook { .. } => "address book: "@,
                Startup::Endpoint => "endpoint: "@,
                Startup::Mdns(_) => "mdns: "@,
                Startup::Discovery(_) => "discovery: "@,
                Startup::Gossip(_) => "gossip: "@,
                _ => "identity: "@,
            };
            next.1 matches StartAction::Finish(Err(NodeError::Network(why))) && why@ == part
                + reason@
        }),
{
}

/// What a start answers to an event that it does not wait for: nothing is to be
/// done, and nothing changed.
pub proof fn law_start_answer_out_of_turn(
    node: &mut Node,
    startup: Startup,
    event: StartEvent,
    next: (Startup, StartAction),
)
    requires
        call_ensures(Node::start, (node, startup, event), next),
        startup is Fresh ==> !(event is Begin),
        event is Failed ==> startup is Fresh || startup is Done,
        startup is ReadingIdentity ==> !(event is IdentityRead),
        startup is MakingIdentity ==> !(event is IdentityMade),
        startup is StoringIdentity ==> !(event is IdentityStored),
        startup is Endpoint ==> !(event is EndpointSpawned),
        event is Spawned ==> !(startup is AddressBook || startup is Mdns || startup is Discovery
            || startup is Gossip),
    ensures
        final(node)@ == old(node)@,
        next.0@ == startup@,
        next.1 is OutOfTurn,
{
}

/// What a publishing answers: the stream of the topic is opened where the node
/// runs, and the message sent on it, unchanged.
pub proof fn law_publish_answer(
    node: &Node,
    publication: Publication,
    event: PublishEvent,
    next: (Publication, PublishAction),
)
    requires
        call_ensures(Node::publish, (node, publication, event), next),
    ensures
        match (publication, event) {
            (Publication::Fresh { topic_name, message }, PublishEvent::Begin) => {
                if node@ is Some {
                    &&& next.0 matches Publication::Opening { message: kept }
                    &&& kept@ == message@
                    &&& next.1 matches PublishAction::OpenStream(topic)
                    &&& topic@ == blake3_digest(
                        encode_utf8("panda-playground/"@ + topic_name@),
                    )
                } else {
                    next.0 is Done && next.1 matches PublishAction::Finish(
                        Err(NodeError::NotRunning),
                    )
                }
            },
            (Publication::Opening { message }, PublishEvent::StreamOpened) => {
                &&& next.0 is Sending
                &&& next.1 matches PublishAction::Send(sent)
                &&& sent@ == message@
            },
            (Publication::Sending, PublishEvent::Sent) => next.0 is Done
                && next.1 matches PublishAction::Finish(Ok(_)),
            (Publication::Opening { .. }, PublishEvent::Failed(reason)) => {
                &&& next.0 is Done
                &&& next.1 matches PublishAction::Finish(Err(NodeError::Network(why)))
                &&& why@ == "gossip stream: "@ + reason@
            },
            (Publication::Sending, PublishEvent::Failed(reason)) => {
                &&& next.0 is Done
                &&& next.1 matches PublishAction::Finish(Err(NodeError::Network(why)))
                &&& why@ == "publish: "@ + reason@
            },
            _ => next.0@ == publication@ && next.1 is OutOfTurn,
        },
{
}

/// What a subscription answers: the stream of the topic is opened where the node
/// runs, and what it brings is then handed on through a channel of 256 places.
pub proof fn law_subscribe_answer(
    node: &Node,
    subscription: Subscription,
    event: SubscribeEvent,
    next: (Subscription, SubscribeAction),
)
    requires
        call_ensures(Node::subscribe, (node, subscription, event), next),
    ensures
        match (subscription, event) {
            (Subscription::Fresh { topic_name }, SubscribeEvent::Begin) => if node@ is Some {
                &&& next.0 is Opening
                &&& next.1 matches SubscribeAction::OpenStream(topic)
                &&& topic@ == blake3_digest(encode_utf8("panda-playground/"@ + topic_name@))
            } else {
                next.0 is Done && next.1 matches SubscribeAction::Finish(
                    Err(NodeError::NotRunning),
                )
            },
            (Subscription::Opening, SubscribeEvent::StreamOpened) => {
                &&& next.0 is Done
                &&& next.1 matches SubscribeAction::Finish(Ok(delivery))
                &&& delivery.relay == Relay::Receiving
                &&& delivery.capacity == 256
            },
            (Subscription::Opening, SubscribeEvent::Failed(reason)) => {
                &&& next.0 is Done
                &&& next.1 matches SubscribeAction::Finish(Err(NodeError::Network(why)))
                &&& why@ == "gossip stream: "@ + reason@
            },
            _ => next.0@ == subscription@ && next.1 is OutOfTurn,
        },
{
}

/// What is published under a name goes to the stream that a subscription under that
/// name opens.
pub proof fn law_published_where_subscribed(
    publisher: &Node,
    subscriber: &Node,
    topic_name: String,
    name: String,
    message: Vec<u8>,
    published: (Publication, PublishAction),
    subscribed: (Subscription, SubscribeAction),
)
    requires
        publisher@ is Some,
        subscriber@ is Some,
        topic_name@ == name@,
        call_ensures(
            Node::publish,
            (publisher, Publication::Fresh { topic_name, message }, PublishEvent::Begin),
            published,
        ),
        call_ensures(
            Node::subscribe,
            (subscriber, Subscription::Fresh { topic_name: name }, SubscribeEvent::Begin),
            subscribed,
        ),
    ensures
        published.1 matches PublishAction::OpenStream(topic)
            && subscribed.1 matches SubscribeAction::OpenStream(heard) && topic@ == heard@,
{
}

/// What a relay answers: each message is handed on as it came, the next one comes
/// once it was taken, a lag is passed over, and the end of the stream or of the
/// subscriber ends it.
pub proof fn law_relay_answer(relay: Relay, event: RelayEvent, next: (Relay, RelayAction))
    requires
        call_ensures(Relay::step, (relay, event), next),
    ensures
        match (relay, event) {
            (Relay::Receiving, RelayEvent::Received(message)) => {
                &&& next.0 == Relay::Forwarding
                &&& next.1 matches RelayAction::Forward(bytes)
                &&& bytes@ == message@
            },
            (Relay::Receiving, RelayEvent::Lagged) => next.0 == Relay::Receiving
                && next.1 is Receive,
            (Relay::Receiving, RelayEvent::Ended) => next.0 == Relay::Stopped && next.1 is Stop,
            (Relay::Forwarding, RelayEvent::Taken) => next.0 == Relay::Receiving
                && next.1 is Receive,
            (Relay::Forwarding, RelayEvent::SubscriberGone) => next.0 == Relay::Stopped
                && next.1 is Stop,
            _ => next.0 == relay && next.1 is OutOfTurn,
        },
{
}

} // verus!
