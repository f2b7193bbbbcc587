use panda_playground::node::publication::{Publication, PublishAction, PublishEvent};
use panda_playground::node::startup::{MdnsMode, StartAction, StartEvent, Startup};
use panda_playground::node::subscription::{
    Delivery, Relay, RelayAction, RelayEvent, SubscribeAction, SubscribeEvent, Subscription,
    SUBSCRIPTION_CAPACITY,
};
use panda_playground::node::{network_id, topic_from_name, Node, NodeError, PublicKeyHex};

const NETWORK: [u8; 32] = [
    51, 226, 137, 241, 92, 188, 168, 243, 188, 148, 130, 199, 177, 244, 178, 216, 83, 58, 82, 45,
    236, 35, 181, 123, 190, 156, 5, 70, 139, 167, 66, 153,
];

const CHAT: [u8; 32] = [
    220, 133, 21, 246, 168, 228, 113, 236, 0, 215, 125, 79, 17, 44, 209, 105, 237, 31, 74, 74, 219,
    254, 100, 171, 20, 70, 201, 162, 91, 194, 158, 139,
];

const SKETCH: [u8; 32] = [
    248, 172, 186, 84, 151, 107, 131, 248, 141, 3, 144, 208, 79, 149, 114, 96, 62, 101, 181, 195,
    33, 222, 226, 145, 78, 124, 226, 67, 223, 192, 64, 66,
];

const VOICE: [u8; 32] = [
    219, 7, 134, 195, 135, 44, 66, 213, 84, 236, 60, 181, 167, 142, 84, 210, 77, 175, 17, 23, 14,
    177, 135, 176, 140, 41, 231, 108, 118, 251, 121, 155,
];

const ACCENTED: [u8; 32] = [
    187, 3, 211, 111, 245, 96, 28, 158, 27, 244, 102, 30, 140, 15, 136, 43, 107, 200, 29, 229, 226,
    51, 116, 0, 38, 188, 250, 50, 101, 159, 213, 250,
];

const NODE_ID: [u8; 32] = [
    0x00, 0x01, 0x0f, 0x10, 0xab, 0xcd, 0xef, 0xff, 0x7f, 0x80, 0x99, 0x9a, 0xa0, 0xa9, 0x12, 0x34,
    0x56, 0x78, 0x9a, 0xbc, 0xde, 0xf0, 0x01, 0x23, 0x45, 0x67, 0x89, 0xab, 0xcd, 0xef, 0x00, 0x42,
];

const KEY: &str = "00010f10abcdefff7f80999aa0a9123456789abcdef00123456789abcdef0042";

fn start_with(node: &mut Node, events: Vec<StartEvent>) -> Vec<StartAction> {
    let mut startup = Startup::new("data");
    let mut actions = Vec::new();
    for event in events {
        let (next, action) = node.start(startup, event);
        startup = next;
        actions.push(action);
    }
    actions
}

fn whole_start() -> Vec<StartEvent> {
    vec![
        StartEvent::Begin,
        StartEvent::Spawned,
        StartEvent::IdentityRead(Some(vec![7; 32])),
        StartEvent::EndpointSpawned(NODE_ID),
        StartEvent::Spawned,
        StartEvent::Spawned,
        StartEvent::Spawned,
    ]
}

fn first_start() -> Vec<StartEvent> {
    vec![
        StartEvent::Begin,
        StartEvent::Spawned,
        StartEvent::IdentityRead(None),
        StartEvent::IdentityMade([9; 32]),
        StartEvent::IdentityStored,
        StartEvent::EndpointSpawned(NODE_ID),
        StartEvent::Spawned,
        StartEvent::Spawned,
        StartEvent::Spawned,
    ]
}

fn running_node() -> Node {
    let mut node = Node::new();
    start_with(&mut node, whole_start());
    node
}

fn start_error(events: Vec<StartEvent>) -> String {
    let mut node = Node::new();
    let mut actions = start_with(&mut node, events);
    assert!(!node.is_running());
    match actions.pop() {
        Some(StartAction::Finish(Err(error))) => error.message(),
        _ => panic!("the start did not fail"),
    }
}

#[test]
fn network_id_is_the_digest_of_the_project_name() {
    assert_eq!(network_id(), NETWORK);
}

#[test]
fn topics_are_digests_of_their_names() {
    assert_eq!(topic_from_name("chat"), CHAT);
    assert_eq!(topic_from_name("sketch"), SKETCH);
    assert_eq!(topic_from_name("voice"), VOICE);
    assert_eq!(topic_from_name("\u{e9}"), ACCENTED);
}

#[test]
fn topics_differ_from_each_other_and_from_the_network() {
    assert_ne!(topic_from_name("chat"), topic_from_name("sketch"));
    assert_ne!(topic_from_name(""), network_id());
}

#[test]
fn key_is_lowercase_hexadecimal() {
    let key = PublicKeyHex::from_node_id(&NODE_ID);
    assert_eq!(key.full(), KEY);
    assert_eq!(key.short(), "00010f10");
    assert_eq!(key.clone().full(), KEY);
}

#[test]
fn different_ids_have_different_keys() {
    let mut other = NODE_ID;
    other[31] = 0x43;
    assert_ne!(PublicKeyHex::from_node_id(&other).full(), KEY);
}

#[test]
fn fresh_node_does_not_run() {
    let node = Node::new();
    assert!(!node.is_running());
    assert_eq!(node.short_id(), Err(NodeError::NotRunning));
    assert_eq!(node.full_id(), Err(NodeError::NotRunning));
}

#[test]
fn start_spawns_every_part_in_order() {
    let mut node = Node::new();
    let actions = start_with(&mut node, whole_start());
    assert_eq!(actions.len(), 7);
    assert!(matches!(actions[0], StartAction::SpawnAddressBook));
    match &actions[1] {
        StartAction::ReadIdentity { data_dir } => assert_eq!(data_dir, "data"),
        _ => panic!("the identity is not read"),
    }
    match &actions[2] {
        StartAction::SpawnEndpoint {
            network_id,
            private_key,
        } => {
            assert_eq!(*network_id, NETWORK);
            assert_eq!(*private_key, [7; 32]);
        }
        _ => panic!("the endpoint is not spawned"),
    }
    assert!(matches!(
        actions[3],
        StartAction::SpawnMdns(MdnsMode::Active)
    ));
    assert!(matches!(actions[4], StartAction::SpawnDiscovery));
    assert!(matches!(actions[5], StartAction::SpawnGossip));
    match &actions[6] {
        StartAction::Finish(Ok(key)) => assert_eq!(key.full(), KEY),
        _ => panic!("the start did not succeed"),
    }
    assert_eq!(node.full_id(), Ok(KEY.to_string()));
    assert_eq!(node.short_id(), Ok("00010f10".to_string()));
}

#[test]
fn node_does_not_run_before_the_last_part_is_there() {
    let mut node = Node::new();
    let mut events = whole_start();
    events.pop();
    start_with(&mut node, events);
    assert!(!node.is_running());
}

#[test]
fn running_node_refuses_to_start() {
    let mut node = running_node();
    let actions = start_with(&mut node, whole_start());
    assert!(matches!(
        actions[0],
        StartAction::Finish(Err(NodeError::AlreadyRunning))
    ));
    assert!(actions[1..]
        .iter()
        .all(|action| matches!(action, StartAction::OutOfTurn)));
    assert_eq!(node.full_id(), Ok(KEY.to_string()));
}

#[test]
fn failed_part_is_named() {
    let reason = || StartEvent::Failed("no luck".to_string());
    let mut events = vec![StartEvent::Begin, reason()];
    assert_eq!(start_error(events), "network error: address book: no luck");
    events = whole_start();
    events.truncate(2);
    events.push(reason());
    assert_eq!(start_error(events), "network error: identity: no luck");
    events = first_start();
    events.truncate(3);
    events.push(reason());
    assert_eq!(start_error(events), "network error: identity: no luck");
    events = first_start();
    events.truncate(4);
    events.push(reason());
    assert_eq!(start_error(events), "network error: identity: no luck");
    events = whole_start();
    events.truncate(3);
    events.push(reason());
    assert_eq!(start_error(events), "network error: endpoint: no luck");
    events = whole_start();
    events.truncate(4);
    events.push(reason());
    assert_eq!(start_error(events), "network error: mdns: no luck");
    events = whole_start();
    events.truncate(5);
    events.push(reason());
    assert_eq!(start_error(events), "network error: discovery: no luck");
    events = whole_start();
    events.truncate(6);
    events.push(reason());
    assert_eq!(start_error(events), "network error: gossip: no luck");
}

#[test]
fn events_out_of_turn_change_nothing() {
    let mut node = Node::new();
    let (startup, action) = node.start(Startup::new("data"), StartEvent::Spawned);
    assert!(matches!(startup, Startup::Fresh { .. }));
    assert!(matches!(action, StartAction::OutOfTurn));
    let opening = Startup::AddressBook {
        data_dir: "data".to_string(),
    };
    let (startup, action) = node.start(opening, StartEvent::EndpointSpawned(NODE_ID));
    assert!(matches!(startup, Startup::AddressBook { .. }));
    assert!(matches!(action, StartAction::OutOfTurn));
    let (startup, action) = node.start(Startup::Endpoint, StartEvent::IdentityStored);
    assert!(matches!(startup, Startup::Endpoint));
    assert!(matches!(action, StartAction::OutOfTurn));
    let (startup, action) = node.start(Startup::Done, StartEvent::Begin);
    assert!(matches!(startup, Startup::Done));
    assert!(matches!(action, StartAction::OutOfTurn));
}

#[test]
fn shutdown_stops_the_node_once() {
    let mut node = running_node();
    assert_eq!(node.shutdown(), Ok(()));
    assert!(!node.is_running());
    assert_eq!(node.short_id(), Err(NodeError::NotRunning));
    assert_eq!(node.shutdown(), Err(NodeError::NotRunning));
}

#[test]
fn node_starts_again_after_shutdown() {
    let mut node = running_node();
    assert_eq!(node.shutdown(), Ok(()));
    start_with(&mut node, whole_start());
    assert!(node.is_running());
}

#[test]
fn error_messages() {
    assert_eq!(
        NodeError::Network("x".to_string()).message(),
        "network error: x"
    );
    assert_eq!(NodeError::AlreadyRunning.message(), "node already running");
    assert_eq!(NodeError::NotRunning.message(), "node not running");
}

#[test]
fn publish_opens_the_topic_and_sends_the_message() {
    let node = running_node();
    let publication = Publication::new("chat", vec![1, 2, 3]);
    let (publication, action) = node.publish(publication, PublishEvent::Begin);
    assert!(matches!(action, PublishAction::OpenStream(CHAT)));
    let (publication, action) = node.publish(publication, PublishEvent::StreamOpened);
    match action {
        PublishAction::Send(message) => assert_eq!(message, vec![1, 2, 3]),
        other => panic!("{:?}", other),
    }
    let (publication, action) = node.publish(publication, PublishEvent::Sent);
    assert!(matches!(action, PublishAction::Finish(Ok(()))));
    let (_, action) = node.publish(publication, PublishEvent::StreamOpened);
    assert!(matches!(action, PublishAction::OutOfTurn));
}

#[test]
fn stopped_node_does_not_publish() {
    let publication = Publication::new("chat", vec![1]);
    let (publication, action) = Node::new().publish(publication, PublishEvent::Begin);
    assert!(matches!(publication, Publication::Done));
    assert!(matches!(
        action,
        PublishAction::Finish(Err(NodeError::NotRunning))
    ));
}

#[test]
fn publish_failures_are_named() {
    let node = running_node();
    let failed = || PublishEvent::Failed("gone".to_string());
    let (publication, _) = node.publish(Publication::new("chat", vec![]), PublishEvent::Begin);
    match node.publish(publication, failed()).1 {
        PublishAction::Finish(Err(error)) => {
            assert_eq!(error.message(), "network error: gossip stream: gone")
        }
        other => panic!("{:?}", other),
    }
    match node.publish(Publication::Sending, failed()).1 {
        PublishAction::Finish(Err(error)) => {
            assert_eq!(error.message(), "network error: publish: gone")
        }
        other => panic!("{:?}", other),
    }
}

#[test]
fn subscribe_opens_the_topic_that_is_published_to() {
    let node = running_node();
    let (subscription, action) = node.subscribe(Subscription::new("chat"), SubscribeEvent::Begin);
    assert!(matches!(action, SubscribeAction::OpenStream(CHAT)));
    let (subscription, action) = node.subscribe(subscription, SubscribeEvent::StreamOpened);
    assert!(matches!(subscription, Subscription::Done));
    assert!(matches!(
        action,
        SubscribeAction::Finish(Ok(Delivery {
            relay: Relay::Receiving,
            capacity: 256
        }))
    ));
    let (_, action) = node.subscribe(subscription, SubscribeEvent::Begin);
    assert!(matches!(action, SubscribeAction::OutOfTurn));
    assert_eq!(SUBSCRIPTION_CAPACITY, 256);
}

#[test]
fn stopped_node_does_not_subscribe() {
    let (_, action) = Node::new().subscribe(Subscription::new("chat"), SubscribeEvent::Begin);
    assert!(matches!(
        action,
        SubscribeAction::Finish(Err(NodeError::NotRunning))
    ));
}

#[test]
fn subscribe_failure_is_named() {
    let event = SubscribeEvent::Failed("gone".to_string());
    match running_node().subscribe(Subscription::Opening, event).1 {
        SubscribeAction::Finish(Err(error)) => {
            assert_eq!(error.message(), "network error: gossip stream: gone")
        }
        other => panic!("{:?}", other),
    }
}

#[test]
fn relay_hands_on_messages_in_order() {
    let mut relay = Relay::Receiving;
    let mut forwarded = Vec::new();
    for message in [vec![1], vec![], vec![2, 3]] {
        let (next, action) = relay.step(RelayEvent::Received(message));
        match action {
            RelayAction::Forward(bytes) => forwarded.push(bytes),
            other => panic!("{:?}", other),
        }
        let (next, action) = next.step(RelayEvent::Taken);
        assert!(matches!(action, RelayAction::Receive));
        relay = next;
    }
    assert_eq!(forwarded, vec![vec![1], vec![], vec![2, 3]]);
}

#[test]
fn relay_goes_on_after_a_lag() {
    let (relay, action) = Relay::Receiving.step(RelayEvent::Lagged);
    assert!(matches!(relay, Relay::Receiving));
    assert!(matches!(action, RelayAction::Receive));
    match relay.step(RelayEvent::Received(vec![9])).1 {
        RelayAction::Forward(bytes) => assert_eq!(bytes, vec![9]),
        other => panic!("{:?}", other),
    }
}

/// Whatever waits for room goes into the channel, where there is room.
fn accept(
    relay: Relay,
    waiting: &mut Option<Vec<u8>>,
    channel: &mut std::collections::VecDeque<Vec<u8>>,
    capacity: usize,
) -> Relay {
    if channel.len() == capacity {
        return relay;
    }
    match waiting.take() {
        Some(message) => {
            channel.push_back(message);
            relay.step(RelayEvent::Taken).0
        }
        None => relay,
    }
}

#[test]
fn slow_subscriber_loses_nothing() {
    let node = running_node();
    let (subscription, _) = node.subscribe(Subscription::new("chat"), SubscribeEvent::Begin);
    let delivery = match node.subscribe(subscription, SubscribeEvent::StreamOpened).1 {
        SubscribeAction::Finish(Ok(delivery)) => delivery,
        other => panic!("{:?}", other),
    };
    let mut relay = delivery.relay;
    let mut channel = std::collections::VecDeque::new();
    let mut waiting = None;
    let mut polled: u16 = 0;
    let mut read = Vec::new();
    while read.len() < 300 {
        while matches!(relay, Relay::Receiving) && polled < 300 {
            let (next, action) = relay.step(RelayEvent::Received(polled.to_le_bytes().to_vec()));
            match action {
                RelayAction::Forward(message) => waiting = Some(message),
                other => panic!("{:?}", other),
            }
            polled += 1;
            relay = accept(next, &mut waiting, &mut channel, delivery.capacity);
        }
        if read.is_empty() {
            assert_eq!(channel.len(), 256);
            assert_eq!(polled, 257);
        }
        read.push(channel.pop_front().unwrap());
        relay = accept(relay, &mut waiting, &mut channel, delivery.capacity);
    }
    let expected: Vec<Vec<u8>> = (0..300u16).map(|i| i.to_le_bytes().to_vec()).collect();
    assert_eq!(read, expected);
}

#[test]
fn peer_is_named_by_its_key() {
    let node = running_node();
    assert_eq!(node.connect_to(Some([7; 32])), Ok([7; 32]));
    assert_eq!(
        node.connect_to(None),
        Err(NodeError::Network("invalid node id".to_string()))
    );
    assert_eq!(
        Node::new().connect_to(Some([7; 32])),
        Err(NodeError::NotRunning)
    );
    let text = "d75a980182b10ab7d54bfed3c964073a0ee172f3daa62325af021a68f707511a";
    let id = node.add_peer(text).unwrap();
    assert_eq!(id[..3], [0xd7, 0x5a, 0x98]);
    assert_eq!(PublicKeyHex::from_node_id(&id).full(), text);
    assert_eq!(Node::new().add_peer(text), Err(NodeError::NotRunning));
}

#[test]
fn relay_stops_for_good() {
    assert!(matches!(
        Relay::Receiving.step(RelayEvent::Ended),
        (Relay::Stopped, RelayAction::Stop)
    ));
    assert!(matches!(
        Relay::Forwarding.step(RelayEvent::SubscriberGone),
        (Relay::Stopped, RelayAction::Stop)
    ));
    assert!(matches!(
        Relay::Stopped.step(RelayEvent::Received(vec![1])),
        (Relay::Stopped, RelayAction::OutOfTurn)
    ));
}
