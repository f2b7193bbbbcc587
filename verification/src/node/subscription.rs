//! Subscribing to a topic: which topic to open, what a failure is reported as,
//! and which of the received messages are handed on.

use vstd::prelude::*;

use crate::node::{topic_from_name, topic_id, Node, NodeError, NodeFault};
use crate::text::join;

verus! {

/// How many messages wait for a subscriber before the relay waits for room.
pub const SUBSCRIPTION_CAPACITY: usize = 256;

/// How far a subscription has come.
#[derive(Debug)]
pub enum Subscription {
    /// The topic with this name waits to be subscribed to.
    Fresh { topic_name: String },
    /// The stream of the topic is being opened.
    Opening,
    /// The subscribing is over.
    Done,
}

/// What a `Subscription` holds.
pub enum SubscriptionModel {
    Fresh { topic_name: Seq<char> },
    Opening,
    Done,
}

impl View for Subscription {
    type V = SubscriptionModel;

    open spec fn view(&self) -> SubscriptionModel {
        match *self {
            Subscription::Fresh { topic_name } => SubscriptionModel::Fresh {
                topic_name: topic_name@,
            },
            Subscription::Opening => SubscriptionModel::Opening,
            Subscription::Done => SubscriptionModel::Done,
        }
    }
}

/// What happened to a subscription.
#[derive(Debug)]
pub enum SubscribeEvent {
    /// The subscription was asked for.
    Begin,
    /// The stream of the topic is open.
    StreamOpened,
    /// The stream could not be opened, with the reason.
    Failed(String),
}

/// How messages get to a subscriber: a relay hands them on to a channel that
/// holds so many messages at most.
#[derive(Debug)]
pub struct Delivery {
    pub relay: Relay,
    pub capacity: usize,
}

/// A delivery that has handed on nothing yet.
pub open spec fn fresh_delivery() -> Delivery {
    Delivery { relay: Relay::Receiving, capacity: SUBSCRIPTION_CAPACITY }
}

/// What to do next for a subscription.
#[derive(Debug)]
pub enum SubscribeAction {
    /// Open the gossip stream of the topic with this identifier.
    OpenStream([u8; 32]),
    /// Nothing more to open: hand on what the stream brings, or report the
    /// error.
    Finish(Result<Delivery, NodeError>),
    /// The event was not one that this subscription waits for; nothing changed.
    OutOfTurn,
}

/// What a `SubscribeAction` says.
pub enum SubscribeActionModel {
    OpenStream(Seq<u8>),
    Finish(Result<Delivery, NodeFault>),
    OutOfTurn,
}

impl View for SubscribeAction {
    type V = SubscribeActionModel;

    open spec fn view(&self) -> SubscribeActionModel {
        match *self {
            SubscribeAction::OpenStream(topic) => SubscribeActionModel::OpenStream(topic@),
            SubscribeAction::Finish(Ok(delivery)) => SubscribeActionModel::Finish(Ok(delivery)),
            SubscribeAction::Finish(Err(error)) => SubscribeActionModel::Finish(Err(error@)),
            SubscribeAction::OutOfTurn => SubscribeActionModel::OutOfTurn,
        }
    }
}

/// What an event makes of a subscription of a node.
pub open spec fn subscribe_step(
    node: Option<Seq<char>>,
    subscription: SubscriptionModel,
    event: SubscribeEvent,
) -> (SubscriptionModel, SubscribeActionModel) {
    match (subscription, event) {
        (SubscriptionModel::Fresh { topic_name }, SubscribeEvent::Begin) => if node is Some {
            (SubscriptionModel::Opening, SubscribeActionModel::OpenStream(topic_id(topic_name)))
        } else {
            (SubscriptionModel::Done, SubscribeActionModel::Finish(Err(NodeFault::NotRunning)))
        },
        (SubscriptionModel::Opening, SubscribeEvent::StreamOpened) => (
            SubscriptionModel::Done,
            SubscribeActionModel::Finish(Ok(fresh_delivery())),
        ),
        (SubscriptionModel::Opening, SubscribeEvent::Failed(reason)) => (
            SubscriptionModel::Done,
            SubscribeActionModel::Finish(Err(NodeFault::Network("gossip stream: "@ + reason@))),
        ),
        _ => (subscription, SubscribeActionModel::OutOfTurn),
    }
}

impl Subscription {
    /// A subscription to a named topic.
    pub fn new(topic_name: &str) -> (subscription: Self)
        ensures
            subscription@ == (SubscriptionModel::Fresh { topic_name: topic_name@ }),
    {
        Subscription::Fresh { topic_name: topic_name.to_owned() }
    }
}

impl Node {
    /// Subscribe to a named topic.
    ///
    /// Takes how far the subscription has come and what happened, and gives how
    /// far it has come now and what to do next.
    pub fn subscribe(&self, subscription: Subscription, event: SubscribeEvent) -> (next: (
        Subscription,
        SubscribeAction,
    ))
        ensures
            (next.0@, next.1@) == subscribe_step(self@, subscription@, event),
    {
        match (subscription, event) {
            (Subscription::Fresh { topic_name }, SubscribeEvent::Begin) => {
                if self.inner.is_none() {
                    return (
                        Subscription::Done,
                        SubscribeAction::Finish(Err(NodeError::NotRunning)),
                    );
                }
                let topic = topic_from_name(topic_name.as_str());
                (Subscription::Opening, SubscribeAction::OpenStream(topic))
            },
            (Subscription::Opening, SubscribeEvent::StreamOpened) => {
                let delivery = Delivery {
                    relay: Relay::Receiving,
                    capacity: SUBSCRIPTION_CAPACITY,
                };
                (Subscription::Done, SubscribeAction::Finish(Ok(delivery)))
            },
            (Subscription::Opening, SubscribeEvent::Failed(reason)) => {
                let reason = join("gossip stream: ", reason.as_str());
                (Subscription::Done, SubscribeAction::Finish(Err(NodeError::Network(reason))))
            },
            (subscription, _) => (subscription, SubscribeAction::OutOfTurn),
        }
    }
}

/// Hands on what the stream of a topic brings to the subscriber.
#[derive(Debug)]
pub enum Relay {
    /// Waiting for the stream.
    Receiving,
    /// Waiting for the subscriber to take a message.
    Forwarding,
    /// Nothing is handed on any more.
    Stopped,
}

/// What happened to a relay.
#[derive(Debug)]
pub enum RelayEvent {
    /// The stream brought these bytes.
    Received(Vec<u8>),
    /// The stream fell behind and left out messages; it goes on after that.
    Lagged,
    /// The stream ended.
    Ended,
    /// The subscriber took the message.
    Taken,
    /// The subscriber is gone.
    SubscriberGone,
}

/// What to do next for a relay.
#[derive(Debug)]
pub enum RelayAction {
    /// Wait for the stream.
    Receive,
    /// Hand these bytes to the subscriber.
    Forward(Vec<u8>),
    /// Nothing more.
    Stop,
    /// The event was not one that this relay waits for; nothing changed.
    OutOfTurn,
}

/// What a `RelayAction` says.
pub enum RelayActionModel {
    Receive,
    Forward(Seq<u8>),
    Stop,
    OutOfTurn,
}

impl View for RelayAction {
    type V = RelayActionModel;

    open spec fn view(&self) -> RelayActionModel {
        match *self {
            RelayAction::Receive => RelayActionModel::Receive,
            RelayAction::Forward(message) => RelayActionModel::Forward(message@),
            RelayAction::Stop => RelayActionModel::Stop,
            RelayAction::OutOfTurn => RelayActionModel::OutOfTurn,
        }
    }
}

/// What an event makes of a relay.
pub open spec fn relay_step(relay: Relay, event: RelayEvent) -> (Relay, RelayActionModel) {
    match (relay, event) {
        (Relay::Receiving, RelayEvent::Received(message)) => (
            Relay::Forwarding,
            RelayActionModel::Forward(message@),
        ),
        (Relay::Receiving, RelayEvent::Lagged) => (Relay::Receiving, RelayActionModel::Receive),
        (Relay::Receiving, RelayEvent::Ended) => (Relay::Stopped, RelayActionModel::Stop),
        (Relay::Forwarding, RelayEvent::Taken) => (Relay::Receiving, RelayActionModel::Receive),
        (Relay::Forwarding, RelayEvent::SubscriberGone) => (
            Relay::Stopped,
            RelayActionModel::Stop,
        ),
        _ => (relay, RelayActionModel::OutOfTurn),
    }
}

impl Relay {
    /// Takes what happened, and gives the relay after it and what to do next.
    pub fn step(self, event: RelayEvent) -> (next: (Relay, RelayAction))
        ensures
            (next.0, next.1@) == relay_step(self, event),
    {
        match (self, event) {
            (Relay::Receiving, RelayEvent::Received(message)) => {
                (Relay::Forwarding, RelayAction::Forward(message))
            },
            (Relay::Receiving, RelayEvent::Lagged) => (Relay::Receiving, RelayAction::Receive),
            (Relay::Receiving, RelayEvent::Ended) => (Relay::Stopped, RelayAction::Stop),
            (Relay::Forwarding, RelayEvent::Taken) => (Relay::Receiving, RelayAction::Receive),
            (Relay::Forwarding, RelayEvent::SubscriberGone) => (Relay::Stopped, RelayAction::Stop),
            (relay, _) => (relay, RelayAction::OutOfTurn),
        }
    }
}

} // verus!
