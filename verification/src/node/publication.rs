//! Publishing one message: which topic to open, what to send on it, and what a
//! failure is reported as.

use vstd::prelude::*;

use crate::node::{topic_from_name, topic_id, Node, NodeError, NodeFault};
use crate::text::join;

verus! {

/// How far the publishing of a message has come.
#[derive(Debug)]
pub enum Publication {
    /// The message waits to be published to the topic with this name.
    Fresh { topic_name: String, message: Vec<u8> },
    /// The stream of the topic is being opened.
    Opening { message: Vec<u8> },
    /// The message is being sent.
    Sending,
    /// The publishing is over.
    Done,
}

/// What a `Publication` holds.
pub enum PublicationModel {
    Fresh { topic_name: Seq<char>, message: Seq<u8> },
    Opening { message: Seq<u8> },
    Sending,
    Done,
}

impl View for Publication {
    type V = PublicationModel;

    open spec fn view(&self) -> PublicationModel {
        match *self {
            Publication::Fresh { topic_name, message } => PublicationModel::Fresh {
                topic_name: topic_name@,
                message: message@,
            },
            Publication::Opening { message } => PublicationModel::Opening { message: message@ },
            Publication::Sending => PublicationModel::Sending,
            Publication::Done => PublicationModel::Done,
        }
    }
}

/// What happened to a message that is being published.
#[derive(Debug)]
pub enum PublishEvent {
    /// The publishing was asked for.
    Begin,
    /// The stream of the topic is open.
    StreamOpened,
    /// The message is out.
    Sent,
    /// What was being done failed, with the reason.
    Failed(String),
}

/// What to do next for a message that is being published.
#[derive(Debug)]
pub enum PublishAction {
    /// Open the gossip stream of the topic with this identifier.
    OpenStream([u8; 32]),
    /// Send these bytes on the stream.
    Send(Vec<u8>),
    /// Nothing more: the publishing ended like this.
    Finish(Result<(), NodeError>),
    /// The event was not one that this publishing waits for; nothing changed.
    OutOfTurn,
}

/// What a `PublishAction` says.
pub enum PublishActionModel {
    OpenStream(Seq<u8>),
    Send(Seq<u8>),
    Finish(Result<(), NodeFault>),
    OutOfTurn,
}

impl View for PublishAction {
    type V = PublishActionModel;

    open spec fn view(&self) -> PublishActionModel {
        match *self {
            PublishAction::OpenStream(topic) => PublishActionModel::OpenStream(topic@),
            PublishAction::Send(message) => PublishActionModel::Send(message@),
            PublishAction::Finish(Ok(_)) => PublishActionModel::Finish(Ok(())),
            PublishAction::Finish(Err(error)) => PublishActionModel::Finish(Err(error@)),
            PublishAction::OutOfTurn => PublishActionModel::OutOfTurn,
        }
    }
}

/// What an event makes of a message that is being published by a node.
pub open spec fn publish_step(
    node: Option<Seq<char>>,
    publication: PublicationModel,
    event: PublishEvent,
) -> (PublicationModel, PublishActionModel) {
    match (publication, event) {
        (
            PublicationModel::Fresh { topic_name, message },
            PublishEvent::Begin,
        ) => if node is Some {
            (
                PublicationModel::Opening { message },
                PublishActionModel::OpenStream(topic_id(topic_name)),
            )
        } else {
            (PublicationModel::Done, PublishActionModel::Finish(Err(NodeFault::NotRunning)))
        },
        (PublicationModel::Opening { message }, PublishEvent::StreamOpened) => (
            PublicationModel::Sending,
            PublishActionModel::Send(message),
        ),
        (PublicationModel::Opening { .. }, PublishEvent::Failed(reason)) => (
            PublicationModel::Done,
            PublishActionModel::Finish(Err(NodeFault::Network("gossip stream: "@ + reason@))),
        ),
        (PublicationModel::Sending, PublishEvent::Sent) => (
            PublicationModel::Done,
            PublishActionModel::Finish(Ok(())),
        ),
        (PublicationModel::Sending, PublishEvent::Failed(reason)) => (
            PublicationModel::Done,
            PublishActionModel::Finish(Err(NodeFault::Network("publish: "@ + reason@))),
        ),
        _ => (publication, PublishActionModel::OutOfTurn),
    }
}

impl Publication {
    /// A message to publish to a named topic.
    pub fn new(topic_name: &str, message: Vec<u8>) -> (publication: Self)
        ensures
            publication@ == (PublicationModel::Fresh { topic_name: topic_name@, message: message@ }),
    {
        Publication::Fresh { topic_name: topic_name.to_owned(), message }
    }
}

impl Node {
    /// Publish a message to a named topic via gossip.
    ///
    /// Takes how far the publishing has come and what happened, and gives how
    /// far it has come now and what to do next.
    pub fn publish(&self, publication: Publication, event: PublishEvent) -> (next: (
        Publication,
        PublishAction,
    ))
        ensures
            (next.0@, next.1@) == publish_step(self@, publication@, event),
    {
        match (publication, event) {
            (Publication::Fresh { topic_name, message }, PublishEvent::Begin) => {
                if self.inner.is_none() {
                    return (
                        Publication::Done,
                        PublishAction::Finish(Err(NodeError::NotRunning)),
                    );
                }
                let topic = topic_from_name(topic_name.as_str());
                (Publication::Opening { message }, PublishAction::OpenStream(topic))
            },
            (Publication::Opening { message }, PublishEvent::StreamOpened) => {
                (Publication::Sending, PublishAction::Send(message))
            },
            (Publication::Opening { .. }, PublishEvent::Failed(reason)) => {
                let reason = join("gossip stream: ", reason.as_str());
                (Publication::Done, PublishAction::Finish(Err(NodeError::Network(reason))))
            },
            (Publication::Sending, PublishEvent::Sent) => {
                (Publication::Done, PublishAction::Finish(Ok(())))
            },
            (Publication::Sending, PublishEvent::Failed(reason)) => {
                let reason = join("publish: ", reason.as_str());
                (Publication::Done, PublishAction::Finish(Err(NodeError::Network(reason))))
            },
            (publication, _) => (publication, PublishAction::OutOfTurn),
        }
    }
}

} // verus!
