//! What a subscriber is shown of the messages that arrive.

use vstd::prelude::*;
use vstd::slice::{slice_subrange, slice_to_vec};

use crate::pcm::{bytes_of, samples_to_bytes, OPUS_FRAME_SAMPLES};
use crate::text::{decode_text, utf8_text};

verus! {

/// Sender ID prefix length in voice messages.
pub const VOICE_SENDER_LEN: usize = 8;

/// A feed of text messages.
#[derive(Debug)]
pub enum TextFeed {
    /// Waiting for a message.
    Receiving,
    /// Waiting for the listener to take a text.
    Delivering,
    /// Nothing is delivered any more.
    Stopped,
}

/// What happened to a text feed.
#[derive(Debug)]
pub enum TextEvent {
    /// These bytes arrived.
    Received(Vec<u8>),
    /// No more messages will arrive.
    Ended,
    /// The listener took the text.
    Taken,
    /// The listener is gone.
    ListenerGone,
}

/// What to do next for a text feed.
#[derive(Debug)]
pub enum TextAction {
    /// Wait for a message.
    Receive,
    /// Hand this text to the listener.
    Deliver(String),
    /// Nothing more.
    Stop,
    /// The event was not one that this feed waits for; nothing changed.
    OutOfTurn,
}

/// What a `TextAction` says.
pub enum TextActionModel {
    Receive,
    Deliver(Seq<char>),
    Stop,
    OutOfTurn,
}

impl View for TextAction {
    type V = TextActionModel;

    open spec fn view(&self) -> TextActionModel {
        match *self {
            TextAction::Receive => TextActionModel::Receive,
            TextAction::Deliver(text) => TextActionModel::Deliver(text@),
            TextAction::Stop => TextActionModel::Stop,
            TextAction::OutOfTurn => TextActionModel::OutOfTurn,
        }
    }
}

/// What an event makes of a text feed: a message that is UTF-8 is delivered,
/// any other is passed over.
pub open spec fn text_step(feed: TextFeed, event: TextEvent) -> (TextFeed, TextActionModel) {
    match (feed, event) {
        (TextFeed::Receiving, TextEvent::Received(message)) => match utf8_text(message@) {
            Some(text) => (TextFeed::Delivering, TextActionModel::Deliver(text)),
            None => (TextFeed::Receiving, TextActionModel::Receive),
        },
        (TextFeed::Receiving, TextEvent::Ended) => (TextFeed::Stopped, TextActionModel::Stop),
        (TextFeed::Delivering, TextEvent::Taken) => (TextFeed::Receiving, TextActionModel::Receive),
        (TextFeed::Delivering, TextEvent::ListenerGone) => (
            TextFeed::Stopped,
            TextActionModel::Stop,
        ),
        _ => (feed, TextActionModel::OutOfTurn),
    }
}

impl TextFeed {
    /// Takes what happened, and gives the feed after it and what to do next.
    pub fn step(self, event: TextEvent) -> (next: (TextFeed, TextAction))
        ensures
            (next.0, next.1@) == text_step(self, event),
    {
        match (self, event) {
            (TextFeed::Receiving, TextEvent::Received(message)) => {
                match decode_text(message) {
                    Some(text) => (TextFeed::Delivering, TextAction::Deliver(text)),
                    None => (TextFeed::Receiving, TextAction::Receive),
                }
            },
            (TextFeed::Receiving, TextEvent::Ended) => (TextFeed::Stopped, TextAction::Stop),
            (TextFeed::Delivering, TextEvent::Taken) => (TextFeed::Receiving, TextAction::Receive),
            (TextFeed::Delivering, TextEvent::ListenerGone) => {
                (TextFeed::Stopped, TextAction::Stop)
            },
            (feed, _) => (feed, TextAction::OutOfTurn),
        }
    }
}

/// The encoded frame in a voice message, as the node with the identifier
/// `own_id` hears it: nothing in a message that holds no more than a sender,
/// nothing in a message of its own.
pub open spec fn heard(own_id: Seq<u8>, message: Seq<u8>) -> Option<Seq<u8>> {
    if message.len() <= VOICE_SENDER_LEN {
        None
    } else if message.take(VOICE_SENDER_LEN as int) == own_id {
        None
    } else {
        Some(message.skip(VOICE_SENDER_LEN as int))
    }
}

fn sent_by(message: &[u8], sender: &[u8]) -> (same: bool)
    requires
        message@.len() >= VOICE_SENDER_LEN,
    ensures
        same == (message@.take(VOICE_SENDER_LEN as int) == sender@),
{
    if sender.len() != VOICE_SENDER_LEN {
        return false;
    }
    let mut i: usize = 0;
    while i < VOICE_SENDER_LEN
        invariant
            i <= VOICE_SENDER_LEN == sender@.len(),
            message@.len() >= VOICE_SENDER_LEN,
            forall|k: int| 0 <= k < i ==> message@[k] == sender@[k],
        decreases VOICE_SENDER_LEN - i,
    {
        if message[i] != sender[i] {
            assert(message@.take(VOICE_SENDER_LEN as int)[i as int] == message@[i as int]);
            return false;
        }
        i = i + 1;
    }
    assert(message@.take(VOICE_SENDER_LEN as int) =~= sender@);
    true
}

/// The encoded frame in a voice message, as the node with the identifier
/// `own_id` hears it.
pub fn voice_frame(own_id: &[u8], message: &[u8]) -> (frame: Option<Vec<u8>>)
    ensures
        match heard(own_id@, message@) {
            Some(bytes) => frame matches Some(f) && f@ == bytes,
            None => frame is None,
        },
{
    if message.len() <= VOICE_SENDER_LEN || sent_by(message, own_id) {
        return None;
    }
    let frame = slice_to_vec(slice_subrange(message, VOICE_SENDER_LEN, message.len()));
    assert(frame@ =~= message@.skip(VOICE_SENDER_LEN as int));
    Some(frame)
}

/// Where a voice feed stands.
#[derive(Debug, Clone, Copy, PartialEq, Eq, Structural)]
pub enum VoiceStage {
    /// Waiting for a message.
    Receiving,
    /// Waiting for a frame to be decoded.
    Decoding,
    /// Waiting for the listener to take the sound.
    Delivering,
    /// Nothing is delivered any more.
    Stopped,
}

/// A feed of voice messages to the node with this identifier.
#[derive(Debug)]
pub struct VoiceFeed {
    own_id: Vec<u8>,
    stage: VoiceStage,
}

/// What a `VoiceFeed` holds.
pub struct VoiceFeedModel {
    pub own_id: Seq<u8>,
    pub stage: VoiceStage,
}

impl View for VoiceFeed {
    type V = VoiceFeedModel;

    closed spec fn view(&self) -> VoiceFeedModel {
        VoiceFeedModel { own_id: self.own_id@, stage: self.stage }
    }
}

/// What happened to a voice feed.
#[derive(Debug)]
pub enum VoiceEvent {
    /// These bytes arrived.
    Received(Vec<u8>),
    /// No more messages will arrive.
    Ended,
    /// The frame was decoded into the first `count` of these samples.
    Decoded { samples: Vec<i16>, count: usize },
    /// The frame could not be decoded.
    Undecodable,
    /// The listener took the sound.
    Taken,
    /// The listener is gone.
    ListenerGone,
}

impl VoiceEvent {
    /// No more samples are decoded than there is room for.
    pub open spec fn within_buffer(self) -> bool {
        match self {
            VoiceEvent::Decoded { samples, count } => count <= samples@.len(),
            _ => true,
        }
    }
}

/// What to do next for a voice feed.
#[derive(Debug)]
pub enum VoiceAction {
    /// Wait for a message.
    Receive,
    /// Decode this frame.
    Decode(Vec<u8>),
    /// Hand this sound to the listener.
    Deliver(Vec<u8>),
    /// Nothing more.
    Stop,
    /// The event was not one that this feed waits for; nothing changed.
    OutOfTurn,
}

/// What a `VoiceAction` says.
pub enum VoiceActionModel {
    Receive,
    Decode(Seq<u8>),
    Deliver(Seq<u8>),
    Stop,
    OutOfTurn,
}

impl View for VoiceAction {
    type V = VoiceActionModel;

    open spec fn view(&self) -> VoiceActionModel {
        match *self {
            VoiceAction::Receive => VoiceActionModel::Receive,
            VoiceAction::Decode(frame) => VoiceActionModel::Decode(frame@),
            VoiceAction::Deliver(sound) => VoiceActionModel::Deliver(sound@),
            VoiceAction::Stop => VoiceActionModel::Stop,
            VoiceAction::OutOfTurn => VoiceActionModel::OutOfTurn,
        }
    }
}

/// What an event makes of a voice feed: a frame of another node is decoded, and
/// delivered where it is a whole one; anything else is passed over.
pub open spec fn voice_step(feed: VoiceFeedModel, event: VoiceEvent) -> (
    VoiceFeedModel,
    VoiceActionModel,
) {
    match (feed.stage, event) {
        (VoiceStage::Receiving, VoiceEvent::Received(message)) => match heard(
            feed.own_id,
            message@,
        ) {
            Some(frame) => (
                VoiceFeedModel { stage: VoiceStage::Decoding, ..feed },
                VoiceActionModel::Decode(frame),
            ),
            None => (feed, VoiceActionModel::Receive),
        },
        (VoiceStage::Receiving, VoiceEvent::Ended) => (
            VoiceFeedModel { stage: VoiceStage::Stopped, ..feed },
            VoiceActionModel::Stop,
        ),
        (
            VoiceStage::Decoding,
            VoiceEvent::Decoded { samples, count },
        ) => if count == OPUS_FRAME_SAMPLES {
            (
                VoiceFeedModel { stage: VoiceStage::Delivering, ..feed },
                VoiceActionModel::Deliver(bytes_of(samples@.take(count as int))),
            )
        } else {
            (
                VoiceFeedModel { stage: VoiceStage::Receiving, ..feed },
                VoiceActionModel::Receive,
            )
        },
        (VoiceStage::Decoding, VoiceEvent::Undecodable) => (
            VoiceFeedModel { stage: VoiceStage::Receiving, ..feed },
            VoiceActionModel::Receive,
        ),
        (VoiceStage::Delivering, VoiceEvent::Taken) => (
            VoiceFeedModel { stage: VoiceStage::Receiving, ..feed },
            VoiceActionModel::Receive,
        ),
        (VoiceStage::Delivering, VoiceEvent::ListenerGone) => (
            VoiceFeedModel { stage: VoiceStage::Stopped, ..feed },
            VoiceActionModel::Stop,
        ),
        _ => (feed, VoiceActionModel::OutOfTurn),
    }
}

impl VoiceFeed {
    /// A feed to the node with this identifier.
    pub fn new(own_id: Vec<u8>) -> (feed: Self)
        ensures
            feed@ == (VoiceFeedModel { own_id: own_id@, stage: VoiceStage::Receiving }),
    {
        VoiceFeed { own_id, stage: VoiceStage::Receiving }
    }

    /// Takes what happened, and gives what to do next.
    pub fn step(&mut self, event: VoiceEvent) -> (action: VoiceAction)
        requires
            event.within_buffer(),
        ensures
            (final(self)@, action@) == voice_step(old(self)@, event),
    {
        match (self.stage, event) {
            (VoiceStage::Receiving, VoiceEvent::Received(message)) => {
                match voice_frame(self.own_id.as_slice(), message.as_slice()) {
                    Some(frame) => {
                        self.stage = VoiceStage::Decoding;
                        VoiceAction::Decode(frame)
                    },
                    None => VoiceAction::Receive,
                }
            },
            (VoiceStage::Receiving, VoiceEvent::Ended) => {
                self.stage = VoiceStage::Stopped;
                VoiceAction::Stop
            },
            (VoiceStage::Decoding, VoiceEvent::Decoded { samples, count }) => {
                if count == OPUS_FRAME_SAMPLES {
                    self.stage = VoiceStage::Delivering;
                    VoiceAction::Deliver(samples_to_bytes(samples.as_slice(), count))
                } else {
                    self.stage = VoiceStage::Receiving;
                    VoiceAction::Receive
                }
            },
            (VoiceStage::Decoding, VoiceEvent::Undecodable) => {
                self.stage = VoiceStage::Receiving;
                VoiceAction::Receive
            },
            (VoiceStage::Delivering, VoiceEvent::Taken) => {
                self.stage = VoiceStage::Receiving;
                VoiceAction::Receive
            },
            (VoiceStage::Delivering, VoiceEvent::ListenerGone) => {
                self.stage = VoiceStage::Stopped;
                VoiceAction::Stop
            },
            _ => VoiceAction::OutOfTurn,
        }
    }
}

} // verus!
