//! The calls of the user interface: starting and stopping the node, and
//! sending and receiving chat, sketch and voice messages.

use vstd::prelude::*;
use vstd::utf8::encode_utf8;

use crate::api::error::{ApiError, ApiFault};
use crate::api::feed::{VoiceFeed, VoiceFeedModel, VoiceStage};
use crate::digest::is_key_text;
use crate::node::publication::{Publication, PublicationModel};
use crate::node::subscription::{Subscription, SubscriptionModel};
use crate::node::{key_of_text, peer_of, short_form, Node, NodeError, NodeFault, PublicKeyHex};
use crate::pcm::{samples_from_bytes, samples_of, FRAME_BYTES};
use crate::text::{join, text_bytes};

verus! {

/// What the calls share: the node, once one was started, and whether there is
/// an encoder and a decoder for voice.
///
/// A node that was stopped stays here, not running.
#[derive(Debug)]
pub struct Api {
    node: Option<Node>,
    encoder: bool,
    decoder: bool,
}

/// What an `Api` holds.
pub struct ApiModel {
    pub node: Option<Option<Seq<char>>>,
    pub encoder: bool,
    pub decoder: bool,
}

impl View for Api {
    type V = ApiModel;

    closed spec fn view(&self) -> ApiModel {
        ApiModel {
            node: match self.node {
                Some(node) => Some(node@),
                None => None,
            },
            encoder: self.encoder,
            decoder: self.decoder,
        }
    }
}

impl Api {
    /// Nothing was started yet.
    pub fn new() -> (api: Self)
        ensures
            api@ == (ApiModel { node: None, encoder: false, decoder: false }),
    {
        Api { node: None, encoder: false, decoder: false }
    }

    /// The node, once one was started.
    pub fn node(&self) -> (node: Option<&Node>)
        ensures
            match self@.node {
                Some(key) => node matches Some(n) && n@ == key,
                None => node is None,
            },
    {
        self.node.as_ref()
    }
}

/// What the task that starts a node answers: the node, and its public key or
/// why it did not start. Nothing where the task died.
pub type StartReply = Option<(Node, Result<PublicKeyHex, NodeError>)>;

/// What becomes of a start, and what the caller is told.
pub open spec fn start_node_step(api: ApiModel, reply: StartReply) -> (
    ApiModel,
    Result<Seq<char>, ApiFault>,
) {
    match reply {
        None => (api, Err(ApiFault::StartupTaskFailed)),
        Some((_, Err(error))) => (api, Err(ApiFault::StartFailed(error@))),
        Some((node, Ok(key))) => if api.node is Some {
            (api, Err(ApiFault::NodeAlreadyStarted))
        } else {
            (ApiModel { node: Some(node@), ..api }, Ok(short_form(key@)))
        },
    }
}

/// Start the p2panda node with persistent identity, stored in the directory of
/// its start.
///
/// Returns this node's short ID (first 8 chars of public key).
pub fn start_node(api: &mut Api, reply: StartReply) -> (id: Result<String, ApiError>)
    ensures
        final(api)@ == start_node_step(old(api)@, reply).0,
        match start_node_step(old(api)@, reply).1 {
            Ok(text) => id matches Ok(t) && t@ == text,
            Err(fault) => id matches Err(error) && error@ == fault,
        },
{
    match reply {
        None => Err(ApiError::StartupTaskFailed),
        Some((_, Err(error))) => Err(ApiError::StartFailed(error)),
        Some((node, Ok(key))) => {
            let short_id = key.short();
            if api.node.is_some() {
                return Err(ApiError::NodeAlreadyStarted);
            }
            api.node = Some(node);
            Ok(short_id)
        },
    }
}

/// The public key of the running node, or why there is none.
pub open spec fn running_key(api: ApiModel) -> Result<Seq<char>, ApiFault> {
    match api.node {
        None => Err(ApiFault::NodeNotStarted),
        Some(None) => Err(ApiFault::Node(NodeFault::NotRunning)),
        Some(Some(key)) => Ok(key),
    }
}

/// Get this node's full public key hex string (64 chars) for sharing with peers.
pub fn get_full_node_id(api: &Api) -> (id: Result<String, ApiError>)
    ensures
        match running_key(api@) {
            Ok(key) => id matches Ok(text) && text@ == key && is_key_text(text@),
            Err(fault) => id matches Err(error) && error@ == fault,
        },
{
    match &api.node {
        None => Err(ApiError::NodeNotStarted),
        Some(node) => match node.full_id() {
            Ok(text) => Ok(text),
            Err(error) => Err(ApiError::Node(error)),
        },
    }
}

/// The peer that is added for a hex-encoded public key, or why none is.
pub open spec fn added_peer(api: ApiModel, node_id: Seq<char>) -> Result<Seq<u8>, ApiFault> {
    match api.node {
        None => Err(ApiFault::NodeNotStarted),
        Some(node) => match peer_of(node, key_of_text(node_id)) {
            Ok(id) => Ok(id),
            Err(fault) => Err(ApiFault::Node(fault)),
        },
    }
}

/// Add a remote peer by their hex-encoded public key.
///
/// Returns the identifier of the peer, for the network to connect to.
pub fn add_peer(api: &Api, node_id: &str) -> (peer: Result<[u8; 32], ApiError>)
    ensures
        match added_peer(api@, node_id@) {
            Ok(bytes) => peer matches Ok(id) && id@ == bytes,
            Err(fault) => peer matches Err(error) && error@ == fault,
        },
{
    match &api.node {
        None => Err(ApiError::NodeNotStarted),
        Some(node) => match node.add_peer(node_id) {
            Ok(id) => Ok(id),
            Err(error) => Err(ApiError::Node(error)),
        },
    }
}

/// What a text of a sender looks like to everyone: the sender, a colon and the
/// text.
pub open spec fn line(sender: Seq<char>, text: Seq<char>) -> Seq<char> {
    sender + ":"@ + text
}

/// What is published to the topic called `topic_name` for `text`.
pub open spec fn text_publication(
    api: ApiModel,
    topic_name: Seq<char>,
    text: Seq<char>,
) -> Result<PublicationModel, ApiFault> {
    match running_key(api) {
        Ok(key) => Ok(
            PublicationModel::Fresh {
                topic_name,
                message: encode_utf8(line(short_form(key), text)),
            },
        ),
        Err(fault) => Err(fault),
    }
}

fn send_text(api: &Api, topic_name: &str, text: &str) -> (publication: Result<
    Publication,
    ApiError,
>)
    ensures
        match text_publication(api@, topic_name@, text@) {
            Ok(model) => publication matches Ok(p) && p@ == model,
            Err(fault) => publication matches Err(error) && error@ == fault,
        },
{
    match &api.node {
        None => Err(ApiError::NodeNotStarted),
        Some(node) => match node.short_id() {
            Ok(short_id) => {
                let head = join(short_id.as_str(), ":");
                let payload = join(head.as_str(), text);
                Ok(Publication::new(topic_name, text_bytes(payload.as_str())))
            },
            Err(error) => Err(ApiError::Node(error)),
        },
    }
}

/// Send a chat message. Broadcast to all nearby devices via gossip.
pub fn send_message(api: &Api, message: &str) -> (publication: Result<Publication, ApiError>)
    ensures
        match text_publication(api@, "chat"@, message@) {
            Ok(model) => publication matches Ok(p) && p@ == model,
            Err(fault) => publication matches Err(error) && error@ == fault,
        },
{
    send_text(api, "chat", message)
}

/// Send a sketch stroke. Broadcast to all nearby devices via gossip.
///
/// Payload format: "sender_id:color:x1,y1;x2,y2;..."
pub fn send_sketch(api: &Api, stroke: &str) -> (publication: Result<Publication, ApiError>)
    ensures
        match text_publication(api@, "sketch"@, stroke@) {
            Ok(model) => publication matches Ok(p) && p@ == model,
            Err(fault) => publication matches Err(error) && error@ == fault,
        },
{
    send_text(api, "sketch", stroke)
}

/// The subscription to a topic of texts, or why there is none. Whether the node
/// runs shows when the subscription is carried out.
pub open spec fn text_subscription(api: ApiModel, topic_name: Seq<char>) -> Result<
    SubscriptionModel,
    ApiFault,
> {
    if api.node is Some {
        Ok(SubscriptionModel::Fresh { topic_name })
    } else {
        Err(ApiFault::NodeNotStarted)
    }
}

fn subscribe_text(api: &Api, topic_name: &str) -> (subscription: Result<Subscription, ApiError>)
    ensures
        match text_subscription(api@, topic_name@) {
            Ok(model) => subscription matches Ok(s) && s@ == model,
            Err(fault) => subscription matches Err(error) && error@ == fault,
        },
{
    if api.node.is_none() {
        return Err(ApiError::NodeNotStarted);
    }
    Ok(Subscription::new(topic_name))
}

/// Subscribe to incoming chat messages from nearby devices.
///
/// Messages arrive as "sender_id:message_text" strings.
pub fn subscribe_chat(api: &Api) -> (subscription: Result<Subscription, ApiError>)
    ensures
        match text_subscription(api@, "chat"@) {
            Ok(model) => subscription matches Ok(s) && s@ == model,
            Err(fault) => subscription matches Err(error) && error@ == fault,
        },
{
    subscribe_text(api, "chat")
}

/// Subscribe to incoming sketch strokes from nearby devices.
///
/// Strokes arrive as "sender_id:color:x1,y1;x2,y2;..." strings.
pub fn subscribe_sketch(api: &Api) -> (subscription: Result<Subscription, ApiError>)
    ensures
        match text_subscription(api@, "sketch"@) {
            Ok(model) => subscription matches Ok(s) && s@ == model,
            Err(fault) => subscription matches Err(error) && error@ == fault,
        },
{
    subscribe_text(api, "sketch")
}

/// Samples per second of the sound in voice messages.
pub const VOICE_SAMPLE_RATE_HZ: u32 = 16_000;

/// Channels of the sound in voice messages: one, mono.
pub const VOICE_CHANNELS: u8 = 1;

/// What an encoder is tuned for.
#[derive(Debug, Clone, Copy, PartialEq, Eq, Structural)]
pub enum Application {
    /// Speech.
    Voip,
    /// Any sound.
    Audio,
    /// The lowest delay.
    LowDelay,
}

/// How far the start of a voice session has come.
#[derive(Debug, Clone, Copy, PartialEq, Eq, Structural)]
pub enum VoiceStartup {
    /// Nothing has happened yet.
    Fresh,
    /// The encoder is being made.
    Encoder,
    /// The decoder is being made.
    Decoder,
    /// The start is over.
    Done,
}

/// What happened to the start of a voice session.
#[derive(Debug)]
pub enum VoiceStartEvent {
    /// The start was asked for.
    Begin,
    /// The encoder is there.
    EncoderCreated,
    /// The decoder is there.
    DecoderCreated,
    /// What was being made could not be made, with the reason.
    Failed(String),
}

/// What to do next for the start of a voice session.
#[derive(Debug)]
pub enum VoiceStartAction {
    /// Make an encoder for such sound.
    CreateEncoder { sample_rate_hz: u32, channels: u8, application: Application },
    /// Make a decoder for such sound.
    CreateDecoder { sample_rate_hz: u32, channels: u8 },
    /// Nothing more: the start ended like this. An encoder and a decoder that
    /// were made are kept, unless there were some before.
    Finish(Result<(), ApiError>),
    /// The event was not one that this start waits for; nothing changed.
    OutOfTurn,
}

/// What a `VoiceStartAction` says.
pub enum VoiceStartActionModel {
    CreateEncoder { sample_rate_hz: u32, channels: u8, application: Application },
    CreateDecoder { sample_rate_hz: u32, channels: u8 },
    Finish(Result<(), ApiFault>),
    OutOfTurn,
}

impl View for VoiceStartAction {
    type V = VoiceStartActionModel;

    open spec fn view(&self) -> VoiceStartActionModel {
        match *self {
            VoiceStartAction::CreateEncoder {
                sample_rate_hz,
                channels,
                application,
            } => VoiceStartActionModel::CreateEncoder { sample_rate_hz, channels, application },
            VoiceStartAction::CreateDecoder {
                sample_rate_hz,
                channels,
            } => VoiceStartActionModel::CreateDecoder { sample_rate_hz, channels },
            VoiceStartAction::Finish(Ok(_)) => VoiceStartActionModel::Finish(Ok(())),
            VoiceStartAction::Finish(Err(error)) => VoiceStartActionModel::Finish(Err(error@)),
            VoiceStartAction::OutOfTurn => VoiceStartActionModel::OutOfTurn,
        }
    }
}

/// The encoder of a voice session: 16kHz, mono, for speech.
pub open spec fn create_encoder() -> VoiceStartActionModel {
    VoiceStartActionModel::CreateEncoder {
        sample_rate_hz: VOICE_SAMPLE_RATE_HZ,
        channels: VOICE_CHANNELS,
        application: Application::Voip,
    }
}

/// The decoder of a voice session: 16kHz, mono.
pub open spec fn create_decoder() -> VoiceStartActionModel {
    VoiceStartActionModel::CreateDecoder {
        sample_rate_hz: VOICE_SAMPLE_RATE_HZ,
        channels: VOICE_CHANNELS,
    }
}

/// The shared state, a start of a voice session, and what to do next.
pub struct VoiceStartState {
    pub api: ApiModel,
    pub startup: VoiceStartup,
    pub action: VoiceStartActionModel,
}

/// What an event makes of the shared state and a start of a voice session.
pub open spec fn voice_start_step(
    api: ApiModel,
    startup: VoiceStartup,
    event: VoiceStartEvent,
) -> VoiceStartState {
    match (startup, event) {
        (VoiceStartup::Fresh, VoiceStartEvent::Begin) => if api.encoder && api.decoder {
            VoiceStartState {
                api,
                startup: VoiceStartup::Done,
                action: VoiceStartActionModel::Finish(Ok(())),
            }
        } else {
            VoiceStartState {
                api,
                startup: VoiceStartup::Encoder,
                action: create_encoder(),
            }
        },
        (VoiceStartup::Encoder, VoiceStartEvent::EncoderCreated) => VoiceStartState {
            api,
            startup: VoiceStartup::Decoder,
            action: create_decoder(),
        },
        (VoiceStartup::Encoder, VoiceStartEvent::Failed(reason)) => VoiceStartState {
            api,
            startup: VoiceStartup::Done,
            action: VoiceStartActionModel::Finish(Err(ApiFault::OpusEncoder(reason@))),
        },
        (VoiceStartup::Decoder, VoiceStartEvent::DecoderCreated) => VoiceStartState {
            api: ApiModel { encoder: true, decoder: true, ..api },
            startup: VoiceStartup::Done,
            action: VoiceStartActionModel::Finish(Ok(())),
        },
        (VoiceStartup::Decoder, VoiceStartEvent::Failed(reason)) => VoiceStartState {
            api,
            startup: VoiceStartup::Done,
            action: VoiceStartActionModel::Finish(Err(ApiFault::OpusDecoder(reason@))),
        },
        _ => VoiceStartState { api, startup, action: VoiceStartActionModel::OutOfTurn },
    }
}

/// Initialize the Opus encoder and decoder for voice chat.
///
/// Idempotent: once there is an encoder and a decoder, nothing is made and
/// nothing changes. Takes how far the start has come and what happened, and
/// gives how far it has come now and what to do next.
pub fn start_voice_session(api: &mut Api, startup: VoiceStartup, event: VoiceStartEvent) -> (next: (
    VoiceStartup,
    VoiceStartAction,
))
    ensures
        ({
            let after = voice_start_step(old(api)@, startup, event);
            &&& final(api)@ == after.api
            &&& next.0 == after.startup
            &&& next.1@ == after.action
        }),
{
    match (startup, event) {
        (VoiceStartup::Fresh, VoiceStartEvent::Begin) => {
            if api.encoder && api.decoder {
                (VoiceStartup::Done, VoiceStartAction::Finish(Ok(())))
            } else {
                let action = VoiceStartAction::CreateEncoder {
                    sample_rate_hz: VOICE_SAMPLE_RATE_HZ,
                    channels: VOICE_CHANNELS,
                    application: Application::Voip,
                };
                (VoiceStartup::Encoder, action)
            }
        },
        (VoiceStartup::Encoder, VoiceStartEvent::EncoderCreated) => {
            let action = VoiceStartAction::CreateDecoder {
                sample_rate_hz: VOICE_SAMPLE_RATE_HZ,
                channels: VOICE_CHANNELS,
            };
            (VoiceStartup::Decoder, action)
        },
        (VoiceStartup::Encoder, VoiceStartEvent::Failed(reason)) => {
            (VoiceStartup::Done, VoiceStartAction::Finish(Err(ApiError::OpusEncoder(reason))))
        },
        (VoiceStartup::Decoder, VoiceStartEvent::DecoderCreated) => {
            api.encoder = true;
            api.decoder = true;
            (VoiceStartup::Done, VoiceStartAction::Finish(Ok(())))
        },
        (VoiceStartup::Decoder, VoiceStartEvent::Failed(reason)) => {
            (VoiceStartup::Done, VoiceStartAction::Finish(Err(ApiError::OpusDecoder(reason))))
        },
        (startup, _) => (startup, VoiceStartAction::OutOfTurn),
    }
}

/// Why a voice frame of `len` bytes is not even encoded, if it is not.
pub open spec fn frame_refusal(api: ApiModel, len: nat) -> Option<ApiFault> {
    if api.node is None {
        Some(ApiFault::NodeNotStarted)
    } else if !api.encoder {
        Some(ApiFault::VoiceSessionNotStarted)
    } else if len != FRAME_BYTES {
        Some(ApiFault::FrameLength(len))
    } else {
        None
    }
}

/// Encode a PCM audio frame with Opus and broadcast via gossip.
///
/// `pcm_bytes` should be 640 bytes of 16-bit signed LE PCM (320 samples at
/// 16kHz = 20ms). Returns the samples to encode.
pub fn send_voice_frame(api: &Api, pcm_bytes: &[u8]) -> (samples: Result<Vec<i16>, ApiError>)
    ensures
        match frame_refusal(api@, pcm_bytes@.len()) {
            Some(fault) => samples matches Err(error) && error@ == fault,
            None => samples matches Ok(s) && s@ == samples_of(pcm_bytes@),
        },
{
    if api.node.is_none() {
        return Err(ApiError::NodeNotStarted);
    }
    if !api.encoder {
        return Err(ApiError::VoiceSessionNotStarted);
    }
    let len: usize = pcm_bytes.len();
    if len != FRAME_BYTES {
        return Err(ApiError::FrameLength(len));
    }
    Ok(samples_from_bytes(pcm_bytes))
}

/// The size of the buffer that a frame is encoded into; encoded frames are
/// typically under 100 bytes.
pub const OPUS_BUFFER_BYTES: usize = 256;

/// What came of encoding a frame.
#[derive(Debug)]
pub enum EncodeOutcome {
    /// The encoder could not be locked, with the reason.
    LockFailed(String),
    /// The encoder refused the frame, with the reason.
    Failed(String),
    /// The encoder wrote `len` bytes into `buffer`.
    Encoded { buffer: Vec<u8>, len: usize },
}

/// The bytes that the encoder wrote: the first `len` of `buffer`, and all of
/// them where there are fewer.
pub open spec fn encoded_frame(buffer: Seq<u8>, len: nat) -> Seq<u8> {
    if len <= buffer.len() {
        buffer.take(len as int)
    } else {
        buffer
    }
}

/// A voice message: the identifier of the sender and the encoded frame.
pub open spec fn voice_message(sender: Seq<char>, frame: Seq<u8>) -> Seq<u8> {
    encode_utf8(sender) + frame
}

/// What is published for an encoded voice frame.
pub open spec fn voice_publication(api: ApiModel, outcome: EncodeOutcome) -> Result<
    PublicationModel,
    ApiFault,
> {
    match outcome {
        EncodeOutcome::LockFailed(reason) => Err(ApiFault::EncoderLock(reason@)),
        EncodeOutcome::Failed(reason) => Err(ApiFault::OpusEncode(reason@)),
        EncodeOutcome::Encoded { buffer, len } => match running_key(api) {
            Ok(key) => Ok(
                PublicationModel::Fresh {
                    topic_name: "voice"@,
                    message: voice_message(
                        short_form(key),
                        encoded_frame(buffer@, len as nat),
                    ),
                },
            ),
            Err(fault) => Err(fault),
        },
    }
}

/// Broadcast an encoded voice frame via gossip.
pub fn send_encoded_frame(api: &Api, outcome: EncodeOutcome) -> (publication: Result<
    Publication,
    ApiError,
>)
    ensures
        match voice_publication(api@, outcome) {
            Ok(model) => publication matches Ok(p) && p@ == model,
            Err(fault) => publication matches Err(error) && error@ == fault,
        },
{
    match outcome {
        EncodeOutcome::LockFailed(reason) => Err(ApiError::EncoderLock(reason)),
        EncodeOutcome::Failed(reason) => Err(ApiError::OpusEncode(reason)),
        EncodeOutcome::Encoded { buffer, len } => match &api.node {
            None => Err(ApiError::NodeNotStarted),
            Some(node) => match node.short_id() {
                Err(error) => Err(ApiError::Node(error)),
                Ok(short_id) => {
                    let mut frame = buffer;
                    frame.truncate(len);
                    assert(frame@ =~= encoded_frame(buffer@, len as nat));
                    let mut payload = text_bytes(short_id.as_str());
                    payload.extend_from_slice(frame.as_slice());
                    assert(payload@ =~= encode_utf8(short_id@) + frame@);
                    Ok(Publication::new("voice", payload))
                },
            },
        },
    }
}

/// The feed and the subscription for voice messages, or why there are none.
pub open spec fn voice_subscription(api: ApiModel) -> Result<
    (VoiceFeedModel, SubscriptionModel),
    ApiFault,
> {
    match api.node {
        None => Err(ApiFault::NodeNotStarted),
        Some(running) => if !api.decoder {
            Err(ApiFault::VoiceSessionNotStarted)
        } else {
            match running {
                None => Err(ApiFault::ShortId(NodeFault::NotRunning)),
                Some(key) => Ok(
                    (
                        VoiceFeedModel {
                            own_id: encode_utf8(short_form(key)),
                            stage: VoiceStage::Receiving,
                        },
                        SubscriptionModel::Fresh { topic_name: "voice"@ },
                    ),
                ),
            }
        },
    }
}

/// Subscribe to incoming voice frames from nearby devices.
///
/// Decoded PCM frames (640 bytes of 16-bit signed LE, 320 samples at 16kHz) are
/// delivered by the feed. Own frames are skipped, and so is what does not decode
/// to a whole frame.
pub fn subscribe_voice(api: &Api) -> (subscribed: Result<(VoiceFeed, Subscription), ApiError>)
    ensures
        match voice_subscription(api@) {
            Ok(model) => subscribed matches Ok(s) && (s.0@, s.1@) == model,
            Err(fault) => subscribed matches Err(error) && error@ == fault,
        },
{
    match &api.node {
        None => Err(ApiError::NodeNotStarted),
        Some(node) => {
            if !api.decoder {
                return Err(ApiError::VoiceSessionNotStarted);
            }
            match node.short_id() {
                Ok(short_id) => {
                    let feed = VoiceFeed::new(text_bytes(short_id.as_str()));
                    Ok((feed, Subscription::new("voice")))
                },
                Err(error) => Err(ApiError::ShortId(error)),
            }
        },
    }
}

/// What becomes of a stop, and what the caller is told.
pub open spec fn stop_node_step(api: ApiModel) -> (ApiModel, Result<(), ApiFault>) {
    match running_key(api) {
        Ok(_) => (ApiModel { node: Some(None), ..api }, Ok(())),
        Err(fault) => (api, Err(fault)),
    }
}

/// Shut down the node.
pub fn stop_node(api: &mut Api) -> (outcome: Result<(), ApiError>)
    ensures
        final(api)@ == stop_node_step(old(api)@).0,
        match stop_node_step(old(api)@).1 {
            Ok(_) => outcome is Ok,
            Err(fault) => outcome matches Err(error) && error@ == fault,
        },
{
    match &mut api.node {
        None => Err(ApiError::NodeNotStarted),
        Some(node) => match node.shutdown() {
            Ok(_) => Ok(()),
            Err(error) => Err(ApiError::Node(error)),
        },
    }
}

} // verus!
