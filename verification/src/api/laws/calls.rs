//! What each call does, on every input.

use vstd::prelude::*;
use vstd::utf8::{
    decode_utf8, encode_utf8, encode_utf8_decode_utf8, encode_utf8_valid_utf8,
    is_ascii_chars_encode_utf8, valid_utf8,
};

use crate::api::chat::{
    added_peer, frame_refusal, running_key, start_node_step, stop_node_step, text_publication,
    text_subscription, voice_publication, voice_start_step, voice_subscription, ApiModel,
    Application, EncodeOutcome, StartReply, VoiceStartAction, VoiceStartActionModel,
    VoiceStartEvent, VoiceStartState, VoiceStartup, OPUS_BUFFER_BYTES,
};
use crate::api::error::ApiFault;
use crate::api::feed::{
    text_step, voice_step, TextActionModel, TextEvent, TextFeed, VoiceActionModel, VoiceEvent,
    VoiceStage,
};
use crate::digest::{hex_text, is_public_key, law_hexadecimal_read};
use crate::node::publication::{publish_step, PublicationModel, PublishActionModel, PublishEvent};
use crate::node::subscription::{
    subscribe_step, SubscribeActionModel, SubscribeEvent, SubscriptionModel,
};
use crate::node::NodeFault;
use crate::pcm::{law_bytes_become_samples, samples_of};

verus! {

/// The first eight characters of a text of a key are one byte each.
pub proof fn lemma_sender_bytes(key: Seq<char>)
    requires
        key.len() == 64,
        forall|i: int| 0 <= i < 64 ==> '0' <= #[trigger] key[i] <= '9' || 'a' <= key[i] <= 'f',
    ensures
        encode_utf8(key.take(8)).len() == 8,
{
    assert forall|i: int| 0 <= i < 8 implies '\0' <= #[trigger] key.take(8)[i] <= '\u{7f}' by {
        assert(key.take(8)[i] == key[i]);
    }
    is_ascii_chars_encode_utf8(key.take(8));
}

/// The first node that starts is kept, with nothing else changed, and the caller
/// is told the first eight characters of its key. In every other case nothing
/// changes, and the caller is told why.
pub proof fn law_start_call(api: ApiModel, reply: StartReply)
    ensures
        ({
            let (after, told) = start_node_step(api, reply);
            match reply {
                None => after == api && told == Err::<Seq<char>, ApiFault>(
                    ApiFault::StartupTaskFailed,
                ),
                Some((_, Err(error))) => after == api && told == Err::<Seq<char>, ApiFault>(
                    ApiFault::StartFailed(error@),
                ),
                Some((node, Ok(key))) => if api.node is Some {
                    after == api && told == Err::<Seq<char>, ApiFault>(
                        ApiFault::NodeAlreadyStarted,
                    )
                } else {
                    &&& told == Ok::<Seq<char>, ApiFault>(key@.take(8))
                    &&& after.node == Some(node@)
                    &&& after.encoder == api.encoder
                    &&& after.decoder == api.decoder
                },
            }
        }),
{
}

/// A running node shares its whole key. Without one there is none to share.
pub proof fn law_key_shared(api: ApiModel, key: Seq<char>)
    ensures
        api.node == Some(Some(key)) ==> running_key(api) == Ok::<Seq<char>, ApiFault>(key),
        api.node == Some(None::<Seq<char>>) ==> running_key(api) == Err::<Seq<char>, ApiFault>(
            ApiFault::Node(NodeFault::NotRunning),
        ),
        api.node is None ==> running_key(api) == Err::<Seq<char>, ApiFault>(
            ApiFault::NodeNotStarted,
        ),
{
}

/// A running node can be stopped, whatever its key, and does not run afterwards.
/// Nothing else changes. What does not run cannot be stopped.
pub proof fn law_running_node_stops(api: ApiModel)
    ensures
        ({
            let (after, told) = stop_node_step(api);
            &&& after.encoder == api.encoder
            &&& after.decoder == api.decoder
            &&& match api.node {
                Some(Some(_)) => told == Ok::<(), ApiFault>(()) && after.node == Some(
                    None::<Seq<char>>,
                ),
                Some(None) => told == Err::<(), ApiFault>(ApiFault::Node(NodeFault::NotRunning))
                    && after == api,
                None => told == Err::<(), ApiFault>(ApiFault::NodeNotStarted) && after == api,
            }
        }),
{
}

/// A running node connects to the peer whose 32 bytes a text writes as 64
/// hexadecimal digits, of either case, where they are a public key. It refuses
/// every other text.
pub proof fn law_peer_added(api: ApiModel, text: Seq<char>, id: Seq<u8>)
    requires
        api.node matches Some(Some(_)),
        id.len() == 32,
    ensures
        ({
            let names_id = {
                &&& text.len() == 64
                &&& forall|i: int|
                    0 <= i < 64 ==> (#[trigger] text[i] == hex_text(id)[i] || 'A' <= text[i] <= 'F'
                        && text[i] as int + 32 == hex_text(id)[i] as int)
            };
            &&& added_peer(api, text) == Ok::<Seq<u8>, ApiFault>(id) <==> names_id
                && is_public_key(id)
            &&& added_peer(api, text) is Err ==> added_peer(api, text)->Err_0 == ApiFault::Node(
                NodeFault::Network("invalid node id"@),
            )
            &&& added_peer(api, text) matches Ok(peer) ==> peer.len() == 32
        }),
{
    law_hexadecimal_read(text, id);
}

/// A text of a running node is published under the name of its topic: the first
/// eight characters of the key, a colon and the text, all of it and nothing else.
pub proof fn law_text_sent(api: ApiModel, key: Seq<char>, topic_name: Seq<char>, text: Seq<char>)
    requires
        api.node == Some(Some(key)),
        key.len() == 64,
    ensures
        text_publication(api, topic_name, text) matches Ok(
            PublicationModel::Fresh { topic_name: name, message },
        ) && {
            let sent = decode_utf8(message);
            &&& name == topic_name
            &&& valid_utf8(message)
            &&& message == encode_utf8(sent)
            &&& sent.len() == 8 + 1 + text.len()
            &&& forall|i: int| 0 <= i < 8 ==> #[trigger] sent[i] == key[i]
            &&& sent[8] == ':'
            &&& sent.skip(9) == text
        },
{
    reveal_strlit(":");
    let sent = key.take(8) + ":"@ + text;
    encode_utf8_valid_utf8(sent);
    encode_utf8_decode_utf8(sent);
    assert(sent.skip(9) =~= text);
}

/// No text is sent without a running node.
pub proof fn law_text_not_sent(api: ApiModel, topic_name: Seq<char>, text: Seq<char>)
    ensures
        api.node is None ==> text_publication(api, topic_name, text) == Err::<
            PublicationModel,
            ApiFault,
        >(ApiFault::NodeNotStarted),
        api.node == Some(None::<Seq<char>>) ==> text_publication(api, topic_name, text) == Err::<
            PublicationModel,
            ApiFault,
        >(ApiFault::Node(NodeFault::NotRunning)),
{
}

/// Once a node was started, a subscription to texts under a name is one to the
/// topic of that name, whatever was done about voice.
pub proof fn law_text_subscribed(api: ApiModel, topic_name: Seq<char>)
    ensures
        api.node is Some ==> text_subscription(api, topic_name) == Ok::<
            SubscriptionModel,
            ApiFault,
        >(SubscriptionModel::Fresh { topic_name }),
        api.node is None ==> text_subscription(api, topic_name) == Err::<
            SubscriptionModel,
            ApiFault,
        >(ApiFault::NodeNotStarted),
{
}

/// A text of a running node reaches every running node that subscribed under the
/// same name: it goes to the stream that they opened, and they are shown the
/// sender, a colon and the text.
pub proof fn law_text_reaches_subscribers(
    sender: ApiModel,
    subscriber: ApiModel,
    key: Seq<char>,
    other_key: Seq<char>,
    topic_name: Seq<char>,
    text: Seq<char>,
    arrived: Vec<u8>,
)
    requires
        sender.node == Some(Some(key)),
        subscriber.node == Some(Some(other_key)),
        key.len() == 64,
        arrived@ == encode_utf8(key.take(8) + seq![':'] + text),
    ensures
        text_publication(sender, topic_name, text) matches Ok(publication)
            && text_subscription(subscriber, topic_name) matches Ok(subscription) && {
            let (opening, open) = publish_step(Some(key), publication, PublishEvent::Begin);
            let (_, send) = publish_step(Some(key), opening, PublishEvent::StreamOpened);
            let (_, listen) = subscribe_step(Some(other_key), subscription, SubscribeEvent::Begin);
            let (_, shown) = text_step(TextFeed::Receiving, TextEvent::Received(arrived));
            &&& open matches PublishActionModel::OpenStream(topic)
            &&& listen == SubscribeActionModel::OpenStream(topic)
            &&& send == PublishActionModel::Send(arrived@)
            &&& shown == TextActionModel::Deliver(key.take(8) + seq![':'] + text)
        },
{
    reveal_strlit(":");
    let shown = key.take(8) + seq![':'] + text;
    assert(shown =~= key.take(8) + ":"@ + text);
    encode_utf8_valid_utf8(shown);
    encode_utf8_decode_utf8(shown);
}

/// Whatever the encoder wrote, a running node publishes it to the voice topic: the
/// first eight characters of the key, and the bytes that were written.
pub proof fn law_voice_sent(api: ApiModel, key: Seq<char>, buffer: Vec<u8>, len: usize)
    requires
        api.node == Some(Some(key)),
    ensures
        voice_publication(api, EncodeOutcome::Encoded { buffer, len }) matches Ok(
            PublicationModel::Fresh { topic_name, message },
        ) && {
            &&& topic_name == "voice"@
            &&& len <= buffer@.len() ==> message == encode_utf8(key.take(8)) + buffer@.take(
                len as int,
            )
            &&& len > buffer@.len() ==> message == encode_utf8(key.take(8)) + buffer@
        },
{
}

/// No voice is sent without a running node, or where the frame was not encoded.
pub proof fn law_voice_not_sent(api: ApiModel, outcome: EncodeOutcome)
    ensures
        match outcome {
            EncodeOutcome::LockFailed(reason) => voice_publication(api, outcome) == Err::<
                PublicationModel,
                ApiFault,
            >(ApiFault::EncoderLock(reason@)),
            EncodeOutcome::Failed(reason) => voice_publication(api, outcome) == Err::<
                PublicationModel,
                ApiFault,
            >(ApiFault::OpusEncode(reason@)),
            EncodeOutcome::Encoded { .. } => {
                &&& api.node is None ==> voice_publication(api, outcome) == Err::<
                    PublicationModel,
                    ApiFault,
                >(ApiFault::NodeNotStarted)
                &&& api.node == Some(None::<Seq<char>>) ==> voice_publication(api, outcome)
                    == Err::<PublicationModel, ApiFault>(ApiFault::Node(NodeFault::NotRunning))
            },
        },
{
}

/// A running node with a decoder subscribes to the topic that every running node
/// publishes its voice to, and waits for messages. Otherwise the caller is told
/// what is missing, a node before a voice session.
pub proof fn law_voice_subscribed(
    api: ApiModel,
    sender: ApiModel,
    sender_key: Seq<char>,
    buffer: Vec<u8>,
    len: usize,
)
    requires
        sender.node == Some(Some(sender_key)),
    ensures
        match api.node {
            None => voice_subscription(api) is Err && voice_subscription(api)->Err_0
                == ApiFault::NodeNotStarted,
            Some(running) => if !api.decoder {
                voice_subscription(api) is Err && voice_subscription(api)->Err_0
                    == ApiFault::VoiceSessionNotStarted
            } else if running is None {
                voice_subscription(api) is Err && voice_subscription(api)->Err_0
                    == ApiFault::ShortId(NodeFault::NotRunning)
            } else {
                voice_subscription(api) matches Ok((feed, subscription)) && {
                    &&& feed.stage == VoiceStage::Receiving
                    &&& subscription == (SubscriptionModel::Fresh { topic_name: "voice"@ })
                    &&& voice_publication(sender, EncodeOutcome::Encoded { buffer, len }) matches Ok(
                        PublicationModel::Fresh { topic_name, message: _ },
                    )
                    &&& subscription == (SubscriptionModel::Fresh { topic_name })
                }
            },
        },
{
}

/// The feed that a node gets is one that knows its voice: what the node itself
/// publishes is passed over, and leaves the feed as it was.
pub proof fn law_own_voice_not_heard(
    api: ApiModel,
    key: Seq<char>,
    buffer: Vec<u8>,
    len: usize,
    arrived: Vec<u8>,
)
    requires
        api.node == Some(Some(key)),
        api.decoder,
        key.len() == 64,
        forall|i: int| 0 <= i < 64 ==> '0' <= #[trigger] key[i] <= '9' || 'a' <= key[i] <= 'f',
        len <= buffer@.len(),
        arrived@ == encode_utf8(key.take(8)) + buffer@.take(len as int),
    ensures
        voice_publication(api, EncodeOutcome::Encoded { buffer, len }) matches Ok(
            PublicationModel::Fresh { topic_name: _, message },
        ) && message == arrived@,
        voice_subscription(api) matches Ok((feed, _)) && voice_step(
            feed,
            VoiceEvent::Received(arrived),
        ) == (feed, VoiceActionModel::Receive),
{
    lemma_sender_bytes(key);
    assert(arrived@.take(8) =~= encode_utf8(key.take(8)));
}

/// The voice of a node reaches every running node whose key begins otherwise: it
/// goes to the stream that they opened, and the feed that they got asks for what
/// the encoder wrote to be decoded.
pub proof fn law_voice_reaches_subscribers(
    sender: ApiModel,
    listener: ApiModel,
    key: Seq<char>,
    other_key: Seq<char>,
    buffer: Vec<u8>,
    len: usize,
    arrived: Vec<u8>,
)
    requires
        sender.node == Some(Some(key)),
        listener.node == Some(Some(other_key)),
        listener.decoder,
        key.len() == 64,
        forall|i: int| 0 <= i < 64 ==> '0' <= #[trigger] key[i] <= '9' || 'a' <= key[i] <= 'f',
        key.take(8) != other_key.take(8),
        0 < len <= buffer@.len(),
        arrived@ == encode_utf8(key.take(8)) + buffer@.take(len as int),
    ensures
        voice_publication(sender, EncodeOutcome::Encoded { buffer, len }) matches Ok(publication)
            && voice_subscription(listener) matches Ok((feed, subscription)) && {
            let (opening, open) = publish_step(Some(key), publication, PublishEvent::Begin);
            let (_, send) = publish_step(Some(key), opening, PublishEvent::StreamOpened);
            let (_, listen) = subscribe_step(Some(other_key), subscription, SubscribeEvent::Begin);
            let (decoding, action) = voice_step(feed, VoiceEvent::Received(arrived));
            &&& open matches PublishActionModel::OpenStream(topic)
            &&& listen == SubscribeActionModel::OpenStream(topic)
            &&& send == PublishActionModel::Send(arrived@)
            &&& action == VoiceActionModel::Decode(buffer@.take(len as int))
            &&& decoding.stage == VoiceStage::Decoding
            &&& decoding.own_id == feed.own_id
        },
{
    lemma_sender_bytes(key);
    encode_utf8_decode_utf8(key.take(8));
    encode_utf8_decode_utf8(other_key.take(8));
    assert(arrived@.take(8) =~= encode_utf8(key.take(8)));
    assert(arrived@.skip(8) =~= buffer@.take(len as int));
}

/// A frame of sound is turned into 320 samples where a node and a voice session
/// were started and it has 640 bytes. Sample by sample, these are the 16-bit
/// signed numbers that the bytes write, low byte first. Every other frame is
/// refused, for the first of these that is missing.
pub proof fn law_frame_taken(api: ApiModel, pcm: Seq<u8>)
    ensures
        frame_refusal(api, pcm.len()) == (if api.node is None {
            Some(ApiFault::NodeNotStarted)
        } else if !api.encoder {
            Some(ApiFault::VoiceSessionNotStarted)
        } else if pcm.len() != 640 {
            Some(ApiFault::FrameLength(pcm.len()))
        } else {
            None
        }),
        pcm.len() == 640 ==> samples_of(pcm).len() == 320,
        pcm.len() == 640 ==> forall|k: int|
            0 <= k < 320 ==> {
                let unsigned = pcm[2 * k] as int + 256 * pcm[2 * k + 1] as int;
                #[trigger] samples_of(pcm)[k] as int == if unsigned < 32768 {
                    unsigned
                } else {
                    unsigned - 65536
                }
            },
{
    law_bytes_become_samples(pcm);
}

/// A frame is encoded into 256 bytes at most.
pub proof fn law_room_for_a_frame(buffer: Seq<u8>)
    requires
        buffer.len() == OPUS_BUFFER_BYTES,
    ensures
        buffer.len() == 256,
{
}

/// A voice session starts with an encoder for speech and then a decoder, both for
/// 16 kHz and one channel; it does nothing where both are there. They count as
/// there only once both were made. What could not be made is named, and then
/// nothing changed.
pub proof fn law_voice_session_turns(api: ApiModel, reason: String)
    ensures
        voice_start_step(api, VoiceStartup::Fresh, VoiceStartEvent::Begin) == (if api.encoder
            && api.decoder {
            VoiceStartState {
                api,
                startup: VoiceStartup::Done,
                action: VoiceStartActionModel::Finish(Ok(())),
            }
        } else {
            VoiceStartState {
                api,
                startup: VoiceStartup::Encoder,
                action: VoiceStartActionModel::CreateEncoder {
                    sample_rate_hz: 16_000,
                    channels: 1,
                    application: Application::Voip,
                },
            }
        }),
        voice_start_step(api, VoiceStartup::Encoder, VoiceStartEvent::EncoderCreated) == (
        VoiceStartState {
            api,
            startup: VoiceStartup::Decoder,
            action: VoiceStartActionModel::CreateDecoder { sample_rate_hz: 16_000, channels: 1 },
        }),
        voice_start_step(api, VoiceStartup::Decoder, VoiceStartEvent::DecoderCreated) == (
        VoiceStartState {
            api: ApiModel { node: api.node, encoder: true, decoder: true },
            startup: VoiceStartup::Done,
            action: VoiceStartActionModel::Finish(Ok(())),
        }),
        voice_start_step(api, VoiceStartup::Encoder, VoiceStartEvent::Failed(reason)) == (
        VoiceStartState {
            api,
            startup: VoiceStartup::Done,
            action: VoiceStartActionModel::Finish(Err(ApiFault::OpusEncoder(reason@))),
        }),
        voice_start_step(api, VoiceStartup::Decoder, VoiceStartEvent::Failed(reason)) == (
        VoiceStartState {
            api,
            startup: VoiceStartup::Done,
            action: VoiceStartActionModel::Finish(Err(ApiFault::OpusDecoder(reason@))),
        }),
{
}

/// An event that the start of a voice session does not wait for changes nothing.
pub proof fn law_voice_session_out_of_turn(
    api: ApiModel,
    startup: VoiceStartup,
    event: VoiceStartEvent,
)
    requires
        startup == VoiceStartup::Fresh ==> !(event is Begin),
        startup == VoiceStartup::Encoder ==> !(event is EncoderCreated || event is Failed),
        startup == VoiceStartup::Decoder ==> !(event is DecoderCreated || event is Failed),
    ensures
        voice_start_step(api, startup, event) == (VoiceStartState {
            api,
            startup,
            action: VoiceStartActionModel::OutOfTurn,
        }),
{
}

/// What a start of a voice session asks for is what it says.
pub proof fn law_voice_session_asks(action: VoiceStartAction)
    ensures
        match action {
            VoiceStartAction::CreateEncoder {
                sample_rate_hz,
                channels,
                application,
            } => action@ == (VoiceStartActionModel::CreateEncoder {
                sample_rate_hz,
                channels,
                application,
            }),
            VoiceStartAction::CreateDecoder { sample_rate_hz, channels } => action@ == (
            VoiceStartActionModel::CreateDecoder { sample_rate_hz, channels }),
            VoiceStartAction::Finish(Ok(_)) => action@ == VoiceStartActionModel::Finish(Ok(())),
            VoiceStartAction::Finish(Err(error)) => action@ == VoiceStartActionModel::Finish(
                Err(error@),
            ),
            VoiceStartAction::OutOfTurn => action@ == VoiceStartActionModel::OutOfTurn,
        },
{
}

} // verus!
