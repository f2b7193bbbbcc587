//! What the calls answer, and how the answers of several calls fit together.
//!
//! Each law speaks of whatever a call may answer: a result that its contract
//! allows.

use vstd::prelude::*;
use vstd::utf8::{
    decode_utf8_encode_utf8, encode_utf8, encode_utf8_decode_utf8, encode_utf8_valid_utf8,
    valid_utf8,
};

use crate::api::chat::{
    add_peer, get_full_node_id, send_encoded_frame, send_message, send_sketch, send_voice_frame,
    start_node, start_voice_session, stop_node, subscribe_chat, subscribe_sketch, subscribe_voice,
    Api, Application, EncodeOutcome, StartReply, VoiceStartAction, VoiceStartEvent, VoiceStartup,
};
use crate::api::error::{task_result, ApiError, Task};
use crate::api::feed::{
    voice_frame, TextAction, TextEvent, TextFeed, VoiceAction, VoiceEvent, VoiceFeed, VoiceStage,
};
use crate::api::laws::calls::lemma_sender_bytes;
use crate::api::laws::errors::law_api_error_shown;
use crate::digest::{hex_text, is_public_key, law_hexadecimal_read};
use crate::node::publication::Publication;
use crate::node::subscription::Subscription;
use crate::node::{Node, NodeError};
use crate::pcm::{law_bytes_become_samples, law_samples_become_bytes};
use crate::text::decimal;

verus! {

/// Before any call there is no node, no encoder and no decoder.
pub proof fn law_nothing_at_first(api: Api)
    requires
        call_ensures(Api::new, (), api),
    ensures
        api@.node is None,
        !api@.encoder,
        !api@.decoder,
{
}

/// A chat message is the first eight characters of the key of the running node, a
/// colon and the text, and goes to the topic called chat.
pub proof fn law_message_answer(
    api: &Api,
    message: &str,
    answer: Result<Publication, ApiError>,
)
    requires
        call_ensures(send_message, (api, message), answer),
    ensures
        match api@.node {
            Some(Some(key)) => {
                &&& answer matches Ok(Publication::Fresh { topic_name, message: sent })
                &&& topic_name@ == "chat"@
                &&& sent@ == encode_utf8(key.take(8) + seq![':'] + message@)
            },
            Some(None) => answer matches Err(ApiError::Node(NodeError::NotRunning)),
            None => answer matches Err(ApiError::NodeNotStarted),
        },
{
    reveal_strlit(":");
    if let Some(Some(key)) = api@.node {
        assert(key.take(8) + seq![':'] + message@ =~= key.take(8) + ":"@ + message@);
    }
}

/// A sketch stroke is the first eight characters of the key of the running node, a
/// colon and the stroke, and goes to the topic called sketch.
pub proof fn law_sketch_answer(api: &Api, stroke: &str, answer: Result<Publication, ApiError>)
    requires
        call_ensures(send_sketch, (api, stroke), answer),
    ensures
        match api@.node {
            Some(Some(key)) => {
                &&& answer matches Ok(Publication::Fresh { topic_name, message: sent })
                &&& topic_name@ == "sketch"@
                &&& sent@ == encode_utf8(key.take(8) + seq![':'] + stroke@)
            },
            Some(None) => answer matches Err(ApiError::Node(NodeError::NotRunning)),
            None => answer matches Err(ApiError::NodeNotStarted),
        },
{
    reveal_strlit(":");
    if let Some(Some(key)) = api@.node {
        assert(key.take(8) + seq![':'] + stroke@ =~= key.take(8) + ":"@ + stroke@);
    }
}

/// Once a node was started, chat messages are subscribed to on the topic called
/// chat and strokes on the one called sketch, whatever was done about voice.
pub proof fn law_text_subscription_answers(
    api: &Api,
    chat: Result<Subscription, ApiError>,
    sketch: Result<Subscription, ApiError>,
)
    requires
        call_ensures(subscribe_chat, (api,), chat),
        call_ensures(subscribe_sketch, (api,), sketch),
    ensures
        if api@.node is Some {
            &&& chat matches Ok(Subscription::Fresh { topic_name }) && topic_name@ == "chat"@
            &&& sketch matches Ok(Subscription::Fresh { topic_name }) && topic_name@ == "sketch"@
        } else {
            &&& chat matches Err(ApiError::NodeNotStarted)
            &&& sketch matches Err(ApiError::NodeNotStarted)
        },
{
}

/// A chat message goes where chat is subscribed to, and a subscriber that gets it
/// is shown the first eight characters of the key of the sender, a colon and the
/// text.
pub proof fn law_chat_is_shown(
    sender: &Api,
    subscriber: &Api,
    key: Seq<char>,
    message: &str,
    sent: Result<Publication, ApiError>,
    subscribed: Result<Subscription, ApiError>,
    arrived: Vec<u8>,
    shown: (TextFeed, TextAction),
)
    requires
        sender@.node == Some(Some(key)),
        subscriber@.node is Some,
        call_ensures(send_message, (sender, message), sent),
        call_ensures(subscribe_chat, (subscriber,), subscribed),
        call_ensures(TextFeed::step, (TextFeed::Receiving, TextEvent::Received(arrived)), shown),
        sent matches Ok(Publication::Fresh { topic_name: _, message: bytes }) ==> bytes@
            == arrived@,
    ensures
        sent matches Ok(Publication::Fresh { topic_name, message: _ }) && subscribed matches Ok(
            Subscription::Fresh { topic_name: name },
        ) && topic_name@ == name@,
        shown.0 == TextFeed::Delivering,
        shown.1 matches TextAction::Deliver(text) && text@ == key.take(8) + seq![':'] + message@,
{
    reveal_strlit(":");
    let line = key.take(8) + seq![':'] + message@;
    assert(line =~= key.take(8) + ":"@ + message@);
    encode_utf8_valid_utf8(line);
    encode_utf8_decode_utf8(line);
}

/// A stroke goes where strokes are subscribed to, and a subscriber that gets it is
/// shown the first eight characters of the key of the sender, a colon and the
/// stroke.
pub proof fn law_sketch_is_shown(
    sender: &Api,
    subscriber: &Api,
    key: Seq<char>,
    stroke: &str,
    sent: Result<Publication, ApiError>,
    subscribed: Result<Subscription, ApiError>,
    arrived: Vec<u8>,
    shown: (TextFeed, TextAction),
)
    requires
        sender@.node == Some(Some(key)),
        subscriber@.node is Some,
        call_ensures(send_sketch, (sender, stroke), sent),
        call_ensures(subscribe_sketch, (subscriber,), subscribed),
        call_ensures(TextFeed::step, (TextFeed::Receiving, TextEvent::Received(arrived)), shown),
        sent matches Ok(Publication::Fresh { topic_name: _, message: bytes }) ==> bytes@
            == arrived@,
    ensures
        sent matches Ok(Publication::Fresh { topic_name, message: _ }) && subscribed matches Ok(
            Subscription::Fresh { topic_name: name },
        ) && topic_name@ == name@,
        shown.0 == TextFeed::Delivering,
        shown.1 matches TextAction::Deliver(text) && text@ == key.take(8) + seq![':'] + stroke@,
{
    reveal_strlit(":");
    let line = key.take(8) + seq![':'] + stroke@;
    assert(line =~= key.take(8) + ":"@ + stroke@);
    encode_utf8_valid_utf8(line);
    encode_utf8_decode_utf8(line);
}

/// What a text feed answers: a message that is UTF-8 is handed on as the text that
/// it encodes, any other is passed over; the feed goes on once a text was taken,
/// and ends with its messages or with its listener.
pub proof fn law_text_feed_answer(feed: TextFeed, event: TextEvent, next: (TextFeed, TextAction))
    requires
        call_ensures(TextFeed::step, (feed, event), next),
    ensures
        match (feed, event) {
            (TextFeed::Receiving, TextEvent::Received(message)) => if valid_utf8(message@) {
                &&& next.0 == TextFeed::Delivering
                &&& next.1 matches TextAction::Deliver(text)
                &&& encode_utf8(text@) == message@
            } else {
                next.0 == TextFeed::Receiving && next.1 is Receive
            },
            (TextFeed::Receiving, TextEvent::Ended) => next.0 == TextFeed::Stopped
                && next.1 is Stop,
            (TextFeed::Delivering, TextEvent::Taken) => next.0 == TextFeed::Receiving
                && next.1 is Receive,
            (TextFeed::Delivering, TextEvent::ListenerGone) => next.0 == TextFeed::Stopped
                && next.1 is Stop,
            _ => next.0 == feed && next.1 is OutOfTurn,
        },
{
    if let TextEvent::Received(message) = event {
        if valid_utf8(message@) {
            decode_utf8_encode_utf8(message@);
        }
    }
}

/// An encoded frame goes to the topic called voice, behind the first eight
/// characters of the key of the running node: the bytes that the encoder wrote,
/// all of them and no others.
pub proof fn law_encoded_frame_answer(
    api: &Api,
    outcome: EncodeOutcome,
    answer: Result<Publication, ApiError>,
)
    requires
        call_ensures(send_encoded_frame, (api, outcome), answer),
    ensures
        match outcome {
            EncodeOutcome::LockFailed(reason) => answer matches Err(ApiError::EncoderLock(why))
                && why@ == reason@,
            EncodeOutcome::Failed(reason) => answer matches Err(ApiError::OpusEncode(why)) && why@
                == reason@,
            EncodeOutcome::Encoded { buffer, len } => match api@.node {
                Some(Some(key)) => {
                    &&& answer matches Ok(Publication::Fresh { topic_name, message })
                    &&& topic_name@ == "voice"@
                    &&& len <= buffer@.len() ==> message@ == encode_utf8(key.take(8))
                        + buffer@.take(len as int)
                    &&& len > buffer@.len() ==> message@ == encode_utf8(key.take(8)) + buffer@
                },
                Some(None) => answer matches Err(ApiError::Node(NodeError::NotRunning)),
                None => answer matches Err(ApiError::NodeNotStarted),
            },
        },
{
}

/// A running node with a decoder subscribes to the topic called voice, with a feed
/// that waits for messages. Otherwise the caller is told what is missing.
pub proof fn law_voice_subscription_answer(
    api: &Api,
    answer: Result<(VoiceFeed, Subscription), ApiError>,
)
    requires
        call_ensures(subscribe_voice, (api,), answer),
    ensures
        match api@.node {
            None => answer matches Err(ApiError::NodeNotStarted),
            Some(running) => if !api@.decoder {
                answer matches Err(ApiError::VoiceSessionNotStarted)
            } else if running is None {
                answer matches Err(ApiError::ShortId(NodeError::NotRunning))
            } else {
                &&& answer matches Ok((feed, Subscription::Fresh { topic_name }))
                &&& topic_name@ == "voice"@
                &&& feed@.stage == VoiceStage::Receiving
                &&& feed@.own_id == encode_utf8(running->Some_0.take(8))
            },
        },
{
}

/// Own frames are skipped: a node that gets what it sent itself passes it over,
/// and goes on waiting.
pub proof fn law_own_frame_skipped(
    api: &Api,
    key: Seq<char>,
    buffer: Vec<u8>,
    len: usize,
    sent: Result<Publication, ApiError>,
    subscribed: Result<(VoiceFeed, Subscription), ApiError>,
    arrived: Vec<u8>,
    feed: &mut VoiceFeed,
    action: VoiceAction,
)
    requires
        api@.node == Some(Some(key)),
        api@.decoder,
        key.len() == 64,
        forall|i: int| 0 <= i < 64 ==> '0' <= #[trigger] key[i] <= '9' || 'a' <= key[i] <= 'f',
        call_ensures(send_encoded_frame, (api, EncodeOutcome::Encoded { buffer, len }), sent),
        call_ensures(subscribe_voice, (api,), subscribed),
        call_ensures(VoiceFeed::step, (feed, VoiceEvent::Received(arrived)), action),
        sent matches Ok(Publication::Fresh { topic_name: _, message }) ==> message@ == arrived@,
        subscribed matches Ok((got, _)) ==> got@ == old(feed)@,
    ensures
        sent matches Ok(Publication::Fresh { topic_name, message: _ }) && subscribed matches Ok(
            (_, Subscription::Fresh { topic_name: name }),
        ) && topic_name@ == name@,
        action is Receive,
        final(feed)@ == old(feed)@,
{
    lemma_sender_bytes(key);
    assert(arrived@.take(8) =~= encode_utf8(key.take(8)));
}

/// Voices of other devices are heard: a node that gets what another with another
/// beginning of its key sent is asked to decode what the encoder wrote, unless that
/// is nothing.
pub proof fn law_other_frame_decoded(
    sender: &Api,
    listener: &Api,
    key: Seq<char>,
    other_key: Seq<char>,
    buffer: Vec<u8>,
    len: usize,
    sent: Result<Publication, ApiError>,
    subscribed: Result<(VoiceFeed, Subscription), ApiError>,
    arrived: Vec<u8>,
    feed: &mut VoiceFeed,
    action: VoiceAction,
)
    requires
        sender@.node == Some(Some(key)),
        listener@.node == Some(Some(other_key)),
        listener@.decoder,
        key.len() == 64,
        forall|i: int| 0 <= i < 64 ==> '0' <= #[trigger] key[i] <= '9' || 'a' <= key[i] <= 'f',
        key.take(8) != other_key.take(8),
        len <= buffer@.len(),
        call_ensures(send_encoded_frame, (sender, EncodeOutcome::Encoded { buffer, len }), sent),
        call_ensures(subscribe_voice, (listener,), subscribed),
        call_ensures(VoiceFeed::step, (feed, VoiceEvent::Received(arrived)), action),
        sent matches Ok(Publication::Fresh { topic_name: _, message }) ==> message@ == arrived@,
        subscribed matches Ok((got, _)) ==> got@ == old(feed)@,
    ensures
        sent matches Ok(Publication::Fresh { topic_name, message: _ }) && subscribed matches Ok(
            (_, Subscription::Fresh { topic_name: name }),
        ) && topic_name@ == name@,
        len > 0 ==> (action matches VoiceAction::Decode(frame) && frame@ == buffer@.take(
            len as int,
        )),
        len == 0 ==> action is Receive,
{
    lemma_sender_bytes(key);
    encode_utf8_decode_utf8(key.take(8));
    encode_utf8_decode_utf8(other_key.take(8));
    assert(arrived@.take(8) =~= encode_utf8(key.take(8)));
    assert(arrived@.skip(8) =~= buffer@.take(len as int));
}

/// What a voice feed answers. The frame of a message is what follows a sender of
/// eight bytes; it is to be decoded where it is not empty and the sender is another.
/// A decoded frame of 320 samples is handed on as 640 bytes, each sample as a 16-bit
/// signed number, low byte first; anything else is passed over. The feed goes on
/// once a sound was taken, and ends with its messages or with its listener.
pub proof fn law_voice_feed_answer(feed: &mut VoiceFeed, event: VoiceEvent, action: VoiceAction)
    requires
        call_ensures(VoiceFeed::step, (feed, event), action),
        event matches VoiceEvent::Decoded { samples, count } ==> count <= samples@.len(),
    ensures
        final(feed)@.own_id == old(feed)@.own_id,
        match (old(feed)@.stage, event) {
            (VoiceStage::Receiving, VoiceEvent::Received(message)) => {
                if message@.len() > 8 && message@.take(8) != old(feed)@.own_id {
                    &&& final(feed)@.stage == VoiceStage::Decoding
                    &&& action matches VoiceAction::Decode(frame)
                    &&& message@ == message@.take(8) + frame@
                } else {
                    final(feed)@.stage == VoiceStage::Receiving && action is Receive
                }
            },
            (VoiceStage::Receiving, VoiceEvent::Ended) => final(feed)@.stage == VoiceStage::Stopped
                && action is Stop,
            (VoiceStage::Decoding, VoiceEvent::Decoded { samples, count }) => if count == 320 {
                &&& final(feed)@.stage == VoiceStage::Delivering
                &&& action matches VoiceAction::Deliver(sound)
                &&& sound@.len() == 640
                &&& forall|k: int|
                    0 <= k < 320 ==> {
                        let unsigned = sound@[2 * k] as int + 256 * sound@[2 * k + 1] as int;
                        #[trigger] samples@[k] as int == if unsigned < 32768 {
                            unsigned
                        } else {
                            unsigned - 65536
                        }
                    }
            } else {
                final(feed)@.stage == VoiceStage::Receiving && action is Receive
            },
            (VoiceStage::Decoding, VoiceEvent::Undecodable) => final(feed)@.stage
                == VoiceStage::Receiving && action is Receive,
            (VoiceStage::Delivering, VoiceEvent::Taken) => final(feed)@.stage
                == VoiceStage::Receiving && action is Receive,
            (VoiceStage::Delivering, VoiceEvent::ListenerGone) => final(feed)@.stage
                == VoiceStage::Stopped && action is Stop,
            _ => final(feed)@.stage == old(feed)@.stage && action is OutOfTurn,
        },
{
    match event {
        VoiceEvent::Received(message) => {
            if message@.len() > 8 {
                assert(message@ =~= message@.take(8) + message@.skip(8));
            }
        },
        VoiceEvent::Decoded { samples, count } => {
            if count == 320 {
                let whole = samples@.take(320);
                law_samples_become_bytes(whole);
                assert forall|k: int| 0 <= k < 320 implies whole[k] == #[trigger] samples@[k] by {}
            }
        },
        _ => {},
    }
}

/// A new voice feed waits for messages to the node with its identifier.
pub proof fn law_voice_feed_begins(own_id: Vec<u8>, feed: VoiceFeed)
    requires
        call_ensures(VoiceFeed::new, (own_id,), feed),
    ensures
        feed@.own_id == own_id@,
        feed@.stage == VoiceStage::Receiving,
{
}

/// The frame of a voice message is what follows a sender of eight bytes that is
/// another, where anything does.
pub proof fn law_frame_of_a_message(own_id: &[u8], message: &[u8], frame: Option<Vec<u8>>)
    requires
        call_ensures(voice_frame, (own_id, message), frame),
    ensures
        if message@.len() > 8 && message@.take(8) != own_id@ {
            frame matches Some(bytes) && message@ == message@.take(8) + bytes@
        } else {
            frame is None
        },
{
    if message@.len() > 8 {
        assert(message@ =~= message@.take(8) + message@.skip(8));
    }
}

/// A frame of 640 bytes is turned into 320 samples, each the 16-bit signed number
/// that two bytes write, low byte first, once a node and a voice session were
/// started. Any other is refused, and the caller is told what is missing.
pub proof fn law_voice_frame_answer(
    api: &Api,
    pcm_bytes: &[u8],
    answer: Result<Vec<i16>, ApiError>,
)
    requires
        call_ensures(send_voice_frame, (api, pcm_bytes), answer),
    ensures
        if api@.node is None {
            answer matches Err(ApiError::NodeNotStarted)
        } else if !api@.encoder {
            answer matches Err(ApiError::VoiceSessionNotStarted)
        } else if pcm_bytes@.len() != 640 {
            answer matches Err(ApiError::FrameLength(len)) && len == pcm_bytes@.len()
        } else {
            &&& answer matches Ok(samples)
            &&& samples@.len() == 320
            &&& forall|k: int|
                0 <= k < 320 ==> {
                    let unsigned = pcm_bytes@[2 * k] as int + 256 * pcm_bytes@[2 * k + 1] as int;
                    #[trigger] samples@[k] as int == if unsigned < 32768 {
                        unsigned
                    } else {
                        unsigned - 65536
                    }
                }
        },
{
    law_bytes_become_samples(pcm_bytes@);
}

/// A running node answers with its whole key.
pub proof fn law_full_id_answer(api: &Api, answer: Result<String, ApiError>)
    requires
        call_ensures(get_full_node_id, (api,), answer),
    ensures
        match api@.node {
            Some(Some(key)) => answer matches Ok(text) && text@ == key,
            Some(None) => answer matches Err(ApiError::Node(NodeError::NotRunning)),
            None => answer matches Err(ApiError::NodeNotStarted),
        },
{
}

/// A running node connects to the peer whose public key a text writes as 64
/// hexadecimal digits of either case, and to no other.
pub proof fn law_peer_answer(
    api: &Api,
    node_id: &str,
    answer: Result<[u8; 32], ApiError>,
    id: [u8; 32],
)
    requires
        call_ensures(add_peer, (api, node_id), answer),
    ensures
        match api@.node {
            Some(Some(_)) => {
                let names_id = {
                    &&& node_id@.len() == 64
                    &&& forall|i: int|
                        0 <= i < 64 ==> (#[trigger] node_id@[i] == hex_text(id@)[i] || 'A'
                            <= node_id@[i] <= 'F' && node_id@[i] as int + 32 == hex_text(
                            id@,
                        )[i] as int)
                };
                &&& names_id && is_public_key(id@) <==> (answer matches Ok(peer) && peer@ == id@)
                &&& answer is Err ==> (answer matches Err(ApiError::Node(NodeError::Network(reason)))
                    && reason@ == "invalid node id"@)
            },
            Some(None) => answer matches Err(ApiError::Node(NodeError::NotRunning)),
            None => answer matches Err(ApiError::NodeNotStarted),
        },
{
    law_hexadecimal_read(node_id@, id@);
}

/// The first node that starts is kept, and the caller is told the first eight
/// characters of its key. Any other start changes nothing.
pub proof fn law_start_answer(api: &mut Api, reply: StartReply, answer: Result<String, ApiError>)
    requires
        call_ensures(start_node, (api, reply), answer),
    ensures
        final(api)@.encoder == old(api)@.encoder,
        final(api)@.decoder == old(api)@.decoder,
        match reply {
            None => answer matches Err(ApiError::StartupTaskFailed) && final(api)@.node
                == old(api)@.node,
            Some((_, Err(error))) => answer matches Err(ApiError::StartFailed(why)) && why@
                == error@ && final(api)@.node == old(api)@.node,
            Some((node, Ok(key))) => if old(api)@.node is Some {
                answer matches Err(ApiError::NodeAlreadyStarted) && final(api)@.node
                    == old(api)@.node
            } else {
                answer matches Ok(id) && id@ == key@.take(8) && final(api)@.node == Some(node@)
            },
        },
{
}

/// A running node can be stopped, whatever its key, and does not run afterwards.
/// What does not run cannot be stopped.
pub proof fn law_stop_answer(api: &mut Api, answer: Result<(), ApiError>)
    requires
        call_ensures(stop_node, (api,), answer),
    ensures
        final(api)@.encoder == old(api)@.encoder,
        final(api)@.decoder == old(api)@.decoder,
        match old(api)@.node {
            Some(Some(_)) => answer is Ok && final(api)@.node == Some(None::<Seq<char>>),
            Some(None) => answer matches Err(ApiError::Node(NodeError::NotRunning))
                && final(api)@.node == old(api)@.node,
            None => answer matches Err(ApiError::NodeNotStarted) && final(api)@.node is None,
        },
{
}

/// The node that is handed out is the one that was started.
pub proof fn law_node_handed_out(api: &Api, answer: Option<&Node>)
    requires
        call_ensures(Api::node, (api,), answer),
    ensures
        match api@.node {
            Some(key) => answer matches Some(node) && node@ == key,
            None => answer is None,
        },
{
}

/// A voice session starts with an encoder for speech and then a decoder, both for
/// 16 kHz and one channel, and does nothing where both are there. They count as
/// there only once both were made. What could not be made is named with the reason,
/// and no start touches the node.
pub proof fn law_voice_session_answer(
    api: &mut Api,
    startup: VoiceStartup,
    event: VoiceStartEvent,
    next: (VoiceStartup, VoiceStartAction),
)
    requires
        call_ensures(start_voice_session, (api, startup, event), next),
    ensures
        final(api)@.node == old(api)@.node,
        startup == VoiceStartup::Decoder && event is DecoderCreated ==> final(api)@.encoder
            && final(api)@.decoder,
        !(startup == VoiceStartup::Decoder && event is DecoderCreated) ==> final(api)@
            == old(api)@,
        match (startup, event) {
            (VoiceStartup::Fresh, VoiceStartEvent::Begin) => if old(api)@.encoder
                && old(api)@.decoder {
                next.0 == VoiceStartup::Done && next.1 matches VoiceStartAction::Finish(Ok(_))
            } else {
                &&& next.0 == VoiceStartup::Encoder
                &&& next.1 matches VoiceStartAction::CreateEncoder {
                    sample_rate_hz,
                    channels,
                    application,
                }
                &&& sample_rate_hz == 16_000
                &&& channels == 1
                &&& application == Application::Voip
            },
            (VoiceStartup::Encoder, VoiceStartEvent::EncoderCreated) => {
                &&& next.0 == VoiceStartup::Decoder
                &&& next.1 matches VoiceStartAction::CreateDecoder { sample_rate_hz, channels }
                &&& sample_rate_hz == 16_000
                &&& channels == 1
            },
            (VoiceStartup::Decoder, VoiceStartEvent::DecoderCreated) => next.0
                == VoiceStartup::Done && next.1 matches VoiceStartAction::Finish(Ok(_)),
            (VoiceStartup::Encoder, VoiceStartEvent::Failed(reason)) => {
                &&& next.0 == VoiceStartup::Done
                &&& next.1 matches VoiceStartAction::Finish(Err(ApiError::OpusEncoder(why)))
                &&& why@ == reason@
            },
            (VoiceStartup::Decoder, VoiceStartEvent::Failed(reason)) => {
                &&& next.0 == VoiceStartup::Done
                &&& next.1 matches VoiceStartAction::Finish(Err(ApiError::OpusDecoder(why)))
                &&& why@ == reason@
            },
            _ => next.0 == startup && next.1 is OutOfTurn,
        },
{
}

/// A call that ran as a task answers what the task answered. Where the task died,
/// the caller is told so.
pub proof fn law_task_answer<T>(
    task: Task,
    reply: Option<Result<T, ApiError>>,
    answer: Result<T, ApiError>,
)
    requires
        call_ensures(task_result::<T>, (task, reply), answer),
    ensures
        match reply {
            Some(given) => answer == given,
            None => answer matches Err(ApiError::TaskFailed(of)) && of == task,
        },
{
}

/// The message of an error says what failed, with the reason, whole.
pub proof fn law_error_message(error: &ApiError, text: String)
    requires
        call_ensures(ApiError::message, (error,), text),
    ensures
        match *error {
            ApiError::StartupTaskFailed => text@ == "node startup task failed"@,
            ApiError::NodeAlreadyStarted => text@ == "node already started"@,
            ApiError::NodeNotStarted => text@ == "node not started"@,
            ApiError::TaskFailed(Task::Query) => text@ == "task failed"@,
            ApiError::TaskFailed(Task::Send) => text@ == "send task failed"@,
            ApiError::TaskFailed(Task::Subscribe) => text@ == "subscribe task failed"@,
            ApiError::TaskFailed(Task::Shutdown) => text@ == "shutdown task failed"@,
            ApiError::StartFailed(NodeError::Network(reason)) => text@ == "node start failed: "@ + (
            "network error: "@ + reason@),
            ApiError::StartFailed(NodeError::AlreadyRunning) => text@ == "node start failed: "@
                + "node already running"@,
            ApiError::StartFailed(NodeError::NotRunning) => text@ == "node start failed: "@
                + "node not running"@,
            ApiError::Node(NodeError::Network(reason)) => text@ == "network error: "@ + reason@,
            ApiError::Node(NodeError::AlreadyRunning) => text@ == "node already running"@,
            ApiError::Node(NodeError::NotRunning) => text@ == "node not running"@,
            ApiError::ShortId(NodeError::Network(reason)) => text@ == "get short id: "@ + (
            "network error: "@ + reason@),
            ApiError::ShortId(NodeError::AlreadyRunning) => text@ == "get short id: "@
                + "node already running"@,
            ApiError::ShortId(NodeError::NotRunning) => text@ == "get short id: "@
                + "node not running"@,
            ApiError::OpusEncoder(reason) => text@ == "opus encoder: "@ + reason@,
            ApiError::OpusDecoder(reason) => text@ == "opus decoder: "@ + reason@,
            ApiError::VoiceSessionNotStarted => text@ == "voice session not started"@,
            ApiError::FrameLength(len) => text@
                == "expected 640 bytes of 16-bit LE PCM (320 samples at 16kHz mono = 20ms), got "@
                + decimal(len as nat) + " bytes"@,
            ApiError::EncoderLock(reason) => text@ == "encoder lock: "@ + reason@,
            ApiError::OpusEncode(reason) => text@ == "opus encode: "@ + reason@,
        },
{
    law_api_error_shown(*error);
}

} // verus!
