//! What holds of the calls of the user interface as a whole.

use vstd::prelude::*;
use vstd::utf8::{
    encode_utf8, encode_utf8_decode_utf8, encode_utf8_valid_utf8, is_ascii_chars_encode_utf8,
};

use crate::api::chat::{
    added_peer, create_decoder, create_encoder, encoded_frame, frame_refusal, line, running_key,
    start_node_step, stop_node_step, text_publication, text_subscription, voice_message,
    voice_publication, voice_start_step, voice_subscription, ApiModel, EncodeOutcome, StartReply,
    VoiceStartActionModel, VoiceStartEvent, VoiceStartup,
};
use crate::api::error::ApiFault;
use crate::api::feed::{
    heard, text_step, voice_step, TextActionModel, TextEvent, TextFeed, VoiceActionModel,
    VoiceEvent, VoiceFeedModel, VoiceStage, VOICE_SENDER_LEN,
};
use crate::digest::{
    hex_text, is_hex_digit, is_key_text, is_public_key, law_id_read_back, lemma_key_text_is_ascii,
    ID_LEN,
};
use crate::node::laws::{all_truthful, law_identity_persists, run_world, stored_in};
use crate::node::publication::PublicationModel;
use crate::node::startup::{StartActionModel, StartEvent};
use crate::node::{short_form, NodeFault, SHORT_ID_LEN};
use crate::pcm::{
    bytes_of, law_bytes_round_trip, law_samples_round_trip, samples_of, FRAME_BYTES,
    OPUS_FRAME_SAMPLES,
};
use crate::text::utf8_text;

pub mod answers;
pub mod calls;
pub mod errors;
pub mod feeds;

verus! {

/// Before a node was started, every call that needs one says so.
pub proof fn law_nothing_before_start(
    api: ApiModel,
    topic_name: Seq<char>,
    text: Seq<char>,
    len: nat,
    encoded: EncodeOutcome,
)
    requires
        api.node is None,
        encoded is Encoded,
    ensures
        running_key(api) == Err::<Seq<char>, ApiFault>(ApiFault::NodeNotStarted),
        text_publication(api, topic_name, text) == Err::<PublicationModel, ApiFault>(
            ApiFault::NodeNotStarted,
        ),
        added_peer(api, text) == Err::<Seq<u8>, ApiFault>(ApiFault::NodeNotStarted),
        text_subscription(api, topic_name) is Err,
        text_subscription(api, topic_name)->Err_0 == ApiFault::NodeNotStarted,
        frame_refusal(api, len) == Some(ApiFault::NodeNotStarted),
        voice_publication(api, encoded) == Err::<PublicationModel, ApiFault>(
            ApiFault::NodeNotStarted,
        ),
        voice_subscription(api) is Err,
        voice_subscription(api)->Err_0 == ApiFault::NodeNotStarted,
        stop_node_step(api) == (api, Err::<(), ApiFault>(ApiFault::NodeNotStarted)),
{
}

/// After a start, the node answers with the key it was started with, and the
/// identifier that the start returned is the beginning of that key.
pub proof fn law_start_gives_identity(api: ApiModel, reply: StartReply)
    requires
        api.node is None,
        reply matches Some((node, Ok(key))) && node@ == Some(key@),
    ensures
        ({
            let key = reply->Some_0.1->Ok_0@;
            let (after, id) = start_node_step(api, reply);
            &&& id == Ok::<Seq<char>, ApiFault>(short_form(key))
            &&& running_key(after) == Ok::<Seq<char>, ApiFault>(key)
            &&& after.encoder == api.encoder
            &&& after.decoder == api.decoder
        }),
{
}

/// What the task that starts a node answers is what its start ended with.
pub open spec fn answers(reply: StartReply, asked: StartActionModel) -> bool {
    match reply {
        Some((_, Ok(key))) => asked == StartActionModel::Finish(Ok(key@)),
        Some((_, Err(error))) => asked == StartActionModel::Finish(Err(error@)),
        None => true,
    }
}

/// The identity is persistent and stored in `data_dir`: where two starts there
/// succeed, the later one after the earlier, with the directory left in place
/// between them, both return the same identifier.
pub proof fn law_same_identity_after_restart(
    api: ApiModel,
    later_api: ApiModel,
    reply: StartReply,
    later_reply: StartReply,
    data_dir: Seq<char>,
    stored: Map<Seq<char>, Seq<u8>>,
    later_stored: Map<Seq<char>, Seq<u8>>,
    id_of: spec_fn(Seq<u8>) -> Seq<u8>,
    events: Seq<StartEvent>,
    later_events: Seq<StartEvent>,
)
    requires
        all_truthful(None, data_dir, stored, id_of, events),
        all_truthful(None, data_dir, later_stored, id_of, later_events),
        answers(reply, run_world(None, data_dir, stored, events).asked),
        answers(later_reply, run_world(None, data_dir, later_stored, later_events).asked),
        stored_in(later_stored, data_dir) == stored_in(
            run_world(None, data_dir, stored, events).stored,
            data_dir,
        ),
        start_node_step(api, reply).1 is Ok,
        start_node_step(later_api, later_reply).1 is Ok,
    ensures
        start_node_step(api, reply).1 == start_node_step(later_api, later_reply).1,
{
    law_identity_persists(
        None,
        None,
        data_dir,
        stored,
        later_stored,
        id_of,
        events,
        later_events,
    );
}

/// A node can be added as a peer by the public key it shares: a running node
/// that is told of the key connects to the node with that key. Bytes that are no
/// public key are refused.
pub proof fn law_shared_key_names_its_node(shared: ApiModel, told: ApiModel, node_id: Seq<u8>)
    requires
        node_id.len() == ID_LEN,
        running_key(shared) == Ok::<Seq<char>, ApiFault>(hex_text(node_id)),
        running_key(told) is Ok,
    ensures
        added_peer(told, running_key(shared)->Ok_0) == (if is_public_key(node_id) {
            Ok::<Seq<u8>, ApiFault>(node_id)
        } else {
            Err(ApiFault::Node(NodeFault::Network("invalid node id"@)))
        }),
{
    law_id_read_back(node_id);
}

/// The short form of a public key is its first eight characters.
pub proof fn law_short_form_is_prefix(key: Seq<char>)
    requires
        is_key_text(key),
    ensures
        short_form(key).len() == SHORT_ID_LEN,
        short_form(key).is_prefix_of(key),
{
}

/// Once a node was started, no other takes its place, even after a stop.
pub proof fn law_first_node_stays(api: ApiModel, reply: StartReply)
    requires
        api.node is Some,
    ensures
        start_node_step(api, reply).0 == api,
        start_node_step(api, reply).1 is Err,
        reply matches Some((_, Ok(_))) ==> start_node_step(api, reply).1->Err_0
            == ApiFault::NodeAlreadyStarted,
{
}

/// A start that failed changes nothing.
pub proof fn law_failed_start_changes_nothing(api: ApiModel, reply: StartReply)
    requires
        start_node_step(api, reply).1 is Err,
    ensures
        start_node_step(api, reply).0 == api,
{
}

/// After a stop the node does not run: it sends no text and no voice, hears no
/// voice, has no identity, and cannot be stopped again.
pub proof fn law_stopped_for_good(
    api: ApiModel,
    topic_name: Seq<char>,
    text: Seq<char>,
    encoded: EncodeOutcome,
    reply: StartReply,
)
    requires
        stop_node_step(api).1 is Ok,
        encoded is Encoded,
    ensures
        ({
            let stopped = stop_node_step(api).0;
            let not_running = ApiFault::Node(NodeFault::NotRunning);
            &&& running_key(stopped) == Err::<Seq<char>, ApiFault>(not_running)
            &&& added_peer(stopped, text) == Err::<Seq<u8>, ApiFault>(not_running)
            &&& text_publication(stopped, topic_name, text) is Err
            &&& text_publication(stopped, topic_name, text)->Err_0 == not_running
            &&& voice_publication(stopped, encoded) is Err
            &&& voice_publication(stopped, encoded)->Err_0 == not_running
            &&& stopped.decoder ==> voice_subscription(stopped) is Err
            &&& stopped.decoder ==> voice_subscription(stopped)->Err_0 == ApiFault::ShortId(
                NodeFault::NotRunning,
            )
            &&& stop_node_step(stopped) == (stopped, Err::<(), ApiFault>(not_running))
            &&& start_node_step(stopped, reply).0 == stopped
        }),
{
}

/// Starting a voice session is idempotent: once there is an encoder and a
/// decoder, nothing is made and nothing changes.
pub proof fn law_voice_session_idempotent(api: ApiModel)
    requires
        api.encoder,
        api.decoder,
    ensures
        ({
            let after = voice_start_step(api, VoiceStartup::Fresh, VoiceStartEvent::Begin);
            &&& after.api == api
            &&& after.startup == VoiceStartup::Done
            &&& after.action == VoiceStartActionModel::Finish(Ok(()))
        }),
{
}

/// A start of a voice session in which the encoder and the decoder are made:
/// both are there afterwards, and the next start does nothing.
pub proof fn law_voice_session_starts(api: ApiModel)
    requires
        !(api.encoder && api.decoder),
    ensures
        ({
            let asked = voice_start_step(api, VoiceStartup::Fresh, VoiceStartEvent::Begin);
            let half = voice_start_step(
                asked.api,
                asked.startup,
                VoiceStartEvent::EncoderCreated,
            );
            let whole = voice_start_step(half.api, half.startup, VoiceStartEvent::DecoderCreated);
            let again = voice_start_step(whole.api, VoiceStartup::Fresh, VoiceStartEvent::Begin);
            &&& asked.action == create_encoder()
            &&& asked.api == api
            &&& half.action == create_decoder()
            &&& half.api == api
            &&& whole.action == VoiceStartActionModel::Finish(Ok(()))
            &&& whole.api == (ApiModel { encoder: true, decoder: true, ..api })
            &&& again.action == VoiceStartActionModel::Finish(Ok(()))
            &&& again.api == whole.api
        }),
{
}

/// A call that may change what the calls share.
pub enum Call {
    StartNode(StartReply),
    StartVoiceSession(VoiceStartup, VoiceStartEvent),
    StopNode,
}

/// What the calls share after one of them.
pub open spec fn after_call(api: ApiModel, call: Call) -> ApiModel {
    match call {
        Call::StartNode(reply) => start_node_step(api, reply).0,
        Call::StartVoiceSession(startup, event) => voice_start_step(api, startup, event).api,
        Call::StopNode => stop_node_step(api).0,
    }
}

/// What the calls share after `calls`, from the beginning.
pub open spec fn after_calls(calls: Seq<Call>) -> ApiModel
    decreases calls.len(),
{
    if calls.len() == 0 {
        ApiModel { node: None, encoder: false, decoder: false }
    } else {
        after_call(after_calls(calls.drop_last()), calls.last())
    }
}

/// No call takes back a node, an encoder or a decoder.
pub proof fn law_nothing_taken_back(api: ApiModel, call: Call)
    ensures
        api.node is Some ==> after_call(api, call).node is Some,
        api.encoder ==> after_call(api, call).encoder,
        api.decoder ==> after_call(api, call).decoder,
{
}

/// Whatever was called, there is an encoder exactly where there is a decoder.
pub proof fn law_codecs_come_together(calls: Seq<Call>)
    ensures
        after_calls(calls).encoder == after_calls(calls).decoder,
    decreases calls.len(),
{
    if calls.len() > 0 {
        law_codecs_come_together(calls.drop_last());
    }
}

/// The short form of a public key takes one byte for each character.
proof fn lemma_short_form_bytes(key: Seq<char>)
    requires
        is_key_text(key),
    ensures
        encode_utf8(short_form(key)).len() == VOICE_SENDER_LEN,
{
    lemma_key_text_is_ascii(key);
    assert forall|i: int| 0 <= i < short_form(key).len() implies '\0' <= #[trigger] short_form(
        key,
    )[i] <= '\u{7f}' by {
        assert(short_form(key)[i] == key[i]);
    }
    is_ascii_chars_encode_utf8(short_form(key));
}

/// What a subscriber is shown of a text that was sent is the sender, a colon
/// and the text, whatever the text.
pub proof fn law_text_arrives(
    api: ApiModel,
    topic_name: Seq<char>,
    text: Seq<char>,
    message: Vec<u8>,
)
    requires
        text_publication(api, topic_name, text) matches Ok(
            PublicationModel::Fresh { topic_name: _, message: sent },
        ) && sent == message@,
    ensures
        running_key(api) matches Ok(key) && text_step(
            TextFeed::Receiving,
            TextEvent::Received(message),
        ) == (TextFeed::Delivering, TextActionModel::Deliver(line(short_form(key), text))),
{
    let key = running_key(api)->Ok_0;
    encode_utf8_valid_utf8(line(short_form(key), text));
    encode_utf8_decode_utf8(line(short_form(key), text));
}

/// A running node sends every text.
pub proof fn law_running_node_sends(
    api: ApiModel,
    topic_name: Seq<char>,
    text: Seq<char>,
    key: Seq<char>,
)
    requires
        api.node == Some(Some(key)),
    ensures
        text_publication(api, topic_name, text) == Ok::<PublicationModel, ApiFault>(
            PublicationModel::Fresh {
                topic_name,
                message: encode_utf8(line(short_form(key), text)),
            },
        ),
{
}

/// A line tells who sent it and what was sent: the sender ends at the first
/// colon, and lines of different senders or with different texts differ.
pub proof fn law_line_unambiguous(
    key: Seq<char>,
    text: Seq<char>,
    other_key: Seq<char>,
    other_text: Seq<char>,
)
    requires
        is_key_text(key),
        is_key_text(other_key),
    ensures
        line(short_form(key), text)[SHORT_ID_LEN as int] == ':',
        forall|i: int|
            0 <= i < SHORT_ID_LEN ==> #[trigger] line(short_form(key), text)[i] != ':',
        line(short_form(key), text) == line(short_form(other_key), other_text) ==> short_form(key)
            == short_form(other_key) && text == other_text,
{
    reveal_strlit(":");
    let n = SHORT_ID_LEN as int;
    let one = line(short_form(key), text);
    let other = line(short_form(other_key), other_text);
    assert forall|i: int| 0 <= i < n implies #[trigger] one[i] != ':' by {
        assert(one[i] == key[i]);
        assert(is_hex_digit(key[i]));
    }
    if one == other {
        assert(short_form(key) =~= one.take(n));
        assert(short_form(other_key) =~= other.take(n));
        assert(text =~= one.skip(n + 1));
        assert(other_text =~= other.skip(n + 1));
    }
}

/// The texts that `messages` show, in order: those of the messages that are
/// UTF-8.
pub open spec fn readable(messages: Seq<Vec<u8>>) -> Seq<Seq<char>>
    decreases messages.len(),
{
    if messages.len() == 0 {
        seq![]
    } else {
        let before = readable(messages.drop_last());
        match utf8_text(messages.last()@) {
            Some(text) => before.push(text),
            None => before,
        }
    }
}

/// A text feed that got `messages`, one after the other, each text taken: where
/// it stands, and what it delivered.
pub open spec fn shown(messages: Seq<Vec<u8>>) -> (TextFeed, Seq<Seq<char>>)
    decreases messages.len(),
{
    if messages.len() == 0 {
        (TextFeed::Receiving, seq![])
    } else {
        let (before, delivered) = shown(messages.drop_last());
        let (feed, action) = text_step(before, TextEvent::Received(messages.last()));
        match action {
            TextActionModel::Deliver(text) => (
                text_step(feed, TextEvent::Taken).0,
                delivered.push(text),
            ),
            _ => (feed, delivered),
        }
    }
}

/// A listener is shown every text that arrives, in order, and nothing of a
/// message that is not text.
pub proof fn law_texts_shown_in_order(messages: Seq<Vec<u8>>)
    ensures
        shown(messages).0 == TextFeed::Receiving,
        shown(messages).1 == readable(messages),
    decreases messages.len(),
{
    if messages.len() > 0 {
        law_texts_shown_in_order(messages.drop_last());
    }
}

/// A text feed after some events: where it stands, and what was asked for after
/// each event.
pub struct TextRun {
    pub feed: TextFeed,
    pub actions: Seq<TextActionModel>,
}

/// The text feed after `events`.
pub open spec fn run_text(events: Seq<TextEvent>) -> TextRun
    decreases events.len(),
{
    if events.len() == 0 {
        TextRun { feed: TextFeed::Receiving, actions: seq![] }
    } else {
        let before = run_text(events.drop_last());
        let (feed, action) = text_step(before.feed, events.last());
        TextRun { feed, actions: before.actions.push(action) }
    }
}

/// Whatever happens, what is shown after an event is the text of the message
/// that this event brought, so each text is shown at most once, and in order.
/// Nothing is shown after the feed stopped.
pub proof fn law_text_feed_only_what_came(events: Seq<TextEvent>)
    ensures
        ({
            let run = run_text(events);
            &&& run.actions.len() == events.len()
            &&& forall|i: int|
                0 <= i < events.len() ==> (
                #[trigger] run.actions[i] matches TextActionModel::Deliver(text) ==> {
                    &&& events[i] matches TextEvent::Received(message)
                    &&& utf8_text(message@) == Some(text)
                })
            &&& forall|i: int, j: int|
                0 <= i < j < events.len() && #[trigger] run.actions[i] == TextActionModel::Stop
                    ==> #[trigger] run.actions[j] == TextActionModel::OutOfTurn
        }),
{
    lemma_text_run(events);
}

proof fn lemma_text_run(events: Seq<TextEvent>)
    ensures
        ({
            let run = run_text(events);
            &&& run.actions.len() == events.len()
            &&& forall|i: int|
                0 <= i < events.len() ==> (
                #[trigger] run.actions[i] matches TextActionModel::Deliver(text) ==> {
                    &&& events[i] matches TextEvent::Received(message)
                    &&& utf8_text(message@) == Some(text)
                })
            &&& forall|i: int|
                0 <= i < events.len() && #[trigger] run.actions[i] == TextActionModel::Stop
                    ==> run.feed == TextFeed::Stopped
            &&& forall|i: int, j: int|
                0 <= i < j < events.len() && #[trigger] run.actions[i] == TextActionModel::Stop
                    ==> #[trigger] run.actions[j] == TextActionModel::OutOfTurn
        }),
    decreases events.len(),
{
    if events.len() > 0 {
        lemma_text_run(events.drop_last());
        let before = run_text(events.drop_last());
        let run = run_text(events);
        assert forall|i: int| 0 <= i < events.len() implies (
        #[trigger] run.actions[i] matches TextActionModel::Deliver(text) ==> {
            &&& events[i] matches TextEvent::Received(message)
            &&& utf8_text(message@) == Some(text)
        }) by {
            if i < events.len() - 1 {
                assert(run.actions[i] == before.actions[i]);
                assert(events.drop_last()[i] == events[i]);
            }
        }
    }
}

/// A text feed stops where no more messages will arrive, and where the listener
/// does not take a text because it is gone; a message that is not text does not
/// stop it.
pub proof fn law_when_text_feed_stops(feed: TextFeed, event: TextEvent)
    ensures
        text_step(feed, event).1 == TextActionModel::Stop <==> {
            ||| feed == TextFeed::Receiving && event == TextEvent::Ended
            ||| feed == TextFeed::Delivering && event == TextEvent::ListenerGone
        },
{
}

/// A text feed that stopped delivers nothing more.
pub proof fn law_stopped_text_feed_stays_stopped(event: TextEvent)
    ensures
        text_step(TextFeed::Stopped, event) == (TextFeed::Stopped, TextActionModel::OutOfTurn),
{
}

/// A voice frame is encoded exactly where a node and a voice session were
/// started and the frame has 640 bytes; no other length is cut to fit.
pub proof fn law_frame_accepted(api: ApiModel, pcm: Seq<u8>)
    ensures
        frame_refusal(api, pcm.len()) is None <==> api.node is Some && api.encoder && pcm.len()
            == FRAME_BYTES,
        frame_refusal(api, pcm.len()) is None ==> samples_of(pcm).len() == OPUS_FRAME_SAMPLES
            && bytes_of(samples_of(pcm)) == pcm,
{
    if frame_refusal(api, pcm.len()) is None {
        law_bytes_round_trip(pcm);
    }
}

/// A voice message is heard by every node but its sender: what they get is the
/// encoded frame, unless it is empty.
pub proof fn law_voice_heard_by_others(sender: Seq<char>, listener: Seq<char>, frame: Seq<u8>)
    requires
        is_key_text(sender),
        is_key_text(listener),
    ensures
        heard(encode_utf8(short_form(listener)), voice_message(short_form(sender), frame)) == (
        if short_form(sender) != short_form(listener) && frame.len() > 0 {
            Some(frame)
        } else {
            None
        }),
{
    let message = voice_message(short_form(sender), frame);
    lemma_short_form_bytes(sender);
    lemma_short_form_bytes(listener);
    assert(message.take(VOICE_SENDER_LEN as int) =~= encode_utf8(short_form(sender)));
    assert(message.skip(VOICE_SENDER_LEN as int) =~= frame);
    encode_utf8_decode_utf8(short_form(sender));
    encode_utf8_decode_utf8(short_form(listener));
}

/// What another node is asked to decode is what the encoder wrote.
pub proof fn law_voice_frame_arrives(
    api: ApiModel,
    buffer: Vec<u8>,
    len: usize,
    feed: VoiceFeedModel,
    listener: Seq<char>,
    message: Vec<u8>,
)
    requires
        0 < len <= buffer@.len(),
        running_key(api) matches Ok(key) && is_key_text(key) && short_form(key) != short_form(
            listener,
        ),
        is_key_text(listener),
        feed.own_id == encode_utf8(short_form(listener)),
        feed.stage == VoiceStage::Receiving,
        voice_publication(api, EncodeOutcome::Encoded { buffer, len }) matches Ok(
            PublicationModel::Fresh { topic_name: _, message: sent },
        ) && sent == message@,
    ensures
        voice_step(feed, VoiceEvent::Received(message)) == (
            VoiceFeedModel { stage: VoiceStage::Decoding, ..feed },
            VoiceActionModel::Decode(buffer@.take(len as int)),
        ),
{
    let key = running_key(api)->Ok_0;
    law_voice_heard_by_others(key, listener, encoded_frame(buffer@, len as nat));
}

/// A node does not hear itself.
pub proof fn law_own_voice_skipped(key: Seq<char>, frame: Seq<u8>, message: Vec<u8>)
    requires
        is_key_text(key),
        message@ == voice_message(short_form(key), frame),
    ensures
        ({
            let feed = VoiceFeedModel {
                own_id: encode_utf8(short_form(key)),
                stage: VoiceStage::Receiving,
            };
            voice_step(feed, VoiceEvent::Received(message)) == (feed, VoiceActionModel::Receive)
        }),
{
    law_voice_heard_by_others(key, key, frame);
}

/// A whole decoded frame is delivered as 640 bytes, from which the samples can
/// be read back.
pub proof fn law_whole_frame_delivered(feed: VoiceFeedModel, samples: Vec<i16>)
    requires
        feed.stage == VoiceStage::Decoding,
        samples@.len() == OPUS_FRAME_SAMPLES,
    ensures
        ({
            let event = VoiceEvent::Decoded { samples, count: OPUS_FRAME_SAMPLES };
            let (after, action) = voice_step(feed, event);
            &&& after == (VoiceFeedModel { stage: VoiceStage::Delivering, ..feed })
            &&& action matches VoiceActionModel::Deliver(sound)
            &&& sound.len() == FRAME_BYTES
            &&& samples_of(sound) == samples@
        }),
{
    assert(samples@.take(OPUS_FRAME_SAMPLES as int) =~= samples@);
    law_samples_round_trip(samples@);
}

/// Whatever is decoded, the sound that is handed on is a frame of 640 bytes.
pub proof fn law_sound_is_a_whole_frame(feed: VoiceFeedModel, event: VoiceEvent)
    requires
        event.within_buffer(),
    ensures
        voice_step(feed, event).1 matches VoiceActionModel::Deliver(sound) ==> sound.len()
            == FRAME_BYTES,
{
}

/// A voice message with what the decoder makes of its frame: a buffer and how
/// many samples of it are the sound, or nothing where it cannot be decoded.
pub struct VoiceArrival {
    pub message: Vec<u8>,
    pub decoded: Option<(Vec<i16>, usize)>,
}

/// The sound of `arrivals` to a node, in order: that of each frame of another
/// node that decodes to a whole one.
pub open spec fn audible(own_id: Seq<u8>, arrivals: Seq<VoiceArrival>) -> Seq<Seq<u8>>
    decreases arrivals.len(),
{
    if arrivals.len() == 0 {
        seq![]
    } else {
        let before = audible(own_id, arrivals.drop_last());
        match (heard(own_id, arrivals.last().message@), arrivals.last().decoded) {
            (Some(_), Some((samples, count))) => if count == OPUS_FRAME_SAMPLES {
                before.push(bytes_of(samples@.take(count as int)))
            } else {
                before
            },
            _ => before,
        }
    }
}

/// A voice feed after one arrival, its sound taken, and the sound it delivered.
pub open spec fn play_one(feed: VoiceFeedModel, arrival: VoiceArrival) -> (
    VoiceFeedModel,
    Option<Seq<u8>>,
) {
    let (decoding, action) = voice_step(feed, VoiceEvent::Received(arrival.message));
    match (action, arrival.decoded) {
        (VoiceActionModel::Decode(_), Some((samples, count))) => {
            let (delivering, delivery) = voice_step(
                decoding,
                VoiceEvent::Decoded { samples, count },
            );
            let after = voice_step(delivering, VoiceEvent::Taken).0;
            match delivery {
                VoiceActionModel::Deliver(sound) => (after, Some(sound)),
                _ => (after, None),
            }
        },
        (VoiceActionModel::Decode(_), None) => (
            voice_step(decoding, VoiceEvent::Undecodable).0,
            None,
        ),
        _ => (decoding, None),
    }
}

/// A voice feed that got `arrivals`, one after the other: where it stands, and
/// what it delivered.
pub open spec fn played(own_id: Seq<u8>, arrivals: Seq<VoiceArrival>) -> (
    VoiceFeedModel,
    Seq<Seq<u8>>,
)
    decreases arrivals.len(),
{
    if arrivals.len() == 0 {
        (VoiceFeedModel { own_id, stage: VoiceStage::Receiving }, seq![])
    } else {
        let (before, delivered) = played(own_id, arrivals.drop_last());
        let (after, sound) = play_one(before, arrivals.last());
        match sound {
            Some(bytes) => (after, delivered.push(bytes)),
            None => (after, delivered),
        }
    }
}

/// A listener hears every whole frame of another node, in order, and nothing
/// else.
pub proof fn law_voices_played_in_order(own_id: Seq<u8>, arrivals: Seq<VoiceArrival>)
    ensures
        played(own_id, arrivals).0 == (VoiceFeedModel { own_id, stage: VoiceStage::Receiving }),
        played(own_id, arrivals).1 == audible(own_id, arrivals),
    decreases arrivals.len(),
{
    if arrivals.len() > 0 {
        law_voices_played_in_order(own_id, arrivals.drop_last());
    }
}

/// A voice feed after some events: where it stands, and what was asked for after
/// each event.
pub struct VoiceRun {
    pub feed: VoiceFeedModel,
    pub actions: Seq<VoiceActionModel>,
}

/// The voice feed to a node after `events`.
pub open spec fn run_voice(own_id: Seq<u8>, events: Seq<VoiceEvent>) -> VoiceRun
    decreases events.len(),
{
    if events.len() == 0 {
        VoiceRun {
            feed: VoiceFeedModel { own_id, stage: VoiceStage::Receiving },
            actions: seq![],
        }
    } else {
        let before = run_voice(own_id, events.drop_last());
        let (feed, action) = voice_step(before.feed, events.last());
        VoiceRun { feed, actions: before.actions.push(action) }
    }
}

/// What is asked for after an event came with this event: a frame to decode is
/// one that it brought from another node, and sound to hand on is the whole frame
/// that it brought from the decoder.
pub open spec fn came_with(own_id: Seq<u8>, event: VoiceEvent, action: VoiceActionModel) -> bool {
    match action {
        VoiceActionModel::Decode(frame) => {
            &&& event matches VoiceEvent::Received(message)
            &&& heard(own_id, message@) == Some(frame)
        },
        VoiceActionModel::Deliver(sound) => {
            &&& event matches VoiceEvent::Decoded { samples, count }
            &&& count == OPUS_FRAME_SAMPLES
            &&& sound == bytes_of(samples@.take(count as int))
        },
        _ => true,
    }
}

/// The last of the first `n` actions that was in turn asks for a frame to be
/// decoded.
pub open spec fn decode_pending(actions: Seq<VoiceActionModel>, n: int) -> bool {
    exists|k: int|
        0 <= k < n && (#[trigger] actions[k]) is Decode && forall|m: int|
            k < m < n ==> #[trigger] actions[m] == VoiceActionModel::OutOfTurn
}

/// Whatever happens, what is asked for after an event came with this event, and
/// sound is handed on only in answer to a frame that was to be decoded: each frame
/// is heard at most once, and in order. Nothing is heard after the feed stopped.
pub proof fn law_voice_feed_only_what_came(own_id: Seq<u8>, events: Seq<VoiceEvent>)
    ensures
        ({
            let run = run_voice(own_id, events);
            &&& run.actions.len() == events.len()
            &&& forall|i: int|
                0 <= i < events.len() ==> came_with(own_id, events[i], #[trigger] run.actions[i])
            &&& forall|i: int|
                0 <= i < events.len() && (#[trigger] run.actions[i]) is Deliver ==> decode_pending(
                    run.actions,
                    i,
                )
            &&& forall|i: int, j: int|
                0 <= i < j < events.len() && #[trigger] run.actions[i] == VoiceActionModel::Stop
                    ==> #[trigger] run.actions[j] == VoiceActionModel::OutOfTurn
        }),
{
    lemma_voice_run(own_id, events);
}

proof fn lemma_voice_run(own_id: Seq<u8>, events: Seq<VoiceEvent>)
    ensures
        ({
            let run = run_voice(own_id, events);
            &&& run.feed.own_id == own_id
            &&& run.actions.len() == events.len()
            &&& forall|i: int|
                0 <= i < events.len() ==> came_with(own_id, events[i], #[trigger] run.actions[i])
            &&& forall|i: int|
                0 <= i < events.len() && (#[trigger] run.actions[i]) is Deliver ==> decode_pending(
                    run.actions,
                    i,
                )
            &&& run.feed.stage == VoiceStage::Decoding ==> decode_pending(
                run.actions,
                events.len() as int,
            )
            &&& forall|i: int|
                0 <= i < events.len() && #[trigger] run.actions[i] == VoiceActionModel::Stop
                    ==> run.feed.stage == VoiceStage::Stopped
            &&& forall|i: int, j: int|
                0 <= i < j < events.len() && #[trigger] run.actions[i] == VoiceActionModel::Stop
                    ==> #[trigger] run.actions[j] == VoiceActionModel::OutOfTurn
        }),
    decreases events.len(),
{
    if events.len() > 0 {
        lemma_voice_run(own_id, events.drop_last());
        let before = run_voice(own_id, events.drop_last());
        let run = run_voice(own_id, events);
        assert forall|i: int| 0 <= i <= before.actions.len() && decode_pending(
            before.actions,
            i,
        ) implies #[trigger] decode_pending(run.actions, i) by {
            let k: int = choose|k: int|
                0 <= k < i && (#[trigger] before.actions[k]) is Decode && forall|m: int|
                    k < m < i ==> #[trigger] before.actions[m] == VoiceActionModel::OutOfTurn;
            assert(run.actions[k] is Decode);
        }
        assert forall|i: int| 0 <= i < events.len() && (#[trigger] run.actions[i]) is Deliver
            implies decode_pending(run.actions, i) by {
            if i < events.len() - 1 {
                assert(before.actions[i] is Deliver);
            }
        }
        if run.feed.stage == VoiceStage::Decoding {
            let last: int = events.len() - 1;
            if run.actions[last] is Decode {
                assert(decode_pending(run.actions, events.len() as int));
            } else {
                assert(decode_pending(before.actions, last));
                let k: int = choose|k: int|
                    0 <= k < last && (#[trigger] before.actions[k]) is Decode && forall|m: int|
                        k < m < last ==> #[trigger] before.actions[m]
                            == VoiceActionModel::OutOfTurn;
                assert(run.actions[k] is Decode);
            }
        }
        assert forall|i: int| 0 <= i < events.len() implies came_with(
            own_id,
            events[i],
            #[trigger] run.actions[i],
        ) by {
            if i < events.len() - 1 {
                assert(run.actions[i] == before.actions[i]);
                assert(events.drop_last()[i] == events[i]);
            }
        }
    }
}

/// A voice feed stops where no more messages will arrive, and where the listener
/// does not take the sound because it is gone; a frame that cannot be decoded or
/// is no whole one does not stop it.
pub proof fn law_when_voice_feed_stops(feed: VoiceFeedModel, event: VoiceEvent)
    ensures
        voice_step(feed, event).1 == VoiceActionModel::Stop <==> {
            ||| feed.stage == VoiceStage::Receiving && event == VoiceEvent::Ended
            ||| feed.stage == VoiceStage::Delivering && event == VoiceEvent::ListenerGone
        },
{
}

/// A voice feed that stopped delivers nothing more.
pub proof fn law_stopped_voice_feed_stays_stopped(feed: VoiceFeedModel, event: VoiceEvent)
    requires
        feed.stage == VoiceStage::Stopped,
    ensures
        voice_step(feed, event) == (feed, VoiceActionModel::OutOfTurn),
{
}

} // verus!
