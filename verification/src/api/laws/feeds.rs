//! What each turn of a feed does, on every input.

use vstd::prelude::*;
use vstd::utf8::{
    decode_utf8, decode_utf8_encode_utf8, encode_utf8, encode_utf8_decode_utf8,
    encode_utf8_valid_utf8, valid_utf8,
};

use crate::api::feed::{
    text_step, voice_step, TextAction, TextActionModel, TextEvent, TextFeed, VoiceAction,
    VoiceActionModel, VoiceEvent, VoiceFeedModel, VoiceStage,
};
use crate::pcm::law_samples_become_bytes;

verus! {

/// A message that encodes a text shows that text. One that encodes none shows
/// nothing, and the feed waits for the next.
pub proof fn law_text_shown(message: Vec<u8>, text: Seq<char>)
    ensures
        ({
            let (feed, action) = text_step(TextFeed::Receiving, TextEvent::Received(message));
            &&& message@ == encode_utf8(text) <==> action == TextActionModel::Deliver(text)
            &&& action is Deliver ==> feed == TextFeed::Delivering
            &&& !(action is Deliver) ==> action == TextActionModel::Receive && feed
                == TextFeed::Receiving
        }),
{
    encode_utf8_valid_utf8(text);
    encode_utf8_decode_utf8(text);
    if valid_utf8(message@) {
        decode_utf8_encode_utf8(message@);
    }
}

/// A message that shows nothing encodes no text.
pub proof fn law_nothing_readable_passed_over(message: Vec<u8>)
    requires
        !(text_step(TextFeed::Receiving, TextEvent::Received(message)).1 is Deliver),
    ensures
        forall|text: Seq<char>| message@ != #[trigger] encode_utf8(text),
        !valid_utf8(message@),
{
    assert forall|text: Seq<char>| message@ != #[trigger] encode_utf8(text) by {
        law_text_shown(message, text);
    }
    if valid_utf8(message@) {
        decode_utf8_encode_utf8(message@);
        assert(message@ == encode_utf8(decode_utf8(message@)));
    }
}

/// A text feed ends with its messages or with its listener, and goes on once a
/// text was taken. Any other event changes nothing.
pub proof fn law_text_feed_turns(feed: TextFeed, event: TextEvent)
    ensures
        text_step(TextFeed::Receiving, TextEvent::Ended) == (
            TextFeed::Stopped,
            TextActionModel::Stop,
        ),
        text_step(TextFeed::Delivering, TextEvent::Taken) == (
            TextFeed::Receiving,
            TextActionModel::Receive,
        ),
        text_step(TextFeed::Delivering, TextEvent::ListenerGone) == (
            TextFeed::Stopped,
            TextActionModel::Stop,
        ),
        !(feed == TextFeed::Receiving && (event is Received || event is Ended)) && !(feed
            == TextFeed::Delivering && (event is Taken || event is ListenerGone)) ==> text_step(
            feed,
            event,
        ) == (feed, TextActionModel::OutOfTurn),
{
}

/// A voice message is a sender of eight bytes and a frame. The frame is asked to
/// be decoded where it is not empty and the sender is another; otherwise, and
/// where there is no whole sender, the feed waits for the next message.
pub proof fn law_voice_message_split(
    feed: VoiceFeedModel,
    message: Vec<u8>,
    sender: Seq<u8>,
    frame: Seq<u8>,
)
    requires
        feed.stage == VoiceStage::Receiving,
    ensures
        message@ == sender + frame && sender.len() == 8 && frame.len() > 0 && sender != feed.own_id
            ==> voice_step(feed, VoiceEvent::Received(message)) == (
            VoiceFeedModel { own_id: feed.own_id, stage: VoiceStage::Decoding },
            VoiceActionModel::Decode(frame),
        ),
        message@ == feed.own_id + frame && feed.own_id.len() == 8 ==> voice_step(
            feed,
            VoiceEvent::Received(message),
        ) == (feed, VoiceActionModel::Receive),
        message@.len() <= 8 ==> voice_step(feed, VoiceEvent::Received(message)) == (
            feed,
            VoiceActionModel::Receive,
        ),
{
    if message@ == sender + frame && sender.len() == 8 {
        assert(message@.take(8) =~= sender);
        assert(message@.skip(8) =~= frame);
    }
    if message@ == feed.own_id + frame && feed.own_id.len() == 8 {
        assert(message@.take(8) =~= feed.own_id);
    }
}

/// A whole decoded frame of 320 samples is handed on as 640 bytes: each sample as
/// a 16-bit signed number, low byte first, in order.
pub proof fn law_sound_is_the_samples(feed: VoiceFeedModel, samples: Vec<i16>)
    requires
        feed.stage == VoiceStage::Decoding,
        samples@.len() >= 320,
    ensures
        ({
            let event = VoiceEvent::Decoded { samples, count: 320 };
            let (after, action) = voice_step(feed, event);
            &&& after == (VoiceFeedModel { own_id: feed.own_id, stage: VoiceStage::Delivering })
            &&& action matches VoiceActionModel::Deliver(sound)
            &&& sound.len() == 640
            &&& forall|k: int|
                0 <= k < 320 ==> {
                    let unsigned = sound[2 * k] as int + 256 * sound[2 * k + 1] as int;
                    #[trigger] samples@[k] as int == if unsigned < 32768 {
                        unsigned
                    } else {
                        unsigned - 65536
                    }
                }
        }),
{
    let whole = samples@.take(320);
    law_samples_become_bytes(whole);
    assert forall|k: int| 0 <= k < 320 implies whole[k] == #[trigger] samples@[k] by {}
}

/// A frame that is not whole, or cannot be decoded, is passed over. A voice feed
/// ends with its messages or with its listener, and goes on once a sound was
/// taken. Any other event changes nothing.
pub proof fn law_voice_feed_turns(feed: VoiceFeedModel, event: VoiceEvent)
    ensures
        ({
            let waiting = VoiceFeedModel { own_id: feed.own_id, stage: VoiceStage::Receiving };
            let stopped = VoiceFeedModel { own_id: feed.own_id, stage: VoiceStage::Stopped };
            match feed.stage {
                VoiceStage::Receiving => match event {
                    VoiceEvent::Received(_) => true,
                    VoiceEvent::Ended => voice_step(feed, event) == (
                        stopped,
                        VoiceActionModel::Stop,
                    ),
                    _ => voice_step(feed, event) == (feed, VoiceActionModel::OutOfTurn),
                },
                VoiceStage::Decoding => match event {
                    VoiceEvent::Decoded { samples: _, count } => count != 320 ==> voice_step(
                        feed,
                        event,
                    ) == (waiting, VoiceActionModel::Receive),
                    VoiceEvent::Undecodable => voice_step(feed, event) == (
                        waiting,
                        VoiceActionModel::Receive,
                    ),
                    _ => voice_step(feed, event) == (feed, VoiceActionModel::OutOfTurn),
                },
                VoiceStage::Delivering => match event {
                    VoiceEvent::Taken => voice_step(feed, event) == (
                        waiting,
                        VoiceActionModel::Receive,
                    ),
                    VoiceEvent::ListenerGone => voice_step(feed, event) == (
                        stopped,
                        VoiceActionModel::Stop,
                    ),
                    _ => voice_step(feed, event) == (feed, VoiceActionModel::OutOfTurn),
                },
                VoiceStage::Stopped => voice_step(feed, event) == (
                    feed,
                    VoiceActionModel::OutOfTurn,
                ),
            }
        }),
{
}

/// What a feed asks for is what it says.
pub proof fn law_feeds_ask(text_action: TextAction, voice_action: VoiceAction)
    ensures
        match text_action {
            TextAction::Receive => text_action@ == TextActionModel::Receive,
            TextAction::Deliver(text) => text_action@ == TextActionModel::Deliver(text@),
            TextAction::Stop => text_action@ == TextActionModel::Stop,
            TextAction::OutOfTurn => text_action@ == TextActionModel::OutOfTurn,
        },
        match voice_action {
            VoiceAction::Receive => voice_action@ == VoiceActionModel::Receive,
            VoiceAction::Decode(frame) => voice_action@ == VoiceActionModel::Decode(frame@),
            VoiceAction::Deliver(sound) => voice_action@ == VoiceActionModel::Deliver(sound@),
            VoiceAction::Stop => voice_action@ == VoiceActionModel::Stop,
            VoiceAction::OutOfTurn => voice_action@ == VoiceActionModel::OutOfTurn,
        },
{
}

} // verus!
