use panda_playground::api::feed::{
    voice_frame, TextAction, TextEvent, TextFeed, VoiceAction, VoiceEvent, VoiceFeed,
    VOICE_SENDER_LEN,
};

fn text_of(message: &[u8]) -> Option<String> {
    match TextFeed::Receiving.step(TextEvent::Received(message.to_vec())) {
        (TextFeed::Delivering, TextAction::Deliver(text)) => Some(text),
        (TextFeed::Receiving, TextAction::Receive) => None,
        other => panic!("{:?}", other),
    }
}

fn whole_frame(samples: Vec<i16>) -> VoiceEvent {
    VoiceEvent::Decoded {
        samples,
        count: 320,
    }
}

#[test]
fn utf8_is_delivered_and_the_rest_passed_over() {
    assert_eq!(text_of(b"00010f10:hi"), Some("00010f10:hi".to_string()));
    assert_eq!(text_of(b""), Some(String::new()));
    assert_eq!(
        text_of("h\u{e9}llo \u{1f43c}".as_bytes()),
        Some("h\u{e9}llo \u{1f43c}".to_string())
    );
    assert_eq!(text_of(&[0xff]), None);
    assert_eq!(text_of(&[0xc3]), None);
    assert_eq!(text_of(&[0xed, 0xa0, 0x80]), None);
}

#[test]
fn texts_are_shown_in_order() {
    let mut feed = TextFeed::Receiving;
    let mut shown = Vec::new();
    for message in [&b"a"[..], &[0xff], b"b"] {
        let (next, action) = feed.step(TextEvent::Received(message.to_vec()));
        feed = match action {
            TextAction::Deliver(text) => {
                shown.push(text);
                next.step(TextEvent::Taken).0
            }
            _ => next,
        };
    }
    assert_eq!(shown, vec!["a".to_string(), "b".to_string()]);
}

#[test]
fn text_feed_stops_for_good() {
    assert!(matches!(
        TextFeed::Receiving.step(TextEvent::Ended),
        (TextFeed::Stopped, TextAction::Stop)
    ));
    assert!(matches!(
        TextFeed::Delivering.step(TextEvent::ListenerGone),
        (TextFeed::Stopped, TextAction::Stop)
    ));
    assert!(matches!(
        TextFeed::Stopped.step(TextEvent::Received(vec![65])),
        (TextFeed::Stopped, TextAction::OutOfTurn)
    ));
}

#[test]
fn frame_of_another_node_is_heard() {
    assert_eq!(
        voice_frame(b"00010f10", b"deadbeef\x01\x02"),
        Some(vec![1, 2])
    );
}

#[test]
fn own_frame_is_skipped() {
    assert_eq!(voice_frame(b"00010f10", b"00010f10\x01\x02"), None);
    assert_eq!(
        voice_frame(b"00010f10", b"00010f11\x01\x02"),
        Some(vec![1, 2])
    );
}

#[test]
fn message_without_a_frame_is_skipped() {
    assert_eq!(voice_frame(b"00010f10", b""), None);
    assert_eq!(voice_frame(b"00010f10", b"deadbee"), None);
    assert_eq!(voice_frame(b"00010f10", b"deadbeef"), None);
    assert_eq!(VOICE_SENDER_LEN, 8);
}

#[test]
fn identifier_of_another_length_is_no_sender() {
    assert_eq!(voice_frame(b"0001", b"00010f10\x05"), Some(vec![5]));
}

#[test]
fn voice_feed_decodes_and_delivers() {
    let mut feed = VoiceFeed::new(b"00010f10".to_vec());
    match feed.step(VoiceEvent::Received(b"deadbeef\x07\x08".to_vec())) {
        VoiceAction::Decode(frame) => assert_eq!(frame, vec![7, 8]),
        other => panic!("{:?}", other),
    }
    let mut samples = vec![5; 330];
    samples[0] = 1;
    samples[1] = -1;
    match feed.step(whole_frame(samples)) {
        VoiceAction::Deliver(sound) => {
            assert_eq!(sound.len(), 640);
            assert_eq!(sound[..6], [1, 0, 255, 255, 5, 0]);
        }
        other => panic!("{:?}", other),
    }
    assert!(matches!(feed.step(VoiceEvent::Taken), VoiceAction::Receive));
    assert!(matches!(
        feed.step(VoiceEvent::Received(b"00010f10\x07".to_vec())),
        VoiceAction::Receive
    ));
}

#[test]
fn whole_frame_has_640_bytes() {
    let mut feed = VoiceFeed::new(b"00010f10".to_vec());
    feed.step(VoiceEvent::Received(b"deadbeef\x07".to_vec()));
    match feed.step(whole_frame(vec![-2; 320])) {
        VoiceAction::Deliver(sound) => {
            assert_eq!(sound.len(), 640);
            assert_eq!(sound[638..], [0xfe, 0xff]);
        }
        other => panic!("{:?}", other),
    }
}

#[test]
fn part_of_a_frame_is_passed_over() {
    let mut feed = VoiceFeed::new(b"00010f10".to_vec());
    for count in [0, 1, 160, 319, 321, 640] {
        assert!(matches!(
            feed.step(VoiceEvent::Received(b"deadbeef\x07".to_vec())),
            VoiceAction::Decode(_)
        ));
        let event = VoiceEvent::Decoded {
            samples: vec![3; 640],
            count,
        };
        assert!(matches!(feed.step(event), VoiceAction::Receive));
    }
    feed.step(VoiceEvent::Received(b"deadbeef\x07".to_vec()));
    match feed.step(whole_frame(vec![3; 320])) {
        VoiceAction::Deliver(sound) => assert_eq!(sound, [3, 0].repeat(320)),
        other => panic!("{:?}", other),
    }
}

#[test]
fn sound_answers_a_frame_once() {
    let mut feed = VoiceFeed::new(b"00010f10".to_vec());
    assert!(matches!(
        feed.step(whole_frame(vec![0; 320])),
        VoiceAction::OutOfTurn
    ));
    feed.step(VoiceEvent::Received(b"deadbeef\x07".to_vec()));
    assert!(matches!(
        feed.step(VoiceEvent::Received(b"deadbeef\x08".to_vec())),
        VoiceAction::OutOfTurn
    ));
    assert!(matches!(
        feed.step(whole_frame(vec![0; 320])),
        VoiceAction::Deliver(_)
    ));
    assert!(matches!(
        feed.step(whole_frame(vec![0; 320])),
        VoiceAction::OutOfTurn
    ));
}

#[test]
fn text_is_shown_once() {
    let (feed, action) = TextFeed::Receiving.step(TextEvent::Received(b"a".to_vec()));
    assert!(matches!(action, TextAction::Deliver(_)));
    let (feed, action) = feed.step(TextEvent::Received(b"b".to_vec()));
    assert!(matches!(action, TextAction::OutOfTurn));
    assert!(matches!(
        feed.step(TextEvent::Taken),
        (TextFeed::Receiving, TextAction::Receive)
    ));
}

#[test]
fn undecodable_frame_is_passed_over() {
    let mut feed = VoiceFeed::new(b"00010f10".to_vec());
    feed.step(VoiceEvent::Received(b"deadbeef\x07".to_vec()));
    assert!(matches!(
        feed.step(VoiceEvent::Undecodable),
        VoiceAction::Receive
    ));
    assert!(matches!(
        feed.step(VoiceEvent::Received(b"deadbeef\x07".to_vec())),
        VoiceAction::Decode(_)
    ));
}

#[test]
fn voice_feed_stops_for_good() {
    let mut feed = VoiceFeed::new(b"00010f10".to_vec());
    assert!(matches!(feed.step(VoiceEvent::Ended), VoiceAction::Stop));
    assert!(matches!(
        feed.step(VoiceEvent::Received(b"deadbeef\x07".to_vec())),
        VoiceAction::OutOfTurn
    ));
    let mut feed = VoiceFeed::new(b"00010f10".to_vec());
    feed.step(VoiceEvent::Received(b"deadbeef\x07".to_vec()));
    feed.step(whole_frame(vec![0; 320]));
    assert!(matches!(
        feed.step(VoiceEvent::ListenerGone),
        VoiceAction::Stop
    ));
    assert!(matches!(
        feed.step(VoiceEvent::Taken),
        VoiceAction::OutOfTurn
    ));
}
