use panda_playground::android_init::assert_registered;
use panda_playground::api::chat::{
    add_peer, get_full_node_id, send_encoded_frame, send_message, send_sketch, send_voice_frame,
    start_node, start_voice_session, stop_node, subscribe_chat, subscribe_sketch, subscribe_voice,
    Api, Application, EncodeOutcome, VoiceStartAction, VoiceStartEvent, VoiceStartup,
    OPUS_BUFFER_BYTES,
};
use panda_playground::api::error::{task_result, ApiError, Task};
use panda_playground::api::feed::{TextAction, TextEvent, TextFeed, VoiceAction, VoiceEvent};
use panda_playground::node::publication::Publication;
use panda_playground::node::startup::{StartAction, StartEvent, Startup};
use panda_playground::node::subscription::Subscription;
use panda_playground::node::{Node, NodeError, PublicKeyHex};

fn started(first_byte: u8) -> (Node, PublicKeyHex) {
    let mut id = [0xab; 32];
    id[0] = first_byte;
    let mut node = Node::new();
    let mut startup = Startup::new("data");
    for event in [
        StartEvent::Begin,
        StartEvent::Spawned,
        StartEvent::IdentityRead(Some(vec![1; 32])),
        StartEvent::EndpointSpawned(id),
        StartEvent::Spawned,
        StartEvent::Spawned,
        StartEvent::Spawned,
    ] {
        let (next, action) = node.start(startup, event);
        if let StartAction::Finish(Ok(key)) = action {
            return (node, key);
        }
        startup = next;
    }
    panic!("the node did not start");
}

fn running_api(first_byte: u8) -> Api {
    let mut api = Api::new();
    let (node, key) = started(first_byte);
    start_node(&mut api, Some((node, Ok(key)))).unwrap();
    api
}

fn voice_session(api: &mut Api) {
    let (startup, action) = start_voice_session(api, VoiceStartup::Fresh, VoiceStartEvent::Begin);
    assert!(matches!(
        action,
        VoiceStartAction::CreateEncoder {
            sample_rate_hz: 16_000,
            channels: 1,
            application: Application::Voip
        }
    ));
    let (startup, action) = start_voice_session(api, startup, VoiceStartEvent::EncoderCreated);
    assert!(matches!(
        action,
        VoiceStartAction::CreateDecoder {
            sample_rate_hz: 16_000,
            channels: 1
        }
    ));
    let (startup, action) = start_voice_session(api, startup, VoiceStartEvent::DecoderCreated);
    assert_eq!(startup, VoiceStartup::Done);
    assert!(matches!(action, VoiceStartAction::Finish(Ok(()))));
}

fn parts(publication: Publication) -> (String, Vec<u8>) {
    match publication {
        Publication::Fresh {
            topic_name,
            message,
        } => (topic_name, message),
        other => panic!("{:?}", other),
    }
}

fn topic(subscription: Subscription) -> String {
    match subscription {
        Subscription::Fresh { topic_name } => topic_name,
        other => panic!("{:?}", other),
    }
}

fn encoded(buffer: Vec<u8>, len: usize) -> EncodeOutcome {
    EncodeOutcome::Encoded { buffer, len }
}

#[test]
fn start_returns_the_short_id() {
    let mut api = Api::new();
    assert!(api.node().is_none());
    let (node, key) = started(0x01);
    assert_eq!(
        start_node(&mut api, Some((node, Ok(key)))),
        Ok("01ababab".to_string())
    );
    assert!(api.node().unwrap().is_running());
    let full = get_full_node_id(&api).unwrap();
    assert_eq!(full.len(), 64);
    assert_eq!(full, format!("01{}", "ab".repeat(31)));
}

#[test]
fn start_failures() {
    let mut api = Api::new();
    assert_eq!(
        start_node(&mut api, None).unwrap_err().message(),
        "node startup task failed"
    );
    let failed = Err(NodeError::Network("mdns: x".to_string()));
    assert_eq!(
        start_node(&mut api, Some((Node::new(), failed)))
            .unwrap_err()
            .message(),
        "node start failed: network error: mdns: x"
    );
    assert!(api.node().is_none());
}

#[test]
fn first_node_stays() {
    let mut api = running_api(0x01);
    let (node, key) = started(0x02);
    let error = start_node(&mut api, Some((node, Ok(key)))).unwrap_err();
    assert_eq!(error.message(), "node already started");
    assert!(get_full_node_id(&api).unwrap().starts_with("01"));
    stop_node(&mut api).unwrap();
    let (node, key) = started(0x02);
    let error = start_node(&mut api, Some((node, Ok(key)))).unwrap_err();
    assert_eq!(error, ApiError::NodeAlreadyStarted);
    assert_eq!(
        start_node(&mut api, None),
        Err(ApiError::StartupTaskFailed)
    );
}

#[test]
fn every_call_needs_a_node() {
    let mut api = Api::new();
    voice_session(&mut api);
    let refused = ApiError::NodeNotStarted;
    assert_eq!(refused.message(), "node not started");
    assert_eq!(get_full_node_id(&api), Err(ApiError::NodeNotStarted));
    assert_eq!(
        add_peer(&api, &"00".repeat(32)),
        Err(ApiError::NodeNotStarted)
    );
    assert_eq!(send_message(&api, "hi").unwrap_err(), refused);
    assert_eq!(send_sketch(&api, "red:1,2").unwrap_err(), refused);
    assert_eq!(subscribe_chat(&api).unwrap_err(), refused);
    assert_eq!(subscribe_sketch(&api).unwrap_err(), refused);
    assert_eq!(send_voice_frame(&api, &[0; 640]).unwrap_err(), refused);
    assert_eq!(
        send_encoded_frame(&api, encoded(vec![1], 1)).unwrap_err(),
        refused
    );
    assert_eq!(subscribe_voice(&api).unwrap_err(), refused);
    assert_eq!(stop_node(&mut api).unwrap_err(), refused);
}

#[test]
fn stopped_node_refuses() {
    let mut api = running_api(0x01);
    voice_session(&mut api);
    assert_eq!(stop_node(&mut api), Ok(()));
    let refused = ApiError::Node(NodeError::NotRunning);
    assert_eq!(refused.message(), "node not running");
    assert_eq!(get_full_node_id(&api).unwrap_err(), refused);
    assert_eq!(add_peer(&api, &"00".repeat(32)).unwrap_err(), refused);
    assert_eq!(send_message(&api, "hi").unwrap_err(), refused);
    assert_eq!(send_sketch(&api, "x").unwrap_err(), refused);
    assert_eq!(stop_node(&mut api).unwrap_err(), refused);
    assert_eq!(
        send_encoded_frame(&api, encoded(vec![1], 1)).unwrap_err(),
        refused
    );
    assert_eq!(
        subscribe_voice(&api).unwrap_err().message(),
        "get short id: node not running"
    );
    assert!(send_voice_frame(&api, &[0; 640]).is_ok());
    assert_eq!(topic(subscribe_chat(&api).unwrap()), "chat");
}

#[test]
fn shared_key_names_its_node() {
    let shared = get_full_node_id(&running_api(0x03)).unwrap();
    let mut id = [0xab; 32];
    id[0] = 0x03;
    assert_eq!(add_peer(&running_api(0x01), &shared), Ok(id));
    assert_eq!(
        add_peer(&running_api(0x01), &shared.to_uppercase()),
        Ok(id)
    );
}

#[test]
fn peer_key_must_be_a_public_key() {
    let shared = get_full_node_id(&running_api(0x02)).unwrap();
    assert_eq!(
        add_peer(&running_api(0x01), &shared).unwrap_err().message(),
        "network error: invalid node id"
    );
}

#[test]
fn peer_key_must_be_64_digits() {
    let api = running_api(0x01);
    for text in [
        String::new(),
        "0".repeat(63),
        "0".repeat(65),
        "0".repeat(66),
        format!("{}g", "0".repeat(63)),
        "\u{e9}".repeat(32),
    ] {
        assert_eq!(
            add_peer(&api, &text).unwrap_err().message(),
            "network error: invalid node id"
        );
    }
}

#[test]
fn chat_message_names_its_sender() {
    let api = running_api(0x01);
    let (topic_name, message) = parts(send_message(&api, "hello: \u{1f43c}").unwrap());
    assert_eq!(topic_name, "chat");
    assert_eq!(message, "01ababab:hello: \u{1f43c}".as_bytes());
    match TextFeed::Receiving.step(TextEvent::Received(message)).1 {
        TextAction::Deliver(text) => assert_eq!(text, "01ababab:hello: \u{1f43c}"),
        other => panic!("{:?}", other),
    }
}

#[test]
fn empty_message_is_sent_too() {
    let (_, message) = parts(send_message(&running_api(0x01), "").unwrap());
    assert_eq!(message, b"01ababab:");
}

#[test]
fn line_splits_at_its_first_colon() {
    let (_, message) = parts(send_message(&running_api(0x01), ":a:b").unwrap());
    let text = String::from_utf8(message).unwrap();
    assert_eq!(text.find(':'), Some(8));
    assert_eq!(text.split_once(':'), Some(("01ababab", ":a:b")));
}

#[test]
fn sketch_stroke_names_its_sender() {
    let api = running_api(0x01);
    let (topic_name, message) = parts(send_sketch(&api, "ff0000:1,2;3,4").unwrap());
    assert_eq!(topic_name, "sketch");
    assert_eq!(message, b"01ababab:ff0000:1,2;3,4");
}

#[test]
fn subscriptions_name_their_topics() {
    let mut api = running_api(0x01);
    assert_eq!(topic(subscribe_chat(&api).unwrap()), "chat");
    assert_eq!(topic(subscribe_sketch(&api).unwrap()), "sketch");
    voice_session(&mut api);
    assert_eq!(topic(subscribe_voice(&api).unwrap().1), "voice");
}

#[test]
fn voice_session_is_started_once() {
    let mut api = running_api(0x01);
    assert_eq!(
        send_voice_frame(&api, &[0; 640]).unwrap_err().message(),
        "voice session not started"
    );
    assert_eq!(
        subscribe_voice(&api).unwrap_err(),
        ApiError::VoiceSessionNotStarted
    );
    voice_session(&mut api);
    let (startup, action) =
        start_voice_session(&mut api, VoiceStartup::Fresh, VoiceStartEvent::Begin);
    assert_eq!(startup, VoiceStartup::Done);
    assert!(matches!(action, VoiceStartAction::Finish(Ok(()))));
    assert!(send_voice_frame(&api, &[0; 640]).is_ok());
}

#[test]
fn voice_session_failures() {
    let mut api = running_api(0x01);
    let failed = || VoiceStartEvent::Failed("no memory".to_string());
    match start_voice_session(&mut api, VoiceStartup::Encoder, failed()).1 {
        VoiceStartAction::Finish(Err(error)) => {
            assert_eq!(error.message(), "opus encoder: no memory")
        }
        other => panic!("{:?}", other),
    }
    match start_voice_session(&mut api, VoiceStartup::Decoder, failed()).1 {
        VoiceStartAction::Finish(Err(error)) => {
            assert_eq!(error.message(), "opus decoder: no memory")
        }
        other => panic!("{:?}", other),
    }
    assert!(subscribe_voice(&api).is_err());
    assert!(matches!(
        start_voice_session(&mut api, VoiceStartup::Fresh, failed()),
        (VoiceStartup::Fresh, VoiceStartAction::OutOfTurn)
    ));
}

#[test]
fn voice_frame_must_be_whole() {
    let mut api = running_api(0x01);
    voice_session(&mut api);
    for len in [0, 3, 639, 641, 1280] {
        let error = send_voice_frame(&api, &vec![0; len]).unwrap_err();
        assert_eq!(
            error.message(),
            format!(
                "expected 640 bytes of 16-bit LE PCM (320 samples at 16kHz mono = 20ms), got {} bytes",
                len
            )
        );
    }
}

#[test]
fn voice_frame_becomes_samples() {
    let mut api = running_api(0x01);
    voice_session(&mut api);
    let mut pcm = vec![0u8; 640];
    pcm[0] = 0x34;
    pcm[1] = 0x12;
    pcm[639] = 0x80;
    let samples = send_voice_frame(&api, &pcm).unwrap();
    assert_eq!(samples.len(), 320);
    assert_eq!(samples[0], 0x1234);
    assert_eq!(samples[1], 0);
    assert_eq!(samples[319], i16::MIN);
}

#[test]
fn encoded_frame_follows_its_sender() {
    let api = running_api(0x01);
    let mut buffer = vec![0u8; OPUS_BUFFER_BYTES];
    buffer[0] = 7;
    buffer[1] = 8;
    let (topic_name, message) = parts(send_encoded_frame(&api, encoded(buffer, 2)).unwrap());
    assert_eq!(topic_name, "voice");
    assert_eq!(message, b"01ababab\x07\x08");
}

#[test]
fn longer_length_than_the_buffer_keeps_the_buffer() {
    let api = running_api(0x01);
    let (_, message) = parts(send_encoded_frame(&api, encoded(vec![7, 8], 9)).unwrap());
    assert_eq!(message, b"01ababab\x07\x08");
}

#[test]
fn encoding_failures() {
    let api = running_api(0x01);
    let outcome = EncodeOutcome::LockFailed("poisoned".to_string());
    assert_eq!(
        send_encoded_frame(&api, outcome).unwrap_err().message(),
        "encoder lock: poisoned"
    );
    let outcome = EncodeOutcome::Failed("bad argument".to_string());
    assert_eq!(
        send_encoded_frame(&api, outcome).unwrap_err().message(),
        "opus encode: bad argument"
    );
}

#[test]
fn voice_is_heard_by_others_only() {
    let mut sender = running_api(0x01);
    voice_session(&mut sender);
    let mut listener = running_api(0x02);
    voice_session(&mut listener);
    let publication = send_encoded_frame(&sender, encoded(vec![7, 8, 9], 3)).unwrap();
    let (_, message) = parts(publication);
    let (mut feed, _) = subscribe_voice(&listener).unwrap();
    match feed.step(VoiceEvent::Received(message.clone())) {
        VoiceAction::Decode(frame) => assert_eq!(frame, vec![7, 8, 9]),
        other => panic!("{:?}", other),
    }
    let (mut feed, _) = subscribe_voice(&sender).unwrap();
    assert!(matches!(
        feed.step(VoiceEvent::Received(message)),
        VoiceAction::Receive
    ));
}

#[test]
fn empty_frame_is_not_heard() {
    let sender = running_api(0x01);
    let mut listener = running_api(0x02);
    voice_session(&mut listener);
    let (_, message) = parts(send_encoded_frame(&sender, encoded(vec![7], 0)).unwrap());
    assert_eq!(message, b"01ababab");
    let (mut feed, _) = subscribe_voice(&listener).unwrap();
    assert!(matches!(
        feed.step(VoiceEvent::Received(message)),
        VoiceAction::Receive
    ));
}

#[test]
fn dead_task_is_reported() {
    let dead = |task| task_result::<()>(task, None).unwrap_err().message();
    assert_eq!(dead(Task::Query), "task failed");
    assert_eq!(dead(Task::Send), "send task failed");
    assert_eq!(dead(Task::Subscribe), "subscribe task failed");
    assert_eq!(dead(Task::Shutdown), "shutdown task failed");
    assert_eq!(task_result(Task::Query, Some(Ok(5))), Ok(5));
    assert_eq!(
        task_result::<u8>(Task::Send, Some(Err(ApiError::NodeNotStarted))),
        Err(ApiError::NodeNotStarted)
    );
}

#[test]
fn registration_needs_nothing() {
    assert_registered();
    assert_registered();
}
