use voice_bridge::bootstrap::{check_voice_target, room_info_path, room_info_url, signaling_endpoint};
use voice_bridge::candidates::{CandidateQueue, CANDIDATE_QUEUE_CAPACITY};
use voice_bridge::json::JsonValue;
use voice_bridge::negotiation::{Action, IceCandidate};
use voice_bridge::relay::{DiscordToNextcloudHandler, FRAME_DURATION_MS};
use voice_bridge::session::{on_frame, BridgeError, Frame, LoopStep};

fn s(x: &str) -> JsonValue {
    JsonValue::Str(x.to_string())
}

fn obj(members: Vec<(&str, JsonValue)>) -> JsonValue {
    JsonValue::Object(members.into_iter().map(|(k, v)| (k.to_string(), v)).collect())
}

fn cand(i: u16) -> IceCandidate {
    IceCandidate { candidate: format!("candidate:{}", i), sdp_mid: "0".to_string(), sdp_mline_index: i }
}

fn room_info(signaling: JsonValue) -> JsonValue {
    obj(vec![("ocs", obj(vec![("data", obj(vec![("signaling", signaling)]))]))])
}

#[test]
fn bootstrap_without_url_is_signaling_error() {
    let body = room_info(obj(vec![("ticket", s("t"))]));
    assert_eq!(signaling_endpoint(&body).err(), Some(BridgeError::Signaling));
    assert_eq!(signaling_endpoint(&obj(vec![("ocs", obj(vec![]))])).err(), Some(BridgeError::Signaling));
}

#[test]
fn bootstrap_reads_url_and_ticket() {
    let body = room_info(obj(vec![("url", s("wss://hpb.example.com/spreed")), ("ticket", s("abc"))]));
    let e = signaling_endpoint(&body).expect("endpoint");
    assert_eq!(e.url, "wss://hpb.example.com/spreed");
    assert_eq!(e.ticket, "abc");
}

#[test]
fn room_info_urls() {
    assert_eq!(room_info_path("k3y"), "/ocs/v2.php/apps/spreed/api/v4/room/k3y");
    assert_eq!(
        room_info_url("https://cloud.example.com/nc/", "k3y").unwrap(),
        "https://cloud.example.com/ocs/v2.php/apps/spreed/api/v4/room/k3y"
    );
    assert_eq!(room_info_url("not a url", "k3y"), Err(BridgeError::Configuration));
}

#[test]
fn zero_identifiers_are_rejected() {
    assert_eq!(check_voice_target(0, 5), Err(BridgeError::Configuration));
    assert_eq!(check_voice_target(5, 0), Err(BridgeError::Configuration));
    assert_eq!(check_voice_target(5, 6), Ok(()));
}

#[test]
fn thirty_third_candidate_is_dropped() {
    let mut q = CandidateQueue::new();
    for i in 0..32u16 {
        assert!(q.try_push(cand(i)));
    }
    assert!(!q.try_push(cand(32)));
    assert_eq!(q.len(), CANDIDATE_QUEUE_CAPACITY);
    let mut seen = Vec::new();
    while let Some(c) = q.pop() {
        seen.push(c.sdp_mline_index);
    }
    assert_eq!(seen, (0..32u16).collect::<Vec<_>>());
    assert!(q.is_empty());
}

#[test]
fn queue_accepts_again_after_pop() {
    let mut q = CandidateQueue::new();
    assert!(q.pop().is_none());
    for i in 0..32u16 {
        q.try_push(cand(i));
    }
    assert_eq!(q.pop().map(|c| c.sdp_mline_index), Some(0));
    assert!(q.try_push(cand(99)));
    assert_eq!(q.len(), 32);
}

#[test]
fn close_ends_after_buffered_frames_in_order() {
    let frames = vec![
        Frame::Text(Some(obj(vec![("type", s("hello")), ("version", s("2")), ("checksum", s("c"))]))),
        Frame::Text(None),
        Frame::Text(Some(obj(vec![
            ("type", s("message")),
            ("data", obj(vec![("type", s("answer")), ("sdp", s("first"))])),
        ]))),
        Frame::Other,
        Frame::Text(Some(obj(vec![
            ("type", s("message")),
            ("data", obj(vec![("type", s("answer")), ("sdp", s("second"))])),
        ]))),
        Frame::Close,
    ];
    let mut answers = Vec::new();
    let mut finished = false;
    for f in frames {
        match on_frame(f) {
            LoopStep::Handle(Action::ApplyAnswer { sdp }) => answers.push(sdp),
            LoopStep::Handle(_) | LoopStep::Continue => {}
            LoopStep::Finished => {
                finished = true;
                break;
            }
            LoopStep::Aborted => panic!("aborted"),
        }
    }
    assert!(finished);
    assert_eq!(answers, vec!["first".to_string(), "second".to_string()]);
}

#[test]
fn transport_failure_aborts() {
    assert!(matches!(on_frame(Frame::Failed), LoopStep::Aborted));
    assert!(matches!(on_frame(Frame::Text(Some(s("not an object")))), LoopStep::Continue));
}

#[test]
fn offer_frame_yields_one_answer_action() {
    let f = Frame::Text(Some(obj(vec![
        ("type", s("message")),
        ("data", obj(vec![("type", s("offer")), ("sdp", s("o")), ("sender", s("alice"))])),
    ])));
    match on_frame(f) {
        LoopStep::Handle(Action::AnswerOffer { sdp, sender }) => {
            assert_eq!(sdp, "o");
            assert_eq!(sender, "alice");
        }
        other => panic!("unexpected {:?}", other),
    }
}

#[test]
fn candidate_frame_without_mid_continues() {
    let f = Frame::Text(Some(obj(vec![
        ("type", s("message")),
        ("data", obj(vec![("type", s("candidate")), ("candidate", s("c")), ("sdpMLineIndex", JsonValue::UInt(0))])),
    ])));
    assert!(matches!(on_frame(f), LoopStep::Handle(Action::Ignore)));
}

#[test]
fn two_packets_give_two_samples_in_order() {
    let mut h = DiscordToNextcloudHandler::new();
    let mut first = vec![0xAAu8; 12];
    first.extend(vec![1u8; 160]);
    let mut second = vec![0xBBu8; 12];
    second.extend(vec![2u8; 160]);
    let mut track = Vec::new();
    for p in [&first, &second] {
        if let Some(sample) = h.act(p, 12, 0) {
            track.push(sample);
        }
    }
    assert_eq!(track.len(), 2);
    assert_eq!(track[0].data, vec![1u8; 160]);
    assert_eq!(track[1].data, vec![2u8; 160]);
    assert!(track.iter().all(|s| s.duration_ms == FRAME_DURATION_MS));
    assert_eq!(FRAME_DURATION_MS, 20);
    assert_eq!(h.forwarded(), 2);
}

#[test]
fn padding_is_stripped_and_overlap_skipped() {
    let mut h = DiscordToNextcloudHandler::new();
    let packet = vec![9u8, 9, 1, 2, 3, 0, 0];
    assert_eq!(h.act(&packet, 2, 2).unwrap().data, vec![1, 2, 3]);
    assert!(h.act(&packet, 5, 3).is_none());
    assert!(h.act(&packet, 8, 0).is_none());
    assert_eq!(h.forwarded(), 1);
}
