use voice_bridge::json::{get_field, get_str, get_uint, JsonValue};
use voice_bridge::message::{decode, encode, SignalingMessage};
use voice_bridge::negotiation::{
    answer_envelope, candidate_envelope, dispatch, join_request, payload_to_action, sdp_envelope, Action,
    IceCandidate,
};

fn s(x: &str) -> JsonValue {
    JsonValue::Str(x.to_string())
}

fn obj(members: Vec<(&str, JsonValue)>) -> JsonValue {
    JsonValue::Object(members.into_iter().map(|(k, v)| (k.to_string(), v)).collect())
}

fn payload_of(frame: &JsonValue) -> &JsonValue {
    assert_eq!(get_str(frame, "type").as_deref(), Some("message"));
    get_field(frame, "data").expect("envelope has data")
}

#[test]
fn get_field_takes_first_member_of_a_name() {
    let v = obj(vec![("a", s("one")), ("a", s("two")), ("n", JsonValue::UInt(7))]);
    assert_eq!(get_str(&v, "a").as_deref(), Some("one"));
    assert_eq!(get_uint(&v, "n"), Some(7));
    assert_eq!(get_str(&v, "n"), None);
    assert!(get_field(&s("x"), "a").is_none());
}

#[test]
fn decode_hello() {
    let v = obj(vec![("type", s("hello")), ("version", s("2.0")), ("checksum", s("abc")), ("extra", JsonValue::Null)]);
    match decode(v) {
        Some(SignalingMessage::Hello { version, checksum }) => {
            assert_eq!(version, "2.0");
            assert_eq!(checksum, "abc");
        }
        other => panic!("unexpected {:?}", other),
    }
}

#[test]
fn decode_joined_and_bye() {
    let v = obj(vec![("type", s("joined")), ("roomType", s("room")), ("quit", JsonValue::Bool(false))]);
    assert!(matches!(decode(v), Some(SignalingMessage::Joined { quit: false, .. })));
    assert!(matches!(decode(obj(vec![("type", s("bye"))])), Some(SignalingMessage::Bye)));
}

#[test]
fn decode_rejects_missing_member_or_unknown_tag() {
    assert!(decode(obj(vec![("type", s("hello")), ("version", s("2.0"))])).is_none());
    assert!(decode(obj(vec![("type", s("joined")), ("roomType", s("room")), ("quit", s("no"))])).is_none());
    assert!(decode(obj(vec![("type", s("welcome"))])).is_none());
    assert!(decode(obj(vec![("type", s("message"))])).is_none());
    assert!(decode(s("hello")).is_none());
}

#[test]
fn round_trip_keeps_tag_and_fields() {
    let frame = obj(vec![
        ("roomToken", s("tok")),
        ("type", s("join")),
        ("participantToken", s("ticket")),
        ("roomType", s("room")),
    ]);
    let m = decode(frame).expect("a join frame");
    let again = encode(m);
    assert_eq!(get_str(&again, "type").as_deref(), Some("join"));
    assert_eq!(get_str(&again, "roomToken").as_deref(), Some("tok"));
    assert_eq!(get_str(&again, "participantToken").as_deref(), Some("ticket"));
    assert_eq!(get_str(&again, "roomType").as_deref(), Some("room"));
    match decode(again) {
        Some(SignalingMessage::Join { room_type, room_token, participant_token }) => {
            assert_eq!((room_type.as_str(), room_token.as_str(), participant_token.as_str()), ("room", "tok", "ticket"));
        }
        other => panic!("unexpected {:?}", other),
    }
}

#[test]
fn round_trip_message_keeps_payload() {
    let frame = obj(vec![("type", s("message")), ("data", obj(vec![("type", s("answer")), ("sdp", s("v=0"))]))]);
    let again = encode(decode(frame).expect("a message frame"));
    let data = payload_of(&again);
    assert_eq!(get_str(data, "sdp").as_deref(), Some("v=0"));
}

#[test]
fn offer_is_answered_to_its_sender() {
    let m = SignalingMessage::Message {
        data: obj(vec![("type", s("offer")), ("sdp", s("v=0 offer")), ("sender", s("peer-7"))]),
    };
    match dispatch(&m) {
        Action::AnswerOffer { sdp, sender } => {
            assert_eq!(sdp, "v=0 offer");
            assert_eq!(sender, "peer-7");
            let reply = answer_envelope("v=0 answer".to_string(), sender);
            let data = payload_of(&reply);
            assert_eq!(get_str(data, "type").as_deref(), Some("answer"));
            assert_eq!(get_str(data, "sdp").as_deref(), Some("v=0 answer"));
            assert_eq!(get_str(data, "recipient").as_deref(), Some("peer-7"));
        }
        other => panic!("unexpected {:?}", other),
    }
}

#[test]
fn offer_without_sender_answers_empty_recipient() {
    let a = payload_to_action(&obj(vec![("type", s("offer")), ("sdp", s("x"))]));
    assert!(matches!(a, Action::AnswerOffer { ref sender, .. } if sender.is_empty()));
    let missing_sdp = payload_to_action(&obj(vec![("type", s("offer"))]));
    assert!(matches!(missing_sdp, Action::Ignore));
}

#[test]
fn answer_and_candidate_payloads() {
    let a = payload_to_action(&obj(vec![("type", s("answer")), ("sdp", s("v=0"))]));
    assert!(matches!(a, Action::ApplyAnswer { ref sdp } if sdp == "v=0"));
    let c = payload_to_action(&obj(vec![
        ("type", s("candidate")),
        ("candidate", s("candidate:1 1 udp 1 10.0.0.1 5000 typ host")),
        ("sdpMid", s("0")),
        ("sdpMLineIndex", JsonValue::UInt(1)),
    ]));
    match c {
        Action::AddCandidate(ic) => {
            assert_eq!(ic.sdp_mid, "0");
            assert_eq!(ic.sdp_mline_index, 1);
        }
        other => panic!("unexpected {:?}", other),
    }
}

#[test]
fn candidate_without_mid_is_ignored() {
    let a = payload_to_action(&obj(vec![
        ("type", s("candidate")),
        ("candidate", s("candidate:1")),
        ("sdpMLineIndex", JsonValue::UInt(0)),
    ]));
    assert!(matches!(a, Action::Ignore));
}

#[test]
fn other_messages_are_ignored_or_informational() {
    let hello = SignalingMessage::Hello { version: "1".to_string(), checksum: "c".to_string() };
    assert!(matches!(dispatch(&hello), Action::Ignore));
    assert!(matches!(dispatch(&SignalingMessage::Bye), Action::Ignore));
    let joined = SignalingMessage::Joined { room_type: "room".to_string(), quit: false };
    assert!(matches!(dispatch(&joined), Action::ReportJoined));
    let unknown = SignalingMessage::Message { data: obj(vec![("type", s("control"))]) };
    assert!(matches!(dispatch(&unknown), Action::Ignore));
}

#[test]
fn outbound_envelopes() {
    let offer = sdp_envelope("offer", "v=0".to_string(), "srv".to_string());
    assert_eq!(get_str(payload_of(&offer), "type").as_deref(), Some("offer"));
    let c = IceCandidate { candidate: "candidate:9".to_string(), sdp_mid: "audio".to_string(), sdp_mline_index: 3 };
    let env = candidate_envelope(c, String::new());
    let data = payload_of(&env);
    assert_eq!(get_str(data, "type").as_deref(), Some("candidate"));
    assert_eq!(get_str(data, "candidate").as_deref(), Some("candidate:9"));
    assert_eq!(get_str(data, "sdpMid").as_deref(), Some("audio"));
    assert_eq!(get_uint(data, "sdpMLineIndex"), Some(3));
    assert_eq!(get_str(data, "recipient").as_deref(), Some(""));
}

#[test]
fn join_request_carries_token_and_ticket() {
    let j = encode(join_request("room-token".to_string(), "tkt".to_string()));
    assert_eq!(get_str(&j, "type").as_deref(), Some("join"));
    assert_eq!(get_str(&j, "roomType").as_deref(), Some("room"));
    assert_eq!(get_str(&j, "roomToken").as_deref(), Some("room-token"));
    assert_eq!(get_str(&j, "participantToken").as_deref(), Some("tkt"));
}

fn member_count(v: &JsonValue) -> usize {
    match v {
        JsonValue::Object(fs) => fs.len(),
        _ => panic!("not an object"),
    }
}

#[test]
fn envelopes_hold_exactly_their_members() {
    let answer = answer_envelope("v=0".to_string(), "s1".to_string());
    assert_eq!(member_count(&answer), 2);
    let data = payload_of(&answer);
    assert_eq!(member_count(data), 3);
    assert_eq!(get_str(data, "type").as_deref(), Some("answer"));
    assert_eq!(get_str(data, "sdp").as_deref(), Some("v=0"));
    assert_eq!(get_str(data, "recipient").as_deref(), Some("s1"));
    let c = IceCandidate { candidate: "candidate:1".to_string(), sdp_mid: "0".to_string(), sdp_mline_index: 0 };
    let env = candidate_envelope(c, "peer".to_string());
    assert_eq!(member_count(&env), 2);
    assert_eq!(member_count(payload_of(&env)), 5);
}

#[test]
fn reencoded_frames_hold_exactly_the_input_members() {
    let cases = vec![
        (obj(vec![("type", s("hello")), ("version", s("1.0")), ("checksum", s("abc"))]), 3),
        (obj(vec![("type", s("join")), ("roomType", s("room")), ("roomToken", s("abc")), ("participantToken", s("t1"))]), 4),
        (obj(vec![("type", s("joined")), ("roomType", s("room")), ("quit", JsonValue::Bool(false))]), 3),
        (obj(vec![("type", s("message")), ("data", obj(vec![("type", s("offer")), ("sdp", s("v=0")), ("sender", s("s1"))]))]), 2),
    ];
    for (frame, n) in cases {
        let before = format!("{:?}", frame);
        let again = encode(decode(frame).expect("decodes"));
        assert_eq!(member_count(&again), n);
        assert_eq!(format!("{:?}", again), before);
    }
    let join = encode(join_request("abc".to_string(), "t1".to_string()));
    assert_eq!(member_count(&join), 4);
}
