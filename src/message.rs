use vstd::prelude::*;
use crate::json::{lemma_protocol_names_distinct, JsonValue, field, member, str_field, bool_field, text, get_str, get_bool};

verus! {

/// A frame of the signaling protocol, tagged by its `type` member.
#[derive(Debug)]
pub enum SignalingMessage {
    Hello { version: String, checksum: String },
    Join { room_type: String, room_token: String, participant_token: String },
    Joined { room_type: String, quit: bool },
    Message { data: JsonValue },
    Bye,
}

/// The abstract content of a [`SignalingMessage`].
pub enum MessageModel {
    Hello { version: Seq<char>, checksum: Seq<char> },
    Join { room_type: Seq<char>, room_token: Seq<char>, participant_token: Seq<char> },
    Joined { room_type: Seq<char>, quit: bool },
    Message { data: JsonValue },
    Bye,
}

impl View for SignalingMessage {
    type V = MessageModel;

    open spec fn view(&self) -> MessageModel {
        match self {
            SignalingMessage::Hello { version, checksum } => MessageModel::Hello {
                version: version@,
                checksum: checksum@,
            },
            SignalingMessage::Join { room_type, room_token, participant_token } => MessageModel::Join {
                room_type: room_type@,
                room_token: room_token@,
                participant_token: participant_token@,
            },
            SignalingMessage::Joined { room_type, quit } => MessageModel::Joined {
                room_type: room_type@,
                quit: *quit,
            },
            SignalingMessage::Message { data } => MessageModel::Message { data: *data },
            SignalingMessage::Bye => MessageModel::Bye,
        }
    }
}

/// The `type` tag under which a message travels.
pub open spec fn tag_of(m: MessageModel) -> Seq<char> {
    match m {
        MessageModel::Hello { .. } => "hello"@,
        MessageModel::Join { .. } => "join"@,
        MessageModel::Joined { .. } => "joined"@,
        MessageModel::Message { .. } => "message"@,
        MessageModel::Bye => "bye"@,
    }
}

/// The message that a JSON frame encodes, if any: its `type` member picks the
/// variant, the variant's members must be present with the right JSON type,
/// and members that the variant does not name are ignored.
pub open spec fn decode_spec(v: JsonValue) -> Option<MessageModel> {
    match str_field(v, "type"@) {
        Some(t) => if t == "hello"@ {
            match (str_field(v, "version"@), str_field(v, "checksum"@)) {
                (Some(version), Some(checksum)) => Some(MessageModel::Hello { version, checksum }),
                _ => None,
            }
        } else if t == "join"@ {
            match (str_field(v, "roomType"@), str_field(v, "roomToken"@), str_field(v, "participantToken"@)) {
                (Some(room_type), Some(room_token), Some(participant_token)) => Some(
                    MessageModel::Join { room_type, room_token, participant_token },
                ),
                _ => None,
            }
        } else if t == "joined"@ {
            match (str_field(v, "roomType"@), bool_field(v, "quit"@)) {
                (Some(room_type), Some(quit)) => Some(MessageModel::Joined { room_type, quit }),
                _ => None,
            }
        } else if t == "message"@ {
            match field(v, "data"@) {
                Some(data) => Some(MessageModel::Message { data }),
                None => None,
            }
        } else if t == "bye"@ {
            Some(MessageModel::Bye)
        } else {
            None
        },
        None => None,
    }
}

/// `v` is an encoding of `m`: an object whose `type` member is the tag of `m`
/// and whose members hold each field of `m` under its protocol name.
pub open spec fn encodes(v: JsonValue, m: MessageModel) -> bool {
    &&& v is Object
    &&& str_field(v, "type"@) == Some(tag_of(m))
    &&& match m {
        MessageModel::Hello { version, checksum } => {
            &&& str_field(v, "version"@) == Some(version)
            &&& str_field(v, "checksum"@) == Some(checksum)
        },
        MessageModel::Join { room_type, room_token, participant_token } => {
            &&& str_field(v, "roomType"@) == Some(room_type)
            &&& str_field(v, "roomToken"@) == Some(room_token)
            &&& str_field(v, "participantToken"@) == Some(participant_token)
        },
        MessageModel::Joined { room_type, quit } => {
            &&& str_field(v, "roomType"@) == Some(room_type)
            &&& bool_field(v, "quit"@) == Some(quit)
        },
        MessageModel::Message { data } => field(v, "data"@) == Some(data),
        MessageModel::Bye => true,
    }
}

/// How many members an encoding of `m` holds: the tag and one per field.
pub open spec fn member_count(m: MessageModel) -> nat {
    match m {
        MessageModel::Hello { .. } => 3,
        MessageModel::Join { .. } => 4,
        MessageModel::Joined { .. } => 3,
        MessageModel::Message { .. } => 2,
        MessageModel::Bye => 1,
    }
}

/// `v` encodes `m` and holds no other member: the tag and the fields of `m`,
/// each once, under pairwise distinct names.
pub open spec fn encodes_exactly(v: JsonValue, m: MessageModel) -> bool {
    &&& encodes(v, m)
    &&& v matches JsonValue::Object(fs) && fs@.len() == member_count(m)
}

/// Removes and returns the first member named `key` of an object.
fn take_field(v: &mut JsonValue, key: &str) -> (r: Option<JsonValue>)
    ensures
        r == field(*old(v), key@),
{
    match v {
        JsonValue::Object(fields) => {
            let k = text(key);
            let mut i: usize = 0;
            assert(fields@.skip(0) =~= fields@);
            while i < fields.len()
                invariant
                    i <= fields@.len(),
                    k@ == key@,
                    field(*old(v), key@) == member(fields@, key@),
                    member(fields@, key@) == member(fields@.skip(i as int), key@),
                decreases fields.len() - i,
            {
                assert(fields@.skip(i as int).drop_first() =~= fields@.skip(i + 1));
                assert(fields@.skip(i as int)[0] == fields@[i as int]);
                if fields[i].0 == k {
                    let (_, value) = fields.remove(i);
                    return Some(value);
                }
                i = i + 1;
            }
            None
        },
        _ => None,
    }
}

/// Reads a signaling message out of a JSON frame; `None` when the frame is
/// not one (unknown tag, or a member missing or of the wrong JSON type).
pub fn decode(v: JsonValue) -> (r: Option<SignalingMessage>)
    ensures
        match r {
            Some(m) => decode_spec(v) == Some(m@),
            None => decode_spec(v) is None,
        },
{
    let tag = match get_str(&v, "type") {
        Some(t) => t,
        None => return None,
    };
    if tag == text("hello") {
        match (get_str(&v, "version"), get_str(&v, "checksum")) {
            (Some(version), Some(checksum)) => Some(SignalingMessage::Hello { version, checksum }),
            _ => None,
        }
    } else if tag == text("join") {
        match (get_str(&v, "roomType"), get_str(&v, "roomToken"), get_str(&v, "participantToken")) {
            (Some(room_type), Some(room_token), Some(participant_token)) => Some(
                SignalingMessage::Join { room_type, room_token, participant_token },
            ),
            _ => None,
        }
    } else if tag == text("joined") {
        match (get_str(&v, "roomType"), get_bool(&v, "quit")) {
            (Some(room_type), Some(quit)) => Some(SignalingMessage::Joined { room_type, quit }),
            _ => None,
        }
    } else if tag == text("message") {
        let mut v = v;
        match take_field(&mut v, "data") {
            Some(data) => Some(SignalingMessage::Message { data }),
            None => None,
        }
    } else if tag == text("bye") {
        Some(SignalingMessage::Bye)
    } else {
        None
    }
}


fn member_str(key: &str, value: String) -> (r: (String, JsonValue))
    ensures
        r.0@ == key@,
        r.1 == JsonValue::Str(value),
{
    (text(key), JsonValue::Str(value))
}

proof fn lemma_member_two(a: (String, JsonValue), b: (String, JsonValue), key: Seq<char>)
    ensures
        member(seq![a, b], key) == if a.0@ == key { Some(a.1) } else if b.0@ == key { Some(b.1) } else { None::<JsonValue> },
{
    reveal_with_fuel(member, 3);
    assert(seq![a, b].drop_first() =~= seq![b]);
    assert(seq![b].drop_first() =~= Seq::<(String, JsonValue)>::empty());
}

proof fn lemma_member_three(a: (String, JsonValue), b: (String, JsonValue), c: (String, JsonValue), key: Seq<char>)
    ensures
        member(seq![a, b, c], key) == if a.0@ == key { Some(a.1) } else { member(seq![b, c], key) },
{
    assert(seq![a, b, c].drop_first() =~= seq![b, c]);
}

proof fn lemma_member_four(a: (String, JsonValue), b: (String, JsonValue), c: (String, JsonValue), d: (String, JsonValue), key: Seq<char>)
    ensures
        member(seq![a, b, c, d], key) == if a.0@ == key { Some(a.1) } else { member(seq![b, c, d], key) },
{
    assert(seq![a, b, c, d].drop_first() =~= seq![b, c, d]);
}

/// Writes a signaling message as a JSON frame: the `type` tag first, then the
/// variant's fields under their protocol names.
pub fn encode(m: SignalingMessage) -> (r: JsonValue)
    ensures
        encodes_exactly(r, m@),
        decode_spec(r) == Some(m@),
{
    proof {
        lemma_protocol_names_distinct();
    }
    let mut fields: Vec<(String, JsonValue)> = Vec::new();
    match m {
        SignalingMessage::Hello { version, checksum } => {
            let t = member_str("type", text("hello"));
            let a = member_str("version", version);
            let b = member_str("checksum", checksum);
            fields.push(t);
            fields.push(a);
            fields.push(b);
            proof {
                assert(fields@ =~= seq![t, a, b]);
                lemma_member_three(t, a, b, "type"@);
                lemma_member_three(t, a, b, "version"@);
                lemma_member_three(t, a, b, "checksum"@);
                lemma_member_two(a, b, "type"@);
                lemma_member_two(a, b, "version"@);
                lemma_member_two(a, b, "checksum"@);
            }
        },
        SignalingMessage::Join { room_type, room_token, participant_token } => {
            let t = member_str("type", text("join"));
            let a = member_str("roomType", room_type);
            let b = member_str("roomToken", room_token);
            let c = member_str("participantToken", participant_token);
            fields.push(t);
            fields.push(a);
            fields.push(b);
            fields.push(c);
            proof {
                assert(fields@ =~= seq![t, a, b, c]);
                lemma_member_four(t, a, b, c, "type"@);
                lemma_member_four(t, a, b, c, "roomType"@);
                lemma_member_four(t, a, b, c, "roomToken"@);
                lemma_member_four(t, a, b, c, "participantToken"@);
                lemma_member_three(a, b, c, "type"@);
                lemma_member_three(a, b, c, "roomType"@);
                lemma_member_three(a, b, c, "roomToken"@);
                lemma_member_three(a, b, c, "participantToken"@);
                lemma_member_two(b, c, "type"@);
                lemma_member_two(b, c, "roomType"@);
                lemma_member_two(b, c, "roomToken"@);
                lemma_member_two(b, c, "participantToken"@);
            }
        },
        SignalingMessage::Joined { room_type, quit } => {
            let t = member_str("type", text("joined"));
            let a = member_str("roomType", room_type);
            let b = (text("quit"), JsonValue::Bool(quit));
            fields.push(t);
            fields.push(a);
            fields.push(b);
            proof {
                assert(fields@ =~= seq![t, a, b]);
                lemma_member_three(t, a, b, "type"@);
                lemma_member_three(t, a, b, "roomType"@);
                lemma_member_three(t, a, b, "quit"@);
                lemma_member_two(a, b, "type"@);
                lemma_member_two(a, b, "roomType"@);
                lemma_member_two(a, b, "quit"@);
            }
        },
        SignalingMessage::Message { data } => {
            let t = member_str("type", text("message"));
            let a = (text("data"), data);
            fields.push(t);
            fields.push(a);
            proof {
                assert(fields@ =~= seq![t, a]);
                lemma_member_two(t, a, "type"@);
                lemma_member_two(t, a, "data"@);
            }
        },
        SignalingMessage::Bye => {
            let t = member_str("type", text("bye"));
            fields.push(t);
            proof {
                assert(fields@ =~= seq![t]);
                assert(seq![t].drop_first() =~= Seq::<(String, JsonValue)>::empty());
            }
        },
    }
    JsonValue::Object(fields)
}

} // verus!

verus! {

/// Any encoding of a message decodes back to that message.
pub proof fn lemma_encoding_decodes(v: JsonValue, m: MessageModel)
    requires
        encodes(v, m),
    ensures
        decode_spec(v) == Some(m),
{
    lemma_protocol_names_distinct();
}

/// Decoding a frame and encoding the result again keeps the envelope: the
/// first frame is itself an encoding of what it decodes to (same tag, same
/// field values), exactly so when it holds no member beyond them, and any
/// encoding of that message decodes to it again.
pub proof fn lemma_round_trip(v: JsonValue, r: JsonValue)
    requires
        decode_spec(v) is Some,
        encodes(r, decode_spec(v)->Some_0),
    ensures
        encodes(v, decode_spec(v)->Some_0),
        (v matches JsonValue::Object(fs) && fs@.len() == member_count(decode_spec(v)->Some_0))
            ==> encodes_exactly(v, decode_spec(v)->Some_0),
        decode_spec(r) == decode_spec(v),
        str_field(r, "type"@) == str_field(v, "type"@),
{
    lemma_protocol_names_distinct();
    lemma_encoding_decodes(r, decode_spec(v)->Some_0);
}

} // verus!
