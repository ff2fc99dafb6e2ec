use vstd::prelude::*;
use crate::json::{lemma_protocol_names_distinct, JsonValue, field, str_field, uint_field, text, get_str, get_uint, lemma_member_at};
use crate::message::{SignalingMessage, MessageModel};

verus! {

/// One ICE candidate as the signaling protocol carries it.
#[derive(Debug, Clone)]
pub struct IceCandidate {
    pub candidate: String,
    pub sdp_mid: String,
    pub sdp_mline_index: u16,
}

/// The abstract content of an [`IceCandidate`].
pub struct CandidateModel {
    pub candidate: Seq<char>,
    pub sdp_mid: Seq<char>,
    pub sdp_mline_index: u16,
}

impl View for IceCandidate {
    type V = CandidateModel;

    open spec fn view(&self) -> CandidateModel {
        CandidateModel {
            candidate: self.candidate@,
            sdp_mid: self.sdp_mid@,
            sdp_mline_index: self.sdp_mline_index,
        }
    }
}

/// What the bridge does with one inbound signaling message.
#[derive(Debug)]
pub enum Action {
    /// Nothing to do.
    Ignore,
    /// The room has been joined; informational only.
    ReportJoined,
    /// Apply a remote offer, then send the answer to `sender`.
    AnswerOffer { sdp: String, sender: String },
    /// Apply a remote answer.
    ApplyAnswer { sdp: String },
    /// Hand a remote candidate to the WebRTC session.
    AddCandidate(IceCandidate),
}

/// The abstract content of an [`Action`].
pub enum ActionModel {
    Ignore,
    ReportJoined,
    AnswerOffer { sdp: Seq<char>, sender: Seq<char> },
    ApplyAnswer { sdp: Seq<char> },
    AddCandidate(CandidateModel),
}

impl View for Action {
    type V = ActionModel;

    open spec fn view(&self) -> ActionModel {
        match self {
            Action::Ignore => ActionModel::Ignore,
            Action::ReportJoined => ActionModel::ReportJoined,
            Action::AnswerOffer { sdp, sender } => ActionModel::AnswerOffer { sdp: sdp@, sender: sender@ },
            Action::ApplyAnswer { sdp } => ActionModel::ApplyAnswer { sdp: sdp@ },
            Action::AddCandidate(c) => ActionModel::AddCandidate(c@),
        }
    }
}

/// The action for the payload of a `message` frame: its `type` member picks
/// offer, answer or candidate; a payload missing a member that its type needs,
/// or of any other type, is ignored.
pub open spec fn payload_action(data: JsonValue) -> ActionModel {
    match str_field(data, "type"@) {
        Some(t) => if t == "offer"@ {
            match str_field(data, "sdp"@) {
                Some(sdp) => ActionModel::AnswerOffer {
                    sdp,
                    sender: match str_field(data, "sender"@) {
                        Some(s) => s,
                        None => Seq::empty(),
                    },
                },
                None => ActionModel::Ignore,
            }
        } else if t == "answer"@ {
            match str_field(data, "sdp"@) {
                Some(sdp) => ActionModel::ApplyAnswer { sdp },
                None => ActionModel::Ignore,
            }
        } else if t == "candidate"@ {
            match (str_field(data, "candidate"@), str_field(data, "sdpMid"@), uint_field(data, "sdpMLineIndex"@)) {
                (Some(candidate), Some(sdp_mid), Some(line)) => ActionModel::AddCandidate(
                    CandidateModel { candidate, sdp_mid, sdp_mline_index: line as u16 },
                ),
                _ => ActionModel::Ignore,
            }
        } else {
            ActionModel::Ignore
        },
        None => ActionModel::Ignore,
    }
}

/// The action for one inbound signaling message.
pub open spec fn dispatch_spec(m: MessageModel) -> ActionModel {
    match m {
        MessageModel::Joined { .. } => ActionModel::ReportJoined,
        MessageModel::Message { data } => payload_action(data),
        _ => ActionModel::Ignore,
    }
}

/// Decides what to do with the payload of a `message` frame.
pub fn payload_to_action(data: &JsonValue) -> (r: Action)
    ensures
        r@ == payload_action(*data),
{
    let t = match get_str(data, "type") {
        Some(t) => t,
        None => return Action::Ignore,
    };
    if t == text("offer") {
        match get_str(data, "sdp") {
            Some(sdp) => {
                let sender = match get_str(data, "sender") {
                    Some(s) => s,
                    None => String::new(),
                };
                Action::AnswerOffer { sdp, sender }
            },
            None => Action::Ignore,
        }
    } else if t == text("answer") {
        match get_str(data, "sdp") {
            Some(sdp) => Action::ApplyAnswer { sdp },
            None => Action::Ignore,
        }
    } else if t == text("candidate") {
        match (get_str(data, "candidate"), get_str(data, "sdpMid"), get_uint(data, "sdpMLineIndex")) {
            (Some(candidate), Some(sdp_mid), Some(line)) => Action::AddCandidate(
                IceCandidate { candidate, sdp_mid, sdp_mline_index: line as u16 },
            ),
            _ => Action::Ignore,
        }
    } else {
        Action::Ignore
    }
}

/// Decides what to do with one inbound signaling message. A malformed payload
/// yields [`Action::Ignore`], never an error.
pub fn dispatch(msg: &SignalingMessage) -> (r: Action)
    ensures
        r@ == dispatch_spec(msg@),
{
    match msg {
        SignalingMessage::Joined { .. } => Action::ReportJoined,
        SignalingMessage::Message { data } => payload_to_action(data),
        _ => Action::Ignore,
    }
}

/// The handshake request that joins room `room_token` with the single-use
/// `ticket` fetched at bootstrap.
pub fn join_request(room_token: String, ticket: String) -> (r: SignalingMessage)
    ensures
        r@ == (MessageModel::Join { room_type: "room"@, room_token: room_token@, participant_token: ticket@ }),
{
    SignalingMessage::Join { room_type: text("room"), room_token, participant_token: ticket }
}

/// The payload `data` of `r` when `r` is an outbound `message` envelope.
pub open spec fn envelope_payload(r: JsonValue) -> Option<JsonValue> {
    if str_field(r, "type"@) == Some("message"@) {
        field(r, "data"@)
    } else {
        None
    }
}

/// `r` is exactly the envelope `{"type":"message","data":{...}}` whose payload
/// holds just `type`, `sdp` and `recipient`, carrying an SDP of kind
/// `sdp_type` to `recipient`.
pub open spec fn is_sdp_envelope(r: JsonValue, sdp_type: Seq<char>, sdp: Seq<char>, recipient: Seq<char>) -> bool {
    match envelope_payload(r) {
        Some(d) => {
            &&& r matches JsonValue::Object(fs) && fs@.len() == 2
            &&& d matches JsonValue::Object(ds) && ds@.len() == 3
            &&& str_field(d, "type"@) == Some(sdp_type)
            &&& str_field(d, "sdp"@) == Some(sdp)
            &&& str_field(d, "recipient"@) == Some(recipient)
        },
        None => false,
    }
}

/// `r` is exactly the envelope `{"type":"message","data":{...}}` whose payload
/// holds just `type`, `candidate`, `sdpMid`, `sdpMLineIndex` and `recipient`,
/// carrying candidate `c` to `recipient`.
pub open spec fn is_candidate_envelope(r: JsonValue, c: CandidateModel, recipient: Seq<char>) -> bool {
    match envelope_payload(r) {
        Some(d) => {
            &&& r matches JsonValue::Object(fs) && fs@.len() == 2
            &&& d matches JsonValue::Object(ds) && ds@.len() == 5
            &&& str_field(d, "type"@) == Some("candidate"@)
            &&& str_field(d, "candidate"@) == Some(c.candidate)
            &&& str_field(d, "sdpMid"@) == Some(c.sdp_mid)
            &&& uint_field(d, "sdpMLineIndex"@) == Some(c.sdp_mline_index as u64)
            &&& str_field(d, "recipient"@) == Some(recipient)
        },
        None => false,
    }
}


/// Wraps a payload into the outbound `message` envelope.
fn wrap_payload(payload: Vec<(String, JsonValue)>) -> (r: JsonValue)
    ensures
        envelope_payload(r) == Some(JsonValue::Object(payload)),
        r matches JsonValue::Object(fs) && fs@.len() == 2,
{
    proof {
        lemma_protocol_names_distinct();
    }
    let mut fields: Vec<(String, JsonValue)> = Vec::new();
    fields.push((text("type"), JsonValue::Str(text("message"))));
    fields.push((text("data"), JsonValue::Object(payload)));
    proof {
        lemma_member_at(fields@, 0, "type"@);
        lemma_member_at(fields@, 1, "data"@);
    }
    JsonValue::Object(fields)
}

/// Builds the envelope that sends an SDP of kind `sdp_type` (`"offer"` or
/// `"answer"`) to `recipient`.
pub fn sdp_envelope(sdp_type: &str, sdp: String, recipient: String) -> (r: JsonValue)
    ensures
        is_sdp_envelope(r, sdp_type@, sdp@, recipient@),
{
    proof {
        lemma_protocol_names_distinct();
    }
    let mut d: Vec<(String, JsonValue)> = Vec::new();
    d.push((text("type"), JsonValue::Str(text(sdp_type))));
    d.push((text("sdp"), JsonValue::Str(sdp)));
    d.push((text("recipient"), JsonValue::Str(recipient)));
    proof {
        lemma_member_at(d@, 0, "type"@);
        lemma_member_at(d@, 1, "sdp"@);
        lemma_member_at(d@, 2, "recipient"@);
    }
    wrap_payload(d)
}

/// Builds the envelope that sends a local candidate to `recipient`.
pub fn candidate_envelope(c: IceCandidate, recipient: String) -> (r: JsonValue)
    ensures
        is_candidate_envelope(r, c@, recipient@),
{
    proof {
        lemma_protocol_names_distinct();
    }
    let ghost cm = c@;
    let mut d: Vec<(String, JsonValue)> = Vec::new();
    d.push((text("type"), JsonValue::Str(text("candidate"))));
    d.push((text("candidate"), JsonValue::Str(c.candidate)));
    d.push((text("sdpMid"), JsonValue::Str(c.sdp_mid)));
    d.push((text("sdpMLineIndex"), JsonValue::UInt(c.sdp_mline_index as u64)));
    d.push((text("recipient"), JsonValue::Str(recipient)));
    proof {
        lemma_member_at(d@, 0, "type"@);
        lemma_member_at(d@, 1, "candidate"@);
        lemma_member_at(d@, 2, "sdpMid"@);
        lemma_member_at(d@, 3, "sdpMLineIndex"@);
        lemma_member_at(d@, 4, "recipient"@);
    }
    wrap_payload(d)
}

/// The envelope that answers an offer: the answer's SDP, addressed to the
/// sender of the offer.
pub fn answer_envelope(answer_sdp: String, sender: String) -> (r: JsonValue)
    ensures
        is_sdp_envelope(r, "answer"@, answer_sdp@, sender@),
{
    sdp_envelope("answer", answer_sdp, sender)
}

} // verus!
