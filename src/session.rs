use vstd::prelude::*;
use crate::json::{JsonValue, str_field};
use crate::message::{decode, decode_spec, MessageModel};
use crate::negotiation::{Action, ActionModel, dispatch, dispatch_spec};

verus! {

/// The ways a bridge session can fail.
#[derive(Debug, Clone, Copy, PartialEq, Eq, Structural)]
pub enum BridgeError {
    /// A startup parameter is missing or invalid.
    Configuration,
    /// Bootstrap or the signaling handshake failed.
    Signaling,
    /// The signaling socket failed in the middle of the session.
    Transport,
    /// The WebRTC session rejected an operation.
    Media,
    /// The voice channel could not be joined.
    Bridge,
}

/// One frame read from the signaling socket. A text frame carries its JSON
/// document, or `None` when its text is not JSON.
#[derive(Debug)]
pub enum Frame {
    Text(Option<JsonValue>),
    Close,
    Other,
    Failed,
}

/// What the event loop does after reading one frame.
#[derive(Debug)]
pub enum LoopStep {
    /// Carry out the action, then read on.
    Handle(Action),
    /// Read on: the frame carried nothing for the bridge.
    Continue,
    /// The peer closed the socket: the session ends without error.
    Finished,
    /// The socket failed: the session ends with a transport error.
    Aborted,
}

/// The abstract content of a [`LoopStep`].
pub enum StepModel {
    Handle(ActionModel),
    Continue,
    Finished,
    Aborted,
}

impl View for LoopStep {
    type V = StepModel;

    open spec fn view(&self) -> StepModel {
        match self {
            LoopStep::Handle(a) => StepModel::Handle(a@),
            LoopStep::Continue => StepModel::Continue,
            LoopStep::Finished => StepModel::Finished,
            LoopStep::Aborted => StepModel::Aborted,
        }
    }
}

/// The step for one frame: text that is not JSON or not a signaling message
/// is skipped, a message is dispatched, a close frame ends the session
/// gracefully and a transport failure ends it with an error.
pub open spec fn frame_step(f: Frame) -> StepModel {
    match f {
        Frame::Text(Some(v)) => match decode_spec(v) {
            Some(m) => StepModel::Handle(dispatch_spec(m)),
            None => StepModel::Continue,
        },
        Frame::Text(None) => StepModel::Continue,
        Frame::Close => StepModel::Finished,
        Frame::Other => StepModel::Continue,
        Frame::Failed => StepModel::Aborted,
    }
}

/// Decides the event loop's next step for one frame of the signaling socket.
pub fn on_frame(f: Frame) -> (r: LoopStep)
    ensures
        r@ == frame_step(f),
{
    match f {
        Frame::Text(Some(v)) => match decode(v) {
            Some(m) => LoopStep::Handle(dispatch(&m)),
            None => LoopStep::Continue,
        },
        Frame::Text(None) => LoopStep::Continue,
        Frame::Close => LoopStep::Finished,
        Frame::Other => LoopStep::Continue,
        Frame::Failed => LoopStep::Aborted,
    }
}

/// How a run of the event loop over some frames stands at their end.
pub enum LoopEnd {
    /// Still reading.
    Open,
    /// Ended without error.
    Graceful,
    /// Ended with a transport error.
    Failed,
}

/// The actions that the loop carries out, in order, over the frames `fs`,
/// and how it stands afterwards; frames after the end are never read.
pub open spec fn run(fs: Seq<Frame>) -> (Seq<ActionModel>, LoopEnd)
    decreases fs.len(),
{
    if fs.len() == 0 {
        (Seq::empty(), LoopEnd::Open)
    } else {
        let rest = run(fs.drop_first());
        match frame_step(fs[0]) {
            StepModel::Handle(a) => (seq![a] + rest.0, rest.1),
            StepModel::Continue => rest,
            StepModel::Finished => (Seq::empty(), LoopEnd::Graceful),
            StepModel::Aborted => (Seq::empty(), LoopEnd::Failed),
        }
    }
}

/// An orderly close after frames that neither close nor fail ends the loop
/// without error, once every earlier frame has been handled in order.
pub proof fn lemma_close_ends_gracefully(fs: Seq<Frame>)
    requires
        fs.len() > 0,
        fs.last() is Close,
        forall|i: int| 0 <= i < fs.len() - 1 ==> !(fs[i] is Close) && !(fs[i] is Failed),
    ensures
        run(fs).1 is Graceful,
        run(fs.drop_last()).1 is Open,
        run(fs).0 == run(fs.drop_last()).0,
    decreases fs.len(),
{
    if fs.len() == 1 {
        assert(fs.drop_last() =~= Seq::<Frame>::empty());
        assert(fs.drop_first() =~= Seq::<Frame>::empty());
    } else {
        let tail = fs.drop_first();
        assert forall|i: int| 0 <= i < tail.len() - 1 implies !(tail[i] is Close) && !(tail[i] is Failed) by {
            assert(tail[i] == fs[i + 1]);
        }
        lemma_close_ends_gracefully(tail);
        assert(fs.drop_last().drop_first() =~= tail.drop_last());
        assert(fs.drop_last()[0] == fs[0]);
    }
}

/// An offer with an SDP is handled by one action: answer it, addressed to
/// the offer's sender (empty when it names none).
pub proof fn lemma_offer_is_answered(v: JsonValue, data: JsonValue, sdp: Seq<char>)
    requires
        decode_spec(v) == Some(MessageModel::Message { data }),
        str_field(data, "type"@) == Some("offer"@),
        str_field(data, "sdp"@) == Some(sdp),
    ensures
        frame_step(Frame::Text(Some(v))) == StepModel::Handle(ActionModel::AnswerOffer {
            sdp,
            sender: match str_field(data, "sender"@) {
                Some(s) => s,
                None => Seq::empty(),
            },
        }),
{
}

/// A candidate payload without a textual `sdpMid` adds no candidate and does
/// not end the loop.
pub proof fn lemma_candidate_without_mid_is_skipped(v: JsonValue, data: JsonValue)
    requires
        decode_spec(v) == Some(MessageModel::Message { data }),
        str_field(data, "type"@) == Some("candidate"@),
        str_field(data, "sdpMid"@) is None,
    ensures
        frame_step(Frame::Text(Some(v))) == StepModel::Handle(ActionModel::Ignore),
{
    reveal_strlit("candidate");
    reveal_strlit("offer");
    reveal_strlit("answer");
    assert("candidate"@.len() == 9);
    assert("offer"@.len() == 5);
    assert("answer"@.len() == 6);
}

} // verus!
