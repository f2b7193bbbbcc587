//! What a call of the user interface fails with.

use vstd::prelude::*;

use crate::node::{node_fault_text, NodeError, NodeFault};
use crate::pcm::{FRAME_BYTES, OPUS_FRAME_SAMPLES};
use crate::text::{decimal, decimal_text, join};

verus! {

/// Why a call failed.
#[derive(Debug, PartialEq, Eq)]
pub enum ApiError {
    /// The task that starts the node died.
    StartupTaskFailed,
    /// The node did not start.
    StartFailed(NodeError),
    /// A node was started before.
    NodeAlreadyStarted,
    /// No node was started.
    NodeNotStarted,
    /// The task of the call died.
    TaskFailed(Task),
    /// The node refused or failed.
    Node(NodeError),
    /// The identifier of the node could not be had.
    ShortId(NodeError),
    /// No encoder could be made, with the reason.
    OpusEncoder(String),
    /// No decoder could be made, with the reason.
    OpusDecoder(String),
    /// No voice session was started.
    VoiceSessionNotStarted,
    /// A frame has this number of bytes.
    FrameLength(usize),
    /// The encoder could not be locked, with the reason.
    EncoderLock(String),
    /// The frame could not be encoded, with the reason.
    OpusEncode(String),
}

/// The kinds of call that run as a task.
#[derive(Debug, Clone, Copy, PartialEq, Eq, Structural)]
pub enum Task {
    /// Asking the node for something.
    Query,
    /// Sending a message.
    Send,
    /// Subscribing to messages.
    Subscribe,
    /// Shutting down.
    Shutdown,
}

/// What an `ApiError` says.
pub enum ApiFault {
    StartupTaskFailed,
    StartFailed(NodeFault),
    NodeAlreadyStarted,
    NodeNotStarted,
    TaskFailed(Task),
    Node(NodeFault),
    ShortId(NodeFault),
    OpusEncoder(Seq<char>),
    OpusDecoder(Seq<char>),
    VoiceSessionNotStarted,
    FrameLength(nat),
    EncoderLock(Seq<char>),
    OpusEncode(Seq<char>),
}

impl View for ApiError {
    type V = ApiFault;

    open spec fn view(&self) -> ApiFault {
        match *self {
            ApiError::StartupTaskFailed => ApiFault::StartupTaskFailed,
            ApiError::StartFailed(error) => ApiFault::StartFailed(error@),
            ApiError::NodeAlreadyStarted => ApiFault::NodeAlreadyStarted,
            ApiError::NodeNotStarted => ApiFault::NodeNotStarted,
            ApiError::TaskFailed(task) => ApiFault::TaskFailed(task),
            ApiError::Node(error) => ApiFault::Node(error@),
            ApiError::ShortId(error) => ApiFault::ShortId(error@),
            ApiError::OpusEncoder(reason) => ApiFault::OpusEncoder(reason@),
            ApiError::OpusDecoder(reason) => ApiFault::OpusDecoder(reason@),
            ApiError::VoiceSessionNotStarted => ApiFault::VoiceSessionNotStarted,
            ApiError::FrameLength(len) => ApiFault::FrameLength(len as nat),
            ApiError::EncoderLock(reason) => ApiFault::EncoderLock(reason@),
            ApiError::OpusEncode(reason) => ApiFault::OpusEncode(reason@),
        }
    }
}

/// The message for a frame of `len` bytes.
pub open spec fn frame_length_text(len: nat) -> Seq<char> {
    "expected "@ + decimal(FRAME_BYTES as nat) + " bytes of 16-bit LE PCM ("@ + decimal(
        OPUS_FRAME_SAMPLES as nat,
    ) + " samples at 16kHz mono = 20ms), got "@ + decimal(len) + " bytes"@
}

/// The message that a fault is shown with.
pub open spec fn api_fault_text(fault: ApiFault) -> Seq<char> {
    match fault {
        ApiFault::StartupTaskFailed => "node startup task failed"@,
        ApiFault::StartFailed(fault) => "node start failed: "@ + node_fault_text(fault),
        ApiFault::NodeAlreadyStarted => "node already started"@,
        ApiFault::NodeNotStarted => "node not started"@,
        ApiFault::TaskFailed(Task::Query) => "task failed"@,
        ApiFault::TaskFailed(Task::Send) => "send task failed"@,
        ApiFault::TaskFailed(Task::Subscribe) => "subscribe task failed"@,
        ApiFault::TaskFailed(Task::Shutdown) => "shutdown task failed"@,
        ApiFault::Node(fault) => node_fault_text(fault),
        ApiFault::ShortId(fault) => "get short id: "@ + node_fault_text(fault),
        ApiFault::OpusEncoder(reason) => "opus encoder: "@ + reason,
        ApiFault::OpusDecoder(reason) => "opus decoder: "@ + reason,
        ApiFault::VoiceSessionNotStarted => "voice session not started"@,
        ApiFault::FrameLength(len) => frame_length_text(len),
        ApiFault::EncoderLock(reason) => "encoder lock: "@ + reason,
        ApiFault::OpusEncode(reason) => "opus encode: "@ + reason,
    }
}

fn frame_length_message(len: usize) -> (text: String)
    ensures
        text@ == frame_length_text(len as nat),
{
    let mut text = "expected ".to_owned();
    text.append(decimal_text(FRAME_BYTES).as_str());
    text.append(" bytes of 16-bit LE PCM (");
    text.append(decimal_text(OPUS_FRAME_SAMPLES).as_str());
    text.append(" samples at 16kHz mono = 20ms), got ");
    text.append(decimal_text(len).as_str());
    text.append(" bytes");
    text
}

impl ApiError {
    /// The message for display.
    pub fn message(&self) -> (text: String)
        ensures
            text@ == api_fault_text(self@),
    {
        match self {
            ApiError::StartupTaskFailed => "node startup task failed".to_owned(),
            ApiError::StartFailed(error) => join("node start failed: ", error.message().as_str()),
            ApiError::NodeAlreadyStarted => "node already started".to_owned(),
            ApiError::NodeNotStarted => "node not started".to_owned(),
            ApiError::TaskFailed(Task::Query) => "task failed".to_owned(),
            ApiError::TaskFailed(Task::Send) => "send task failed".to_owned(),
            ApiError::TaskFailed(Task::Subscribe) => "subscribe task failed".to_owned(),
            ApiError::TaskFailed(Task::Shutdown) => "shutdown task failed".to_owned(),
            ApiError::Node(error) => error.message(),
            ApiError::ShortId(error) => join("get short id: ", error.message().as_str()),
            ApiError::OpusEncoder(reason) => join("opus encoder: ", reason.as_str()),
            ApiError::OpusDecoder(reason) => join("opus decoder: ", reason.as_str()),
            ApiError::VoiceSessionNotStarted => "voice session not started".to_owned(),
            ApiError::FrameLength(len) => frame_length_message(*len),
            ApiError::EncoderLock(reason) => join("encoder lock: ", reason.as_str()),
            ApiError::OpusEncode(reason) => join("opus encode: ", reason.as_str()),
        }
    }
}

/// What a call that ran as a task answers: what the task answered, or that the
/// task died without an answer.
pub fn task_result<T>(task: Task, reply: Option<Result<T, ApiError>>) -> (result: Result<
    T,
    ApiError,
>)
    ensures
        match reply {
            Some(answer) => result == answer,
            None => result matches Err(error) && error@ == ApiFault::TaskFailed(task),
        },
{
    match reply {
        Some(answer) => answer,
        None => Err(ApiError::TaskFailed(task)),
    }
}

} // verus!
