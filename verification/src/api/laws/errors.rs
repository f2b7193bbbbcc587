//! What each error says, on every input.

use vstd::prelude::*;

use crate::api::error::{api_fault_text, ApiError, ApiFault, Task};
use crate::node::{node_fault_text, NodeError, NodeFault};
use crate::text::decimal;

verus! {

/// An error of a node is shown with its reason, whole and behind what failed.
pub proof fn law_node_error_shown(error: NodeError)
    ensures
        match error {
            NodeError::Network(reason) => {
                &&& error@ == NodeFault::Network(reason@)
                &&& node_fault_text(error@) == "network error: "@ + reason@
            },
            NodeError::AlreadyRunning => {
                &&& error@ == NodeFault::AlreadyRunning
                &&& node_fault_text(error@) == "node already running"@
            },
            NodeError::NotRunning => {
                &&& error@ == NodeFault::NotRunning
                &&& node_fault_text(error@) == "node not running"@
            },
        },
{
}

/// What the message for a frame of another length begins with.
proof fn lemma_frame_length_head()
    ensures
        "expected "@ + decimal(640) + " bytes of 16-bit LE PCM ("@ + decimal(320)
            + " samples at 16kHz mono = 20ms), got "@
            == "expected 640 bytes of 16-bit LE PCM (320 samples at 16kHz mono = 20ms), got "@,
{
    reveal_strlit("expected ");
    reveal_strlit(" bytes of 16-bit LE PCM (");
    reveal_strlit(" samples at 16kHz mono = 20ms), got ");
    reveal_strlit("expected 640 bytes of 16-bit LE PCM (320 samples at 16kHz mono = 20ms), got ");
    reveal_with_fuel(decimal, 4);
    assert(decimal(640) =~= seq!['6', '4', '0']);
    assert(decimal(320) =~= seq!['3', '2', '0']);
    assert("expected "@ + decimal(640) + " bytes of 16-bit LE PCM ("@ + decimal(320)
        + " samples at 16kHz mono = 20ms), got "@
        =~= "expected 640 bytes of 16-bit LE PCM (320 samples at 16kHz mono = 20ms), got "@);
}

/// An error of a call is shown with what failed and with the reason, whole; a
/// frame of another length with its length and the one that was expected.
pub proof fn law_api_error_shown(error: ApiError)
    ensures
        ({
            let shown = api_fault_text(error@);
            match error {
                ApiError::StartupTaskFailed => shown == "node startup task failed"@,
                ApiError::StartFailed(inner) => shown == "node start failed: "@ + node_fault_text(
                    inner@,
                ),
                ApiError::NodeAlreadyStarted => shown == "node already started"@,
                ApiError::NodeNotStarted => shown == "node not started"@,
                ApiError::TaskFailed(Task::Query) => shown == "task failed"@,
                ApiError::TaskFailed(Task::Send) => shown == "send task failed"@,
                ApiError::TaskFailed(Task::Subscribe) => shown == "subscribe task failed"@,
                ApiError::TaskFailed(Task::Shutdown) => shown == "shutdown task failed"@,
                ApiError::Node(inner) => shown == node_fault_text(inner@),
                ApiError::ShortId(inner) => shown == "get short id: "@ + node_fault_text(inner@),
                ApiError::OpusEncoder(reason) => shown == "opus encoder: "@ + reason@,
                ApiError::OpusDecoder(reason) => shown == "opus decoder: "@ + reason@,
                ApiError::VoiceSessionNotStarted => shown == "voice session not started"@,
                ApiError::FrameLength(len) => shown
                    == "expected 640 bytes of 16-bit LE PCM (320 samples at 16kHz mono = 20ms), got "@
                    + decimal(len as nat) + " bytes"@,
                ApiError::EncoderLock(reason) => shown == "encoder lock: "@ + reason@,
                ApiError::OpusEncode(reason) => shown == "opus encode: "@ + reason@,
            }
        }),
{
    lemma_frame_length_head();
}

/// An error is the fault that it names, with the same reason.
pub proof fn law_api_error_named(error: ApiError)
    ensures
        match error {
            ApiError::StartupTaskFailed => error@ == ApiFault::StartupTaskFailed,
            ApiError::StartFailed(inner) => error@ == ApiFault::StartFailed(inner@),
            ApiError::NodeAlreadyStarted => error@ == ApiFault::NodeAlreadyStarted,
            ApiError::NodeNotStarted => error@ == ApiFault::NodeNotStarted,
            ApiError::TaskFailed(task) => error@ == ApiFault::TaskFailed(task),
            ApiError::Node(inner) => error@ == ApiFault::Node(inner@),
            ApiError::ShortId(inner) => error@ == ApiFault::ShortId(inner@),
            ApiError::OpusEncoder(reason) => error@ == ApiFault::OpusEncoder(reason@),
            ApiError::OpusDecoder(reason) => error@ == ApiFault::OpusDecoder(reason@),
            ApiError::VoiceSessionNotStarted => error@ == ApiFault::VoiceSessionNotStarted,
            ApiError::FrameLength(len) => error@ == ApiFault::FrameLength(len as nat),
            ApiError::EncoderLock(reason) => error@ == ApiFault::EncoderLock(reason@),
            ApiError::OpusEncode(reason) => error@ == ApiFault::OpusEncode(reason@),
        },
{
}

} // verus!
