//! The reader loop's decisions: what one read from the PTY master means.
//!
//! The loop itself is run by the surrounding application, one task per live
//! session, because the blocking read and the delivery of notifications are
//! its work. Every decision in between stands here, verified: how a read
//! outcome is classified, which notification it produces on which topic,
//! and when the loop is finished.
use vstd::prelude::*;
use vstd::string::StringExecFns;
use crate::pty_os::is_cancelled;
use crate::pty_os::read_chunk;
use crate::pty_os::CancelFlag;
use crate::pty_os::PtyReader;

verus! {

/// What the characters of a chunk of raw PTY output are after best-effort
/// text decoding, where invalid byte sequences are replaced, never fatal.
/// The decoding is a fixed function of the bytes alone.
pub uninterp spec fn lossy_decoded(bytes: Seq<u8>) -> Seq<char>;

/// Relies on `String::from_utf8_lossy`: the best-effort text of the bytes,
/// a function of the bytes alone.
#[verifier::external_body]
fn decode_lossy(bytes: &Vec<u8>) -> (r: String)
    ensures
        r@ == lossy_decoded(bytes@),
{
    String::from_utf8_lossy(bytes).to_string()
}

/// One notification toward the consuming application layer.
pub enum Payload {
    /// A chunk of the session's output, lossy-decoded to text.
    Data(String),
    /// The session's stream ended: 0 for a normal EOF, 1 for a read error.
    Exit(u32),
}

/// A notification and the per-session topic it is addressed to.
pub struct Notification {
    pub topic: String,
    pub payload: Payload,
}

/// What one iteration of the reader loop does: possibly emit one
/// notification, and either go on reading or stop for good.
pub struct ReaderStep {
    pub notification: Option<Notification>,
    pub done: bool,
}

/// The topic that carries a session's output.
pub open spec fn data_topic(session_id: Seq<char>) -> Seq<char> {
    "pty://"@ + session_id + "/data"@
}

/// The topic that carries a session's exit notification.
pub open spec fn exit_topic(session_id: Seq<char>) -> Seq<char> {
    "pty://"@ + session_id + "/exit"@
}

/// What the step on a given read outcome must be. A raised cancellation
/// wins: the loop stops silently, since the caller that closed the session
/// needs no notification. Otherwise an empty read is a normal EOF (exit
/// code 0, stop), bytes are decoded and forwarded on the data topic (go
/// on), and a read error reports exit code 1 (stop).
pub open spec fn step_spec(
    session_id: Seq<char>,
    cancelled: bool,
    outcome: Result<Vec<u8>, String>,
    r: ReaderStep,
) -> bool {
    if cancelled {
        r.done && r.notification is None
    } else {
        match outcome {
            Ok(bytes) => if bytes@.len() == 0 {
                r.done && exits_with(session_id, r.notification, 0)
            } else {
                !r.done && match r.notification {
                    Some(n) => n.topic@ == data_topic(session_id) && match n.payload {
                        Payload::Data(t) => t@ == lossy_decoded(bytes@),
                        Payload::Exit(_) => false,
                    },
                    None => false,
                }
            },
            Err(_) => r.done && exits_with(session_id, r.notification, 1),
        }
    }
}

/// Whether `notification` is exactly the exit notification with the given
/// code on the session's exit topic.
pub open spec fn exits_with(session_id: Seq<char>, notification: Option<Notification>, code: u32) -> bool {
    match notification {
        Some(n) => n.topic@ == exit_topic(session_id) && n.payload == Payload::Exit(code),
        None => false,
    }
}

/// Builds the data notification that forwards one decoded chunk of output.
pub fn data_notification(session_id: &str, text: String) -> (r: Notification)
    ensures
        r.topic@ == data_topic(session_id@),
        r.payload == Payload::Data(text),
{
    Notification {
        topic: "pty://".to_owned().concat(session_id).concat("/data"),
        payload: Payload::Data(text),
    }
}

/// Builds the exit notification with the given exit code.
pub fn exit_notification(session_id: &str, code: u32) -> (r: Notification)
    ensures
        r.topic@ == exit_topic(session_id@),
        r.payload == Payload::Exit(code),
{
    Notification {
        topic: "pty://".to_owned().concat(session_id).concat("/exit"),
        payload: Payload::Exit(code),
    }
}

/// Decides one iteration of the reader loop from the raw read outcome.
pub fn reader_step(session_id: &str, cancelled: bool, outcome: Result<Vec<u8>, String>) -> (r: ReaderStep)
    ensures
        step_spec(session_id@, cancelled, outcome, r),
{
    if cancelled {
        return ReaderStep { notification: None, done: true };
    }
    match outcome {
        Ok(bytes) => {
            if bytes.len() == 0 {
                ReaderStep { notification: Some(exit_notification(session_id, 0)), done: true }
            } else {
                let text = decode_lossy(&bytes);
                ReaderStep {
                    notification: Some(data_notification(session_id, text)),
                    done: false,
                }
            }
        },
        Err(_) => ReaderStep { notification: Some(exit_notification(session_id, 1)), done: true },
    }
}

/// Performs one blocking read from the session's reader and decides what it
/// means, checking the cancellation flag first. This is the whole body of
/// one reader-loop iteration; the caller only delivers the notification and
/// loops until `done`.
pub fn reader_iteration(session_id: &str, cancel: &CancelFlag, reader: &mut PtyReader) -> (r: ReaderStep)
    ensures
        match r.notification {
            Some(n) => (!r.done && n.topic@ == data_topic(session_id@) && (n.payload matches Payload::Data(_)))
                || (r.done && n.topic@ == exit_topic(session_id@)
                    && (n.payload == Payload::Exit(0u32) || n.payload == Payload::Exit(1u32))),
            None => r.done,
        },
{
    let cancelled = is_cancelled(cancel);
    if cancelled {
        return ReaderStep { notification: None, done: true };
    }
    let outcome = read_chunk(reader);
    reader_step(session_id, false, outcome)
}

} // verus!
