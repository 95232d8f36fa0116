//! Per-iteration decisions of the connection loop.
//!
//! On each iteration the loop drains at most one pending command from the
//! [`crate::channel::CommandQueue`] and writes it — followed by a CR LF
//! line terminator — to the session as one framed transmission
//! ([`next_transmission`]); it then performs one non-blocking read and
//! decides what to do with the outcome ([`handle_read`]): a payload is
//! decoded from its bytes lossily as UTF-8, trimmed of surrounding
//! whitespace, and published to the user interface under the event name
//! [`message_event_name`]; a read failure ends the loop. The surrounding
//! program performs the write, the read, the publication and the fixed
//! pause of [`POLL_INTERVAL_MS`] between iterations.

use vstd::prelude::*;
use vstd::utf8::{decode_utf8, encode_utf8, valid_utf8};
use crate::channel::CommandQueue;

verus! {

/// The carriage-return byte, first byte of the line terminator.
pub const CR: u8 = 13;

/// The line-feed byte, second byte of the line terminator.
pub const LF: u8 = 10;

/// Milliseconds the loop pauses between iterations, bounding busy-polling.
pub const POLL_INTERVAL_MS: u64 = 50;

/// The bytes written to the session for one command: its UTF-8 encoding
/// followed by the CR LF line terminator.
pub open spec fn frame_spec(command: Seq<char>) -> Seq<u8> {
    encode_utf8(command) + seq![CR, LF]
}

/// Frames one command for transmission: the command's UTF-8 bytes with the
/// CR LF line terminator appended, one transmission unit.
pub fn frame_command(command: &str) -> (frame: Vec<u8>)
    ensures
        frame@ == frame_spec(command@),
{
    let mut frame = command.as_bytes_vec();
    frame.push(CR);
    frame.push(LF);
    proof {
        assert(frame@ =~= frame_spec(command@));
    }
    frame
}

/// Drains at most one pending command: when the queue is non-empty,
/// removes its oldest command and hands back that command's frame; when it
/// is empty, leaves it unchanged and hands back nothing.
pub fn next_transmission(queue: &mut CommandQueue) -> (transmission: Option<Vec<u8>>)
    requires
        old(queue).wf(),
    ensures
        final(queue).wf(),
        old(queue)@.len() == 0 ==> transmission is None && final(queue)@ == old(queue)@,
        old(queue)@.len() > 0 ==> (transmission matches Some(frame)
            && frame@ == frame_spec(old(queue)@[0])
            && final(queue)@ == old(queue)@.drop_first()),
{
    match queue.try_take() {
        Some(command) => Some(frame_command(command.as_str())),
        None => None,
    }
}

/// The characters `String::from_utf8_lossy` decodes the given bytes to:
/// a function of the bytes alone.
pub uninterp spec fn lossy_decode_of(bytes: Seq<u8>) -> Seq<char>;

/// Relies on `String::from_utf8_lossy`: the decoding depends on the bytes
/// alone, and on valid UTF-8 input it is exactly the UTF-8 decoding (the
/// replacement character is substituted only for invalid sequences).
#[verifier::external_body]
fn utf8_lossy(bytes: &[u8]) -> (decoded: String)
    ensures
        decoded@ == lossy_decode_of(bytes@),
        valid_utf8(bytes@) ==> decoded@ == decode_utf8(bytes@),
{
    String::from_utf8_lossy(bytes).into_owned()
}

/// The characters `str::trim` leaves of the given ones: a function of the
/// characters alone.
pub uninterp spec fn trim_of(s: Seq<char>) -> Seq<char>;

/// Relies on `str::trim`: the result depends on the characters alone; it
/// is the input with leading and trailing whitespace removed.
pub assume_specification[ str::trim ](s: &str) -> (trimmed: &str)
    ensures
        trimmed@ == trim_of(s@),
;

/// Decodes a received byte payload into the message published to the user
/// interface: the UTF-8-lossy decoding of the bytes with leading and
/// trailing whitespace removed.
pub fn decode_message(bytes: &[u8]) -> (message: String)
    ensures
        message@ == trim_of(lossy_decode_of(bytes@)),
{
    let decoded = utf8_lossy(bytes);
    decoded.as_str().trim().to_owned()
}

/// The outcome of one non-blocking read from the session, as the loop sees
/// it: a byte payload arrived, nothing was available, or the read failed.
pub enum SessionRead {
    /// Bytes arrived from the remote host.
    Data(Vec<u8>),
    /// Nothing was available; the loop simply proceeds.
    NoData,
    /// The read failed; fatal to the loop.
    Failed,
}

/// What the loop does after one read: publish a decoded message, and
/// either proceed to the next iteration or stop for good.
pub struct ReadDecision {
    /// The payload to publish as a "message" event, if any; an empty
    /// string is still published.
    pub publish: Option<String>,
    /// Whether the loop goes on to its next iteration.
    pub proceed: bool,
}

/// Decides one read outcome: a payload is decoded with [`decode_message`]
/// and published — even when empty after trimming — and only a failed read
/// stops the loop.
pub fn handle_read(read: SessionRead) -> (decision: ReadDecision)
    ensures
        read matches SessionRead::Data(bytes) ==> (decision.proceed
            && decision.publish is Some
            && decision.publish->0@ == trim_of(lossy_decode_of(bytes@))),
        read is NoData ==> decision.proceed && decision.publish is None,
        read is Failed ==> !decision.proceed && decision.publish is None,
{
    match read {
        SessionRead::Data(bytes) => ReadDecision {
            publish: Some(decode_message(bytes.as_slice())),
            proceed: true,
        },
        SessionRead::NoData => ReadDecision { publish: None, proceed: true },
        SessionRead::Failed => ReadDecision { publish: None, proceed: false },
    }
}

/// The event name messages are published under.
pub fn message_event_name() -> (name: &'static str)
    ensures
        name@ == "message"@,
{
    "message"
}

/// The frames the loop writes when it drains a queue holding `commands`,
/// one command per iteration, oldest first — each iteration acting as
/// [`next_transmission`] does.
pub open spec fn transmissions_of(commands: Seq<Seq<char>>) -> Seq<Seq<u8>>
    decreases commands.len(),
{
    if commands.len() == 0 {
        Seq::empty()
    } else {
        seq![frame_spec(commands[0])] + transmissions_of(commands.drop_first())
    }
}

/// Law: commands queued before any is drained are transmitted in the order
/// they were submitted — the loop writes exactly one frame per queued
/// command, and the i-th frame written is the framing of the i-th command.
pub proof fn lemma_transmission_order(commands: Seq<Seq<char>>)
    ensures
        transmissions_of(commands).len() == commands.len(),
        forall|i: int| 0 <= i < commands.len()
            ==> #[trigger] transmissions_of(commands)[i] == frame_spec(commands[i]),
    decreases commands.len(),
{
    if commands.len() > 0 {
        lemma_transmission_order(commands.drop_first());
        assert forall|i: int| 0 <= i < commands.len()
            implies #[trigger] transmissions_of(commands)[i] == frame_spec(commands[i]) by {
            if i > 0 {
                assert(transmissions_of(commands)[i]
                    == transmissions_of(commands.drop_first())[i - 1]);
                assert(commands.drop_first()[i - 1] == commands[i]);
            }
        }
    }
}

} // verus!
