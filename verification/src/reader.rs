//! The decisions of the background reader that streams the port to the front
//! end and, while recording, to a file.

use vstd::prelude::*;
use vstd::utf8::encode_utf8;
use crate::text::{Emit, emit, emit_is, lossy_utf8, received_text, utf8_bytes};

verus! {

/// The size of the buffer each read of the port fills.
pub const READ_BUFFER_LEN: usize = 32;

/// How long a recording file is written to before the next one is started,
/// in seconds.
pub const RECORD_FILE_SECS: u64 = 600;

/// The outcome of one read of the port.
pub enum ReadResult {
    /// This many bytes were read into the buffer.
    Received(usize),
    /// Nothing arrived before the port's timeout.
    TimedOut,
    /// Any other failure.
    Failed,
}

/// What the reader does after one read.
pub struct ReaderStep {
    /// Events for the front end, in order.
    pub emits: Vec<Emit>,
    /// Bytes to append to the recording file.
    pub file_bytes: Option<Vec<u8>>,
    /// Whether the reader goes on reading.
    pub keep_running: bool,
    /// Whether the session lost its port (`Data::on_reader_failure`).
    pub session_lost: bool,
}

/// The text shown for a read of `size` bytes into `buf`.
pub open spec fn shown_text(buf: Seq<u8>, size: usize) -> Seq<char> {
    lossy_utf8(buf.subrange(0, size as int))
}

/// A read that fits the buffer it was made into.
pub open spec fn read_fits(buf: Seq<u8>, read: ReadResult) -> bool {
    read matches ReadResult::Received(size) ==> size <= buf.len()
}

/// The step after a failed read: the session is lost, the reader stops and
/// the front end learns it is disconnected (and, while recording, that the
/// recording ended).
pub open spec fn is_failure_step(s: ReaderStep, recording: bool) -> bool {
    &&& !s.keep_running
    &&& s.session_lost
    &&& s.file_bytes is None
    &&& if recording {
        &&& s.emits@.len() == 2
        &&& emit_is(s.emits@[0], "isConnected"@, "disconnected"@)
        &&& emit_is(s.emits@[1], "isRecording"@, "not recording"@)
    } else {
        &&& s.emits@.len() == 1
        &&& emit_is(s.emits@[0], "isConnected"@, "disconnected"@)
    }
}

/// The step after a read that timed out: nothing happens.
pub open spec fn is_idle_step(s: ReaderStep) -> bool {
    &&& s.keep_running
    &&& !s.session_lost
    &&& s.file_bytes is None
    &&& s.emits@.len() == 0
}

/// The step after `size` bytes were read into `buf`: the text goes to the
/// front end and, while recording, its UTF-8 to the file.
pub open spec fn is_received_step(s: ReaderStep, buf: Seq<u8>, size: usize, recording: bool) -> bool {
    &&& s.keep_running
    &&& !s.session_lost
    &&& s.emits@.len() == 1
    &&& emit_is(s.emits@[0], "updateSerial"@, shown_text(buf, size))
    &&& shown_text(buf, size).len() <= size
    &&& encode_utf8(shown_text(buf, size)).len() <= 3 * size
    &&& if recording {
        s.file_bytes matches Some(b) && b@ == encode_utf8(shown_text(buf, size))
    } else {
        s.file_bytes is None
    }
}

/// The step the reader takes after `read`, recording or not.
pub open spec fn is_reader_step(
    s: ReaderStep,
    buf: Seq<u8>,
    read: ReadResult,
    recording: bool,
) -> bool {
    match read {
        ReadResult::Received(size) => is_received_step(s, buf, size, recording),
        ReadResult::TimedOut => is_idle_step(s),
        ReadResult::Failed => is_failure_step(s, recording),
    }
}

/// The step after the reader lost the port.
fn failure_step(recording: bool) -> (s: ReaderStep)
    ensures
        is_failure_step(s, recording),
{
    let mut emits: Vec<Emit> = Vec::new();
    emits.push(emit("isConnected", "disconnected"));
    if recording {
        emits.push(emit("isRecording", "not recording"));
    }
    ReaderStep { emits, file_bytes: None, keep_running: false, session_lost: true }
}

/// One step of the reader, `recording` or only streaming.
fn reader_step(buf: &[u8], read: ReadResult, recording: bool) -> (s: ReaderStep)
    requires
        read_fits(buf@, read),
    ensures
        is_reader_step(s, buf@, read, recording),
{
    match read {
        ReadResult::Received(size) => {
            let text = received_text(buf, size);
            let file_bytes = if recording {
                Some(utf8_bytes(text.as_str()))
            } else {
                None
            };
            let mut emits: Vec<Emit> = Vec::new();
            emits.push(emit("updateSerial", text.as_str()));
            ReaderStep { emits, file_bytes, keep_running: true, session_lost: false }
        },
        ReadResult::TimedOut => ReaderStep {
            emits: Vec::new(),
            file_bytes: None,
            keep_running: true,
            session_lost: false,
        },
        ReadResult::Failed => failure_step(recording),
    }
}

/// What the streaming reader does after `read` of the buffer `buf`.
pub fn stream_step(buf: &[u8], read: ReadResult) -> (s: ReaderStep)
    requires
        read_fits(buf@, read),
    ensures
        is_reader_step(s, buf@, read, false),
{
    reader_step(buf, read, false)
}

/// What the recording reader does after `read` of the buffer `buf`.
pub fn record_step(buf: &[u8], read: ReadResult) -> (s: ReaderStep)
    requires
        read_fits(buf@, read),
    ensures
        is_reader_step(s, buf@, read, true),
{
    reader_step(buf, read, true)
}

/// Whether the recording moves to a new file, `elapsed_secs` after the
/// current one was started.
pub fn rotation_due(elapsed_secs: u64) -> (due: bool)
    ensures
        due == (elapsed_secs >= RECORD_FILE_SECS),
{
    elapsed_secs >= RECORD_FILE_SECS
}

/// What the recording reader does when the next file could not be created:
/// the same as after a failed read.
pub fn rotation_failed() -> (s: ReaderStep)
    ensures
        is_failure_step(s, true),
{
    failure_step(true)
}

} // verus!
