//! The line-oriented port helpers: a line written is the input and a newline;
//! a wait for an answer gives up after ten seconds.

use vstd::prelude::*;
use vstd::utf8::encode_utf8;
use crate::text::{joined, owned, utf8_bytes};

verus! {

/// How long a wait for an answer lasts, in milliseconds.
pub const RECEIVE_TIMEOUT_MS: u64 = 10000;

/// The port inside `port`, or the error that opening it gave.
pub fn check_init<'a, P, E>(port: &'a mut Result<P, E>) -> (r: Result<&'a mut P, &'a E>)
    ensures
        r is Ok == (*old(port)) is Ok,
        r matches Ok(p) ==> *old(port) == Ok::<P, E>(*p),
        r matches Ok(p) ==> *final(port) == Ok::<P, E>(*final(p)),
        r matches Err(e) ==> *old(port) == Err::<P, E>(*e),
        r is Err ==> *final(port) == *old(port),
{
    match port {
        Ok(p) => Ok(p),
        Err(e) => Err(&*e),
    }
}

/// The bytes written for the line `input`: its UTF-8 followed by a newline.
pub fn line_payload(input: &str) -> (bytes: Vec<u8>)
    ensures
        bytes@ == encode_utf8(input@ + seq!['\n']),
{
    let line = joined(input, "\n");
    proof {
        reveal_strlit("\n");
        assert("\n"@ =~= seq!['\n']);
    }
    utf8_bytes(line.as_str())
}

/// The next move of a wait for an answer.
pub enum WaitStep {
    /// The answer arrived.
    Received(String),
    /// The wait is over: it fails with an error of kind `Unknown` that says
    /// `timeout_message()`.
    Expired,
    /// Read again.
    Retry,
}

/// What a wait does after a read gave `received`, `elapsed_ms` after it
/// began: an answer ends it, even at the deadline; a failed read is retried
/// until the deadline.
pub fn wait_step<E>(received: Result<String, E>, elapsed_ms: u64) -> (w: WaitStep)
    ensures
        received matches Ok(s) ==> w == WaitStep::Received(s),
        received is Err ==> (if elapsed_ms >= RECEIVE_TIMEOUT_MS {
            w is Expired
        } else {
            w is Retry
        }),
{
    match received {
        Ok(s) => WaitStep::Received(s),
        Err(_) => {
            if elapsed_ms >= RECEIVE_TIMEOUT_MS {
                WaitStep::Expired
            } else {
                WaitStep::Retry
            }
        },
    }
}

/// The description of the error a wait ends with.
pub fn timeout_message() -> (m: String)
    ensures
        m@ == "timeout exceeded"@,
{
    owned("timeout exceeded")
}

} // verus!
