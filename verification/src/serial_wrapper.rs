//! What goes to the port when the user sends text, and what a write reports.

use vstd::prelude::*;
use vstd::utf8::encode_utf8;
use crate::text::utf8_bytes;

verus! {

/// The bytes written to the port for `input`: its UTF-8 encoding, as is.
pub fn serial_payload(input: &str) -> (bytes: Vec<u8>)
    ensures
        bytes@ == encode_utf8(input@),
{
    utf8_bytes(input)
}

/// What a write of `payload` reports: the whole payload's length once the
/// port accepted the write, whatever count the port gave; the port's error
/// otherwise.
pub fn write_serial<E>(payload: &[u8], written: Result<usize, E>) -> (r: Result<usize, E>)
    ensures
        written is Ok ==> r == Ok::<usize, E>(payload@.len() as usize),
        written matches Err(e) ==> r == Err::<usize, E>(e),
{
    match written {
        Ok(_) => Ok(payload.len()),
        Err(e) => Err(e),
    }
}

} // verus!
