//! The text the terminal shows or sends: error dialogs, front-end events and
//! the byte/character conversions between the port and the screen.

use vstd::prelude::*;
use vstd::string::*;
use vstd::utf8::*;

verus! {

/// An error message box: always of error level and with a single OK button.
pub struct Dialog {
    pub title: String,
    pub message: String,
}

/// `d` shows `title` over `message`.
pub open spec fn dialog_is(d: Dialog, title: Seq<char>, message: Seq<char>) -> bool {
    d.title@ == title && d.message@ == message
}

/// `d` is a dialog showing `title` over `message`.
pub open spec fn shows_dialog(d: Option<Dialog>, title: Seq<char>, message: Seq<char>) -> bool {
    d matches Some(dlg) && dialog_is(dlg, title, message)
}

/// An event sent to the front end, with its one-field payload.
pub struct Emit {
    pub event: String,
    pub message: String,
}

/// `e` is the event `event` carrying `message`.
pub open spec fn emit_is(e: Emit, event: Seq<char>, message: Seq<char>) -> bool {
    e.event@ == event && e.message@ == message
}

/// An owned copy of `s`.
pub fn owned(s: &str) -> (r: String)
    ensures
        r@ == s@,
{
    String::from_str(s)
}

/// `a` followed by `b`.
pub fn joined(a: &str, b: &str) -> (r: String)
    ensures
        r@ == a@ + b@,
{
    String::from_str(a).concat(b)
}

/// A dialog titled `title` showing `prefix` followed by `detail`.
pub fn dialog_with(title: &str, prefix: &str, detail: &str) -> (d: Dialog)
    ensures
        dialog_is(d, title@, prefix@ + detail@),
{
    Dialog { title: owned(title), message: joined(prefix, detail) }
}

/// The event `event` carrying `message`.
pub fn emit(event: &str, message: &str) -> (e: Emit)
    ensures
        emit_is(e, event@, message@),
{
    Emit { event: owned(event), message: owned(message) }
}

/// The dialog of the front end's own error reports: `input` under "Port Error".
pub fn emit_error(input: &str) -> (d: Dialog)
    ensures
        dialog_is(d, "Port Error"@, input@),
{
    Dialog { title: owned("Port Error"), message: owned(input) }
}

/// The UTF-8 bytes of `s`.
pub fn utf8_bytes(s: &str) -> (b: Vec<u8>)
    ensures
        b@ == encode_utf8(s@),
{
    s.as_bytes_vec()
}

/// What `String::from_utf8_lossy` makes of `bytes`: the text they encode,
/// with each invalid sequence replaced by U+FFFD.
pub uninterp spec fn lossy_utf8(bytes: Seq<u8>) -> Seq<char>;

/// Calls `String::from_utf8_lossy`. Claimed: the result is determined by the
/// bytes (`lossy_utf8`); valid UTF-8 is decoded unchanged, as std's
/// documentation states; and there are no more characters than bytes, and no
/// more than three UTF-8 bytes per byte, since each character stands for at
/// least one byte and is either kept as it was encoded or is a U+FFFD (three
/// bytes) that replaces an invalid sequence. Which sequences one U+FFFD replaces is not stated.
#[verifier::external_body]
fn from_utf8_lossy(bytes: &[u8]) -> (s: String)
    ensures
        s@ == lossy_utf8(bytes@),
        valid_utf8(bytes@) ==> s@ == decode_utf8(bytes@),
        s@.len() <= bytes@.len(),
        encode_utf8(s@).len() <= 3 * bytes@.len(),
{
    String::from_utf8_lossy(bytes).to_string()
}

/// The text of the first `size` bytes of `buf`, read as UTF-8 with invalid
/// sequences replaced.
pub fn received_text(buf: &[u8], size: usize) -> (s: String)
    requires
        size <= buf@.len(),
    ensures
        s@ == lossy_utf8(buf@.subrange(0, size as int)),
        valid_utf8(buf@.subrange(0, size as int)) ==> s@ == decode_utf8(
            buf@.subrange(0, size as int),
        ),
        s@.len() <= size,
        encode_utf8(s@).len() <= 3 * size,
{
    let part = vstd::slice::slice_subrange(buf, 0, size);
    from_utf8_lossy(part)
}

} // verus!
