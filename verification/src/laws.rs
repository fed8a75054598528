//! Properties that hold across the session's commands and the reader.

use vstd::prelude::*;
use vstd::utf8::{decode_utf8, encode_utf8, encode_utf8_decode_utf8, encode_utf8_valid_utf8, valid_utf8};
use crate::session::{
    SessionView,
    ConnectChoice,
    RecordChoice,
    recording_needs_port,
    connect_choice,
    after_connect,
    after_port_opened,
    record_choice,
    after_record,
    after_file_created,
    after_reader_failure,
};
use crate::reader::{ReaderStep, ReadResult, is_received_step, is_reader_step, shown_text};
use crate::text::{lossy_utf8, Dialog, Emit, dialog_is, emit_is, shows_dialog};
use crate::session::{PortRequest, requests_port};
use crate::clock::{Timestamp, record_file_name_spec, year_text, two_digits, digit_char, zero_padded};
use crate::settings::{parse_u32_spec, all_digits, decimal_value, unsigned_digits};

verus! {

/// A recording only ever runs on an open port: every change the commands
/// and the reader make keeps it so (a new file is only started on an open
/// port), and so do new settings or a new folder.
pub proof fn recording_needs_port_is_kept(
    v: SessionView,
    ok: bool,
    port_path: Seq<char>,
    baud_rate: u32,
    ending: Seq<char>,
    has_folder: bool,
)
    requires
        recording_needs_port(v),
    ensures
        recording_needs_port(after_connect(v)),
        recording_needs_port(after_port_opened(v, ok)),
        recording_needs_port(after_record(v)),
        v.connected ==> recording_needs_port(after_file_created(v, ok)),
        recording_needs_port(after_reader_failure(v)),
        recording_needs_port(SessionView { port_path, baud_rate, ending, ..v }),
        recording_needs_port(SessionView { has_folder, ..v }),
{
}

/// Pressing connect twice, with the port opening in between, leaves the
/// session as it was: the second press closes the port the first opened.
pub proof fn disconnect_undoes_connect(v: SessionView)
    requires
        !v.recording,
        !v.connected,
    ensures
        connect_choice(v) == ConnectChoice::Open,
        after_port_opened(after_connect(v), true).connected,
        connect_choice(after_port_opened(after_connect(v), true)) == ConnectChoice::Disconnect,
        after_connect(after_port_opened(after_connect(v), true)) == v,
{
}

/// While recording, the connect button is refused and changes nothing.
pub proof fn connect_refused_while_recording(v: SessionView)
    requires
        v.recording,
    ensures
        connect_choice(v) == ConnectChoice::Refuse,
        after_connect(v) == v,
{
}

/// Pressing record twice, with the file created in between, records and
/// then stops; once the port opens again the session is as it was.
pub proof fn stop_undoes_record(v: SessionView)
    requires
        v.connected,
        v.has_folder,
        !v.recording,
    ensures
        record_choice(v) == RecordChoice::Create,
        after_file_created(after_record(v), true).recording,
        record_choice(after_file_created(after_record(v), true)) == RecordChoice::Stop,
        !after_record(after_file_created(after_record(v), true)).recording,
        !after_record(after_file_created(after_record(v), true)).connected,
        connect_choice(after_record(after_file_created(after_record(v), true)))
            == ConnectChoice::Open,
        after_port_opened(after_record(after_file_created(after_record(v), true)), true) == v,
{
}

/// The reader losing the port ends any recording and leaves the port closed.
pub proof fn reader_failure_ends_recording(v: SessionView)
    ensures
        !after_reader_failure(v).recording,
        !after_reader_failure(v).connected,
        connect_choice(after_reader_failure(v)) == ConnectChoice::Open,
{
}

/// What a recording writes to its file reads back as exactly the text the
/// front end was shown.
pub proof fn recorded_bytes_read_back(s: ReaderStep, buf: Seq<u8>, size: usize)
    requires
        is_received_step(s, buf, size, true),
    ensures
        s.file_bytes matches Some(b) && valid_utf8(b@) && decode_utf8(b@) == shown_text(buf, size),
{
    encode_utf8_valid_utf8(shown_text(buf, size));
    encode_utf8_decode_utf8(shown_text(buf, size));
}

/// What a send writes reads back as the input followed by the line ending.
pub proof fn sent_bytes_read_back(bytes: Seq<u8>, input: Seq<char>, ending: Seq<char>)
    requires
        bytes == encode_utf8(input + ending),
    ensures
        valid_utf8(bytes),
        decode_utf8(bytes) == input + ending,
{
    encode_utf8_valid_utf8(input + ending);
    encode_utf8_decode_utf8(input + ending);
}

/// A baud rate written with one ASCII digit is that digit's value.
pub proof fn parse_single_digit(c: char)
    requires
        '0' <= c <= '9',
    ensures
        parse_u32_spec(seq![c]) matches Some(n) && n == c as int - '0' as int,
{
    assert(unsigned_digits(seq![c]) =~= seq![c]);
    assert(seq![c].drop_last() =~= Seq::<char>::empty());
    assert(decimal_value(Seq::<char>::empty()) == 0);
    assert(decimal_value(seq![c]) == c as int - '0' as int);
    assert(all_digits(seq![c]));
}

/// Writing one more digit after a baud rate multiplies it by ten and adds
/// the digit, as long as the result fits in 32 bits; otherwise it is refused.
pub proof fn parse_appended_digit(d: Seq<char>, c: char, n: u32)
    requires
        parse_u32_spec(d) == Some(n),
        '0' <= c <= '9',
    ensures
        n * 10 + (c as int - '0' as int) <= u32::MAX ==> parse_u32_spec(d.push(c)) == Some(
            (n * 10 + (c as int - '0' as int)) as u32,
        ),
        n * 10 + (c as int - '0' as int) > u32::MAX ==> parse_u32_spec(d.push(c)) is None,
{
    let digits = unsigned_digits(d);
    assert(unsigned_digits(d.push(c)) =~= digits.push(c));
    assert(digits.push(c).drop_last() =~= digits);
    assert(all_digits(digits.push(c))) by {
        assert forall|i: int| 0 <= i < digits.push(c).len() implies crate::settings::is_digit(
            #[trigger] digits.push(c)[i],
        ) by {
            if i < digits.len() {
                assert(digits.push(c)[i] == digits[i]);
            }
        }
    }
}

/// A string of ASCII digits is read as the decimal number it writes, whatever
/// its length, when that number fits in 32 bits.
pub proof fn parse_digits_is_decimal(d: Seq<char>)
    requires
        d.len() > 0,
        all_digits(d),
        decimal_value(d) <= u32::MAX,
    ensures
        parse_u32_spec(d) == Some(decimal_value(d) as u32),
{
}

/// A leading `+` changes nothing, once.
pub proof fn parse_leading_plus(d: Seq<char>)
    requires
        d.len() > 0,
        d[0] != '+',
    ensures
        parse_u32_spec(seq!['+'] + d) == parse_u32_spec(d),
{
    assert((seq!['+'] + d).drop_first() =~= d);
}

/// A baud rate is refused when it is empty, is a lone `+`, or holds any
/// character other than a digit, bar one leading `+`.
pub proof fn parse_refuses_other_text(d: Seq<char>, i: int)
    requires
        0 <= i < d.len(),
        !('0' <= d[i] <= '9'),
        !(i == 0 && d[i] == '+'),
    ensures
        parse_u32_spec(d) is None,
        parse_u32_spec(Seq::empty()) is None,
        parse_u32_spec(seq!['+']) is None,
{
    let digits = unsigned_digits(d);
    if d[0] == '+' {
        assert(digits[i - 1] == d[i]);
    } else {
        assert(digits[i] == d[i]);
    }
    assert(seq!['+'].drop_first() =~= Seq::<char>::empty());
}

/// The settings and the folder are kept by every change except a new choice
/// of them.
pub open spec fn same_choices(a: SessionView, b: SessionView) -> bool {
    &&& a.port_path == b.port_path
    &&& a.baud_rate == b.baud_rate
    &&& a.ending == b.ending
    &&& a.has_folder == b.has_folder
}

/// The connect and record buttons, the port and file outcomes and the reader
/// never touch the chosen port, speed, line ending or folder.
pub proof fn choices_survive_every_step(v: SessionView, ok: bool)
    ensures
        same_choices(after_connect(v), v),
        same_choices(after_port_opened(v, ok), v),
        same_choices(after_record(v), v),
        same_choices(after_file_created(v, ok), v),
        same_choices(after_reader_failure(v), v),
{
}

/// A port that failed to open leaves the session exactly as it was, so the
/// next press of connect asks for the same port again.
pub proof fn failed_open_changes_nothing(v: SessionView)
    ensures
        after_port_opened(v, false) == v,
        !v.recording && !v.connected ==> connect_choice(
            after_port_opened(after_connect(v), false),
        ) == ConnectChoice::Open && after_port_opened(after_connect(v), false) == v,
{
}

/// A port that opened makes the session connected and changes nothing else.
pub proof fn opened_port_connects(v: SessionView)
    ensures
        after_port_opened(v, true).connected,
        after_port_opened(v, true).recording == v.recording,
        same_choices(after_port_opened(v, true), v),
{
}

/// Every press of record while a recording runs stops it, closes the port
/// and leads to the port being opened again, whatever the folder is.
pub proof fn record_always_stops_a_recording(v: SessionView)
    requires
        v.recording,
    ensures
        record_choice(v) == RecordChoice::Stop,
        !after_record(v).recording,
        !after_record(v).connected,
        connect_choice(after_record(v)) == ConnectChoice::Open,
        same_choices(after_record(v), v),
{
}

/// Pressing record without a recording changes nothing until the file is
/// created, and a file that could not be created leaves the session as it was.
pub proof fn failed_record_changes_nothing(v: SessionView)
    requires
        !v.recording,
    ensures
        after_record(v) == v,
        after_file_created(after_record(v), false) == v,
        after_file_created(v, true).recording,
        after_file_created(v, true).connected == v.connected,
{
}

/// A read that brought data never stops the reader nor loses the session,
/// recording or not: the data's text is shown, and written to the file only
/// while recording.
pub proof fn received_data_keeps_reading(
    s: ReaderStep,
    buf: Seq<u8>,
    size: usize,
    recording: bool,
)
    requires
        is_reader_step(s, buf, ReadResult::Received(size), recording),
    ensures
        s.keep_running,
        !s.session_lost,
        s.emits@.len() == 1,
        s.emits@[0].event@ == "updateSerial"@,
        s.emits@[0].message@ == lossy_utf8(buf.subrange(0, size as int)),
        s.file_bytes is Some == recording,
        s.file_bytes matches Some(b) ==> b@ == encode_utf8(s.emits@[0].message@),
{
}

/// A read that timed out does nothing at all.
pub proof fn timed_out_read_does_nothing(s: ReaderStep, buf: Seq<u8>, recording: bool)
    requires
        is_reader_step(s, buf, ReadResult::TimedOut, recording),
    ensures
        s.keep_running,
        !s.session_lost,
        s.emits@.len() == 0,
        s.file_bytes is None,
{
}

/// A read that failed always stops the reader and loses the session, and
/// writes nothing.
pub proof fn failed_read_stops_reading(s: ReaderStep, buf: Seq<u8>, recording: bool)
    requires
        is_reader_step(s, buf, ReadResult::Failed, recording),
    ensures
        !s.keep_running,
        s.session_lost,
        s.file_bytes is None,
        s.emits@.len() == if recording { 2int } else { 1int },
        s.emits@[0].event@ == "isConnected"@,
        s.emits@[0].message@ == "disconnected"@,
        recording ==> s.emits@[1].event@ == "isRecording"@ && s.emits@[1].message@
            == "not recording"@,
{
}

/// The value of the decimal digit `c`.
pub open spec fn digit_of(c: char) -> int {
    c as int - '0' as int
}

/// The two-digit number written at `i` and `i + 1` in `n`.
pub open spec fn two_at(n: Seq<char>, i: int) -> int {
    10 * digit_of(n[i]) + digit_of(n[i + 1])
}

/// The name `n` shows the fields of `now` where a reader looks for them:
/// the month, day, hour, minute and second at fixed places before ".txt",
/// and, for a year from 0 to 9999, the year in the four places after the
/// prefix.
pub open spec fn name_shows(n: Seq<char>, now: Timestamp) -> bool {
    let l = n.len() as int;
    &&& l >= 36
    &&& n.subrange(0, 13) == "SerialWizard_"@
    &&& n.subrange(l - 4, l) == ".txt"@
    &&& n[l - 19] == '-' && n[l - 16] == '-' && n[l - 13] == '_'
    &&& n[l - 10] == '.' && n[l - 7] == '.'
    &&& two_at(n, l - 18) == now.month
    &&& two_at(n, l - 15) == now.day
    &&& two_at(n, l - 12) == now.hour
    &&& two_at(n, l - 9) == now.minute
    &&& two_at(n, l - 6) == now.second
    &&& 0 <= now.year <= 9999 ==> l == 36 && 1000 * digit_of(n[13]) + 100 * digit_of(n[14]) + 10
        * digit_of(n[15]) + digit_of(n[16]) == now.year
}

proof fn two_digits_read_back(x: nat)
    requires
        x < 100,
    ensures
        two_digits(x).len() == 2,
        10 * digit_of(two_digits(x)[0]) + digit_of(two_digits(x)[1]) == x,
{
    assert(digit_char(x / 10) as int == x / 10 + 48);
    assert(digit_char(x % 10) as int == x % 10 + 48);
}

proof fn zero_padded_len(n: nat, width: nat)
    ensures
        zero_padded(n, width).len() >= width,
{
}

/// A recording's file name shows the date and time it was started at: each
/// field can be read back from its place in the name.
pub proof fn record_file_name_reads_back(now: Timestamp)
    requires
        now.valid(),
    ensures
        name_shows(record_file_name_spec(now), now),
{
    reveal_strlit("SerialWizard_");
    reveal_strlit(".txt");
    let n = record_file_name_spec(now);
    let y = year_text(now.year as int);
    let m = two_digits(now.month as nat);
    let d = two_digits(now.day as nat);
    let h = two_digits(now.hour as nat);
    let mi = two_digits(now.minute as nat);
    let se = two_digits(now.second as nat);
    two_digits_read_back(now.month as nat);
    two_digits_read_back(now.day as nat);
    two_digits_read_back(now.hour as nat);
    two_digits_read_back(now.minute as nat);
    two_digits_read_back(now.second as nat);
    zero_padded_len(now.year as nat, 4);
    zero_padded_len((-now.year) as nat, 4);
    let t = seq!['-'] + m + seq!['-'] + d + seq!['_'] + h + seq!['.'] + mi + seq!['.'] + se
        + ".txt"@;
    assert(t.len() == 19);
    assert(y.len() >= 4);
    assert(n =~= "SerialWizard_"@ + y + t);
    let l = n.len() as int;
    assert(l == 13 + y.len() + 19);
    assert(n.subrange(0, 13) =~= "SerialWizard_"@);
    assert(n.subrange(l - 4, l) =~= ".txt"@);
    assert(n[l - 18] == m[0] && n[l - 17] == m[1]);
    assert(n[l - 15] == d[0] && n[l - 14] == d[1]);
    assert(n[l - 12] == h[0] && n[l - 11] == h[1]);
    assert(n[l - 9] == mi[0] && n[l - 8] == mi[1]);
    assert(n[l - 6] == se[0] && n[l - 5] == se[1]);
    if 0 <= now.year <= 9999 {
        let yr = now.year as nat;
        two_digits_read_back(yr / 100);
        two_digits_read_back(yr % 100);
        assert(y =~= two_digits(yr / 100) + two_digits(yr % 100));
        assert(n[13] == two_digits(yr / 100)[0] && n[14] == two_digits(yr / 100)[1]);
        assert(n[15] == two_digits(yr % 100)[0] && n[16] == two_digits(yr % 100)[1]);
    }
}

/// Recordings started at different times go to different files: two valid
/// times with the same name agree on the month, day, hour, minute and
/// second, and on the year when both years are from 0 to 9999.
pub proof fn record_file_names_differ(a: Timestamp, b: Timestamp)
    requires
        a.valid(),
        b.valid(),
        record_file_name_spec(a) == record_file_name_spec(b),
    ensures
        a.month == b.month,
        a.day == b.day,
        a.hour == b.hour,
        a.minute == b.minute,
        a.second == b.second,
        0 <= a.year <= 9999 && 0 <= b.year <= 9999 ==> a.year == b.year,
{
    record_file_name_reads_back(a);
    record_file_name_reads_back(b);
}

/// Without a recording, the record button first needs an open port, then a
/// folder; with both it starts a recording.
pub proof fn record_needs_port_then_folder(v: SessionView)
    requires
        !v.recording,
    ensures
        !v.connected ==> record_choice(v) == RecordChoice::NoPort,
        v.connected && !v.has_folder ==> record_choice(v) == RecordChoice::NoFolder,
        v.connected && v.has_folder ==> record_choice(v) == RecordChoice::Create,
{
}

/// A port request for the settings names the chosen port and speed, with a
/// read timeout of 10 milliseconds.
pub proof fn port_request_follows_settings(req: PortRequest, v: SessionView)
    requires
        requests_port(req, v),
    ensures
        req.port_path@ == v.port_path,
        req.baud_rate == v.baud_rate,
        req.timeout_ms == 10,
{
}

/// A dialog or event said to show a title and message shows exactly those.
pub proof fn shown_text_is_exact(d: Dialog, od: Option<Dialog>, e: Emit, t: Seq<char>, m: Seq<char>)
    ensures
        dialog_is(d, t, m) ==> d.title@ == t && d.message@ == m,
        shows_dialog(od, t, m) ==> od is Some && od->0.title@ == t && od->0.message@ == m,
        emit_is(e, t, m) ==> e.event@ == t && e.message@ == m,
{
}

} // verus!
