//! The state kept between user commands and the decisions of each command.
//!
//! A command that needs the outside world (opening a port, creating a file,
//! writing to the port) is split in two: the first call decides what to do
//! and the second takes what came back and finishes the command.

use vstd::prelude::*;
use vstd::string::*;
use crate::settings::{parse_baud, parse_u32_spec};
use crate::text::{Dialog, dialog_is, shows_dialog, dialog_with, owned, joined};
use crate::clock::{Timestamp, record_file_name, record_file_name_spec};

verus! {

/// The port, speed and line ending chosen by the user.
pub struct PortItems {
    pub port_path: String,
    pub baud_rate: u32,
    pub ending: String,
}

/// The read timeout given to every port that is opened, in milliseconds.
pub const PORT_TIMEOUT_MS: u64 = 10;

/// A port to open.
pub struct PortRequest {
    pub port_path: String,
    pub baud_rate: u32,
    pub timeout_ms: u64,
}

/// What the decisions read of the session.
pub struct SessionView {
    pub connected: bool,
    pub has_folder: bool,
    pub port_path: Seq<char>,
    pub baud_rate: u32,
    pub ending: Seq<char>,
    pub recording: bool,
}

/// The session: the open port (`P`), the folder that recordings go to (`D`),
/// the flag shared with the reader (`F`), the chosen settings and whether a
/// recording runs.
pub struct Data<P, D, F> {
    port: Option<P>,
    folder_path: Option<D>,
    port_items: PortItems,
    is_thread_open: F,
    is_recording: bool,
}

impl<P, D, F> View for Data<P, D, F> {
    type V = SessionView;

    closed spec fn view(&self) -> SessionView {
        SessionView {
            connected: self.port is Some,
            has_folder: self.folder_path is Some,
            port_path: self.port_items.port_path@,
            baud_rate: self.port_items.baud_rate,
            ending: self.port_items.ending@,
            recording: self.is_recording,
        }
    }
}

/// A recording runs only on an open port.
pub open spec fn recording_needs_port(v: SessionView) -> bool {
    v.recording ==> v.connected
}

/// The request for the port that the settings of `v` name.
pub open spec fn requests_port(req: PortRequest, v: SessionView) -> bool {
    &&& req.port_path@ == v.port_path
    &&& req.baud_rate == v.baud_rate
    &&& req.timeout_ms == PORT_TIMEOUT_MS
}

/// The three answers to the connect button.
pub enum ConnectChoice {
    Refuse,
    Disconnect,
    Open,
}

pub open spec fn connect_choice(v: SessionView) -> ConnectChoice {
    if v.recording {
        ConnectChoice::Refuse
    } else if v.connected {
        ConnectChoice::Disconnect
    } else {
        ConnectChoice::Open
    }
}

/// The session after the connect button was pressed.
pub open spec fn after_connect(v: SessionView) -> SessionView {
    if connect_choice(v) is Disconnect {
        SessionView { connected: false, ..v }
    } else {
        v
    }
}

/// The session once an opened port was stored (`ok`) or opening failed.
pub open spec fn after_port_opened(v: SessionView, ok: bool) -> SessionView {
    if ok {
        SessionView { connected: true, ..v }
    } else {
        v
    }
}

/// The four answers to the record button.
pub enum RecordChoice {
    NoPort,
    NoFolder,
    Create,
    Stop,
}

pub open spec fn record_choice(v: SessionView) -> RecordChoice {
    if v.recording {
        RecordChoice::Stop
    } else if !v.connected {
        RecordChoice::NoPort
    } else if !v.has_folder {
        RecordChoice::NoFolder
    } else {
        RecordChoice::Create
    }
}

/// The session after the record button was pressed: stopping a recording
/// also closes the port, which is then opened again.
pub open spec fn after_record(v: SessionView) -> SessionView {
    if v.recording {
        SessionView { connected: false, recording: false, ..v }
    } else {
        v
    }
}

/// The session once the recording file was created (`ok`) or not.
pub open spec fn after_file_created(v: SessionView, ok: bool) -> SessionView {
    SessionView { recording: ok, ..v }
}

/// The session after the reader lost the port.
pub open spec fn after_reader_failure(v: SessionView) -> SessionView {
    SessionView { connected: false, recording: false, ..v }
}

/// The answer to the connect button.
pub enum ConnectDecision<P> {
    /// Show the dialog; the command answers `true`.
    Refuse(Dialog),
    /// Stop the reader, then drop the port; the command answers `false`.
    Disconnect(P),
    /// Open this port and hand the outcome to `finish_serial_connect`.
    Open(PortRequest),
}

impl<P> ConnectDecision<P> {
    pub open spec fn choice(self) -> ConnectChoice {
        match self {
            ConnectDecision::Refuse(_) => ConnectChoice::Refuse,
            ConnectDecision::Disconnect(_) => ConnectChoice::Disconnect,
            ConnectDecision::Open(_) => ConnectChoice::Open,
        }
    }

    /// What the command answers the front end: `true` on a refusal, `false`
    /// on a disconnect; when a port is opened, `finish_serial_connect` says.
    pub fn answer(&self) -> (r: Option<bool>)
        ensures
            r == (match *self {
                ConnectDecision::Refuse(_) => Some(true),
                ConnectDecision::Disconnect(_) => Some(false),
                ConnectDecision::Open(_) => None::<bool>,
            }),
    {
        match self {
            ConnectDecision::Refuse(_) => Some(true),
            ConnectDecision::Disconnect(_) => Some(false),
            ConnectDecision::Open(_) => None,
        }
    }

    /// Whether the running reader is stopped (before the port is dropped).
    pub fn stops_reader(&self) -> (r: bool)
        ensures
            r == self is Disconnect,
    {
        match self {
            ConnectDecision::Disconnect(_) => true,
            _ => false,
        }
    }
}

/// The answer to the record button.
pub enum RecordDecision {
    /// Show the dialog; the command answers `false`.
    Refuse(Dialog),
    /// Create a file of this name in the folder and hand the outcome to
    /// `finish_start_record`.
    CreateFile(String),
    /// Stop the reader, then press the connect button, which opens the
    /// port again; the command answers `false`.
    StopAndReconnect,
}

impl RecordDecision {
    pub open spec fn choice(self) -> Option<RecordChoice> {
        match self {
            RecordDecision::Refuse(_) => None,
            RecordDecision::CreateFile(_) => Some(RecordChoice::Create),
            RecordDecision::StopAndReconnect => Some(RecordChoice::Stop),
        }
    }

    /// What the command answers the front end: `false` on a refusal and on a
    /// stop; when a file is created, `finish_start_record` says.
    pub fn answer(&self) -> (r: Option<bool>)
        ensures
            r == (match *self {
                RecordDecision::Refuse(_) => Some(false),
                RecordDecision::CreateFile(_) => None::<bool>,
                RecordDecision::StopAndReconnect => Some(false),
            }),
    {
        match self {
            RecordDecision::Refuse(_) => Some(false),
            RecordDecision::CreateFile(_) => None,
            RecordDecision::StopAndReconnect => Some(false),
        }
    }

    /// Whether the running reader is stopped (and the connect button then
    /// pressed).
    pub fn stops_reader(&self) -> (r: bool)
        ensures
            r == self is StopAndReconnect,
    {
        match self {
            RecordDecision::StopAndReconnect => true,
            _ => false,
        }
    }
}

/// The answer to a send.
pub enum SendDecision {
    /// Show the dialog; nothing is written.
    Refuse(Dialog),
    /// Write this text to the port and hand the outcome to `send_outcome`.
    Write(String),
}

/// What becomes of the background reader once a command is done.
pub enum ReaderAction {
    /// The reader is left as it is.
    Unchanged,
    /// A streaming reader is started on a clone of the port just stored.
    StartStreaming,
    /// The running reader is stopped, then a recording reader is started on
    /// the file just created.
    SwitchToRecording,
}

/// What a command answers the front end, the dialog it shows, if any, and
/// what becomes of the reader.
pub struct CommandResult {
    pub value: bool,
    pub dialog: Option<Dialog>,
    pub reader: ReaderAction,
}

/// The value inside `o`, to change in place.
fn option_as_mut<T>(o: &mut Option<T>) -> (r: Option<&mut T>)
    ensures
        r is Some == (*old(o)) is Some,
        r matches Some(v) ==> *old(o) == Some(*v),
        r matches Some(v) ==> *final(o) == Some(*final(v)),
        r is None ==> *final(o) is None,
    no_unwind
{
    match o {
        Some(v) => Some(v),
        None => None,
    }
}

impl<P, D, F> Data<P, D, F> {
    /// A recording runs only on an open port.
    #[verifier::type_invariant]
    closed spec fn recording_on_open_port(self) -> bool {
        self.is_recording ==> self.port is Some
    }

    /// The open port, if any.
    pub closed spec fn current_port(&self) -> Option<P> {
        self.port
    }

    /// The folder that recordings go to, if one was chosen.
    pub closed spec fn folder(&self) -> Option<D> {
        self.folder_path
    }

    /// The flag shared with the reader.
    pub closed spec fn thread_flag(&self) -> F {
        self.is_thread_open
    }

    /// A session with no port, no settings and no recording.
    pub fn new(folder_path: Option<D>, is_thread_open: F) -> (d: Self)
        ensures
            d@ == (SessionView {
                connected: false,
                has_folder: folder_path is Some,
                port_path: Seq::empty(),
                baud_rate: 0,
                ending: Seq::empty(),
                recording: false,
            }),
            d.current_port() is None,
            d.folder() == folder_path,
            d.thread_flag() == is_thread_open,
    {
        Data {
            port: None,
            folder_path,
            port_items: PortItems { port_path: String::new(), baud_rate: 0, ending: String::new() },
            is_thread_open,
            is_recording: false,
        }
    }

    /// The open port, if any.
    pub fn port(&self) -> (r: Option<&P>)
        ensures
            r is Some == self@.connected,
            r matches Some(p) ==> self.current_port() == Some(*p),
            r is None ==> self.current_port() is None,
    {
        match &self.port {
            Some(p) => Some(p),
            None => None,
        }
    }

    /// The open port, if any, to write to.
    pub fn port_mut(&mut self) -> (r: Option<&mut P>)
        ensures
            recording_needs_port(old(self)@) ==> recording_needs_port(final(self)@),
            r is Some == old(self)@.connected,
            final(self)@ == old(self)@,
            r matches Some(p) ==> old(self).current_port() == Some(*p),
            r matches Some(p) ==> final(self).current_port() == Some(*final(p)),
            r is None ==> final(self).current_port() is None,
            final(self).folder() == old(self).folder(),
            final(self).thread_flag() == old(self).thread_flag(),
    {
        proof {
            use_type_invariant(&*self);
        }
        option_as_mut(&mut self.port)
    }

    /// The folder that recordings go to, if one was chosen.
    pub fn folder_path(&self) -> (r: Option<&D>)
        ensures
            r is Some == self@.has_folder,
            r matches Some(f) ==> self.folder() == Some(*f),
    {
        match &self.folder_path {
            Some(f) => Some(f),
            None => None,
        }
    }

    /// The flag shared with the reader.
    pub fn is_thread_open(&self) -> (r: &F)
        ensures
            *r == self.thread_flag(),
    {
        &self.is_thread_open
    }

    /// The chosen settings.
    pub fn port_items(&self) -> (r: &PortItems)
        ensures
            r.port_path@ == self@.port_path,
            r.baud_rate == self@.baud_rate,
            r.ending@ == self@.ending,
    {
        &self.port_items
    }

    /// Whether a recording runs.
    pub fn is_recording(&self) -> (r: bool)
        ensures
            r == self@.recording,
            recording_needs_port(self@),
    {
        proof {
            use_type_invariant(self);
        }
        self.is_recording
    }

    /// The request for the port that the settings name.
    fn port_request(&self) -> (req: PortRequest)
        ensures
            requests_port(req, self@),
    {
        PortRequest {
            port_path: self.port_items.port_path.clone(),
            baud_rate: self.port_items.baud_rate,
            timeout_ms: PORT_TIMEOUT_MS,
        }
    }

    /// Stores the port, speed and line ending chosen by the user. The speed
    /// is read as `u32`'s `FromStr` reads it.
    pub fn set_port_items(&mut self, port: &str, baud: &str, ending: &str)
        requires
            parse_u32_spec(baud@) is Some,
        ensures
            recording_needs_port(old(self)@) ==> recording_needs_port(final(self)@),
            final(self)@ == (SessionView {
                port_path: port@,
                baud_rate: parse_u32_spec(baud@)->0,
                ending: ending@,
                ..old(self)@
            }),
            final(self).current_port() == old(self).current_port(),
            final(self).folder() == old(self).folder(),
            final(self).thread_flag() == old(self).thread_flag(),
    {
        proof {
            use_type_invariant(&*self);
        }
        let baud_rate = parse_baud(baud).unwrap();
        self.port_items = PortItems { port_path: owned(port), baud_rate, ending: owned(ending) };
    }

    /// Stores the folder the user picked; `None` when the pick was cancelled.
    pub fn set_folder_path(&mut self, dir: Option<D>)
        ensures
            recording_needs_port(old(self)@) ==> recording_needs_port(final(self)@),
            final(self)@ == (SessionView { has_folder: dir is Some, ..old(self)@ }),
            final(self).folder() == dir,
            final(self).current_port() == old(self).current_port(),
            final(self).thread_flag() == old(self).thread_flag(),
    {
        proof {
            use_type_invariant(&*self);
        }
        self.folder_path = dir;
    }

    /// The connect button: refused while recording; closes an open port;
    /// otherwise asks for the port of the settings to be opened.
    pub fn handle_serial_connect(&mut self) -> (d: ConnectDecision<P>)
        ensures
            recording_needs_port(old(self)@) ==> recording_needs_port(final(self)@),
            d.choice() == connect_choice(old(self)@),
            final(self)@ == after_connect(old(self)@),
            d matches ConnectDecision::Refuse(dlg) ==> dialog_is(
                dlg,
                "Port Error"@,
                "Please stop recording before disconnecting"@,
            ),
            d matches ConnectDecision::Disconnect(p) ==> old(self).current_port() == Some(p)
                && final(self).current_port() is None,
            d is Disconnect || final(self).current_port() == old(self).current_port(),
            d matches ConnectDecision::Open(req) ==> requests_port(req, old(self)@),
            final(self).folder() == old(self).folder(),
            final(self).thread_flag() == old(self).thread_flag(),
    {
        if self.is_recording {
            return ConnectDecision::Refuse(
                Dialog {
                    title: owned("Port Error"),
                    message: owned("Please stop recording before disconnecting"),
                },
            );
        }
        let mut taken: Option<P> = None;
        std::mem::swap(&mut taken, &mut self.port);
        match taken {
            Some(p) => ConnectDecision::Disconnect(p),
            None => ConnectDecision::Open(self.port_request()),
        }
    }

    /// Finishes the connect button once the port was opened (the port) or
    /// not (the error's text). Answers `true` when the port is stored.
    pub fn finish_serial_connect(&mut self, opened: Result<P, String>) -> (r: CommandResult)
        ensures
            recording_needs_port(old(self)@) ==> recording_needs_port(final(self)@),
            final(self)@ == after_port_opened(old(self)@, opened is Ok),
            r.value == opened is Ok,
            r.reader == (if opened is Ok {
                ReaderAction::StartStreaming
            } else {
                ReaderAction::Unchanged
            }),
            opened matches Ok(p) ==> final(self).current_port() == Some(p) && r.dialog is None,
            opened matches Err(e) ==> final(self).current_port() == old(self).current_port()
                && shows_dialog(r.dialog, "Port Error"@,
                "An error occured opening port: "@ + e@,
            ),
            final(self).folder() == old(self).folder(),
            final(self).thread_flag() == old(self).thread_flag(),
    {
        match opened {
            Ok(p) => {
                self.port = Some(p);
                CommandResult { value: true, dialog: None, reader: ReaderAction::StartStreaming }
            },
            Err(e) => {
                let dlg = dialog_with("Port Error", "An error occured opening port: ", e.as_str());
                CommandResult { value: false, dialog: Some(dlg), reader: ReaderAction::Unchanged }
            },
        }
    }

    /// The record button: starts a recording in a new file named after
    /// `now`, or stops the running one and opens the port again.
    pub fn handle_start_record(&mut self, now: &Timestamp) -> (d: RecordDecision)
        requires
            now.valid(),
        ensures
            recording_needs_port(old(self)@) ==> recording_needs_port(final(self)@),
            final(self)@ == after_record(old(self)@),
            d.choice() == (match record_choice(old(self)@) {
                RecordChoice::Create => Some(RecordChoice::Create),
                RecordChoice::Stop => Some(RecordChoice::Stop),
                _ => None,
            }),
            d matches RecordDecision::Refuse(dlg) ==> (if record_choice(old(self)@) is NoPort {
                dialog_is(dlg, "Port Error"@, "Connect to port first."@)
            } else {
                dialog_is(dlg, "File Error"@, "File path not set."@)
            }),
            d matches RecordDecision::CreateFile(name) ==> name@ == record_file_name_spec(*now),
            d is StopAndReconnect ==> final(self).current_port() is None,
            d is StopAndReconnect || final(self).current_port() == old(self).current_port(),
            final(self).folder() == old(self).folder(),
            final(self).thread_flag() == old(self).thread_flag(),
    {
        if !self.is_recording {
            if self.port.is_none() {
                self.is_recording = false;
                return RecordDecision::Refuse(
                    Dialog { title: owned("Port Error"), message: owned("Connect to port first.") },
                );
            }
            if self.folder_path.is_none() {
                self.is_recording = false;
                return RecordDecision::Refuse(
                    Dialog { title: owned("File Error"), message: owned("File path not set.") },
                );
            }
            let name = record_file_name(now).unwrap();
            return RecordDecision::CreateFile(name);
        }
        self.is_recording = false;
        self.port = None;
        RecordDecision::StopAndReconnect
    }

    /// Finishes the record button once the file was created or not (the
    /// error's text). Answers `true` when the recording starts: the running
    /// reader is then stopped and a recording reader started on the file;
    /// after a failure the running reader goes on.
    pub fn finish_start_record(&mut self, created: Result<(), String>) -> (r: CommandResult)
        requires
            old(self)@.connected,
        ensures
            recording_needs_port(old(self)@) ==> recording_needs_port(final(self)@),
            final(self)@ == after_file_created(old(self)@, created is Ok),
            r.value == created is Ok,
            r.reader == (if created is Ok {
                ReaderAction::SwitchToRecording
            } else {
                ReaderAction::Unchanged
            }),
            created is Ok ==> r.dialog is None,
            created matches Err(e) ==> shows_dialog(r.dialog, "File Error"@,
                "An error occured creating file: "@ + e@,
            ),
            final(self).current_port() == old(self).current_port(),
            final(self).folder() == old(self).folder(),
            final(self).thread_flag() == old(self).thread_flag(),
    {
        match created {
            Ok(()) => {
                self.is_recording = true;
                CommandResult { value: true, dialog: None, reader: ReaderAction::SwitchToRecording }
            },
            Err(e) => {
                self.is_recording = false;
                let dlg = dialog_with("File Error", "An error occured creating file: ", e.as_str());
                CommandResult { value: false, dialog: Some(dlg), reader: ReaderAction::Unchanged }
            },
        }
    }

    /// A send: refused without a port; otherwise the input followed by the
    /// line ending, as UTF-8.
    pub fn send_serial(&self, input: &str) -> (d: SendDecision)
        ensures
            d is Refuse <==> !self@.connected,
            d matches SendDecision::Refuse(dlg) ==> dialog_is(
                dlg,
                "Port Error"@,
                "Connect to port first."@,
            ),
            d matches SendDecision::Write(text) ==> text@ == input@ + self@.ending,
    {
        if self.port.is_none() {
            return SendDecision::Refuse(
                Dialog { title: owned("Port Error"), message: owned("Connect to port first.") },
            );
        }
        SendDecision::Write(joined(input, self.port_items.ending.as_str()))
    }

    /// The reader lost the port: the port is dropped and no recording runs.
    pub fn on_reader_failure(&mut self)
        ensures
            recording_needs_port(old(self)@) ==> recording_needs_port(final(self)@),
            final(self)@ == after_reader_failure(old(self)@),
            final(self).current_port() is None,
            final(self).folder() == old(self).folder(),
            final(self).thread_flag() == old(self).thread_flag(),
    {
        self.is_recording = false;
        self.port = None;
    }
}

/// The dialog that a failed write shows; none after a write that succeeded.
pub fn send_outcome(written: Result<usize, String>) -> (d: Option<Dialog>)
    ensures
        written is Ok ==> d is None,
        written matches Err(e) ==> shows_dialog(d, "Write Error"@,
            "An error occured writing to port: "@ + e@,
        ),
{
    match written {
        Ok(_) => None,
        Err(e) => Some(dialog_with("Write Error", "An error occured writing to port: ", e.as_str())),
    }
}

} // verus!
