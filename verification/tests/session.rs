use serial_wizard::clock::Timestamp;
use serial_wizard::reader::{
    record_step, rotation_due, rotation_failed, stream_step, ReadResult, READ_BUFFER_LEN, RECORD_FILE_SECS,
};
use serial_wizard::serial_wrapper::serial_payload;
use serial_wizard::session::{
    send_outcome, ConnectDecision, Data, ReaderAction, RecordDecision, SendDecision, PORT_TIMEOUT_MS,
};

type Session = Data<u32, String, bool>;

fn now() -> Timestamp {
    Timestamp { year: 2024, month: 1, day: 2, hour: 3, minute: 4, second: 5 }
}

fn configured() -> Session {
    let mut d: Session = Data::new(Some("/home".to_string()), true);
    d.set_port_items("/dev/ttyUSB0", "115200", "\r\n");
    d
}

fn connected() -> Session {
    let mut d = configured();
    assert!(matches!(d.handle_serial_connect(), ConnectDecision::Open(_)));
    assert!(d.finish_serial_connect(Ok(7)).value);
    d
}

#[test]
fn new_session_is_empty() {
    let d: Session = Data::new(Some("/home".to_string()), true);
    assert!(d.port().is_none());
    assert_eq!(d.folder_path().map(|s| s.as_str()), Some("/home"));
    assert!(*d.is_thread_open());
    assert!(!d.is_recording());
    assert_eq!(d.port_items().port_path, "");
    assert_eq!(d.port_items().baud_rate, 0);
    assert_eq!(d.port_items().ending, "");
}

#[test]
fn set_port_items_stores_the_settings() {
    let d = configured();
    assert_eq!(d.port_items().port_path, "/dev/ttyUSB0");
    assert_eq!(d.port_items().baud_rate, 115200);
    assert_eq!(d.port_items().ending, "\r\n");
}

#[test]
fn connect_opens_the_configured_port() {
    let mut d = configured();
    match d.handle_serial_connect() {
        ConnectDecision::Open(req) => {
            assert_eq!(req.port_path, "/dev/ttyUSB0");
            assert_eq!(req.baud_rate, 115200);
            assert_eq!(req.timeout_ms, 10);
            assert_eq!(PORT_TIMEOUT_MS, 10);
        }
        _ => panic!("expected a request to open the port"),
    }
    assert!(d.port().is_none());
    let r = d.finish_serial_connect(Ok(7));
    assert!(r.value);
    assert!(r.dialog.is_none());
    assert_eq!(d.port(), Some(&7));
}

#[test]
fn connect_that_fails_shows_the_error() {
    let mut d = configured();
    let _ = d.handle_serial_connect();
    let r = d.finish_serial_connect(Err("No such file or directory".to_string()));
    assert!(!r.value);
    let dlg = r.dialog.expect("a dialog");
    assert_eq!(dlg.title, "Port Error");
    assert_eq!(dlg.message, "An error occured opening port: No such file or directory");
    assert!(d.port().is_none());
}

#[test]
fn second_connect_disconnects() {
    let mut d = connected();
    match d.handle_serial_connect() {
        ConnectDecision::Disconnect(p) => assert_eq!(p, 7),
        _ => panic!("expected a disconnect"),
    }
    assert!(d.port().is_none());
    assert!(matches!(d.handle_serial_connect(), ConnectDecision::Open(_)));
}

#[test]
fn connect_refused_while_recording() {
    let mut d = connected();
    assert!(matches!(d.handle_start_record(&now()), RecordDecision::CreateFile(_)));
    assert!(d.finish_start_record(Ok(())).value);
    match d.handle_serial_connect() {
        ConnectDecision::Refuse(dlg) => {
            assert_eq!(dlg.title, "Port Error");
            assert_eq!(dlg.message, "Please stop recording before disconnecting");
        }
        _ => panic!("expected a refusal"),
    }
    assert_eq!(d.port(), Some(&7));
    assert!(d.is_recording());
}

#[test]
fn record_needs_a_port() {
    let mut d = configured();
    match d.handle_start_record(&now()) {
        RecordDecision::Refuse(dlg) => {
            assert_eq!(dlg.title, "Port Error");
            assert_eq!(dlg.message, "Connect to port first.");
        }
        _ => panic!("expected a refusal"),
    }
    assert!(!d.is_recording());
}

#[test]
fn record_needs_a_folder() {
    let mut d = connected();
    d.set_folder_path(None);
    match d.handle_start_record(&now()) {
        RecordDecision::Refuse(dlg) => {
            assert_eq!(dlg.title, "File Error");
            assert_eq!(dlg.message, "File path not set.");
        }
        _ => panic!("expected a refusal"),
    }
    assert!(!d.is_recording());
}

#[test]
fn record_creates_a_dated_file() {
    let mut d = connected();
    d.set_folder_path(Some("/tmp/logs".to_string()));
    assert_eq!(d.folder_path().map(|s| s.as_str()), Some("/tmp/logs"));
    match d.handle_start_record(&now()) {
        RecordDecision::CreateFile(name) => assert_eq!(name, "SerialWizard_2024-01-02_03.04.05.txt"),
        _ => panic!("expected a file to create"),
    }
    let r = d.finish_start_record(Ok(()));
    assert!(r.value);
    assert!(r.dialog.is_none());
    assert!(d.is_recording());
}

#[test]
fn record_file_that_fails_shows_the_error() {
    let mut d = connected();
    let _ = d.handle_start_record(&now());
    let r = d.finish_start_record(Err("Permission denied".to_string()));
    assert!(!r.value);
    let dlg = r.dialog.expect("a dialog");
    assert_eq!(dlg.title, "File Error");
    assert_eq!(dlg.message, "An error occured creating file: Permission denied");
    assert!(!d.is_recording());
    assert_eq!(d.port(), Some(&7));
}

#[test]
fn second_record_stops_and_reopens() {
    let mut d = connected();
    let _ = d.handle_start_record(&now());
    let _ = d.finish_start_record(Ok(()));
    assert!(matches!(d.handle_start_record(&now()), RecordDecision::StopAndReconnect));
    assert!(!d.is_recording());
    assert!(d.port().is_none());
    match d.handle_serial_connect() {
        ConnectDecision::Open(req) => {
            assert_eq!(req.port_path, "/dev/ttyUSB0");
            assert_eq!(req.baud_rate, 115200);
            assert_eq!(req.timeout_ms, 10);
        }
        _ => panic!("expected the port to be opened again"),
    }
    assert!(d.finish_serial_connect(Ok(9)).value);
    assert_eq!(d.port(), Some(&9));
    assert!(!d.is_recording());
}

#[test]
fn send_without_port_is_refused() {
    let d = configured();
    match d.send_serial("hello") {
        SendDecision::Refuse(dlg) => {
            assert_eq!(dlg.title, "Port Error");
            assert_eq!(dlg.message, "Connect to port first.");
        }
        _ => panic!("expected a refusal"),
    }
}

#[test]
fn send_appends_the_line_ending() {
    let d = connected();
    match d.send_serial("hello") {
        SendDecision::Write(text) => {
            assert_eq!(text, "hello\r\n");
            assert_eq!(serial_payload(&text), b"hello\r\n".to_vec());
        }
        _ => panic!("expected a write"),
    }
}

#[test]
fn send_outcome_dialogs() {
    assert!(send_outcome(Ok(3)).is_none());
    let dlg = send_outcome(Err("Broken pipe".to_string())).expect("a dialog");
    assert_eq!(dlg.title, "Write Error");
    assert_eq!(dlg.message, "An error occured writing to port: Broken pipe");
}

#[test]
fn port_mut_writes_through() {
    let mut d = connected();
    if let Some(p) = d.port_mut() {
        *p = 11;
    }
    assert_eq!(d.port(), Some(&11));
    let mut e = configured();
    assert!(e.port_mut().is_none());
}

#[test]
fn reader_failure_drops_port_and_recording() {
    let mut d = connected();
    let _ = d.handle_start_record(&now());
    let _ = d.finish_start_record(Ok(()));
    d.on_reader_failure();
    assert!(d.port().is_none());
    assert!(!d.is_recording());
    assert!(matches!(d.handle_serial_connect(), ConnectDecision::Open(_)));
}

#[test]
fn stream_step_emits_received_text() {
    let mut buf = [0u8; READ_BUFFER_LEN];
    buf[..5].copy_from_slice(b"hello");
    let s = stream_step(&buf, ReadResult::Received(5));
    assert!(s.keep_running);
    assert!(!s.session_lost);
    assert!(s.file_bytes.is_none());
    assert_eq!(s.emits.len(), 1);
    assert_eq!(s.emits[0].event, "updateSerial");
    assert_eq!(s.emits[0].message, "hello");
    assert_eq!(READ_BUFFER_LEN, 32);
}

#[test]
fn timeouts_are_ignored() {
    let buf = [0u8; READ_BUFFER_LEN];
    for s in [stream_step(&buf, ReadResult::TimedOut), record_step(&buf, ReadResult::TimedOut)] {
        assert!(s.keep_running);
        assert!(!s.session_lost);
        assert!(s.emits.is_empty());
        assert!(s.file_bytes.is_none());
    }
}

#[test]
fn stream_failure_disconnects() {
    let buf = [0u8; READ_BUFFER_LEN];
    let s = stream_step(&buf, ReadResult::Failed);
    assert!(!s.keep_running);
    assert!(s.session_lost);
    assert_eq!(s.emits.len(), 1);
    assert_eq!(s.emits[0].event, "isConnected");
    assert_eq!(s.emits[0].message, "disconnected");
}

#[test]
fn record_step_writes_what_it_shows() {
    let mut buf = [0u8; READ_BUFFER_LEN];
    buf[..3].copy_from_slice(&[b'o', 0xFF, b'k']);
    let s = record_step(&buf, ReadResult::Received(3));
    assert_eq!(s.emits.len(), 1);
    assert_eq!(s.emits[0].message, "o\u{FFFD}k");
    let bytes = s.file_bytes.expect("bytes for the file");
    assert_eq!(String::from_utf8(bytes).unwrap(), "o\u{FFFD}k");
}

#[test]
fn record_failure_also_ends_recording() {
    let buf = [0u8; READ_BUFFER_LEN];
    for s in [record_step(&buf, ReadResult::Failed), rotation_failed()] {
        assert!(!s.keep_running);
        assert!(s.session_lost);
        assert_eq!(s.emits.len(), 2);
        assert_eq!(s.emits[0].event, "isConnected");
        assert_eq!(s.emits[0].message, "disconnected");
        assert_eq!(s.emits[1].event, "isRecording");
        assert_eq!(s.emits[1].message, "not recording");
    }
}

#[test]
fn rotation_every_ten_minutes() {
    assert!(!rotation_due(0));
    assert!(!rotation_due(599));
    assert!(rotation_due(600));
    assert!(rotation_due(601));
    assert_eq!(RECORD_FILE_SECS, 600);
}

#[test]
fn connect_answers_and_reader_actions() {
    let mut d = configured();
    let open = d.handle_serial_connect();
    assert_eq!(open.answer(), None);
    assert!(!open.stops_reader());
    let r = d.finish_serial_connect(Ok(7));
    assert!(matches!(r.reader, ReaderAction::StartStreaming));
    let disconnect = d.handle_serial_connect();
    assert_eq!(disconnect.answer(), Some(false));
    assert!(disconnect.stops_reader());
    let _ = d.handle_serial_connect();
    let failed = d.finish_serial_connect(Err("busy".to_string()));
    assert!(matches!(failed.reader, ReaderAction::Unchanged));
    assert!(!failed.value);
}

#[test]
fn refused_connect_answers_true() {
    let mut d = connected();
    let _ = d.handle_start_record(&now());
    let _ = d.finish_start_record(Ok(()));
    let refused = d.handle_serial_connect();
    assert_eq!(refused.answer(), Some(true));
    assert!(!refused.stops_reader());
}

#[test]
fn record_answers_and_reader_actions() {
    let mut d = configured();
    let refused = d.handle_start_record(&now());
    assert_eq!(refused.answer(), Some(false));
    assert!(!refused.stops_reader());
    let mut d = connected();
    let create = d.handle_start_record(&now());
    assert_eq!(create.answer(), None);
    assert!(!create.stops_reader());
    let failed = d.finish_start_record(Err("denied".to_string()));
    assert!(matches!(failed.reader, ReaderAction::Unchanged));
    let _ = d.handle_start_record(&now());
    let started = d.finish_start_record(Ok(()));
    assert!(matches!(started.reader, ReaderAction::SwitchToRecording));
    let stop = d.handle_start_record(&now());
    assert_eq!(stop.answer(), Some(false));
    assert!(stop.stops_reader());
}

#[test]
fn shown_text_of_a_full_buffer_is_bounded() {
    let buf = [0xFFu8; READ_BUFFER_LEN];
    let s = stream_step(&buf, ReadResult::Received(READ_BUFFER_LEN));
    let m = &s.emits[0].message;
    assert!(m.chars().count() <= 32);
    assert!(m.len() <= 96);
    assert_eq!(m.len(), 96);
}
