use serial_bridge::{
    finish_write, keep_polling, on_read, open_failed_message, run_reader, write_failed_message,
    ConnectError, DisconnectError, EnumerationError, Poll, ReadResult, ReaderStep, SerialState,
    WriteError, READ_BUFFER_LEN, READ_TIMEOUT_MS,
};

/// A stand-in for a port handle: it records the bytes written to it.
type MockPort = Vec<u8>;

fn buffer_with(bytes: &[u8]) -> Vec<u8> {
    let mut b = vec![0u8; READ_BUFFER_LEN];
    b[..bytes.len()].copy_from_slice(bytes);
    b
}

fn poll(running: bool, bytes: &[u8], result: ReadResult) -> Poll {
    Poll { running, buffer: buffer_with(bytes), result }
}

#[test]
fn new_state_is_disconnected() {
    let st: SerialState<MockPort> = SerialState::new();
    assert!(!st.is_running());
    assert!(!st.has_port());
    let d: SerialState<MockPort> = SerialState::default();
    assert!(!d.is_running());
    assert!(!d.has_port());
}

#[test]
fn second_connect_is_refused_and_keeps_handle() {
    let mut st: SerialState<MockPort> = SerialState::new();
    assert_eq!(st.check_connect(), Ok(()));
    assert_eq!(st.connect("/dev/ttyUSB0", Ok(vec![1])), Ok(()));
    assert_eq!(st.check_connect(), Err(ConnectError::AlreadyConnected));
    assert_eq!(st.connect("/dev/ttyUSB1", Ok(vec![2])), Err(ConnectError::AlreadyConnected));
    assert_eq!(
        st.connect("/dev/ttyUSB1", Err("busy".to_string())),
        Err(ConnectError::AlreadyConnected)
    );
    assert!(st.is_running());
    assert_eq!(st.disconnect(), Ok(vec![1]));
}

#[test]
fn disconnect_when_never_connected() {
    let mut st: SerialState<MockPort> = SerialState::new();
    assert_eq!(st.disconnect(), Err(DisconnectError::NotConnected));
    assert!(!st.is_running());
    assert!(!st.has_port());
}

#[test]
fn write_before_connect() {
    let mut st: SerialState<MockPort> = SerialState::new();
    assert_eq!(st.port_for_write().err(), Some(WriteError::NoPortOpen));
    assert!(!st.is_running());
}

#[test]
fn open_failure_leaves_state_unchanged() {
    let mut st: SerialState<MockPort> = SerialState::new();
    let r = st.connect("/dev/ttyS9", Err("No such file or directory".to_string()));
    assert_eq!(
        r,
        Err(ConnectError::OpenFailed(
            "Failed to open /dev/ttyS9: No such file or directory".to_string()
        ))
    );
    assert!(!st.is_running());
    assert!(!st.has_port());
    assert_eq!(st.connect("/dev/ttyS0", Ok(vec![])), Ok(()));
    assert!(st.is_running());
}

#[test]
fn inbound_bytes_emit_one_exact_chunk() {
    let polls = vec![
        poll(true, &[0x41, 0x42], ReadResult::Data(2)),
        poll(true, &[0x43], ReadResult::Data(1)),
    ];
    assert_eq!(run_reader(&polls), vec![vec![0x41, 0x42], vec![0x43]]);
    let single = vec![poll(true, &[0x41, 0x42], ReadResult::Data(2))];
    assert_eq!(run_reader(&single), vec![vec![0x41u8, 0x42]]);
}

#[test]
fn no_events_after_stop_flag_cleared() {
    let polls = vec![
        poll(true, &[0x41], ReadResult::Data(1)),
        poll(false, &[0x42, 0x43], ReadResult::Data(2)),
        poll(true, &[0x44], ReadResult::Data(1)),
    ];
    assert_eq!(run_reader(&polls), vec![vec![0x41u8]]);
}

#[test]
fn timeouts_are_skipped() {
    let polls = vec![
        poll(true, &[], ReadResult::TimedOut),
        poll(true, &[7, 8, 9], ReadResult::Data(3)),
        poll(true, &[], ReadResult::TimedOut),
        poll(true, &[10], ReadResult::Data(1)),
    ];
    assert_eq!(run_reader(&polls), vec![vec![7u8, 8, 9], vec![10]]);
}

#[test]
fn fatal_read_error_ends_events_and_disconnect_succeeds() {
    let mut st: SerialState<MockPort> = SerialState::new();
    assert_eq!(st.connect("COM3", Ok(vec![])), Ok(()));
    let polls = vec![
        poll(true, &[1, 2], ReadResult::Data(2)),
        poll(true, &[], ReadResult::Failed),
        poll(true, &[3], ReadResult::Data(1)),
    ];
    assert_eq!(run_reader(&polls), vec![vec![1u8, 2]]);
    assert!(st.is_running());
    assert_eq!(st.disconnect(), Ok(vec![]));
    assert!(!st.is_running());
}

#[test]
fn end_of_data_ends_events() {
    let polls = vec![poll(true, &[], ReadResult::Data(0)), poll(true, &[5], ReadResult::Data(1))];
    assert!(run_reader(&polls).is_empty());
}

#[test]
fn reconnect_cycle() {
    let mut st: SerialState<MockPort> = SerialState::new();
    assert_eq!(st.connect("/dev/ttyACM0", Ok(vec![])), Ok(()));
    {
        let port = st.port_for_write().unwrap();
        port.extend_from_slice("ping".as_bytes());
    }
    assert_eq!(finish_write(Ok(())), Ok(()));
    assert_eq!(st.disconnect(), Ok(b"ping".to_vec()));
    assert!(!st.is_running());
    assert!(!st.has_port());
    assert_eq!(st.check_connect(), Ok(()));
    assert_eq!(st.connect("/dev/ttyACM0", Ok(vec![9])), Ok(()));
    assert!(st.is_running());
    assert_eq!(st.disconnect(), Ok(vec![9]));
}

#[test]
fn on_read_decisions() {
    let buf = buffer_with(&[0x41, 0x42, 0x43]);
    assert_eq!(on_read(&buf, ReadResult::Data(2)), ReaderStep::Emit(vec![0x41, 0x42]));
    assert_eq!(on_read(&buf, ReadResult::Data(0)), ReaderStep::Stop);
    assert_eq!(on_read(&buf, ReadResult::TimedOut), ReaderStep::Idle);
    assert_eq!(on_read(&buf, ReadResult::Failed), ReaderStep::Stop);
    let full = on_read(&buf, ReadResult::Data(READ_BUFFER_LEN));
    assert_eq!(full, ReaderStep::Emit(buf.clone()));
    assert!(keep_polling(true));
    assert!(!keep_polling(false));
    assert_eq!(READ_TIMEOUT_MS, 100);
}

#[test]
fn write_failure_message() {
    assert_eq!(
        finish_write(Err("broken pipe".to_string())),
        Err(WriteError::WriteFailed("Write failed: broken pipe".to_string()))
    );
    assert_eq!(write_failed_message("x"), "Write failed: x");
}

#[test]
fn error_messages() {
    assert_eq!(ConnectError::AlreadyConnected.message(), "Already connected");
    assert_eq!(open_failed_message("COM1", "denied"), "Failed to open COM1: denied");
    assert_eq!(ConnectError::OpenFailed("t".to_string()).message(), "t");
    assert_eq!(DisconnectError::NotConnected.message(), "Not connected");
    assert_eq!(WriteError::NoPortOpen.message(), "No port open");
    assert_eq!(WriteError::WriteFailed("w".to_string()).message(), "w");
    let e = EnumerationError { reason: "permission denied".to_string() };
    assert_eq!(e.message(), "permission denied");
}
