//! Tests of notification parsing, output decoding and the driver core.

use helmux::{decode_output, Driver, Notification, ProtocolError, TmuxEvent};

#[test]
fn test_parse_begin() {
    let notif = Notification::parse("%begin 1234567890 1 0").unwrap();
    match notif {
        Notification::Begin { id } => assert_eq!(id, 1),
        _ => panic!("Expected Begin notification"),
    }
}

#[test]
fn test_parse_output() {
    let notif = Notification::parse("%output %0 hello\\nworld").unwrap();
    match notif {
        Notification::Output { pane_id, data } => {
            assert_eq!(pane_id, "%0");
            assert_eq!(data, b"hello\nworld");
        }
        _ => panic!("Expected Output notification"),
    }
}

#[test]
fn test_parse_window_add() {
    let notif = Notification::parse("%window-add @1").unwrap();
    match notif {
        Notification::WindowAdd { window_id } => assert_eq!(window_id, "@1"),
        _ => panic!("Expected WindowAdd notification"),
    }
}

#[test]
fn test_parse_data_line() {
    let notif = Notification::parse("some data line").unwrap();
    match notif {
        Notification::Data(s) => assert_eq!(s, "some data line"),
        _ => panic!("Expected Data"),
    }
}

#[test]
fn test_decode_output() {
    assert_eq!(decode_output("hello\\nworld"), b"hello\nworld");
    assert_eq!(decode_output("tab\\there"), b"tab\there");
    assert_eq!(decode_output("back\\\\slash"), b"back\\slash");
}

#[test]
fn decode_octal_and_unknown_escapes() {
    // Octal escapes read up to two digits; \033 is \0 + "33" = ESC.
    assert_eq!(decode_output("\\033[0m"), b"\x1b[0m");
    assert_eq!(decode_output("\\07"), b"\x07");
    // Without a digit the escape yields nothing.
    assert_eq!(decode_output("a\\0b"), b"ab");
    // An unknown escape passes through behind its backslash.
    assert_eq!(decode_output("\\x"), b"\\x");
    // A trailing backslash stands alone.
    assert_eq!(decode_output("end\\"), b"end\\");
    // Carriage return.
    assert_eq!(decode_output("a\\rb"), b"a\rb");
}

#[test]
fn decoding_is_deterministic() {
    let payload = "mix\\ted \\033 content \\\\ here";
    assert_eq!(decode_output(payload), decode_output(payload));
}

#[test]
fn parse_more_notification_shapes() {
    match Notification::parse("%end 99 7 0").unwrap() {
        Notification::End { id } => assert_eq!(id, 7),
        _ => panic!("Expected End"),
    }
    match Notification::parse("%error 99 7 0").unwrap() {
        Notification::Error { id } => assert_eq!(id, 7),
        _ => panic!("Expected Error"),
    }
    match Notification::parse("%window-renamed @2 new name").unwrap() {
        Notification::WindowRenamed { window_id, name } => {
            assert_eq!(window_id, "@2");
            assert_eq!(name, "new name");
        }
        _ => panic!("Expected WindowRenamed"),
    }
    match Notification::parse("%session-changed $1 work").unwrap() {
        Notification::SessionChanged { session_id, name } => {
            assert_eq!(session_id, "$1");
            assert_eq!(name, "work");
        }
        _ => panic!("Expected SessionChanged"),
    }
    match Notification::parse("%exit").unwrap() {
        Notification::Exit { reason } => assert!(reason.is_none()),
        _ => panic!("Expected Exit"),
    }
    match Notification::parse("%exit server going away").unwrap() {
        Notification::Exit { reason } => assert_eq!(reason.unwrap(), "server going away"),
        _ => panic!("Expected Exit"),
    }
    match Notification::parse("%sessions-changed").unwrap() {
        Notification::SessionsChanged => {}
        _ => panic!("Expected SessionsChanged"),
    }
    match Notification::parse("%no-such-thing a b").unwrap() {
        Notification::Unknown { notification_type, raw } => {
            assert_eq!(notification_type, "%no-such-thing");
            assert_eq!(raw, "%no-such-thing a b");
        }
        _ => panic!("Expected Unknown"),
    }
}

#[test]
fn parse_rejects_missing_fields() {
    match Notification::parse("%output") {
        Err(ProtocolError::InvalidFormat(_)) => {}
        _ => panic!("Expected InvalidFormat for %output without a pane"),
    }
    match Notification::parse("%window-add") {
        Err(ProtocolError::InvalidFormat(_)) => {}
        _ => panic!("Expected InvalidFormat for %window-add without an id"),
    }
    match Notification::parse("%window-close") {
        Err(ProtocolError::InvalidFormat(_)) => {}
        _ => panic!("Expected InvalidFormat for %window-close without an id"),
    }
}

#[test]
fn parse_id_defaults_to_zero() {
    match Notification::parse("%begin x y z").unwrap() {
        Notification::Begin { id } => assert_eq!(id, 0),
        _ => panic!("Expected Begin"),
    }
    match Notification::parse("%begin 1").unwrap() {
        Notification::Begin { id } => assert_eq!(id, 0),
        _ => panic!("Expected Begin"),
    }
}

fn feed(driver: &mut Driver, line: &str) -> Option<TmuxEvent> {
    driver.handle_notification(Notification::parse(line).unwrap())
}

#[test]
fn response_demultiplexing() {
    // Interleaved pane output is delivered before the terminator; the
    // data lines are joined into one response.
    let mut driver = Driver::new();
    assert!(feed(&mut driver, "%begin 1 1 0").is_none());
    match feed(&mut driver, "%output %0 hi") {
        Some(TmuxEvent::Output { pane_id, data }) => {
            assert_eq!(pane_id, "%0");
            assert_eq!(data, b"hi");
        }
        _ => panic!("Expected the Output to pass through at once"),
    }
    assert!(feed(&mut driver, "data-line-A").is_none());
    assert!(feed(&mut driver, "data-line-B").is_none());
    match feed(&mut driver, "%end 1 1 0") {
        Some(TmuxEvent::CommandResponse { id, data }) => {
            assert_eq!(id, 1);
            assert_eq!(data, "data-line-A\ndata-line-B");
        }
        _ => panic!("Expected the CommandResponse terminator"),
    }
}

#[test]
fn error_terminator_carries_buffer() {
    let mut driver = Driver::new();
    assert!(feed(&mut driver, "%begin 1 2 0").is_none());
    assert!(feed(&mut driver, "no such command").is_none());
    match feed(&mut driver, "%error 1 2 0") {
        Some(TmuxEvent::CommandError { id, message }) => {
            assert_eq!(id, 2);
            assert_eq!(message, "no such command");
        }
        _ => panic!("Expected the CommandError terminator"),
    }
    // An error without a begin has an empty message.
    match feed(&mut driver, "%error 1 3 0") {
        Some(TmuxEvent::CommandError { id, message }) => {
            assert_eq!(id, 3);
            assert_eq!(message, "");
        }
        _ => panic!("Expected the CommandError terminator"),
    }
}

#[test]
fn mismatched_end_is_ignored() {
    let mut driver = Driver::new();
    assert!(feed(&mut driver, "%begin 1 5 0").is_none());
    assert!(feed(&mut driver, "%end 1 4 0").is_none());
    match feed(&mut driver, "%end 1 5 0") {
        Some(TmuxEvent::CommandResponse { id, .. }) => assert_eq!(id, 5),
        _ => panic!("Expected the matching End to terminate"),
    }
}

#[test]
fn data_outside_collection_is_dropped() {
    let mut driver = Driver::new();
    assert!(feed(&mut driver, "stray line").is_none());
    assert!(feed(&mut driver, "%layout-change @1 abcd").is_none());
    assert!(feed(&mut driver, "%sessions-changed").is_none());
    match feed(&mut driver, "%window-close @3") {
        Some(TmuxEvent::WindowClose { window_id }) => assert_eq!(window_id, "@3"),
        _ => panic!("Expected WindowClose to pass through"),
    }
}

#[test]
fn command_ids_increase() {
    let mut driver = Driver::new();
    let a = driver.next_command_id();
    let b = driver.next_command_id();
    let c = driver.next_command_id();
    assert_eq!(a, 1);
    assert_eq!(b, 2);
    assert_eq!(c, 3);
    assert!(a < b && b < c);
    assert_eq!(driver.last_command_id(), 3);
}

#[test]
fn command_line_framing() {
    assert_eq!(Driver::command_line("list-windows"), "list-windows\n");
}
