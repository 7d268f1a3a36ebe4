use systick_delay::uart_debug::{DbgWriter, DebugUart};

#[test]
fn unwired_writer_drops_writes() {
    let mut w = DbgWriter::new();
    w.write_str("lost");
    assert!(w.uart.is_none());
}

#[test]
fn wired_writer_logs_writes_in_order() {
    let mut w = DbgWriter::new();
    w.wire(DebugUart::new());
    w.write_str("hello ");
    w.write_str("world");
    let sink = w.uart.expect("sink stays wired");
    assert_eq!(
        sink.messages,
        vec![String::from("hello "), String::from("world")]
    );
}

#[test]
fn wiring_starts_with_empty_log() {
    let mut w = DbgWriter::new();
    w.write_str("before the port exists");
    w.wire(DebugUart::new());
    let sink = w.uart.expect("sink wired");
    assert_eq!(sink.messages.len(), 0);
}
