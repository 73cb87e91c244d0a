use tty_relay::render::{render_byte, output_step, OutputAction, OutputEvent};

#[test]
fn delete_renders_as_erase_sequence() {
    assert_eq!(render_byte(0x7f), vec![0x08, 0x20, 0x08]);
}

#[test]
fn ordinary_output_bytes_pass_through() {
    assert_eq!(render_byte(b'x'), vec![b'x']);
    assert_eq!(render_byte(0x00), vec![0x00]);
    assert_eq!(render_byte(0x08), vec![0x08]);
    assert_eq!(render_byte(0xff), vec![0xff]);
}

#[test]
fn output_relay_stops_on_stream_end() {
    match output_step(OutputEvent::Closed) {
        OutputAction::Stop => {}
        OutputAction::Emit(_) => panic!("stream end must stop the relay"),
    }
}

#[test]
fn output_relay_emits_rendered_byte() {
    match output_step(OutputEvent::Byte(0x7f)) {
        OutputAction::Emit(v) => assert_eq!(v, vec![0x08, 0x20, 0x08]),
        OutputAction::Stop => panic!("a byte must be emitted, not stop the relay"),
    }
    match output_step(OutputEvent::Byte(b'a')) {
        OutputAction::Emit(v) => assert_eq!(v, vec![b'a']),
        OutputAction::Stop => panic!("a byte must be emitted, not stop the relay"),
    }
}
