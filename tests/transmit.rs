use dmx::{
    BaudRate, CharSize, DmxTransmitter, FlowControl, Parity, PortFault, PortOp, RecordingPort,
    SerialProfile, StopBits,
};

fn break_op() -> PortOp {
    PortOp::Configure(SerialProfile::dmx_break())
}

fn data_op() -> PortOp {
    PortOp::Configure(SerialProfile::dmx_data())
}

fn packet_ops(frame: Vec<u8>) -> Vec<PortOp> {
    vec![
        break_op(),
        PortOp::Write(vec![0x00]),
        PortOp::Pause(136_000),
        data_op(),
        PortOp::Write(frame),
    ]
}

#[test]
fn break_profile_values() {
    let p = SerialProfile::dmx_break();
    assert_eq!(p.baud_rate, BaudRate::Baud57600);
    assert_eq!(p.char_size, CharSize::Bits7);
    assert_eq!(p.parity, Parity::ParityNone);
    assert_eq!(p.stop_bits, StopBits::Stop1);
    assert_eq!(p.flow_control, FlowControl::FlowNone);
}

#[test]
fn data_profile_values() {
    let p = SerialProfile::dmx_data();
    assert_eq!(p.baud_rate, BaudRate::BaudOther(250_000));
    assert_eq!(p.char_size, CharSize::Bits8);
    assert_eq!(p.parity, Parity::ParityNone);
    assert_eq!(p.stop_bits, StopBits::Stop2);
    assert_eq!(p.flow_control, FlowControl::FlowNone);
    assert_ne!(p.baud_rate, SerialProfile::dmx_break().baud_rate);
}

#[test]
fn break_is_configure_then_zero_byte() {
    let mut port = RecordingPort::new();
    assert_eq!(port.send_break(), Ok(()));
    assert_eq!(port.recorded(), &[break_op(), PortOp::Write(vec![0x00])][..]);
}

#[test]
fn raw_data_is_configure_then_bytes_unchanged() {
    let mut port = RecordingPort::new();
    assert_eq!(port.send_raw_data(&[9, 8, 7]), Ok(()));
    assert_eq!(port.recorded(), &[data_op(), PortOp::Write(vec![9, 8, 7])][..]);
}

#[test]
fn raw_packet_is_five_operations_in_order() {
    let mut port = RecordingPort::new();
    assert_eq!(port.send_raw_dmx_packet(&[0x00, 0x10, 0x20]), Ok(()));
    assert_eq!(port.recorded(), &packet_ops(vec![0x00, 0x10, 0x20])[..]);
}

#[test]
fn raw_packet_is_not_length_checked() {
    let data = vec![0x42u8; 700];
    let mut port = RecordingPort::new();
    assert_eq!(port.send_raw_dmx_packet(&data), Ok(()));
    assert_eq!(port.recorded(), &packet_ops(data)[..]);
}

#[test]
fn packet_of_four_channels() {
    let mut port = RecordingPort::new();
    assert_eq!(port.send_dmx_packet(&[0xE4, 0xE4, 0x00, 0xCA]), Ok(()));
    assert_eq!(
        port.recorded(),
        &packet_ops(vec![0x00, 0xE4, 0xE4, 0x00, 0xCA])[..]
    );
}

#[test]
fn alt_packet_puts_start_code_first() {
    let mut port = RecordingPort::new();
    assert_eq!(port.send_dmx_alt_packet(&[1, 2], 0xCC), Ok(()));
    assert_eq!(port.recorded(), &packet_ops(vec![0xCC, 1, 2])[..]);
}

#[test]
fn empty_packet_sends_start_code_only() {
    let mut port = RecordingPort::new();
    assert_eq!(port.send_dmx_alt_packet(&[], 0x55), Ok(()));
    assert_eq!(port.recorded(), &packet_ops(vec![0x55])[..]);
    let mut port = RecordingPort::new();
    assert_eq!(port.send_dmx_packet(&[]), Ok(()));
    assert_eq!(port.recorded(), &packet_ops(vec![0x00])[..]);
}

#[test]
fn oversized_packet_is_truncated_without_error() {
    let channels: Vec<u8> = (0..600).map(|i| (i % 256) as u8).collect();
    let mut port = RecordingPort::new();
    assert_eq!(port.send_dmx_packet(&channels), Ok(()));
    let mut frame = vec![0x00];
    frame.extend_from_slice(&channels[..512]);
    assert_eq!(port.recorded(), &packet_ops(frame)[..]);
}

#[test]
fn default_packet_matches_alt_packet_with_zero() {
    let inputs: Vec<Vec<u8>> = vec![vec![], vec![7], vec![0xE4, 0xE4, 0x00, 0xCA], vec![3; 600]];
    for channels in inputs {
        let mut a = RecordingPort::new();
        let mut b = RecordingPort::new();
        assert_eq!(a.send_dmx_packet(&channels), b.send_dmx_alt_packet(&channels, 0x00));
        assert_eq!(a.recorded(), b.recorded());
        for fail in 0..6 {
            let mut a = RecordingPort::failing_at(fail);
            let mut b = RecordingPort::failing_at(fail);
            assert_eq!(a.send_dmx_packet(&channels), b.send_dmx_alt_packet(&channels, 0x00));
            assert_eq!(a.recorded(), b.recorded());
        }
    }
}

#[test]
fn failed_break_configure_stops_the_send() {
    let mut port = RecordingPort::failing_at(0);
    assert_eq!(port.send_dmx_packet(&[1, 2, 3]), Err(PortFault { at: 0 }));
    assert_eq!(port.recorded(), &[break_op()][..]);
}

#[test]
fn failed_break_write_stops_the_send() {
    let mut port = RecordingPort::failing_at(1);
    assert_eq!(port.send_dmx_packet(&[1, 2, 3]), Err(PortFault { at: 1 }));
    assert_eq!(port.recorded(), &[break_op(), PortOp::Write(vec![0x00])][..]);
}

#[test]
fn failed_data_configure_stops_the_send() {
    let mut port = RecordingPort::failing_at(2);
    assert_eq!(port.send_dmx_packet(&[1, 2, 3]), Err(PortFault { at: 3 }));
    assert_eq!(
        port.recorded(),
        &[
            break_op(),
            PortOp::Write(vec![0x00]),
            PortOp::Pause(136_000),
            data_op()
        ][..]
    );
}

#[test]
fn failed_data_write_is_returned() {
    let mut port = RecordingPort::failing_at(4);
    assert_eq!(port.send_dmx_packet(&[1, 2, 3]), Err(PortFault { at: 4 }));
    assert_eq!(port.recorded(), &packet_ops(vec![0x00, 1, 2, 3])[..]);
}

#[test]
fn failure_after_the_packet_leaves_it_intact() {
    let mut port = RecordingPort::failing_at(5);
    assert_eq!(port.send_dmx_packet(&[1, 2, 3]), Ok(()));
    assert_eq!(port.send_dmx_packet(&[1, 2, 3]), Err(PortFault { at: 5 }));
    assert_eq!(port.recorded().len(), 6);
}

#[test]
fn failed_raw_data_configure_skips_the_write() {
    let mut port = RecordingPort::failing_at(0);
    assert_eq!(port.send_raw_data(&[5]), Err(PortFault { at: 0 }));
    assert_eq!(port.recorded(), &[data_op()][..]);
}
