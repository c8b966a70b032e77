use sx128x::{MockOp, MockPort, Settings, Sx128x, RADIO_GET_STATUS};

#[test]
fn test_mod() {
    let port = MockPort::new();
    let mut radio = Sx128x::new(port, Settings::default()).unwrap();

    println!("Test reset command");

    radio.reset().unwrap();

    let reset_ops = vec![
        MockOp::RstLow,
        MockOp::DelayMs(1),
        MockOp::RstHigh,
        MockOp::DelayMs(10),
    ];
    let mut expected = reset_ops.clone();
    expected.extend(reset_ops.clone());
    assert_eq!(radio.port_ref().log, expected);

    println!("Test status command");

    radio.status().unwrap();

    expected.extend(vec![
        MockOp::CsLow,
        MockOp::Write(vec![RADIO_GET_STATUS, 0]),
        MockOp::Transfer(vec![0x00], vec![0x00]),
        MockOp::CsHigh,
    ]);
    assert_eq!(radio.port_ref().log, expected);
}

#[test]
fn reset_trace_is_exact() {
    let port = MockPort::new();
    let mut radio = Sx128x::new(port, Settings::default()).unwrap();
    assert_eq!(
        radio.port_ref().log,
        vec![
            MockOp::RstLow,
            MockOp::DelayMs(1),
            MockOp::RstHigh,
            MockOp::DelayMs(10),
        ]
    );
    for op in &radio.port_ref().log {
        assert!(!matches!(op, MockOp::Write(_)));
        assert!(!matches!(op, MockOp::Transfer(_, _)));
        assert!(!matches!(op, MockOp::CsLow));
        assert!(!matches!(op, MockOp::CsHigh));
    }
    radio.reset().unwrap();
    let log = &radio.port_ref().log;
    assert_eq!(log.len(), 8);
    assert_eq!(log[0..4], log[4..8]);
}

#[test]
fn status_returns_the_byte_the_chip_sent() {
    let mut port = MockPort::new();
    port.rx_byte = 0x42;
    let mut radio = Sx128x::new(port, Settings::default()).unwrap();
    let s = radio.status().unwrap();
    assert_eq!(s, 0x42);
    let log = &radio.port_ref().log;
    assert_eq!(
        log[4..],
        [
            MockOp::CsLow,
            MockOp::Write(vec![0xc0, 0x00]),
            MockOp::Transfer(vec![0x00], vec![0x42]),
            MockOp::CsHigh,
        ]
    );
}

#[test]
fn status_waits_out_a_busy_chip() {
    let mut port = MockPort::new();
    port.busy_polls = 5;
    port.rx_byte = 0x07;
    let mut radio = Sx128x::new(port, Settings::default()).unwrap();
    let s = radio.status().unwrap();
    assert_eq!(s, 0x07);
    assert_eq!(radio.port_ref().busy_polls, 0);
    assert_eq!(radio.port_ref().log.len(), 8);
}

#[test]
fn command_write_sends_opcode_then_payload_in_one_write() {
    let port = MockPort::new();
    let mut radio = Sx128x::new(port, Settings::default()).unwrap();
    radio.cmd_write(0x8e, &vec![0x1f, 0x00, 0x03]).unwrap();
    assert_eq!(
        radio.port_ref().log[4..],
        [
            MockOp::CsLow,
            MockOp::Write(vec![0x8e, 0x1f, 0x00, 0x03]),
            MockOp::CsHigh,
        ]
    );
}

#[test]
fn round_trip_write_then_read_frames_independently() {
    let mut port = MockPort::new();
    port.rx_byte = 0x5a;
    let mut radio = Sx128x::new(port, Settings::default()).unwrap();

    radio.cmd_write(0x1a, &vec![0xde, 0xad, 0xbe]).unwrap();
    let mut buffer = vec![0u8; 3];
    radio.cmd_read(0x1a, &mut buffer).unwrap();

    assert_eq!(buffer, vec![0x5a, 0x5a, 0x5a]);
    assert_eq!(
        radio.port_ref().log[4..],
        [
            MockOp::CsLow,
            MockOp::Write(vec![0x1a, 0xde, 0xad, 0xbe]),
            MockOp::CsHigh,
            MockOp::CsLow,
            // The read's command bytes are the opcode and a zero placeholder:
            // no payload byte of the write leaks into the read's framing.
            MockOp::Write(vec![0x1a, 0x00]),
            MockOp::Transfer(vec![0x00, 0x00, 0x00], vec![0x5a, 0x5a, 0x5a]),
            MockOp::CsHigh,
        ]
    );
}

#[test]
fn chip_select_transitions_alternate_and_balance() {
    let port = MockPort::new();
    let mut radio = Sx128x::new(port, Settings::default()).unwrap();
    radio.cmd_write(0x01, &vec![0x02]).unwrap();
    radio.status().unwrap();
    let mut buffer = vec![0u8; 2];
    radio.cmd_read(0x15, &mut buffer).unwrap();
    radio.cmd_write(0x03, &vec![]).unwrap();

    let mut lows: usize = 0;
    let mut highs: usize = 0;
    let mut selected = false;
    for op in &radio.port_ref().log {
        match op {
            MockOp::CsLow => {
                assert!(!selected, "chip select asserted twice in a row");
                selected = true;
                lows += 1;
            }
            MockOp::CsHigh => {
                assert!(selected, "chip select released while deasserted");
                selected = false;
                highs += 1;
            }
            _ => {}
        }
    }
    assert!(!selected, "chip select left asserted");
    assert_eq!(lows, 4);
    assert_eq!(lows, highs);
}

#[test]
fn settings_are_the_sole_construction_input() {
    let _ = Settings::default();
    let port = MockPort::new();
    assert!(Sx128x::<MockPort, u8, u8>::new(port, Settings::default()).is_ok());
}
