use sx128x::{MockOp, MockPort, Settings, Sx128x, Sx128xError, MOCK_FAULT};

#[test]
fn transfer_fault_reports_spi_kind_and_releases_chip_select() {
    let mut port = MockPort::new();
    port.fail_transfer = true;
    let mut radio = Sx128x::new(port, Settings::default()).unwrap();
    let mut buffer = vec![0u8; 1];
    let r = radio.cmd_read(0xc0, &mut buffer);
    assert_eq!(r, Err(Sx128xError::Spi(MOCK_FAULT)));
    // The command bytes went out, the data phase faulted, and chip select
    // was still driven back high before the error propagated.
    assert_eq!(
        radio.port_ref().log[4..],
        [
            MockOp::CsLow,
            MockOp::Write(vec![0xc0, 0x00]),
            MockOp::CsHigh,
        ]
    );
}

#[test]
fn busy_fault_reports_pin_kind_and_causes_no_bus_traffic() {
    let mut port = MockPort::new();
    port.fail_busy = true;
    let mut radio = Sx128x::new(port, Settings::default()).unwrap();
    let before = radio.port_ref().log.len();
    let r = radio.status();
    assert_eq!(r, Err(Sx128xError::Pin(MOCK_FAULT)));
    assert_eq!(radio.port_ref().log.len(), before);
}

#[test]
fn write_fault_reports_spi_kind_and_releases_chip_select() {
    let mut port = MockPort::new();
    port.fail_write = true;
    let mut radio = Sx128x::new(port, Settings::default()).unwrap();
    let r = radio.cmd_write(0x77, &vec![0x01]);
    assert_eq!(r, Err(Sx128xError::Spi(MOCK_FAULT)));
    assert_eq!(radio.port_ref().log[4..], [MockOp::CsLow, MockOp::CsHigh]);
}

#[test]
fn chip_select_assert_fault_reports_pin_kind() {
    let mut port = MockPort::new();
    port.fail_cs_low = true;
    let mut radio = Sx128x::new(port, Settings::default()).unwrap();
    let r = radio.cmd_write(0x77, &vec![]);
    assert_eq!(r, Err(Sx128xError::Pin(MOCK_FAULT)));
    assert_eq!(radio.port_ref().log.len(), 4);
}

#[test]
fn chip_select_release_fault_reports_pin_kind() {
    let mut port = MockPort::new();
    port.fail_cs_high = true;
    let mut radio = Sx128x::new(port, Settings::default()).unwrap();
    let r = radio.cmd_write(0x77, &vec![0x09]);
    assert_eq!(r, Err(Sx128xError::Pin(MOCK_FAULT)));
    assert_eq!(
        radio.port_ref().log[4..],
        [MockOp::CsLow, MockOp::Write(vec![0x77, 0x09])]
    );
}

#[test]
fn reset_pin_fault_fails_construction_with_pin_kind() {
    let mut port = MockPort::new();
    port.fail_reset_low = true;
    let r = Sx128x::new(port, Settings::default());
    assert_eq!(r.err(), Some(Sx128xError::Pin(MOCK_FAULT)));
}

#[test]
fn reset_release_fault_fails_construction_with_pin_kind() {
    let mut port = MockPort::new();
    port.fail_reset_high = true;
    let r = Sx128x::new(port, Settings::default());
    assert_eq!(r.err(), Some(Sx128xError::Pin(MOCK_FAULT)));
}

#[test]
fn stashed_error_is_checked_and_cleared() {
    let port = MockPort::new();
    let mut radio: Sx128x<MockPort, u8, u8> =
        Sx128x::new(port, Settings::default()).unwrap();
    assert_eq!(radio.take_error(), None);
    radio.stash_error(Sx128xError::Pin(MOCK_FAULT));
    assert_eq!(radio.take_error(), Some(Sx128xError::Pin(MOCK_FAULT)));
    assert_eq!(radio.take_error(), None);
}
