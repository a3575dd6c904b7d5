use can_gateway::can::{
    bus_state, error_level, error_report, handle_fifo, tx_header, BusState, CanId, Channel,
    DeviceBitTiming, ErrorLevel, ErrorSnapshot, Frame, FrameFlags, GatewayError,
    InterfaceState, RxHeader, StartPlan, TxHeader, UsbCanDevice, FEATURE_ONE_SHOT,
    STATUS_RX_PASSIVE, STATUS_RX_WARNING, STATUS_TX_PASSIVE, STATUS_TX_WARNING,
};

fn rx(len: u8, fdcan: bool, extended: bool, raw_id: u32, rtr: bool, brs: bool) -> RxHeader {
    RxHeader { len, fdcan, extended, raw_id, rtr, brs }
}

fn snapshot(tx: u8, rx: u8, bus_off: bool) -> ErrorSnapshot {
    ErrorSnapshot {
        tx_count: tx,
        rx_count: rx,
        rx_overflowed: false,
        bus_off,
        last_error_was_no_ack: false,
    }
}

fn valid_timing() -> DeviceBitTiming {
    DeviceBitTiming { prop_seg: 1, phase_seg1: 12, phase_seg2: 2, sjw: 1, brp: 10 }
}

#[test]
fn id_round_trip_standard_and_extended() {
    for (extended, raw) in [(false, 0u32), (false, 0x123), (false, 0x7FF), (true, 0), (true, 0x1ABC_DEF0), (true, 0x1FFF_FFFF)] {
        let id = CanId::from_raw(extended, raw).unwrap();
        assert_eq!(id.is_extended(), extended);
        assert_eq!(id.raw(), raw);
        assert_eq!(CanId::from_raw(id.is_extended(), id.raw()), Some(id));
    }
    assert_eq!(CanId::from_raw(false, 0x7FF), Some(CanId::Standard(0x7FF)));
    assert_eq!(CanId::from_raw(true, 0x800), Some(CanId::Extended(0x800)));
}

#[test]
fn id_out_of_range_is_rejected() {
    assert_eq!(CanId::from_raw(false, 0x800), None);
    assert_eq!(CanId::from_raw(true, 0x2000_0000), None);
    let frame = Frame {
        id: CanId::Standard(0x800),
        remote: false,
        len: 0,
        data: vec![],
        flags: FrameFlags { overflow: false, fd: false, brs: false },
    };
    assert_eq!(tx_header(&frame), Err(GatewayError::InvalidId));
}

#[test]
fn frame_flag_combinations_round_trip() {
    let data = [7u8; 64];
    for fdcan in [false, true] {
        for brs in [false, true] {
            for rtr in [false, true] {
                let h = rx(8, fdcan, false, 0x42, rtr, brs);
                let f = handle_fifo(h, &data).unwrap();
                assert_eq!(f.remote, rtr);
                assert_eq!(f.flags.fd, fdcan);
                assert_eq!(f.flags.brs, fdcan && brs);
                if !fdcan {
                    assert!(!f.flags.fd && !f.flags.brs);
                }
                let t = tx_header(&f).unwrap();
                assert_eq!(t.fdcan, fdcan);
                assert_eq!(t.brs, fdcan && brs);
                assert_eq!(t.extended, false);
                assert_eq!(t.raw_id, 0x42);
                assert_eq!(t.len, if rtr { 0 } else { 8 });
            }
        }
    }
}

#[test]
fn fd_frame_round_trips_through_headers() {
    let data: Vec<u8> = (0..64).collect();
    let h = rx(64, true, true, 0x1234_5678, false, true);
    let f = handle_fifo(h, &data).unwrap();
    assert_eq!(f.id, CanId::Extended(0x1234_5678));
    assert_eq!(f.data, data);
    assert_eq!(
        tx_header(&f),
        Ok(TxHeader { len: 64, fdcan: true, extended: true, raw_id: 0x1234_5678, brs: true })
    );
}

#[test]
fn receive_rejects_bad_headers() {
    let data = [0u8; 64];
    assert!(handle_fifo(rx(9, true, false, 1, false, false), &data).is_none());
    assert!(handle_fifo(rx(8, false, false, 0x800, false, false), &data).is_none());
    assert!(handle_fifo(rx(12, true, false, 1, false, false), &data[..8]).is_none());
    assert!(handle_fifo(rx(12, true, false, 1, false, false), &data[..12]).is_some());
}

#[test]
fn remote_frame_carries_length_without_payload() {
    let f = handle_fifo(rx(4, false, false, 0x10, true, false), &[]).unwrap();
    assert!(f.remote);
    assert_eq!(f.len, 4);
    assert!(f.data.is_empty());
}

#[test]
fn received_frames_carry_no_overflow_flag() {
    for fdcan in [false, true] {
        let f = handle_fifo(rx(1, fdcan, false, 5, false, false), &[9]).unwrap();
        assert!(!f.flags.overflow);
        assert_eq!(f.data, vec![9]);
    }
}

#[test]
fn transmit_rejects_invalid_length() {
    let frame = Frame {
        id: CanId::Standard(1),
        remote: false,
        len: 9,
        data: vec![0; 9],
        flags: FrameFlags { overflow: false, fd: true, brs: false },
    };
    assert_eq!(tx_header(&frame), Err(GatewayError::InvalidLength));
}

#[test]
fn classic_frame_never_sends_bit_rate_switching() {
    let frame = Frame {
        id: CanId::Standard(1),
        remote: false,
        len: 2,
        data: vec![1, 2],
        flags: FrameFlags { overflow: false, fd: false, brs: true },
    };
    let t = tx_header(&frame).unwrap();
    assert!(!t.fdcan);
    assert!(!t.brs);
}

#[test]
fn error_levels_follow_thresholds() {
    assert_eq!(error_level(0), ErrorLevel::Active);
    assert_eq!(error_level(95), ErrorLevel::Active);
    assert_eq!(error_level(96), ErrorLevel::Warning);
    assert_eq!(error_level(127), ErrorLevel::Warning);
    assert_eq!(error_level(128), ErrorLevel::Passive);
    assert_eq!(error_level(255), ErrorLevel::Passive);
}

#[test]
fn error_status_per_counter() {
    assert_eq!(error_report(snapshot(0, 0, false)).controller, 0);
    assert_eq!(error_report(snapshot(96, 0, false)).controller, STATUS_TX_WARNING);
    assert_eq!(error_report(snapshot(0, 96, false)).controller, STATUS_RX_WARNING);
    assert_eq!(error_report(snapshot(128, 0, false)).controller, STATUS_TX_PASSIVE);
    assert_eq!(error_report(snapshot(0, 128, false)).controller, STATUS_RX_PASSIVE);
    assert_eq!(
        error_report(snapshot(127, 200, false)).controller,
        STATUS_TX_WARNING | STATUS_RX_PASSIVE
    );
    let mut s = snapshot(0, 10, false);
    s.rx_overflowed = true;
    assert_eq!(error_report(s).controller, STATUS_RX_PASSIVE);
    s.last_error_was_no_ack = true;
    assert!(error_report(s).no_ack);
}

#[test]
fn bus_off_only_when_asserted() {
    assert_eq!(bus_state(snapshot(255, 255, false)), BusState::Passive);
    assert_eq!(bus_state(snapshot(0, 0, true)), BusState::BusOff);
    assert_eq!(bus_state(snapshot(100, 0, false)), BusState::Warning);
    assert_eq!(bus_state(snapshot(0, 0, false)), BusState::Active);
    assert!(!error_report(snapshot(255, 255, false)).bus_off);
    assert!(error_report(snapshot(0, 0, true)).bus_off);
}

#[test]
fn invalid_interface_is_reported() {
    let mut dev = UsbCanDevice::new(80_000_000);
    assert_eq!(dev.configure_bit_timing(2, valid_timing()), Err(GatewayError::InvalidInterface));
    assert_eq!(dev.configure_bit_timing_data(7, valid_timing()), Err(GatewayError::InvalidInterface));
    assert_eq!(dev.reset(2), Err(GatewayError::InvalidInterface));
    assert_eq!(dev.start(255, 0), Err(GatewayError::InvalidInterface));
    assert_eq!(dev.state(2, snapshot(0, 0, false)), Err(GatewayError::InvalidInterface));
    assert_eq!(dev, UsbCanDevice::new(80_000_000));
}

#[test]
fn bit_timing_is_range_checked() {
    let dev = UsbCanDevice::new(80_000_000);
    let (c, t) = dev.configure_bit_timing(1, valid_timing()).unwrap();
    assert_eq!(c, Channel::Can2);
    assert_eq!((t.prescaler, t.seg1, t.seg2, t.sync_jump_width), (10, 13, 2, 1));
    let mut bad = valid_timing();
    bad.brp = 512;
    assert_eq!(dev.configure_bit_timing(0, bad), Err(GatewayError::InvalidTiming));
    let mut bad = valid_timing();
    bad.sjw = 0;
    assert_eq!(dev.configure_bit_timing(0, bad), Err(GatewayError::InvalidTiming));
    let mut bad = valid_timing();
    bad.prop_seg = 200;
    bad.phase_seg1 = 56;
    assert_eq!(dev.configure_bit_timing(0, bad), Err(GatewayError::InvalidTiming));
    let mut bad = valid_timing();
    bad.prop_seg = u32::MAX;
    assert_eq!(dev.configure_bit_timing(0, bad), Err(GatewayError::InvalidTiming));
    let mut data = valid_timing();
    data.brp = 2;
    data.prop_seg = 10;
    data.phase_seg1 = 5;
    let (_, d) = dev.configure_bit_timing_data(0, data).unwrap();
    assert_eq!((d.prescaler, d.seg1, d.seg2, d.sync_jump_width), (2, 15, 2, 1));
    data.brp = 16;
    assert_eq!(dev.configure_bit_timing_data(0, data), Err(GatewayError::InvalidTiming));
}

#[test]
fn capabilities_describe_controller() {
    let dev = UsbCanDevice::new(80_000_000);
    assert_eq!(dev.config(), 2);
    let bt = dev.bit_timing();
    assert_eq!(bt.fclk_can, 80_000_000);
    assert_eq!(bt.features, 0x0508);
    assert_eq!((bt.timing.tseg1_max, bt.timing.tseg2_max, bt.timing.brp_max), (255, 127, 511));
    let ext = dev.bit_timing_ext();
    assert_eq!(ext.timing_nominal, bt.timing);
    assert_eq!((ext.timing_data.tseg1_max, ext.timing_data.sjw_max, ext.timing_data.brp_max), (31, 15, 15));
}

#[test]
fn start_and_reset_track_interface_state() {
    let mut dev = UsbCanDevice::new(80_000_000);
    assert_eq!(
        dev.start(0, FEATURE_ONE_SHOT),
        Ok(StartPlan { channel: Channel::Can1, automatic_retransmit: false })
    );
    assert_eq!(dev.can1, InterfaceState::Enabled);
    assert_eq!(dev.can2, InterfaceState::Disabled);
    assert_eq!(
        dev.start(1, 0),
        Ok(StartPlan { channel: Channel::Can2, automatic_retransmit: true })
    );
    assert_eq!(dev.reset(0), Ok(Channel::Can1));
    assert_eq!(dev.can1, InterfaceState::Disabled);
    assert_eq!(dev.can2, InterfaceState::Enabled);
}

#[test]
fn host_frame_routes_to_interface() {
    let dev = UsbCanDevice::new(80_000_000);
    let frame = Frame {
        id: CanId::Extended(0x1F),
        remote: false,
        len: 3,
        data: vec![1, 2, 3],
        flags: FrameFlags { overflow: false, fd: true, brs: true },
    };
    assert_eq!(
        dev.receive(1, &frame),
        Ok((Channel::Can2, TxHeader { len: 3, fdcan: true, extended: true, raw_id: 0x1F, brs: true }))
    );
    assert_eq!(dev.receive(3, &frame), Err(GatewayError::InvalidInterface));
}

#[test]
fn end_to_end_standard_frame() {
    let mut dev = UsbCanDevice::new(80_000_000);
    assert!(dev.configure_bit_timing(0, valid_timing()).is_ok());
    assert!(dev.start(0, 0).is_ok());
    let mut fifo = [0u8; 64];
    fifo[..4].copy_from_slice(&[0xDE, 0xAD, 0xBE, 0xEF]);
    let emitted: Vec<Frame> = handle_fifo(rx(4, false, false, 0x123, false, false), &fifo)
        .into_iter()
        .collect();
    assert_eq!(emitted.len(), 1);
    let f = &emitted[0];
    assert_eq!(f.id, CanId::Standard(0x123));
    assert_eq!(f.data, vec![0xDE, 0xAD, 0xBE, 0xEF]);
    assert_eq!(f.flags, FrameFlags { overflow: false, fd: false, brs: false });
    assert!(!f.remote);
    let state = dev.state(0, snapshot(0, 0, false)).unwrap();
    assert_eq!(state.state, BusState::Active);
    assert_eq!(error_report(snapshot(0, 0, false)).controller, 0);
}
