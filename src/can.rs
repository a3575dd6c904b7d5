//! Controller area network gateway logic.
//!
//! Translates between the receive/transmit headers of the CAN FD
//! controllers and the frames exchanged with the USB host, validates bit
//! timing requests against the limits advertised to the host, routes host
//! requests to one of the two interfaces and classifies error counters.

use vstd::prelude::*;

verus! {

/// Largest standard (11-bit) identifier.
pub const STANDARD_ID_MAX: u16 = 0x7FF;
/// Largest extended (29-bit) identifier.
pub const EXTENDED_ID_MAX: u32 = 0x1FFF_FFFF;

/// Error counter value from which a node is in the warning state.
pub const WARNING_THRESHOLD: u8 = 96;
/// Error counter value from which a node is error passive.
pub const PASSIVE_THRESHOLD: u8 = 128;

/// Host feature bit: transmit without automatic retransmission.
pub const FEATURE_ONE_SHOT: u32 = 0x0000_0008;

/// Controller status bit: receive error counter in the warning range.
pub const STATUS_RX_WARNING: u8 = 0x04;
/// Controller status bit: transmit error counter in the warning range.
pub const STATUS_TX_WARNING: u8 = 0x08;
/// Controller status bit: receiver error passive.
pub const STATUS_RX_PASSIVE: u8 = 0x10;
/// Controller status bit: transmitter error passive.
pub const STATUS_TX_PASSIVE: u8 = 0x20;

/// A CAN identifier.
#[derive(Debug, Clone, Copy, PartialEq, Eq, Structural)]
pub enum CanId {
    /// An 11-bit identifier.
    Standard(u16),
    /// A 29-bit identifier.
    Extended(u32),
}

impl CanId {
    /// Whether the identifier fits its format.
    pub open spec fn valid(self) -> bool {
        match self {
            CanId::Standard(raw) => raw <= STANDARD_ID_MAX,
            CanId::Extended(raw) => raw <= EXTENDED_ID_MAX,
        }
    }

    pub open spec fn spec_is_extended(&self) -> bool {
        *self is Extended
    }

    pub open spec fn spec_raw(&self) -> u32 {
        match *self {
            CanId::Standard(raw) => raw as u32,
            CanId::Extended(raw) => raw,
        }
    }

    /// The identifier of the given format with the given bits, if they fit.
    pub fn from_raw(extended: bool, raw: u32) -> (r: Option<CanId>)
        ensures
            r == id_of(extended, raw),
    {
        if extended {
            if raw <= EXTENDED_ID_MAX {
                Some(CanId::Extended(raw))
            } else {
                None
            }
        } else if raw <= STANDARD_ID_MAX as u32 {
            Some(CanId::Standard(raw as u16))
        } else {
            None
        }
    }

    /// Whether this is an extended identifier.
    #[verifier::when_used_as_spec(spec_is_extended)]
    pub fn is_extended(&self) -> (r: bool)
        ensures
            r == self.spec_is_extended(),
    {
        match self {
            CanId::Standard(_) => false,
            CanId::Extended(_) => true,
        }
    }

    /// The identifier bits.
    #[verifier::when_used_as_spec(spec_raw)]
    pub fn raw(&self) -> (r: u32)
        ensures
            r == self.spec_raw(),
    {
        match self {
            CanId::Standard(raw) => *raw as u32,
            CanId::Extended(raw) => *raw,
        }
    }
}

/// The identifier of the given format with the given bits, if they fit.
pub open spec fn id_of(extended: bool, raw: u32) -> Option<CanId> {
    if extended {
        if raw <= EXTENDED_ID_MAX {
            Some(CanId::Extended(raw))
        } else {
            None
        }
    } else if raw <= STANDARD_ID_MAX {
        Some(CanId::Standard(raw as u16))
    } else {
        None
    }
}

/// Whether `len` is a payload length that a data length code can express.
pub open spec fn is_dlc_len(len: int) -> bool {
    (0 <= len <= 8) || len == 12 || len == 16 || len == 20 || len == 24 || len == 32 || len
        == 48 || len == 64
}

/// Whether `len` is a payload length that a data length code can express.
pub fn valid_len(len: usize) -> (r: bool)
    ensures
        r == is_dlc_len(len as int),
{
    len <= 8 || len == 12 || len == 16 || len == 20 || len == 24 || len == 32 || len == 48 || len
        == 64
}

/// Per-frame flags exchanged with the host.
#[derive(Debug, Clone, Copy, PartialEq, Eq, Structural)]
pub struct FrameFlags {
    /// The receive FIFO overran before this frame was read.
    pub overflow: bool,
    /// CAN FD frame format.
    pub fd: bool,
    /// CAN FD bit rate switching.
    pub brs: bool,
}

/// Header of a frame read from a controller receive FIFO.
#[derive(Debug, Clone, Copy, PartialEq, Eq, Structural)]
pub struct RxHeader {
    /// Payload length in bytes (requested length for a remote frame).
    pub len: u8,
    /// Received in CAN FD format.
    pub fdcan: bool,
    /// Extended identifier format.
    pub extended: bool,
    /// Identifier bits.
    pub raw_id: u32,
    /// Remote transmission request.
    pub rtr: bool,
    /// Received with bit rate switching.
    pub brs: bool,
}

/// Header of a frame handed to a controller for transmission.
#[derive(Debug, Clone, Copy, PartialEq, Eq, Structural)]
pub struct TxHeader {
    /// Payload length in bytes.
    pub len: u8,
    /// Send in CAN FD format.
    pub fdcan: bool,
    /// Extended identifier format.
    pub extended: bool,
    /// Identifier bits.
    pub raw_id: u32,
    /// Send with bit rate switching.
    pub brs: bool,
}

/// A frame as exchanged with the host.
#[derive(Debug, Clone, PartialEq, Eq)]
pub struct Frame {
    pub id: CanId,
    /// Remote transmission request: `len` is requested, `data` is empty.
    pub remote: bool,
    /// Payload length in bytes.
    pub len: u8,
    pub data: Vec<u8>,
    pub flags: FrameFlags,
}

impl Frame {
    /// A frame that the host protocol can carry.
    pub open spec fn wf(&self) -> bool {
        &&& self.id.valid()
        &&& is_dlc_len(self.len as int)
        &&& if self.remote {
            self.data@.len() == 0
        } else {
            self.data@.len() == self.len
        }
    }
}

/// The host flags of a received frame: bit rate switching only on a CAN FD
/// frame. A FIFO overrun is telemetry of the controller, reported apart
/// from the frames, so it never sets the overflow flag of a frame.
pub open spec fn rx_flags(h: RxHeader) -> FrameFlags {
    FrameFlags { overflow: false, fd: h.fdcan, brs: h.fdcan && h.brs }
}

/// Whether a received header and the payload read with it make a frame.
pub open spec fn rx_accepted(h: RxHeader, data: Seq<u8>) -> bool {
    &&& id_of(h.extended, h.raw_id) is Some
    &&& is_dlc_len(h.len as int)
    &&& (h.rtr || h.len <= data.len())
}

/// The payload of a received frame: none for a remote frame, else the
/// first `len` bytes read.
pub open spec fn rx_payload(h: RxHeader, data: Seq<u8>) -> Seq<u8> {
    if h.rtr {
        Seq::empty()
    } else {
        data.take(h.len as int)
    }
}

/// The transmit header for a frame with identifier `id`, flags `flags` and
/// `len` payload bytes: bit rate switching only on a CAN FD frame.
pub open spec fn tx_header_of(id: CanId, flags: FrameFlags, len: nat) -> TxHeader {
    TxHeader {
        len: len as u8,
        fdcan: flags.fd,
        extended: id.is_extended(),
        raw_id: id.raw(),
        brs: flags.fd && flags.brs,
    }
}

/// Ingest the frame read from a receive FIFO.
///
/// `data` holds the payload read with `header`. Returns `None` when the
/// header's identifier does not fit its format, its length is not a valid
/// data length or the payload is shorter than the length.
pub fn handle_fifo(header: RxHeader, data: &[u8]) -> (r: Option<Frame>)
    ensures
        r is Some <==> rx_accepted(header, data@),
        r is Some ==> {
            let f = r->Some_0;
            &&& f.wf()
            &&& Some(f.id) == id_of(header.extended, header.raw_id)
            &&& f.remote == header.rtr
            &&& f.len == header.len
            &&& f.data@ == rx_payload(header, data@)
            &&& f.flags == rx_flags(header)
        },
{
    let id = match CanId::from_raw(header.extended, header.raw_id) {
        Some(id) => id,
        None => return None,
    };
    let len = header.len as usize;
    if !valid_len(len) {
        return None;
    }
    let flags = FrameFlags {
        overflow: false,
        fd: header.fdcan,
        brs: header.fdcan && header.brs,
    };
    if header.rtr {
        return Some(Frame { id, remote: true, len: header.len, data: Vec::new(), flags });
    }
    if len > data.len() {
        return None;
    }
    let mut payload: Vec<u8> = Vec::new();
    let mut i: usize = 0;
    while i < len
        invariant
            len <= data@.len(),
            i <= len,
            payload@ =~= data@.take(i as int),
        decreases len - i,
    {
        payload.push(data[i]);
        i = i + 1;
    }
    assert(payload@ =~= data@.take(len as int));
    Some(Frame { id, remote: false, len: header.len, data: payload, flags })
}

/// Gateway request error.
#[derive(Debug, Clone, Copy, PartialEq, Eq, Structural)]
pub enum GatewayError {
    /// The interface number is not in use.
    InvalidInterface,
    /// A bit timing field is outside the advertised limits.
    InvalidTiming,
    /// The identifier does not fit its format.
    InvalidId,
    /// The payload length is not a valid data length.
    InvalidLength,
}

/// The transmit header for a frame from the host.
///
/// Identifiers that do not fit their format and payloads whose length no
/// data length code expresses are rejected before reaching a controller.
pub fn tx_header(frame: &Frame) -> (r: Result<TxHeader, GatewayError>)
    ensures
        !frame.id.valid() ==> r == Err::<TxHeader, GatewayError>(GatewayError::InvalidId),
        frame.id.valid() && !is_dlc_len(frame.data@.len() as int) ==> r == Err::<
            TxHeader,
            GatewayError,
        >(GatewayError::InvalidLength),
        frame.id.valid() && is_dlc_len(frame.data@.len() as int) ==> r == Ok::<
            TxHeader,
            GatewayError,
        >(tx_header_of(frame.id, frame.flags, frame.data@.len())),
{
    let valid_id = match frame.id {
        CanId::Standard(raw) => raw <= STANDARD_ID_MAX,
        CanId::Extended(raw) => raw <= EXTENDED_ID_MAX,
    };
    if !valid_id {
        return Err(GatewayError::InvalidId);
    }
    if !valid_len(frame.data.len()) {
        return Err(GatewayError::InvalidLength);
    }
    Ok(
        TxHeader {
            len: frame.data.len() as u8,
            fdcan: frame.flags.fd,
            extended: frame.id.is_extended(),
            raw_id: frame.id.raw(),
            brs: frame.flags.fd && frame.flags.brs,
        },
    )
}

/// Bit timing as requested by the host, in time quanta.
#[derive(Debug, Clone, Copy, PartialEq, Eq, Structural)]
pub struct DeviceBitTiming {
    pub prop_seg: u32,
    pub phase_seg1: u32,
    pub phase_seg2: u32,
    pub sjw: u32,
    pub brp: u32,
}

/// The ranges of bit timing values a controller accepts, as advertised to
/// the host.
#[derive(Debug, Clone, Copy, PartialEq, Eq, Structural)]
pub struct BitTimingLimits {
    pub tseg1_min: u32,
    pub tseg1_max: u32,
    pub tseg2_min: u32,
    pub tseg2_max: u32,
    pub sjw_max: u32,
    pub brp_min: u32,
    pub brp_max: u32,
    pub brp_inc: u32,
}

/// Nominal (arbitration phase) limits of the controllers.
pub open spec fn spec_nominal_limits() -> BitTimingLimits {
    BitTimingLimits {
        tseg1_min: 1,
        tseg1_max: 255,
        tseg2_min: 1,
        tseg2_max: 127,
        sjw_max: 127,
        brp_min: 1,
        brp_max: 511,
        brp_inc: 1,
    }
}

/// Data phase limits of the controllers.
pub open spec fn spec_data_limits() -> BitTimingLimits {
    BitTimingLimits {
        tseg1_min: 1,
        tseg1_max: 31,
        tseg2_min: 1,
        tseg2_max: 15,
        sjw_max: 15,
        brp_min: 1,
        brp_max: 15,
        brp_inc: 1,
    }
}

/// Nominal (arbitration phase) limits of the controllers.
pub fn nominal_limits() -> (r: BitTimingLimits)
    ensures
        r == spec_nominal_limits(),
{
    BitTimingLimits {
        tseg1_min: 1,
        tseg1_max: 255,
        tseg2_min: 1,
        tseg2_max: 127,
        sjw_max: 127,
        brp_min: 1,
        brp_max: 511,
        brp_inc: 1,
    }
}

/// Data phase limits of the controllers.
pub fn data_limits() -> (r: BitTimingLimits)
    ensures
        r == spec_data_limits(),
{
    BitTimingLimits {
        tseg1_min: 1,
        tseg1_max: 31,
        tseg2_min: 1,
        tseg2_max: 15,
        sjw_max: 15,
        brp_min: 1,
        brp_max: 15,
        brp_inc: 1,
    }
}

/// Whether a requested timing lies within `limits`; the first segment is
/// the propagation segment plus phase segment 1.
pub open spec fn timing_within(t: DeviceBitTiming, limits: BitTimingLimits) -> bool {
    &&& limits.brp_min <= t.brp <= limits.brp_max
    &&& limits.tseg1_min <= t.prop_seg + t.phase_seg1 <= limits.tseg1_max
    &&& limits.tseg2_min <= t.phase_seg2 <= limits.tseg2_max
    &&& 1 <= t.sjw <= limits.sjw_max
}

fn check_timing(t: DeviceBitTiming, limits: BitTimingLimits) -> (r: bool)
    requires
        limits.tseg1_max <= 255,
    ensures
        r == timing_within(t, limits),
{
    limits.brp_min <= t.brp && t.brp <= limits.brp_max && t.prop_seg <= limits.tseg1_max
        && t.phase_seg1 <= limits.tseg1_max && limits.tseg1_min <= t.prop_seg + t.phase_seg1
        && t.prop_seg + t.phase_seg1 <= limits.tseg1_max && limits.tseg2_min <= t.phase_seg2
        && t.phase_seg2 <= limits.tseg2_max && 1 <= t.sjw && t.sjw <= limits.sjw_max
}

/// Nominal bit timing register values.
#[derive(Debug, Clone, Copy, PartialEq, Eq, Structural)]
pub struct NominalTiming {
    pub prescaler: u16,
    pub seg1: u8,
    pub seg2: u8,
    pub sync_jump_width: u8,
}

/// Data phase bit timing register values.
#[derive(Debug, Clone, Copy, PartialEq, Eq, Structural)]
pub struct DataTiming {
    pub prescaler: u8,
    pub seg1: u8,
    pub seg2: u8,
    pub sync_jump_width: u8,
}

/// One of the two CAN interfaces.
#[derive(Debug, Clone, Copy, PartialEq, Eq, Structural)]
pub enum Channel {
    /// Interface 0, labeled "CAN1".
    Can1,
    /// Interface 1, labeled "CAN2".
    Can2,
}

/// The interface that host interface number `interface` addresses.
pub open spec fn channel_of(interface: u8) -> Option<Channel> {
    if interface == 0 {
        Some(Channel::Can1)
    } else if interface == 1 {
        Some(Channel::Can2)
    } else {
        None
    }
}

/// The interface that host interface number `interface` addresses.
pub fn channel(interface: u8) -> (r: Option<Channel>)
    ensures
        r == channel_of(interface),
{
    match interface {
        0 => Some(Channel::Can1),
        1 => Some(Channel::Can2),
        _ => None,
    }
}

/// Error level of a single error counter.
#[derive(Debug, Clone, Copy, PartialEq, Eq, Structural)]
pub enum ErrorLevel {
    Active,
    Warning,
    Passive,
}

/// Error level of a counter value: active below 96, warning from 96 to
/// 127, passive from 128.
pub open spec fn level_of(count: u8) -> ErrorLevel {
    if count < WARNING_THRESHOLD {
        ErrorLevel::Active
    } else if count < PASSIVE_THRESHOLD {
        ErrorLevel::Warning
    } else {
        ErrorLevel::Passive
    }
}

/// Error level of a counter value.
pub fn error_level(count: u8) -> (r: ErrorLevel)
    ensures
        r == level_of(count),
{
    if count < WARNING_THRESHOLD {
        ErrorLevel::Active
    } else if count < PASSIVE_THRESHOLD {
        ErrorLevel::Warning
    } else {
        ErrorLevel::Passive
    }
}

/// Error counters and status sampled from a controller.
#[derive(Debug, Clone, Copy, PartialEq, Eq, Structural)]
pub struct ErrorSnapshot {
    /// Transmit error counter.
    pub tx_count: u8,
    /// Receive error counter.
    pub rx_count: u8,
    /// The receive error counter passed its range (receiver error passive).
    pub rx_overflowed: bool,
    /// The controller is bus-off.
    pub bus_off: bool,
    /// The last error was a missing acknowledgement.
    pub last_error_was_no_ack: bool,
}

/// Error level of the receiver.
pub open spec fn rx_level(s: ErrorSnapshot) -> ErrorLevel {
    if s.rx_overflowed {
        ErrorLevel::Passive
    } else {
        level_of(s.rx_count)
    }
}

/// State of a CAN interface on the bus.
#[derive(Debug, Clone, Copy, PartialEq, Eq, Structural)]
pub enum BusState {
    Active,
    Warning,
    Passive,
    BusOff,
}

/// The bus state: bus-off exactly when the controller asserts it, else the
/// worse of the two counters' levels.
pub open spec fn bus_state_of(s: ErrorSnapshot) -> BusState {
    if s.bus_off {
        BusState::BusOff
    } else if level_of(s.tx_count) == ErrorLevel::Passive || rx_level(s) == ErrorLevel::Passive {
        BusState::Passive
    } else if level_of(s.tx_count) == ErrorLevel::Warning || rx_level(s) == ErrorLevel::Warning {
        BusState::Warning
    } else {
        BusState::Active
    }
}

/// The controller status bits for the levels of the two counters.
pub open spec fn status_bits_of(s: ErrorSnapshot) -> u8 {
    (if level_of(s.tx_count) == ErrorLevel::Warning {
        STATUS_TX_WARNING
    } else {
        0u8
    }) | (if level_of(s.tx_count) == ErrorLevel::Passive {
        STATUS_TX_PASSIVE
    } else {
        0u8
    }) | (if rx_level(s) == ErrorLevel::Warning {
        STATUS_RX_WARNING
    } else {
        0u8
    }) | (if rx_level(s) == ErrorLevel::Passive {
        STATUS_RX_PASSIVE
    } else {
        0u8
    })
}

/// The bus state of a sampled controller.
pub fn bus_state(s: ErrorSnapshot) -> (r: BusState)
    ensures
        r == bus_state_of(s),
{
    let tx = error_level(s.tx_count);
    let rx = if s.rx_overflowed {
        ErrorLevel::Passive
    } else {
        error_level(s.rx_count)
    };
    if s.bus_off {
        BusState::BusOff
    } else if tx == ErrorLevel::Passive || rx == ErrorLevel::Passive {
        BusState::Passive
    } else if tx == ErrorLevel::Warning || rx == ErrorLevel::Warning {
        BusState::Warning
    } else {
        BusState::Active
    }
}

/// An error report for the host.
#[derive(Debug, Clone, Copy, PartialEq, Eq, Structural)]
pub struct ErrorReport {
    /// Controller status bits (`STATUS_*`).
    pub controller: u8,
    /// The last error was a missing acknowledgement.
    pub no_ack: bool,
    /// The controller is bus-off.
    pub bus_off: bool,
    /// Transmit error counter.
    pub tx_count: u8,
    /// Receive error counter.
    pub rx_count: u8,
}

/// Converts sampled counters and status into the report for the host.
pub fn error_report(s: ErrorSnapshot) -> (r: ErrorReport)
    ensures
        r == (ErrorReport {
            controller: status_bits_of(s),
            no_ack: s.last_error_was_no_ack,
            bus_off: s.bus_off,
            tx_count: s.tx_count,
            rx_count: s.rx_count,
        }),
{
    let tx = error_level(s.tx_count);
    let rx = if s.rx_overflowed {
        ErrorLevel::Passive
    } else {
        error_level(s.rx_count)
    };
    let tx_warning: u8 = if tx == ErrorLevel::Warning {
        STATUS_TX_WARNING
    } else {
        0
    };
    let tx_passive: u8 = if tx == ErrorLevel::Passive {
        STATUS_TX_PASSIVE
    } else {
        0
    };
    let rx_warning: u8 = if rx == ErrorLevel::Warning {
        STATUS_RX_WARNING
    } else {
        0
    };
    let rx_passive: u8 = if rx == ErrorLevel::Passive {
        STATUS_RX_PASSIVE
    } else {
        0
    };
    ErrorReport {
        controller: tx_warning | tx_passive | rx_warning | rx_passive,
        no_ack: s.last_error_was_no_ack,
        bus_off: s.bus_off,
        tx_count: s.tx_count,
        rx_count: s.rx_count,
    }
}

/// Host feature bit: CAN FD.
pub const FEATURE_FD: u32 = 0x0000_0100;
/// Host feature bit: extended bit timing limits are available.
pub const FEATURE_BT_CONST_EXT: u32 = 0x0000_0400;

/// Features advertised to the host: CAN FD, extended bit timing limits and
/// one-shot transmission.
pub open spec fn spec_features() -> u32 {
    FEATURE_FD | FEATURE_BT_CONST_EXT | FEATURE_ONE_SHOT
}

/// Whether an interface takes part on the bus.
#[derive(Debug, Clone, Copy, PartialEq, Eq, Structural)]
pub enum InterfaceState {
    Disabled,
    Enabled,
}

/// Bit timing description for the host's timing solver.
#[derive(Debug, Clone, Copy, PartialEq, Eq, Structural)]
pub struct DeviceBitTimingConst {
    pub features: u32,
    /// Controller clock in hertz.
    pub fclk_can: u32,
    pub timing: BitTimingLimits,
}

/// Bit timing description including the data phase.
#[derive(Debug, Clone, Copy, PartialEq, Eq, Structural)]
pub struct DeviceBitTimingConstExtended {
    pub features: u32,
    /// Controller clock in hertz.
    pub fclk_can: u32,
    pub timing_nominal: BitTimingLimits,
    pub timing_data: BitTimingLimits,
}

/// How to start an interface.
#[derive(Debug, Clone, Copy, PartialEq, Eq, Structural)]
pub struct StartPlan {
    pub channel: Channel,
    /// Retransmit frames that were not acknowledged; off in one-shot mode.
    pub automatic_retransmit: bool,
}

/// Interface state reported to the host.
#[derive(Debug, Clone, Copy, PartialEq, Eq, Structural)]
pub struct DeviceState {
    pub state: BusState,
    pub tx_errors: u32,
    pub rx_errors: u32,
}

/// The USB to CAN gateway: routes host requests to the two interfaces.
#[derive(Debug, Clone, Copy, PartialEq, Eq, Structural)]
pub struct UsbCanDevice {
    /// CAN peripheral clock in hertz. Used by the host for bit timing
    /// calculations.
    pub clock_hz: u32,
    /// State of the interface labeled "CAN1" on the PCB.
    pub can1: InterfaceState,
    /// State of the interface labeled "CAN2" on the PCB.
    pub can2: InterfaceState,
}

impl UsbCanDevice {
    /// The state of interface `c`.
    pub open spec fn state_of(self, c: Channel) -> InterfaceState {
        match c {
            Channel::Can1 => self.can1,
            Channel::Can2 => self.can2,
        }
    }

    /// `self` with interface `c` in state `st`.
    pub open spec fn with_state(self, c: Channel, st: InterfaceState) -> UsbCanDevice {
        match c {
            Channel::Can1 => UsbCanDevice { can1: st, ..self },
            Channel::Can2 => UsbCanDevice { can2: st, ..self },
        }
    }

    /// A gateway whose controllers run from a `clock_hz` clock, both
    /// interfaces disabled.
    pub fn new(clock_hz: u32) -> (r: Self)
        ensures
            r == (UsbCanDevice {
                clock_hz,
                can1: InterfaceState::Disabled,
                can2: InterfaceState::Disabled,
            }),
    {
        UsbCanDevice { clock_hz, can1: InterfaceState::Disabled, can2: InterfaceState::Disabled }
    }

    /// Number of interfaces.
    pub fn config(&self) -> (r: u8)
        ensures
            r == 2,
    {
        2
    }

    /// The nominal bit timing limits and the controller clock.
    pub fn bit_timing(&self) -> (r: DeviceBitTimingConst)
        ensures
            r == (DeviceBitTimingConst {
                features: spec_features(),
                fclk_can: self.clock_hz,
                timing: spec_nominal_limits(),
            }),
    {
        DeviceBitTimingConst {
            features: FEATURE_FD | FEATURE_BT_CONST_EXT | FEATURE_ONE_SHOT,
            fclk_can: self.clock_hz,
            timing: nominal_limits(),
        }
    }

    /// The nominal and data bit timing limits and the controller clock.
    pub fn bit_timing_ext(&self) -> (r: DeviceBitTimingConstExtended)
        ensures
            r == (DeviceBitTimingConstExtended {
                features: spec_features(),
                fclk_can: self.clock_hz,
                timing_nominal: spec_nominal_limits(),
                timing_data: spec_data_limits(),
            }),
    {
        DeviceBitTimingConstExtended {
            features: FEATURE_FD | FEATURE_BT_CONST_EXT | FEATURE_ONE_SHOT,
            fclk_can: self.clock_hz,
            timing_nominal: nominal_limits(),
            timing_data: data_limits(),
        }
    }

    /// The nominal timing registers for a host request on `interface`.
    pub fn configure_bit_timing(&self, interface: u8, timing: DeviceBitTiming) -> (r: Result<
        (Channel, NominalTiming),
        GatewayError,
    >)
        ensures
            channel_of(interface) is None ==> r == Err::<(Channel, NominalTiming), GatewayError>(
                GatewayError::InvalidInterface,
            ),
            channel_of(interface) is Some && !timing_within(timing, spec_nominal_limits()) ==> r
                == Err::<(Channel, NominalTiming), GatewayError>(GatewayError::InvalidTiming),
            channel_of(interface) is Some && timing_within(timing, spec_nominal_limits()) ==> r
                == Ok::<(Channel, NominalTiming), GatewayError>(
                (
                    channel_of(interface)->Some_0,
                    NominalTiming {
                        prescaler: timing.brp as u16,
                        seg1: (timing.prop_seg + timing.phase_seg1) as u8,
                        seg2: timing.phase_seg2 as u8,
                        sync_jump_width: timing.sjw as u8,
                    },
                ),
            ),
    {
        let c = match channel(interface) {
            Some(c) => c,
            None => return Err(GatewayError::InvalidInterface),
        };
        if !check_timing(timing, nominal_limits()) {
            return Err(GatewayError::InvalidTiming);
        }
        Ok(
            (
                c,
                NominalTiming {
                    prescaler: timing.brp as u16,
                    seg1: (timing.prop_seg + timing.phase_seg1) as u8,
                    seg2: timing.phase_seg2 as u8,
                    sync_jump_width: timing.sjw as u8,
                },
            ),
        )
    }

    /// The data phase timing registers for a host request on `interface`.
    pub fn configure_bit_timing_data(&self, interface: u8, timing: DeviceBitTiming) -> (r: Result<
        (Channel, DataTiming),
        GatewayError,
    >)
        ensures
            channel_of(interface) is None ==> r == Err::<(Channel, DataTiming), GatewayError>(
                GatewayError::InvalidInterface,
            ),
            channel_of(interface) is Some && !timing_within(timing, spec_data_limits()) ==> r
                == Err::<(Channel, DataTiming), GatewayError>(GatewayError::InvalidTiming),
            channel_of(interface) is Some && timing_within(timing, spec_data_limits()) ==> r
                == Ok::<(Channel, DataTiming), GatewayError>(
                (
                    channel_of(interface)->Some_0,
                    DataTiming {
                        prescaler: timing.brp as u8,
                        seg1: (timing.prop_seg + timing.phase_seg1) as u8,
                        seg2: timing.phase_seg2 as u8,
                        sync_jump_width: timing.sjw as u8,
                    },
                ),
            ),
    {
        let c = match channel(interface) {
            Some(c) => c,
            None => return Err(GatewayError::InvalidInterface),
        };
        if !check_timing(timing, data_limits()) {
            return Err(GatewayError::InvalidTiming);
        }
        Ok(
            (
                c,
                DataTiming {
                    prescaler: timing.brp as u8,
                    seg1: (timing.prop_seg + timing.phase_seg1) as u8,
                    seg2: timing.phase_seg2 as u8,
                    sync_jump_width: timing.sjw as u8,
                },
            ),
        )
    }

    /// Disables `interface`; frames still in its receive FIFOs are left
    /// unread.
    pub fn reset(&mut self, interface: u8) -> (r: Result<Channel, GatewayError>)
        ensures
            channel_of(interface) is None ==> r == Err::<Channel, GatewayError>(
                GatewayError::InvalidInterface,
            ) && *final(self) == *old(self),
            channel_of(interface) is Some ==> r == Ok::<Channel, GatewayError>(
                channel_of(interface)->Some_0,
            ) && *final(self) == old(self).with_state(
                channel_of(interface)->Some_0,
                InterfaceState::Disabled,
            ),
    {
        let c = match channel(interface) {
            Some(c) => c,
            None => return Err(GatewayError::InvalidInterface),
        };
        match c {
            Channel::Can1 => self.can1 = InterfaceState::Disabled,
            Channel::Can2 => self.can2 = InterfaceState::Disabled,
        }
        Ok(c)
    }

    /// Enables `interface` with the host's `features`: automatic
    /// retransmission is off exactly when one-shot mode is requested.
    pub fn start(&mut self, interface: u8, features: u32) -> (r: Result<StartPlan, GatewayError>)
        ensures
            channel_of(interface) is None ==> r == Err::<StartPlan, GatewayError>(
                GatewayError::InvalidInterface,
            ) && *final(self) == *old(self),
            channel_of(interface) is Some ==> r == Ok::<StartPlan, GatewayError>(
                StartPlan {
                    channel: channel_of(interface)->Some_0,
                    automatic_retransmit: features & FEATURE_ONE_SHOT == 0,
                },
            ) && *final(self) == old(self).with_state(
                channel_of(interface)->Some_0,
                InterfaceState::Enabled,
            ),
    {
        let c = match channel(interface) {
            Some(c) => c,
            None => return Err(GatewayError::InvalidInterface),
        };
        match c {
            Channel::Can1 => self.can1 = InterfaceState::Enabled,
            Channel::Can2 => self.can2 = InterfaceState::Enabled,
        }
        Ok(StartPlan { channel: c, automatic_retransmit: features & FEATURE_ONE_SHOT == 0 })
    }

    /// The state of `interface` from its sampled error counters.
    pub fn state(&self, interface: u8, counters: ErrorSnapshot) -> (r: Result<
        DeviceState,
        GatewayError,
    >)
        ensures
            channel_of(interface) is None ==> r == Err::<DeviceState, GatewayError>(
                GatewayError::InvalidInterface,
            ),
            channel_of(interface) is Some ==> r == Ok::<DeviceState, GatewayError>(
                DeviceState {
                    state: bus_state_of(counters),
                    tx_errors: counters.tx_count as u32,
                    rx_errors: counters.rx_count as u32,
                },
            ),
    {
        if channel(interface).is_none() {
            return Err(GatewayError::InvalidInterface);
        }
        Ok(
            DeviceState {
                state: bus_state(counters),
                tx_errors: counters.tx_count as u32,
                rx_errors: counters.rx_count as u32,
            },
        )
    }

    /// Routes a frame from the host to `interface` as a transmit header.
    pub fn receive(&self, interface: u8, frame: &Frame) -> (r: Result<
        (Channel, TxHeader),
        GatewayError,
    >)
        ensures
            channel_of(interface) is None ==> r == Err::<(Channel, TxHeader), GatewayError>(
                GatewayError::InvalidInterface,
            ),
            channel_of(interface) is Some && !frame.id.valid() ==> r == Err::<
                (Channel, TxHeader),
                GatewayError,
            >(GatewayError::InvalidId),
            channel_of(interface) is Some && frame.id.valid() && !is_dlc_len(
                frame.data@.len() as int,
            ) ==> r == Err::<(Channel, TxHeader), GatewayError>(GatewayError::InvalidLength),
            channel_of(interface) is Some && frame.id.valid() && is_dlc_len(
                frame.data@.len() as int,
            ) ==> r == Ok::<(Channel, TxHeader), GatewayError>(
                (
                    channel_of(interface)->Some_0,
                    tx_header_of(frame.id, frame.flags, frame.data@.len()),
                ),
            ),
    {
        let c = match channel(interface) {
            Some(c) => c,
            None => return Err(GatewayError::InvalidInterface),
        };
        match tx_header(frame) {
            Ok(h) => Ok((c, h)),
            Err(e) => Err(e),
        }
    }
}

/// Identifier translation is total and lossless: bits that fit their
/// format give an identifier that returns the same format and bits, and
/// every valid identifier is recovered from its format and bits.
pub proof fn lemma_id_round_trip(extended: bool, raw: u32, id: CanId)
    requires
        extended ==> raw <= EXTENDED_ID_MAX,
        !extended ==> raw <= STANDARD_ID_MAX,
        id.valid(),
    ensures
        id_of(extended, raw) is Some,
        id_of(extended, raw)->Some_0.valid(),
        id_of(extended, raw)->Some_0.is_extended() == extended,
        id_of(extended, raw)->Some_0.raw() == raw,
        id_of(id.is_extended(), id.raw()) == Some(id),
{
}

/// Flags survive the receive and transmit translations: the frame made
/// from a received header has the header's remote and CAN FD flags, and
/// bit rate switching exactly when the header has it on a CAN FD frame, so
/// a classic frame never gains either FD flag; the transmit header made
/// from that frame gives back the identifier format and bits, the CAN FD
/// and bit rate switching flags and, for a data frame, the length.
pub proof fn lemma_frame_round_trip(h: RxHeader, data: Seq<u8>)
    requires
        rx_accepted(h, data),
    ensures
        rx_flags(h).fd == h.fdcan,
        rx_flags(h).brs == (h.fdcan && h.brs),
        !h.fdcan ==> !rx_flags(h).fd && !rx_flags(h).brs,
        (h.brs ==> h.fdcan) ==> rx_flags(h).brs == h.brs,
        tx_header_of(id_of(h.extended, h.raw_id)->Some_0, rx_flags(h), rx_payload(h, data).len())
            == (TxHeader {
            len: if h.rtr {
                0u8
            } else {
                h.len
            },
            fdcan: h.fdcan,
            extended: h.extended,
            raw_id: h.raw_id,
            brs: h.fdcan && h.brs,
        }),
{
}

/// Error levels follow each counter on its own: active below 96, warning
/// from 96 to 127 and passive from 128, with a receive counter past its
/// range passive; the status bits of a counter are set exactly for its
/// level; bus-off is reported exactly when the controller asserts it,
/// whatever the counters.
pub proof fn lemma_error_classification(s: ErrorSnapshot)
    ensures
        s.tx_count < 96 ==> level_of(s.tx_count) == ErrorLevel::Active,
        96 <= s.tx_count < 128 ==> level_of(s.tx_count) == ErrorLevel::Warning,
        128 <= s.tx_count ==> level_of(s.tx_count) == ErrorLevel::Passive,
        !s.rx_overflowed && s.rx_count < 96 ==> rx_level(s) == ErrorLevel::Active,
        !s.rx_overflowed && 96 <= s.rx_count < 128 ==> rx_level(s) == ErrorLevel::Warning,
        s.rx_overflowed || 128 <= s.rx_count ==> rx_level(s) == ErrorLevel::Passive,
        (status_bits_of(s) & STATUS_TX_WARNING != 0) <==> level_of(s.tx_count)
            == ErrorLevel::Warning,
        (status_bits_of(s) & STATUS_TX_PASSIVE != 0) <==> level_of(s.tx_count)
            == ErrorLevel::Passive,
        (status_bits_of(s) & STATUS_RX_WARNING != 0) <==> rx_level(s) == ErrorLevel::Warning,
        (status_bits_of(s) & STATUS_RX_PASSIVE != 0) <==> rx_level(s) == ErrorLevel::Passive,
        (bus_state_of(s) == BusState::BusOff) <==> s.bus_off,
{
    assert(forall|a: u8, b: u8, c: u8, d: u8|
        (a == 0 || a == 8) && (b == 0 || b == 0x20) && (c == 0 || c == 4) && (d == 0 || d
            == 0x10) ==> {
            &&& (((a | b | c | d) & 8) != 0 <==> a == 8)
            &&& (((a | b | c | d) & 0x20) != 0 <==> b == 0x20)
            &&& (((a | b | c | d) & 4) != 0 <==> c == 4)
            &&& (((a | b | c | d) & 0x10) != 0 <==> d == 0x10)
        }) by (bit_vector);
}

} // verus!
