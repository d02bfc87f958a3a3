use vstd::prelude::*;

verus! {

/// The optional tail of a `Set`: a transition time and a delay.
#[derive(Clone, Copy, Debug, PartialEq, Eq, Structural)]
pub struct Transition {
    pub time: u8,
    pub delay: u8,
}

/// The optional tail of a `Status`: a target state and the time remaining.
#[derive(Clone, Copy, Debug, PartialEq, Eq, Structural)]
pub struct Target {
    pub state: u8,
    pub remaining: u8,
}

/// The parameters of a generic on/off `Set`: the intent, a transaction
/// id, and optionally a transition time with a delay.
#[derive(Clone, Copy, Debug, PartialEq, Eq, Structural)]
pub struct OnOffSet {
    pub on_off: u8,
    pub tid: u8,
    pub transition: Option<Transition>,
}

/// The parameters of a generic on/off `Status`: the present state, and
/// optionally a target state with the time remaining to reach it.
#[derive(Clone, Copy, Debug, PartialEq, Eq, Structural)]
pub struct OnOffStatus {
    pub present: u8,
    pub target: Option<Target>,
}

#[derive(Clone, Copy, Debug, PartialEq, Eq, Structural)]
pub enum OnOffMessage {
    Get,
    SetAcknowledged(OnOffSet),
    SetUnacknowledged(OnOffSet),
    Status(OnOffStatus),
}

/// A temperature reading in half degrees Celsius.
#[derive(Clone, Copy, Debug, PartialEq, Eq, Structural)]
pub struct SensorStatus {
    pub temperature: i8,
}

#[derive(Clone, Copy, Debug, PartialEq, Eq, Structural)]
pub enum SensorMessage {
    Get,
    Status(SensorStatus),
}

/// A generic battery status. The two times are 24-bit values in minutes.
#[derive(Clone, Copy, Debug, PartialEq, Eq, Structural)]
pub struct BatteryStatus {
    pub level: u8,
    pub time_to_discharge: u32,
    pub time_to_charge: u32,
    pub flags: u8,
}

#[derive(Clone, Copy, Debug, PartialEq, Eq, Structural)]
pub enum BatteryMessage {
    Get,
    Status(BatteryStatus),
}

/// An application message of one of the models this library knows.
#[derive(Clone, Copy, Debug, PartialEq, Eq, Structural)]
pub enum MeshMessage {
    OnOff(OnOffMessage),
    Sensor(SensorMessage),
    Battery(BatteryMessage),
}

/// The largest value of a 24-bit field, plus one.
pub const U24_LIMIT: u32 = 0x100_0000;

/// A message is representable when its 24-bit fields fit in 24 bits.
pub open spec fn message_wf(m: MeshMessage) -> bool {
    match m {
        MeshMessage::Battery(BatteryMessage::Status(s)) => s.time_to_discharge < U24_LIMIT
            && s.time_to_charge < U24_LIMIT,
        _ => true,
    }
}

/// Header of a marshalled sensor datum in format A: one octet of value,
/// property "present ambient temperature" (0x004F), which counts half degrees.
pub const TEMPERATURE_HEADER_0: u8 = 0xe0;

pub const TEMPERATURE_HEADER_1: u8 = 0x09;

pub open spec fn transition_bytes(t: Option<Transition>) -> Seq<u8> {
    match t {
        None => Seq::empty(),
        Some(t) => seq![t.time, t.delay],
    }
}

pub open spec fn target_bytes(t: Option<Target>) -> Seq<u8> {
    match t {
        None => Seq::empty(),
        Some(t) => seq![t.state, t.remaining],
    }
}

/// Three octets, least significant first.
pub open spec fn u24_le(v: u32) -> Seq<u8> {
    seq![(v % 256) as u8, (v / 256 % 256) as u8, (v / 65536 % 256) as u8]
}

pub open spec fn u24_of(b0: u8, b1: u8, b2: u8) -> u32 {
    (b0 + b1 * 256 + b2 * 65536) as u32
}

/// The parameter octets of a message.
pub open spec fn params_of(m: MeshMessage) -> Seq<u8> {
    match m {
        MeshMessage::OnOff(OnOffMessage::SetAcknowledged(s)) | MeshMessage::OnOff(
            OnOffMessage::SetUnacknowledged(s),
        ) => seq![s.on_off, s.tid] + transition_bytes(s.transition),
        MeshMessage::OnOff(OnOffMessage::Status(s)) => seq![s.present] + target_bytes(s.target),
        MeshMessage::Sensor(SensorMessage::Status(s)) => seq![
            TEMPERATURE_HEADER_0,
            TEMPERATURE_HEADER_1,
            s.temperature as u8,
        ],
        MeshMessage::Battery(BatteryMessage::Status(s)) => seq![s.level] + u24_le(
            s.time_to_discharge,
        ) + u24_le(s.time_to_charge) + seq![s.flags],
        _ => Seq::empty(),
    }
}

} // verus!
