use vstd::prelude::*;

use crate::codec::{
    decode_spec, encode, lemma_decode_encode, opcode_bytes, opcode_of, RawMessage,
};
use crate::messages::{
    params_of, BatteryMessage, MeshMessage, OnOffMessage, OnOffSet, SensorMessage,
};
use crate::sensor::reading_spec;

verus! {

/// Whether a battery is present, from the two low bits of its flags.
#[derive(Clone, Copy, Debug, PartialEq, Eq, Structural)]
pub enum BatteryPresence {
    NotPresent,
    PresentRemovable,
    PresentNotRemovable,
    Unknown,
}

/// What a node reported, in the terms of the cloud side: temperatures in
/// whole degrees.
#[derive(Clone, Copy, Debug, PartialEq, Eq, Structural)]
pub enum Telemetry {
    Button { on: bool, location: u16 },
    Sensor { temperature: i8, location: u16 },
    Battery { level: u8, presence: BatteryPresence, location: u16 },
}

/// Half degrees to whole degrees, dropping the half toward zero.
pub open spec fn degrees_spec(half: int) -> int {
    if half >= 0 {
        half / 2
    } else {
        -((-half) / 2)
    }
}

pub open spec fn presence_spec(flags: u8) -> BatteryPresence {
    if flags % 4 == 0 {
        BatteryPresence::NotPresent
    } else if flags % 4 == 1 {
        BatteryPresence::PresentRemovable
    } else if flags % 4 == 2 {
        BatteryPresence::PresentNotRemovable
    } else {
        BatteryPresence::Unknown
    }
}

/// The telemetry an envelope carries: on/off sets as button presses,
/// sensor and battery statuses as readings; anything else none.
pub open spec fn telemetry_spec(opcode: Seq<u8>, params: Seq<u8>, location: u16) -> Option<Telemetry> {
    match decode_spec(opcode, params) {
        Ok(Some(MeshMessage::OnOff(OnOffMessage::SetAcknowledged(s)))) => Some(
            Telemetry::Button { on: s.on_off == 1, location },
        ),
        Ok(Some(MeshMessage::OnOff(OnOffMessage::SetUnacknowledged(s)))) => Some(
            Telemetry::Button { on: s.on_off == 1, location },
        ),
        Ok(Some(MeshMessage::Sensor(SensorMessage::Status(s)))) => Some(
            Telemetry::Sensor { temperature: degrees_spec(s.temperature as int) as i8, location },
        ),
        Ok(Some(MeshMessage::Battery(BatteryMessage::Status(b)))) => Some(
            Telemetry::Battery { level: b.level, presence: presence_spec(b.flags), location },
        ),
        _ => None,
    }
}

/// The on/off `Set` that a command to turn a display on or off becomes.
pub open spec fn command_spec(on: bool) -> MeshMessage {
    MeshMessage::OnOff(
        OnOffMessage::SetAcknowledged(
            OnOffSet { on_off: if on { 1 } else { 0 }, tid: 0, transition: None },
        ),
    )
}

/// Half degrees to whole degrees, dropping the half toward zero.
pub fn degrees_of(half: i8) -> (r: i8)
    ensures
        r as int == degrees_spec(half as int),
{
    let h = half as i16;
    if h >= 0 {
        (h / 2) as i8
    } else {
        (-((-h) / 2)) as i8
    }
}

pub fn battery_presence(flags: u8) -> (r: BatteryPresence)
    ensures
        r == presence_spec(flags),
{
    if flags % 4 == 0 {
        BatteryPresence::NotPresent
    } else if flags % 4 == 1 {
        BatteryPresence::PresentRemovable
    } else if flags % 4 == 2 {
        BatteryPresence::PresentNotRemovable
    } else {
        BatteryPresence::Unknown
    }
}

/// Reads the telemetry an envelope from a node carries.
pub fn telemetry_of(msg: &RawMessage) -> (r: Option<Telemetry>)
    ensures
        r == telemetry_spec(msg.opcode@, msg.parameters@, msg.location),
{
    let location = msg.location;
    match msg.decode() {
        Ok(Some(MeshMessage::OnOff(OnOffMessage::SetAcknowledged(s)))) => Some(
            Telemetry::Button { on: s.on_off == 1, location },
        ),
        Ok(Some(MeshMessage::OnOff(OnOffMessage::SetUnacknowledged(s)))) => Some(
            Telemetry::Button { on: s.on_off == 1, location },
        ),
        Ok(Some(MeshMessage::Sensor(SensorMessage::Status(s)))) => Some(
            Telemetry::Sensor { temperature: degrees_of(s.temperature), location },
        ),
        Ok(Some(MeshMessage::Battery(BatteryMessage::Status(b)))) => Some(
            Telemetry::Battery { level: b.level, presence: battery_presence(b.flags), location },
        ),
        _ => None,
    }
}

/// The envelope of a command that turns the display at `address` on or off.
/// Address and location keep their low sixteen bits.
pub fn command_message(address: u64, location: u64, on: bool) -> (r: RawMessage)
    ensures
        r.address == Some(address as u16),
        r.location == location as u16,
        r.opcode@ == opcode_bytes(opcode_of(command_spec(on))),
        r.parameters@ == params_of(command_spec(on)),
{
    let msg = MeshMessage::OnOff(
        OnOffMessage::SetAcknowledged(
            OnOffSet { on_off: if on { 1 } else { 0 }, tid: 0, transition: None },
        ),
    );
    let (opcode, parameters) = encode(&msg).unwrap();
    RawMessage { address: Some(address as u16), location: location as u16, opcode, parameters }
}

/// A reading in whole degrees, put at the half-degree scale, encoded and
/// read back as telemetry, gives the same whole degrees. The other way
/// round, halving a stored value and doubling it again gives the value back
/// exactly when it is even: an odd value loses its half degree.
pub proof fn lemma_rescale(celsius: i8, half: i8, location: u16)
    requires
        -64 <= celsius <= 63,
    ensures
        reading_spec(Ok(celsius)) matches Ok(s) && telemetry_spec(
            opcode_bytes(opcode_of(MeshMessage::Sensor(SensorMessage::Status(s)))),
            params_of(MeshMessage::Sensor(SensorMessage::Status(s))),
            location,
        ) == Some(Telemetry::Sensor { temperature: celsius, location }),
        (2 * degrees_spec(half as int) == half as int) <==> (half % 2 == 0),
{
    if let Ok(s) = reading_spec(Ok(celsius)) {
        lemma_decode_encode(MeshMessage::Sensor(SensorMessage::Status(s)));
    }
}

} // verus!
