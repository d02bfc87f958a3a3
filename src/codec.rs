use vstd::prelude::*;

use crate::buffer::{
    new_opcode_buffer, new_parameter_buffer, opcode_buffer_items, opcode_buffer_to_vec,
    parameter_buffer_items, parameter_buffer_to_vec, push_opcode_octet, push_parameter_octet,
};
use crate::messages::{
    message_wf, params_of, u24_le, u24_of, BatteryMessage,
    BatteryStatus, MeshMessage, OnOffMessage, OnOffSet, OnOffStatus, SensorMessage, SensorStatus,
    Target, Transition, TEMPERATURE_HEADER_0, TEMPERATURE_HEADER_1,
};

verus! {

/// Capacity of the opcode buffer of a wire envelope.
pub const OPCODE_CAPACITY: usize = 16;

/// Capacity of the parameter buffer of a wire envelope.
pub const PARAMETERS_CAPACITY: usize = 386;

/// A mesh opcode of one, two or three octets.
#[derive(Clone, Copy, Debug, PartialEq, Eq, Structural)]
pub enum Opcode {
    OneOctet(u8),
    TwoOctet(u8, u8),
    ThreeOctet(u8, u8, u8),
}

/// The leading octet says how long an opcode is: `0xxxxxxx` one octet
/// (`0x7F` is reserved), `10xxxxxx` two octets, `11xxxxxx` three octets.
pub open spec fn valid_opcode(op: Opcode) -> bool {
    match op {
        Opcode::OneOctet(a) => a < 0x7f,
        Opcode::TwoOctet(a, _) => 0x80 <= a && a < 0xc0,
        Opcode::ThreeOctet(a, _, _) => 0xc0 <= a,
    }
}

pub open spec fn opcode_bytes(op: Opcode) -> Seq<u8> {
    match op {
        Opcode::OneOctet(a) => seq![a],
        Opcode::TwoOctet(a, b) => seq![a, b],
        Opcode::ThreeOctet(a, b, c) => seq![a, b, c],
    }
}

/// The opcode at the head of `bytes`, and what follows it.
pub open spec fn split_spec(bytes: Seq<u8>) -> Option<(Opcode, Seq<u8>)> {
    if bytes.len() == 0 || bytes[0] == 0x7f {
        None
    } else if bytes[0] < 0x80 {
        Some((Opcode::OneOctet(bytes[0]), bytes.skip(1)))
    } else if bytes[0] < 0xc0 {
        if bytes.len() < 2 {
            None
        } else {
            Some((Opcode::TwoOctet(bytes[0], bytes[1]), bytes.skip(2)))
        }
    } else if bytes.len() < 3 {
        None
    } else {
        Some((Opcode::ThreeOctet(bytes[0], bytes[1], bytes[2]), bytes.skip(3)))
    }
}

impl Opcode {
    /// Splits the opcode off the head of `bytes`.
    pub fn split(bytes: &[u8]) -> (r: Option<(Opcode, usize)>)
        ensures
            match split_spec(bytes@) {
                None => r is None,
                Some((op, rest)) => r == Some((op, (bytes@.len() - rest.len()) as usize)),
            },
    {
        if bytes.len() == 0 || bytes[0] == 0x7f {
            None
        } else if bytes[0] < 0x80 {
            Some((Opcode::OneOctet(bytes[0]), 1))
        } else if bytes[0] < 0xc0 {
            if bytes.len() < 2 {
                None
            } else {
                Some((Opcode::TwoOctet(bytes[0], bytes[1]), 2))
            }
        } else if bytes.len() < 3 {
            None
        } else {
            Some((Opcode::ThreeOctet(bytes[0], bytes[1], bytes[2]), 3))
        }
    }

    /// The octets of this opcode, leading octet first.
    pub fn emit(&self) -> (r: Vec<u8>)
        ensures
            r@ == opcode_bytes(*self),
            r@.len() <= OPCODE_CAPACITY,
    {
        let mut v: Vec<u8> = Vec::new();
        match *self {
            Opcode::OneOctet(a) => {
                v.push(a);
            },
            Opcode::TwoOctet(a, b) => {
                v.push(a);
                v.push(b);
            },
            Opcode::ThreeOctet(a, b, c) => {
                v.push(a);
                v.push(b);
                v.push(c);
            },
        }
        assert(v@ =~= opcode_bytes(*self));
        v
    }
}

/// What the emitted octets of a valid opcode split back into.
pub proof fn lemma_split_opcode_bytes(op: Opcode, rest: Seq<u8>)
    requires
        valid_opcode(op),
    ensures
        split_spec(opcode_bytes(op) + rest) == Some((op, rest)),
{
    let b = opcode_bytes(op) + rest;
    match op {
        Opcode::OneOctet(_) => {
            assert(b.skip(1) =~= rest);
        },
        Opcode::TwoOctet(_, _) => {
            assert(b.skip(2) =~= rest);
        },
        Opcode::ThreeOctet(_, _, _) => {
            assert(b.skip(3) =~= rest);
        },
    }
}

/// Why a pair of opcode and parameter octets could not be read.
#[derive(Clone, Copy, Debug, PartialEq, Eq, Structural)]
pub enum DecodeError {
    /// The opcode octets do not begin with a whole opcode.
    InvalidOpcode,
    /// A model knows the opcode, but the parameters do not fit its format.
    InvalidParameters,
}

/// The opcode of each message.
pub open spec fn opcode_of(m: MeshMessage) -> Opcode {
    match m {
        MeshMessage::OnOff(OnOffMessage::Get) => Opcode::TwoOctet(0x82, 0x01),
        MeshMessage::OnOff(OnOffMessage::SetAcknowledged(_)) => Opcode::TwoOctet(0x82, 0x02),
        MeshMessage::OnOff(OnOffMessage::SetUnacknowledged(_)) => Opcode::TwoOctet(0x82, 0x03),
        MeshMessage::OnOff(OnOffMessage::Status(_)) => Opcode::TwoOctet(0x82, 0x04),
        MeshMessage::Sensor(SensorMessage::Get) => Opcode::TwoOctet(0x82, 0x31),
        MeshMessage::Sensor(SensorMessage::Status(_)) => Opcode::OneOctet(0x52),
        MeshMessage::Battery(BatteryMessage::Get) => Opcode::TwoOctet(0x82, 0x23),
        MeshMessage::Battery(BatteryMessage::Status(_)) => Opcode::TwoOctet(0x82, 0x24),
    }
}

pub open spec fn onoff_set_of(p: Seq<u8>) -> Option<OnOffSet> {
    if p.len() == 2 {
        Some(OnOffSet { on_off: p[0], tid: p[1], transition: None })
    } else if p.len() == 4 {
        Some(
            OnOffSet {
                on_off: p[0],
                tid: p[1],
                transition: Some(Transition { time: p[2], delay: p[3] }),
            },
        )
    } else {
        None
    }
}

pub open spec fn onoff_status_of(p: Seq<u8>) -> Option<OnOffStatus> {
    if p.len() == 1 {
        Some(OnOffStatus { present: p[0], target: None })
    } else if p.len() == 3 {
        Some(OnOffStatus { present: p[0], target: Some(Target { state: p[1], remaining: p[2] }) })
    } else {
        None
    }
}

pub open spec fn required<T>(v: Option<T>) -> Result<Option<T>, DecodeError> {
    match v {
        Some(x) => Ok(Some(x)),
        None => Err(DecodeError::InvalidParameters),
    }
}

/// The on/off model's reading of an opcode and its parameters: `Ok(None)`
/// where the opcode is not one of its own.
pub open spec fn parse_onoff_spec(op: Opcode, p: Seq<u8>) -> Result<Option<OnOffMessage>, DecodeError> {
    if op == Opcode::TwoOctet(0x82, 0x01) {
        required(if p.len() == 0 { Some(OnOffMessage::Get) } else { None })
    } else if op == Opcode::TwoOctet(0x82, 0x02) {
        required(
            match onoff_set_of(p) {
                Some(s) => Some(OnOffMessage::SetAcknowledged(s)),
                None => None,
            },
        )
    } else if op == Opcode::TwoOctet(0x82, 0x03) {
        required(
            match onoff_set_of(p) {
                Some(s) => Some(OnOffMessage::SetUnacknowledged(s)),
                None => None,
            },
        )
    } else if op == Opcode::TwoOctet(0x82, 0x04) {
        required(
            match onoff_status_of(p) {
                Some(s) => Some(OnOffMessage::Status(s)),
                None => None,
            },
        )
    } else {
        Ok(None)
    }
}

/// The sensor model's reading of an opcode and its parameters.
pub open spec fn parse_sensor_spec(op: Opcode, p: Seq<u8>) -> Result<Option<SensorMessage>, DecodeError> {
    if op == Opcode::TwoOctet(0x82, 0x31) {
        required(if p.len() == 0 { Some(SensorMessage::Get) } else { None })
    } else if op == Opcode::OneOctet(0x52) {
        required(
            if p.len() == 3 && p[0] == TEMPERATURE_HEADER_0 && p[1] == TEMPERATURE_HEADER_1 {
                Some(SensorMessage::Status(SensorStatus { temperature: p[2] as i8 }))
            } else {
                None
            },
        )
    } else {
        Ok(None)
    }
}

/// The battery model's reading of an opcode and its parameters.
pub open spec fn parse_battery_spec(op: Opcode, p: Seq<u8>) -> Result<Option<BatteryMessage>, DecodeError> {
    if op == Opcode::TwoOctet(0x82, 0x23) {
        required(if p.len() == 0 { Some(BatteryMessage::Get) } else { None })
    } else if op == Opcode::TwoOctet(0x82, 0x24) {
        required(
            if p.len() == 8 {
                Some(
                    BatteryMessage::Status(
                        BatteryStatus {
                            level: p[0],
                            time_to_discharge: u24_of(p[1], p[2], p[3]),
                            time_to_charge: u24_of(p[4], p[5], p[6]),
                            flags: p[7],
                        },
                    ),
                )
            } else {
                None
            },
        )
    } else {
        Ok(None)
    }
}

/// Decoding: split the opcode, then offer it to the on/off, sensor and
/// battery models in that order; the first that knows it reads the
/// parameters. An opcode that no model knows is no match, `Ok(None)`.
pub open spec fn decode_spec(opcode: Seq<u8>, params: Seq<u8>) -> Result<Option<MeshMessage>, DecodeError> {
    match split_spec(opcode) {
        None => Err(DecodeError::InvalidOpcode),
        Some((op, _)) => match parse_onoff_spec(op, params) {
            Err(e) => Err(e),
            Ok(Some(m)) => Ok(Some(MeshMessage::OnOff(m))),
            Ok(None) => match parse_sensor_spec(op, params) {
                Err(e) => Err(e),
                Ok(Some(m)) => Ok(Some(MeshMessage::Sensor(m))),
                Ok(None) => match parse_battery_spec(op, params) {
                    Err(e) => Err(e),
                    Ok(Some(m)) => Ok(Some(MeshMessage::Battery(m))),
                    Ok(None) => Ok(None),
                },
            },
        },
    }
}

fn read_u24(b0: u8, b1: u8, b2: u8) -> (r: u32)
    ensures
        r == u24_of(b0, b1, b2),
        r < 0x100_0000,
{
    b0 as u32 + b1 as u32 * 256 + b2 as u32 * 65536
}

fn parse_onoff_set(p: &[u8]) -> (r: Option<OnOffSet>)
    ensures
        r == onoff_set_of(p@),
{
    if p.len() == 2 {
        Some(OnOffSet { on_off: p[0], tid: p[1], transition: None })
    } else if p.len() == 4 {
        Some(
            OnOffSet {
                on_off: p[0],
                tid: p[1],
                transition: Some(Transition { time: p[2], delay: p[3] }),
            },
        )
    } else {
        None
    }
}

impl OnOffMessage {
    /// Reads an on/off message; `Ok(None)` where the opcode is not the model's.
    pub fn parse(op: &Opcode, p: &[u8]) -> (r: Result<Option<OnOffMessage>, DecodeError>)
        ensures
            r == parse_onoff_spec(*op, p@),
    {
        let op = *op;
        if op == Opcode::TwoOctet(0x82, 0x01) {
            if p.len() == 0 {
                Ok(Some(OnOffMessage::Get))
            } else {
                Err(DecodeError::InvalidParameters)
            }
        } else if op == Opcode::TwoOctet(0x82, 0x02) {
            match parse_onoff_set(p) {
                Some(s) => Ok(Some(OnOffMessage::SetAcknowledged(s))),
                None => Err(DecodeError::InvalidParameters),
            }
        } else if op == Opcode::TwoOctet(0x82, 0x03) {
            match parse_onoff_set(p) {
                Some(s) => Ok(Some(OnOffMessage::SetUnacknowledged(s))),
                None => Err(DecodeError::InvalidParameters),
            }
        } else if op == Opcode::TwoOctet(0x82, 0x04) {
            if p.len() == 1 {
                Ok(Some(OnOffMessage::Status(OnOffStatus { present: p[0], target: None })))
            } else if p.len() == 3 {
                Ok(
                    Some(
                        OnOffMessage::Status(
                            OnOffStatus {
                                present: p[0],
                                target: Some(Target { state: p[1], remaining: p[2] }),
                            },
                        ),
                    ),
                )
            } else {
                Err(DecodeError::InvalidParameters)
            }
        } else {
            Ok(None)
        }
    }
}

impl SensorMessage {
    /// Reads a sensor message; `Ok(None)` where the opcode is not the model's.
    pub fn parse(op: &Opcode, p: &[u8]) -> (r: Result<Option<SensorMessage>, DecodeError>)
        ensures
            r == parse_sensor_spec(*op, p@),
    {
        let op = *op;
        if op == Opcode::TwoOctet(0x82, 0x31) {
            if p.len() == 0 {
                Ok(Some(SensorMessage::Get))
            } else {
                Err(DecodeError::InvalidParameters)
            }
        } else if op == Opcode::OneOctet(0x52) {
            if p.len() == 3 && p[0] == TEMPERATURE_HEADER_0 && p[1] == TEMPERATURE_HEADER_1 {
                Ok(Some(SensorMessage::Status(SensorStatus { temperature: p[2] as i8 })))
            } else {
                Err(DecodeError::InvalidParameters)
            }
        } else {
            Ok(None)
        }
    }
}

impl BatteryMessage {
    /// Reads a battery message; `Ok(None)` where the opcode is not the model's.
    pub fn parse(op: &Opcode, p: &[u8]) -> (r: Result<Option<BatteryMessage>, DecodeError>)
        ensures
            r == parse_battery_spec(*op, p@),
    {
        let op = *op;
        if op == Opcode::TwoOctet(0x82, 0x23) {
            if p.len() == 0 {
                Ok(Some(BatteryMessage::Get))
            } else {
                Err(DecodeError::InvalidParameters)
            }
        } else if op == Opcode::TwoOctet(0x82, 0x24) {
            if p.len() == 8 {
                Ok(
                    Some(
                        BatteryMessage::Status(
                            BatteryStatus {
                                level: p[0],
                                time_to_discharge: read_u24(p[1], p[2], p[3]),
                                time_to_charge: read_u24(p[4], p[5], p[6]),
                                flags: p[7],
                            },
                        ),
                    ),
                )
            } else {
                Err(DecodeError::InvalidParameters)
            }
        } else {
            Ok(None)
        }
    }
}

/// Decodes an opcode and its parameters into a message of a known model.
/// Never panics: malformed input is an error, an unknown opcode `Ok(None)`.
pub fn decode(opcode: &[u8], parameters: &[u8]) -> (r: Result<Option<MeshMessage>, DecodeError>)
    ensures
        r == decode_spec(opcode@, parameters@),
{
    let op = match Opcode::split(opcode) {
        None => {
            return Err(DecodeError::InvalidOpcode);
        },
        Some((op, _)) => op,
    };
    match OnOffMessage::parse(&op, parameters) {
        Err(e) => {
            return Err(e);
        },
        Ok(Some(m)) => {
            return Ok(Some(MeshMessage::OnOff(m)));
        },
        Ok(None) => {},
    }
    match SensorMessage::parse(&op, parameters) {
        Err(e) => {
            return Err(e);
        },
        Ok(Some(m)) => {
            return Ok(Some(MeshMessage::Sensor(m)));
        },
        Ok(None) => {},
    }
    match BatteryMessage::parse(&op, parameters) {
        Err(e) => Err(e),
        Ok(Some(m)) => Ok(Some(MeshMessage::Battery(m))),
        Ok(None) => Ok(None),
    }
}

fn push_u24(v: &mut Vec<u8>, x: u32)
    requires
        x < 0x100_0000,
    ensures
        final(v)@ == old(v)@ + u24_le(x),
{
    v.push((x % 256) as u8);
    v.push((x / 256 % 256) as u8);
    v.push((x / 65536 % 256) as u8);
    assert(final(v)@ =~= old(v)@ + u24_le(x));
}

impl MeshMessage {
    /// The opcode of this message.
    pub fn opcode(&self) -> (r: Opcode)
        ensures
            r == opcode_of(*self),
            valid_opcode(r),
    {
        match *self {
            MeshMessage::OnOff(OnOffMessage::Get) => Opcode::TwoOctet(0x82, 0x01),
            MeshMessage::OnOff(OnOffMessage::SetAcknowledged(_)) => Opcode::TwoOctet(0x82, 0x02),
            MeshMessage::OnOff(OnOffMessage::SetUnacknowledged(_)) => Opcode::TwoOctet(0x82, 0x03),
            MeshMessage::OnOff(OnOffMessage::Status(_)) => Opcode::TwoOctet(0x82, 0x04),
            MeshMessage::Sensor(SensorMessage::Get) => Opcode::TwoOctet(0x82, 0x31),
            MeshMessage::Sensor(SensorMessage::Status(_)) => Opcode::OneOctet(0x52),
            MeshMessage::Battery(BatteryMessage::Get) => Opcode::TwoOctet(0x82, 0x23),
            MeshMessage::Battery(BatteryMessage::Status(_)) => Opcode::TwoOctet(0x82, 0x24),
        }
    }

    /// The parameter octets of this message.
    pub fn emit_parameters(&self) -> (r: Vec<u8>)
        requires
            message_wf(*self),
        ensures
            r@ == params_of(*self),
            r@.len() <= PARAMETERS_CAPACITY,
    {
        let mut v: Vec<u8> = Vec::new();
        match *self {
            MeshMessage::OnOff(OnOffMessage::SetAcknowledged(s))
            | MeshMessage::OnOff(OnOffMessage::SetUnacknowledged(s)) => {
                v.push(s.on_off);
                v.push(s.tid);
                if let Some(t) = s.transition {
                    v.push(t.time);
                    v.push(t.delay);
                }
            },
            MeshMessage::OnOff(OnOffMessage::Status(s)) => {
                v.push(s.present);
                if let Some(t) = s.target {
                    v.push(t.state);
                    v.push(t.remaining);
                }
            },
            MeshMessage::Sensor(SensorMessage::Status(s)) => {
                v.push(TEMPERATURE_HEADER_0);
                v.push(TEMPERATURE_HEADER_1);
                v.push(s.temperature as u8);
            },
            MeshMessage::Battery(BatteryMessage::Status(s)) => {
                v.push(s.level);
                push_u24(&mut v, s.time_to_discharge);
                push_u24(&mut v, s.time_to_charge);
                v.push(s.flags);
            },
            _ => {},
        }
        assert(v@ =~= params_of(*self));
        v
    }
}

/// Why a message could not be framed into a wire envelope.
#[derive(Clone, Copy, Debug, PartialEq, Eq, Structural)]
pub enum EncodeError {
    /// The opcode or the parameters exceed the fixed buffer capacity.
    CapacityExceeded,
}

/// The wire envelope: a destination, a slot, and the octets of a message.
#[derive(Clone, Debug)]
pub struct RawMessage {
    pub address: Option<u16>,
    pub location: u16,
    pub opcode: Vec<u8>,
    pub parameters: Vec<u8>,
}

impl RawMessage {
    /// Frames octets into an envelope, refusing any that exceed the fixed
    /// capacities of the opcode and parameter buffers.
    pub fn frame(address: Option<u16>, location: u16, opcode: Vec<u8>, parameters: Vec<u8>) -> (r:
        Result<RawMessage, EncodeError>)
        ensures
            (opcode@.len() <= OPCODE_CAPACITY && parameters@.len() <= PARAMETERS_CAPACITY) <==> r is Ok,
            r is Err ==> r == Err::<RawMessage, EncodeError>(EncodeError::CapacityExceeded),
            r matches Ok(m) ==> m.address == address && m.location == location && m.opcode@
                == opcode@ && m.parameters@ == parameters@,
    {
        if opcode.len() > OPCODE_CAPACITY || parameters.len() > PARAMETERS_CAPACITY {
            Err(EncodeError::CapacityExceeded)
        } else {
            Ok(RawMessage { address, location, opcode, parameters })
        }
    }

    /// Encodes a message into an envelope. Every representable message fits.
    pub fn from_message(address: Option<u16>, location: u16, msg: &MeshMessage) -> (r: Result<
        RawMessage,
        EncodeError,
    >)
        requires
            message_wf(*msg),
        ensures
            r matches Ok(m) && m.address == address && m.location == location && m.opcode@
                == opcode_bytes(opcode_of(*msg)) && m.parameters@ == params_of(*msg),
    {
        let (opcode, parameters) = encode(msg)?;
        RawMessage::frame(address, location, opcode, parameters)
    }

    /// Decodes the message this envelope carries.
    pub fn decode(&self) -> (r: Result<Option<MeshMessage>, DecodeError>)
        ensures
            r == decode_spec(self.opcode@, self.parameters@),
    {
        decode(self.opcode.as_slice(), self.parameters.as_slice())
    }
}

/// Copies octets into a fresh opcode buffer, failing where they exceed its
/// capacity.
fn opcode_buffer_of(bytes: &Vec<u8>) -> (r: Result<heapless::Vec<u8, 16>, EncodeError>)
    ensures
        r is Ok <==> bytes@.len() <= OPCODE_CAPACITY,
        r matches Ok(b) ==> opcode_buffer_items(b) == bytes@,
        r is Err ==> r == Err::<heapless::Vec<u8, 16>, EncodeError>(EncodeError::CapacityExceeded),
{
    let mut buf = new_opcode_buffer();
    let mut i: usize = 0;
    while i < bytes.len()
        invariant
            i <= bytes@.len(),
            i <= OPCODE_CAPACITY,
            opcode_buffer_items(buf) == bytes@.subrange(0, i as int),
        decreases bytes@.len() - i,
    {
        if push_opcode_octet(&mut buf, bytes[i]).is_err() {
            return Err(EncodeError::CapacityExceeded);
        }
        assert(bytes@.subrange(0, i as int).push(bytes@[i as int]) =~= bytes@.subrange(0, i + 1));
        i += 1;
    }
    assert(bytes@.subrange(0, i as int) =~= bytes@);
    Ok(buf)
}

/// Copies octets into a fresh parameter buffer, failing where they exceed
/// its capacity.
fn parameter_buffer_of(bytes: &Vec<u8>) -> (r: Result<heapless::Vec<u8, 386>, EncodeError>)
    ensures
        r is Ok <==> bytes@.len() <= PARAMETERS_CAPACITY,
        r matches Ok(b) ==> parameter_buffer_items(b) == bytes@,
        r is Err ==> r == Err::<heapless::Vec<u8, 386>, EncodeError>(EncodeError::CapacityExceeded),
{
    let mut buf = new_parameter_buffer();
    let mut i: usize = 0;
    while i < bytes.len()
        invariant
            i <= bytes@.len(),
            i <= PARAMETERS_CAPACITY,
            parameter_buffer_items(buf) == bytes@.subrange(0, i as int),
        decreases bytes@.len() - i,
    {
        if push_parameter_octet(&mut buf, bytes[i]).is_err() {
            return Err(EncodeError::CapacityExceeded);
        }
        assert(bytes@.subrange(0, i as int).push(bytes@[i as int]) =~= bytes@.subrange(0, i + 1));
        i += 1;
    }
    assert(bytes@.subrange(0, i as int) =~= bytes@);
    Ok(buf)
}

/// Encodes a message into its opcode octets and its parameter octets,
/// through buffers of the fixed capacities; every representable message fits.
pub fn encode(msg: &MeshMessage) -> (r: Result<(Vec<u8>, Vec<u8>), EncodeError>)
    requires
        message_wf(*msg),
    ensures
        r matches Ok((opcode, parameters)) && opcode@ == opcode_bytes(opcode_of(*msg))
            && parameters@ == params_of(*msg),
{
    let opcode = opcode_buffer_of(&msg.opcode().emit())?;
    let parameters = parameter_buffer_of(&msg.emit_parameters())?;
    Ok((opcode_buffer_to_vec(&opcode), parameter_buffer_to_vec(&parameters)))
}

/// The opcodes that some known model reads.
pub open spec fn known_opcode(op: Opcode) -> bool {
    op == Opcode::TwoOctet(0x82, 0x01) || op == Opcode::TwoOctet(0x82, 0x02) || op
        == Opcode::TwoOctet(0x82, 0x03) || op == Opcode::TwoOctet(0x82, 0x04) || op
        == Opcode::TwoOctet(0x82, 0x31) || op == Opcode::OneOctet(0x52) || op
        == Opcode::TwoOctet(0x82, 0x23) || op == Opcode::TwoOctet(0x82, 0x24)
}

proof fn lemma_u24_round_trip(v: u32)
    requires
        v < 0x100_0000,
    ensures
        u24_of(u24_le(v)[0], u24_le(v)[1], u24_le(v)[2]) == v,
{
    let b0 = v % 256;
    let b1 = v / 256 % 256;
    let b2 = v / 65536 % 256;
    assert(b0 + b1 * 256 + b2 * 65536 == v) by (nonlinear_arith)
        requires
            v < 0x100_0000,
            b0 == v % 256,
            b1 == v / 256 % 256,
            b2 == v / 65536 % 256,
    ;
}

/// Decoding what was encoded gives the message back, for every
/// representable message of every known model.
pub proof fn lemma_decode_encode(m: MeshMessage)
    requires
        message_wf(m),
    ensures
        decode_spec(opcode_bytes(opcode_of(m)), params_of(m)) == Ok::<Option<MeshMessage>, DecodeError>(Some(m)),
{
    let op = opcode_of(m);
    assert(valid_opcode(op));
    lemma_split_opcode_bytes(op, Seq::empty());
    assert(opcode_bytes(op) + Seq::<u8>::empty() =~= opcode_bytes(op));
    let p = params_of(m);
    match m {
        MeshMessage::Sensor(SensorMessage::Status(s)) => {
            let t = s.temperature;
            assert(((t as u8) as i8) == t) by (bit_vector);
        },
        MeshMessage::Battery(BatteryMessage::Status(s)) => {
            lemma_u24_round_trip(s.time_to_discharge);
            lemma_u24_round_trip(s.time_to_charge);
            assert(p[1] == u24_le(s.time_to_discharge)[0]);
            assert(p[2] == u24_le(s.time_to_discharge)[1]);
            assert(p[3] == u24_le(s.time_to_discharge)[2]);
            assert(p[4] == u24_le(s.time_to_charge)[0]);
            assert(p[5] == u24_le(s.time_to_charge)[1]);
            assert(p[6] == u24_le(s.time_to_charge)[2]);
        },
        _ => {},
    }
}

/// An opcode that no known model reads decodes to no match, whatever the
/// parameters hold.
pub proof fn lemma_unknown_opcode_no_match(opcode: Seq<u8>, params: Seq<u8>)
    requires
        split_spec(opcode) matches Some((op, _)) && !known_opcode(op),
    ensures
        decode_spec(opcode, params) == Ok::<Option<MeshMessage>, DecodeError>(None),
{
}

/// An on/off `Set` carrying an intent decodes, after encoding, to the same
/// `Set` with the same intent.
pub proof fn lemma_onoff_intent_round_trip(on: bool, tid: u8, transition: Option<Transition>)
    ensures
        ({
            let m = MeshMessage::OnOff(
                OnOffMessage::SetAcknowledged(
                    OnOffSet { on_off: if on { 1 } else { 0 }, tid, transition },
                ),
            );
            decode_spec(opcode_bytes(opcode_of(m)), params_of(m)) matches Ok(
                Some(MeshMessage::OnOff(OnOffMessage::SetAcknowledged(s))),
            ) && s == OnOffSet { on_off: if on { 1 } else { 0 }, tid, transition } && (s.on_off
                == 1) == on
        }),
{
    lemma_decode_encode(
        MeshMessage::OnOff(
            OnOffMessage::SetAcknowledged(
                OnOffSet { on_off: if on { 1 } else { 0 }, tid, transition },
            ),
        ),
    );
}

} // verus!
