use vstd::prelude::*;

use crate::codec::{
    decode_spec, lemma_decode_encode, opcode_bytes, opcode_of, DecodeError, RawMessage,
};
use crate::messages::{
    message_wf, params_of, BatteryMessage, BatteryStatus, MeshMessage, OnOffMessage, OnOffSet,
    SensorMessage, SensorStatus,
};

verus! {

/// The spread of the random start offset of a simulated publisher, in
/// milliseconds.
pub const JITTER_MS: u32 = 2000;

/// Battery flags of the simulated node: not present, charge level
/// unknown, not chargeable.
pub const SIMULATED_BATTERY_FLAGS: u8 = 0x0c;

/// The temperature the simulated node reports, in half degrees.
pub const SIMULATED_TEMPERATURE: i8 = 22;

/// Why a publish did not go through.
#[derive(Clone, Copy, Debug, PartialEq, Eq, Structural)]
pub enum PublishError {
    /// The message does not fit the envelope's buffers.
    Encode,
    /// The transport refused or lost it.
    Send,
}

/// A transport that carries envelopes away from a simulated node.
pub trait Publisher {
    /// What the transport holds of a send of `message` that returned `r`;
    /// each transport says this for itself.
    spec fn sent(&self, message: RawMessage, r: Result<(), PublishError>) -> bool;

    /// Hands one envelope to the transport.
    fn send(&self, message: RawMessage) -> (r: Result<(), PublishError>)
        ensures
            self.sent(message, r),
    ;

    /// Frames a message in an envelope for slot 0, with no address, hands
    /// it to `send` once, and returns what `send` returned.
    fn publish(&self, msg: &MeshMessage) -> (r: Result<(), PublishError>)
        requires
            message_wf(*msg),
        ensures
            exists|m: RawMessage|
                m.address is None && m.location == 0 && m.opcode@ == opcode_bytes(opcode_of(*msg))
                    && m.parameters@ == params_of(*msg) && #[trigger] self.sent(m, r),
    {
        match RawMessage::from_message(None, 0, msg) {
            Ok(m) => self.send(m),
            Err(_) => Err(PublishError::Encode),
        }
    }
}

/// A published on/off `Set` reaches the transport in an envelope that
/// decodes to the same `Set`, with the same intent.
pub proof fn lemma_published_set_decodes(m: RawMessage, on: bool, tid: u8)
    requires
        m.opcode@ == opcode_bytes(opcode_of(onoff_set(on, tid))),
        m.parameters@ == params_of(onoff_set(on, tid)),
    ensures
        decode_spec(m.opcode@, m.parameters@) == Ok::<Option<MeshMessage>, DecodeError>(
            Some(onoff_set(on, tid)),
        ),
{
    lemma_decode_encode(onoff_set(on, tid));
}

/// The on/off `Set` with an intent and a transaction id, without transition.
pub open spec fn onoff_set(on: bool, tid: u8) -> MeshMessage {
    MeshMessage::OnOff(
        OnOffMessage::SetAcknowledged(
            OnOffSet { on_off: if on { 1 } else { 0 }, tid, transition: None },
        ),
    )
}

/// The simulated display: lit or dark, at a brightness.
#[derive(Clone, Copy, Debug, PartialEq, Eq, Structural)]
pub struct MatrixState {
    pub on: bool,
    pub brightness: u8,
}

/// A display state after a command: an acknowledged on/off `Set` turns it
/// on when its intent is 1 and off otherwise; anything else leaves it.
pub open spec fn after_command(m: MatrixState, opcode: Seq<u8>, params: Seq<u8>) -> MatrixState {
    match decode_spec(opcode, params) {
        Ok(Some(MeshMessage::OnOff(OnOffMessage::SetAcknowledged(s)))) => MatrixState {
            on: s.on_off == 1,
            brightness: m.brightness,
        },
        _ => m,
    }
}

impl MatrixState {
    /// A dark display at half brightness.
    pub fn new() -> (r: MatrixState)
        ensures
            r == (MatrixState { on: false, brightness: 128 }),
    {
        MatrixState { on: false, brightness: 128 }
    }

    /// The state after a command envelope arrives.
    pub fn apply_command(&self, command: &RawMessage) -> (r: MatrixState)
        ensures
            r == after_command(*self, command.opcode@, command.parameters@),
    {
        match command.decode() {
            Ok(Some(MeshMessage::OnOff(OnOffMessage::SetAcknowledged(s)))) => MatrixState {
                on: s.on_off == 1,
                brightness: self.brightness,
            },
            _ => *self,
        }
    }
}

/// Whether the simulator runs, and with what while it does.
#[derive(Clone, Copy, Debug, PartialEq, Eq, Structural)]
pub enum SimulatorState<S> {
    Running(S),
    Stopped,
}

impl<S> SimulatorState<S> {
    /// The state's name.
    pub fn label(&self) -> (r: &'static str)
        ensures
            self is Running ==> r@ == "Running"@,
            self is Stopped ==> r@ == "Stopped"@,
    {
        match self {
            SimulatorState::Running(_) => "Running",
            SimulatorState::Stopped => "Stopped",
        }
    }

    /// The caption of the button that toggles the state.
    pub fn button_label(&self) -> (r: &'static str)
        ensures
            self is Running ==> r@ == "Stop"@,
            self is Stopped ==> r@ == "Run"@,
    {
        match self {
            SimulatorState::Running(_) => "Stop",
            SimulatorState::Stopped => "Run",
        }
    }
}

/// The period of a simulated publisher: the interval in seconds as
/// milliseconds, plus a start offset below the jitter taken from a random
/// number. `None` where that does not fit in 32 bits.
pub fn send_interval(interval_secs: u32, random: u32) -> (r: Option<u32>)
    ensures
        (interval_secs * 1000 + random % JITTER_MS <= u32::MAX) <==> r is Some,
        r matches Some(v) ==> v == interval_secs * 1000 + random % JITTER_MS,
{
    let offset = random % JITTER_MS;
    if interval_secs > (u32::MAX - offset) / 1000 {
        None
    } else {
        Some(offset + interval_secs * 1000)
    }
}

/// A running simulation: the periods, in milliseconds, at which the
/// simulated node publishes its battery and its sensor status.
#[derive(Clone, Copy, Debug, PartialEq, Eq, Structural)]
pub struct Simulator {
    pub battery_period_ms: u32,
    pub sensor_period_ms: u32,
}

impl Simulator {
    /// Starts a simulation that publishes every `interval_secs` seconds,
    /// each publisher offset by its own random number. `None` where a
    /// period does not fit in 32 bits.
    pub fn start(interval_secs: u32, battery_random: u32, sensor_random: u32) -> (r: Option<
        Simulator,
    >)
        ensures
            (interval_secs * 1000 + battery_random % JITTER_MS <= u32::MAX && interval_secs * 1000
                + sensor_random % JITTER_MS <= u32::MAX) <==> r is Some,
            r matches Some(s) ==> s.battery_period_ms == interval_secs * 1000 + battery_random
                % JITTER_MS && s.sensor_period_ms == interval_secs * 1000 + sensor_random
                % JITTER_MS,
    {
        match (send_interval(interval_secs, battery_random), send_interval(interval_secs, sensor_random)) {
            (Some(b), Some(s)) => Some(Simulator { battery_period_ms: b, sensor_period_ms: s }),
            _ => None,
        }
    }
}

/// The battery status the simulated node publishes.
pub fn simulated_battery() -> (r: MeshMessage)
    ensures
        r == MeshMessage::Battery(
            BatteryMessage::Status(
                BatteryStatus {
                    level: 0,
                    time_to_discharge: 0,
                    time_to_charge: 0,
                    flags: SIMULATED_BATTERY_FLAGS,
                },
            ),
        ),
        message_wf(r),
{
    MeshMessage::Battery(
        BatteryMessage::Status(
            BatteryStatus {
                level: 0,
                time_to_discharge: 0,
                time_to_charge: 0,
                flags: SIMULATED_BATTERY_FLAGS,
            },
        ),
    )
}

/// The sensor status the simulated node publishes.
pub fn simulated_sensor() -> (r: MeshMessage)
    ensures
        r == MeshMessage::Sensor(
            SensorMessage::Status(SensorStatus { temperature: SIMULATED_TEMPERATURE }),
        ),
        message_wf(r),
{
    MeshMessage::Sensor(SensorMessage::Status(SensorStatus { temperature: SIMULATED_TEMPERATURE }))
}

} // verus!
