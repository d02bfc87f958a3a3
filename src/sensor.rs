use vstd::prelude::*;

use crate::cadence::{
    after_payload, CadenceMode, CadenceState, ControlEvent, InboundPayload,
};
use crate::codec::{decode_spec, lemma_decode_encode, opcode_bytes, opcode_of};
use crate::messages::{params_of, MeshMessage, SensorMessage, SensorStatus};
use crate::race::{select, select_spec, Either};

verus! {

/// What the sensor loop awaits next.
#[derive(Clone, Copy, Debug, PartialEq, Eq, Structural)]
pub enum SensorWait {
    /// Inbound payloads only.
    Inbound,
    /// The next inbound payload raced against the next tick of the timer
    /// with this period in milliseconds.
    InboundOrTick(u64),
}

/// What happened to the sensor loop.
#[derive(Clone, Copy, Debug)]
pub enum SensorEvent {
    Inbound(InboundPayload),
    Tick,
    /// The driver's reading in whole degrees Celsius, or its failure.
    Read(Result<i8, ()>),
    /// The outcome of a publish.
    Published(Result<(), ()>),
}

/// What the sensor loop does next.
#[derive(Clone, Copy, Debug, PartialEq, Eq, Structural)]
pub enum SensorAction {
    /// Go back to waiting.
    Idle,
    /// Read the temperature sensor.
    ReadSensor,
    /// Publish this status message, once, at best effort.
    Publish(MeshMessage),
}

/// A driver reading in whole degrees, at the half-degree scale of the wire,
/// where that fits the reading's octet.
pub open spec fn reading_spec(celsius: Result<i8, ()>) -> Result<SensorStatus, ()> {
    match celsius {
        Ok(c) => if -64 <= c && c <= 63 {
            Ok(SensorStatus { temperature: (2 * c) as i8 })
        } else {
            Err(())
        },
        Err(_) => Err(()),
    }
}

pub open spec fn wait_spec(timer: Option<u64>) -> SensorWait {
    match timer {
        Some(p) => SensorWait::InboundOrTick(p),
        None => SensorWait::Inbound,
    }
}

/// One decision of the sensor loop: the timer after the event, and the
/// action. A reading is published only while the timer is armed.
pub open spec fn sensor_step(timer: Option<u64>, event: SensorEvent) -> (Option<u64>, SensorAction) {
    match event {
        SensorEvent::Inbound(data) => (after_payload(timer, data), SensorAction::Idle),
        SensorEvent::Tick => (
            timer,
            if timer is Some {
                SensorAction::ReadSensor
            } else {
                SensorAction::Idle
            },
        ),
        SensorEvent::Read(r) => (
            timer,
            match reading_spec(r) {
                Ok(s) => if timer is Some {
                    SensorAction::Publish(MeshMessage::Sensor(SensorMessage::Status(s)))
                } else {
                    SensorAction::Idle
                },
                Err(_) => SensorAction::Idle,
            },
        ),
        SensorEvent::Published(_) => (timer, SensorAction::Idle),
    }
}

/// How a race of the sensor loop ends: an inbound payload is checked
/// before the tick, and a tick counts only while the timer is armed.
pub open spec fn sensor_race(timer: Option<u64>, inbound: Option<InboundPayload>, tick: bool) -> Option<
    SensorEvent,
> {
    match select_spec(inbound, if tick && timer is Some { Some(()) } else { None }) {
        Some(Either::First(p)) => Some(SensorEvent::Inbound(p)),
        Some(Either::Second(_)) => Some(SensorEvent::Tick),
        None => None,
    }
}

/// The sensor model: samples a temperature and publishes it on the cadence
/// that control events set.
pub struct Sensor {
    cadence: CadenceState,
}

impl Sensor {
    pub closed spec fn timer(&self) -> Option<u64> {
        self.cadence.timer()
    }

    /// A sensor with no timer armed.
    pub fn new() -> (r: Sensor)
        ensures
            r.timer() is None,
    {
        Sensor { cadence: CadenceState::new() }
    }

    /// Puts a driver reading in whole degrees at the half-degree scale.
    pub fn read(celsius: Result<i8, ()>) -> (r: Result<SensorStatus, ()>)
        ensures
            r == reading_spec(celsius),
    {
        match celsius {
            Ok(c) => if -64 <= c && c <= 63 {
                Ok(SensorStatus { temperature: 2 * c })
            } else {
                Err(())
            },
            Err(_) => Err(()),
        }
    }

    /// Hands a control event to the cadence state; messages are ignored.
    pub fn process(&mut self, data: &InboundPayload)
        ensures
            final(self).timer() == after_payload(old(self).timer(), *data),
    {
        self.cadence.process(data);
    }

    /// What to await next.
    pub fn wait(&self) -> (r: SensorWait)
        ensures
            r == wait_spec(self.timer()),
    {
        match self.cadence.period() {
            Some(p) => SensorWait::InboundOrTick(p),
            None => SensorWait::Inbound,
        }
    }

    /// Resolves a race between the next inbound payload and the next tick.
    pub fn race(&self, inbound: Option<InboundPayload>, tick: bool) -> (r: Option<SensorEvent>)
        ensures
            r == sensor_race(self.timer(), inbound, tick),
    {
        let armed = self.cadence.period().is_some();
        let t: Option<()> = if tick && armed {
            Some(())
        } else {
            None
        };
        match select(inbound, t) {
            Some(Either::First(p)) => Some(SensorEvent::Inbound(p)),
            Some(Either::Second(_)) => Some(SensorEvent::Tick),
            None => None,
        }
    }

    /// Decides what the loop does on an event.
    pub fn step(&mut self, event: SensorEvent) -> (r: SensorAction)
        ensures
            (final(self).timer(), r) == sensor_step(old(self).timer(), event),
    {
        match event {
            SensorEvent::Inbound(data) => {
                self.process(&data);
                SensorAction::Idle
            },
            SensorEvent::Tick => {
                if self.cadence.period().is_some() {
                    SensorAction::ReadSensor
                } else {
                    SensorAction::Idle
                }
            },
            SensorEvent::Read(r) => match Sensor::read(r) {
                Ok(s) => if self.cadence.period().is_some() {
                    SensorAction::Publish(MeshMessage::Sensor(SensorMessage::Status(s)))
                } else {
                    SensorAction::Idle
                },
                Err(_) => SensorAction::Idle,
            },
            SensorEvent::Published(_) => SensorAction::Idle,
        }
    }
}

pub open spec fn cadence_event(mode: CadenceMode) -> InboundPayload {
    InboundPayload::Control(ControlEvent::PublicationCadence(mode))
}

/// While the timer is armed and both are ready, the inbound payload wins
/// the race over the tick; a tick alone wins; a tick without a timer never does.
pub proof fn lemma_message_before_tick(period: u64, data: InboundPayload)
    ensures
        sensor_race(Some(period), Some(data), true) == Some(SensorEvent::Inbound(data)),
        sensor_race(Some(period), None, true) == Some(SensorEvent::Tick),
        sensor_race(None, None, true) is None,
{
}

/// After `Periodic`, then `OnChange`, then `Never`, no timer is armed and
/// the loop waits on inbound payloads alone.
pub proof fn lemma_cadence_disarms(timer: Option<u64>, period: u64)
    ensures
        ({
            let (t1, _) = sensor_step(timer, SensorEvent::Inbound(cadence_event(CadenceMode::Periodic(period))));
            let (t2, _) = sensor_step(t1, SensorEvent::Inbound(cadence_event(CadenceMode::OnChange)));
            let (t3, _) = sensor_step(t2, SensorEvent::Inbound(cadence_event(CadenceMode::Never)));
            t1 == Some(period) && wait_spec(t1) == SensorWait::InboundOrTick(period) && t3 is None
                && wait_spec(t3) == SensorWait::Inbound
        }),
{
}

/// With no timer armed, no event leads to a read or a publication.
pub proof fn lemma_unarmed_never_publishes(event: SensorEvent)
    ensures
        sensor_step(None, event).1 == SensorAction::Idle,
{
}

/// Armed with a period, a tick leads to a read, and a successful read to
/// the publication of a status whose encoding decodes to the reading at
/// the half-degree scale.
pub proof fn lemma_periodic_publish(period: u64, celsius: i8)
    requires
        -64 <= celsius <= 63,
    ensures
        ({
            let (t, _) = sensor_step(None, SensorEvent::Inbound(cadence_event(CadenceMode::Periodic(period))));
            let m = MeshMessage::Sensor(SensorMessage::Status(SensorStatus { temperature: (2 * celsius) as i8 }));
            &&& t == Some(period)
            &&& sensor_race(t, None, true) == Some(SensorEvent::Tick)
            &&& sensor_step(t, SensorEvent::Tick) == (t, SensorAction::ReadSensor)
            &&& sensor_step(t, SensorEvent::Read(Ok(celsius))) == (t, SensorAction::Publish(m))
            &&& decode_spec(opcode_bytes(opcode_of(m)), params_of(m)) == Ok::<Option<MeshMessage>, crate::codec::DecodeError>(Some(m))
            &&& m matches MeshMessage::Sensor(SensorMessage::Status(s)) && s.temperature == 2 * celsius
        }),
{
    lemma_decode_encode(MeshMessage::Sensor(SensorMessage::Status(SensorStatus { temperature: (2 * celsius) as i8 })));
}

} // verus!
