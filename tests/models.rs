use mesh_models::cadence::{
    CadenceMode, CadenceState, ControlEvent, InboundPayload, Metadata,
};
use mesh_models::codec::{decode, encode};
use mesh_models::display::{BlinkPhase, Blinker, DisplayAction, DisplayEvent, DisplayOnOff, DisplayOp};
use mesh_models::messages::{MeshMessage, OnOffMessage, OnOffSet, SensorMessage, SensorStatus};
use mesh_models::race::{select, Either};
use mesh_models::sensor::{Sensor, SensorAction, SensorEvent, SensorWait};

fn cadence(mode: CadenceMode) -> InboundPayload {
    InboundPayload::Control(ControlEvent::PublicationCadence(mode))
}

fn onoff(m: OnOffMessage) -> InboundPayload {
    InboundPayload::Message(MeshMessage::OnOff(m), Metadata { source: 1 })
}

fn set(on: u8) -> OnOffSet {
    OnOffSet { on_off: on, tid: 0, transition: None }
}

#[test]
fn cadence_transitions_leave_no_timer() {
    let mut c = CadenceState::new();
    assert_eq!(c.period(), None);
    c.process(&cadence(CadenceMode::Periodic(1000)));
    assert_eq!(c.period(), Some(1000));
    c.process(&cadence(CadenceMode::OnChange));
    assert_eq!(c.period(), None);
    c.process(&cadence(CadenceMode::Never));
    assert_eq!(c.period(), None);
}

#[test]
fn sensor_reverts_to_pure_waiting() {
    let mut s = Sensor::new();
    assert_eq!(s.wait(), SensorWait::Inbound);
    s.step(SensorEvent::Inbound(cadence(CadenceMode::Periodic(500))));
    assert_eq!(s.wait(), SensorWait::InboundOrTick(500));
    s.step(SensorEvent::Inbound(cadence(CadenceMode::OnChange)));
    s.step(SensorEvent::Inbound(cadence(CadenceMode::Never)));
    assert_eq!(s.wait(), SensorWait::Inbound);
}

#[test]
fn sensor_ignores_data_messages() {
    let mut s = Sensor::new();
    s.process(&cadence(CadenceMode::Periodic(100)));
    s.process(&onoff(OnOffMessage::SetAcknowledged(set(1))));
    assert_eq!(s.wait(), SensorWait::InboundOrTick(100));
}

#[test]
fn sensor_checks_message_before_tick() {
    let mut s = Sensor::new();
    s.process(&cadence(CadenceMode::Periodic(1000)));
    let p = cadence(CadenceMode::Never);
    assert!(matches!(s.race(Some(p), true), Some(SensorEvent::Inbound(q)) if q == p));
    assert!(matches!(s.race(None, true), Some(SensorEvent::Tick)));
    assert!(s.race(None, false).is_none());
}

#[test]
fn actuator_checks_animation_before_message() {
    let mut d = DisplayOnOff::new();
    d.step(DisplayEvent::Inbound(onoff(OnOffMessage::SetAcknowledged(set(1)))));
    let p = onoff(OnOffMessage::SetAcknowledged(set(0)));
    assert_eq!(d.race(true, Some(p)), Some(DisplayEvent::AnimationEnded));
    assert_eq!(d.race(false, Some(p)), Some(DisplayEvent::Inbound(p)));
}

#[test]
fn select_prefers_first_branch() {
    assert_eq!(select(Some(1), Some(2)), Some(Either::First(1)));
    assert_eq!(select::<i32, i32>(None, Some(2)), Some(Either::Second(2)));
    assert_eq!(select::<i32, i32>(None, None), None);
}

#[test]
fn actuator_on_then_off() {
    let mut d = DisplayOnOff::new();
    assert!(!d.is_active());
    let on = onoff(OnOffMessage::SetUnacknowledged(set(1)));
    let e = d.race(false, Some(on)).unwrap();
    assert_eq!(d.step(e), DisplayAction::Animate);
    assert!(d.is_active());
    assert_eq!(d.next_frame(0), DisplayOp::Reset);
    assert_eq!(d.next_frame(10), DisplayOp::Brighter(50));
    let off = onoff(OnOffMessage::SetAcknowledged(set(0)));
    let e = d.race(false, Some(off)).unwrap();
    assert_eq!(e, DisplayEvent::Inbound(off));
    assert_eq!(d.step(e), DisplayAction::Wait);
    assert!(!d.is_active());
}

#[test]
fn actuator_ignores_get_and_status() {
    let mut d = DisplayOnOff::new();
    assert_eq!(d.step(DisplayEvent::Inbound(onoff(OnOffMessage::Get))), DisplayAction::Wait);
    assert!(!d.is_active());
    d.step(DisplayEvent::Inbound(onoff(OnOffMessage::SetAcknowledged(set(2)))));
    assert!(d.is_active());
    assert_eq!(d.step(DisplayEvent::Inbound(onoff(OnOffMessage::Get))), DisplayAction::Continue);
    assert!(d.is_active());
    assert_eq!(d.step(DisplayEvent::AnimationEnded), DisplayAction::Animate);
}

#[test]
fn blink_choreography() {
    let mut b = Blinker::new();
    assert_eq!(b.next(1000), DisplayOp::Reset);
    assert_eq!(b.next(1000), DisplayOp::Brighter(50));
    assert_eq!(b.next(1599), DisplayOp::Brighter(50));
    assert_eq!(b.next(1600), DisplayOp::Dimmer(50));
    assert_eq!(b.next(1999), DisplayOp::Dimmer(50));
    assert_eq!(b.next(2000), DisplayOp::ClearAndPause(1000));
    assert_eq!(b.next(3000), DisplayOp::Reset);
    let mut late = Blinker::new();
    assert_eq!(late.next(u64::MAX), DisplayOp::Reset);
    assert_eq!(late.next(u64::MAX), DisplayOp::Dimmer(50));
    let _ = BlinkPhase::Start;
}

#[test]
fn periodic_sensor_publishes_reading() {
    let mut s = Sensor::new();
    s.step(SensorEvent::Inbound(cadence(CadenceMode::Periodic(1000))));
    let e = s.race(None, true).unwrap();
    assert_eq!(s.step(e), SensorAction::ReadSensor);
    let a = s.step(SensorEvent::Read(Ok(21)));
    let expected = MeshMessage::Sensor(SensorMessage::Status(SensorStatus { temperature: 42 }));
    assert_eq!(a, SensorAction::Publish(expected));
    let (opcode, parameters) = encode(&expected).unwrap();
    assert_eq!(decode(&opcode, &parameters), Ok(Some(expected)));
    assert_eq!(s.step(SensorEvent::Published(Err(()))), SensorAction::Idle);
    assert_eq!(s.wait(), SensorWait::InboundOrTick(1000));
}

#[test]
fn sensor_read_failures_skip_the_tick() {
    let mut s = Sensor::new();
    s.step(SensorEvent::Inbound(cadence(CadenceMode::Periodic(1000))));
    assert_eq!(s.step(SensorEvent::Read(Err(()))), SensorAction::Idle);
    assert_eq!(s.step(SensorEvent::Read(Ok(64))), SensorAction::Idle);
    assert_eq!(Sensor::read(Ok(-64)), Ok(SensorStatus { temperature: -128 }));
    assert_eq!(Sensor::read(Ok(63)), Ok(SensorStatus { temperature: 126 }));
    assert_eq!(Sensor::read(Ok(-65)), Err(()));
}

#[test]
fn unarmed_tick_is_ignored() {
    let mut s = Sensor::new();
    assert_eq!(s.step(SensorEvent::Tick), SensorAction::Idle);
    assert!(s.race(None, true).is_none());
    assert_eq!(s.step(SensorEvent::Read(Ok(20))), SensorAction::Idle);
}
