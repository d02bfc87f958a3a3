use mesh_models::codec::{encode, RawMessage};
use mesh_models::gateway::{
    battery_presence, command_message, degrees_of, telemetry_of, BatteryPresence, Telemetry,
};
use mesh_models::messages::{MeshMessage, OnOffMessage, OnOffSet, SensorMessage, SensorStatus};
use mesh_models::simulator::{
    send_interval, simulated_battery, simulated_sensor, MatrixState, PublishError,
    Publisher, Simulator, SimulatorState,
};
use std::cell::RefCell;

fn envelope(m: MeshMessage, location: u16) -> RawMessage {
    let (opcode, parameters) = encode(&m).unwrap();
    RawMessage::frame(None, location, opcode, parameters).unwrap()
}

#[test]
fn rescale_halves_toward_zero() {
    assert_eq!(degrees_of(44), 22);
    assert_eq!(degrees_of(45), 22);
    assert_eq!(degrees_of(-45), -22);
    assert_eq!(degrees_of(-128), -64);
    assert_eq!(degrees_of(127), 63);
    // An odd stored value loses its half degree on the way out.
    assert_ne!(degrees_of(45) * 2, 45);
    assert_eq!(degrees_of(44) * 2, 44);
}

#[test]
fn command_becomes_onoff_set() {
    let raw = command_message(0x1_0005, 3, true);
    assert_eq!(raw.address, Some(5));
    assert_eq!(raw.location, 3);
    assert_eq!(raw.opcode, vec![0x82, 0x02]);
    assert_eq!(raw.parameters, vec![1, 0]);
    assert_eq!(command_message(1, 0, false).parameters, vec![0, 0]);
}

#[test]
fn telemetry_of_each_kind() {
    let press = MeshMessage::OnOff(OnOffMessage::SetUnacknowledged(OnOffSet {
        on_off: 1,
        tid: 0,
        transition: None,
    }));
    assert_eq!(telemetry_of(&envelope(press, 4)), Some(Telemetry::Button { on: true, location: 4 }));
    let sensor = MeshMessage::Sensor(SensorMessage::Status(SensorStatus { temperature: 45 }));
    assert_eq!(
        telemetry_of(&envelope(sensor, 1)),
        Some(Telemetry::Sensor { temperature: 22, location: 1 })
    );
    assert_eq!(
        telemetry_of(&envelope(simulated_battery(), 2)),
        Some(Telemetry::Battery { level: 0, presence: BatteryPresence::NotPresent, location: 2 })
    );
    assert_eq!(telemetry_of(&envelope(MeshMessage::OnOff(OnOffMessage::Get), 0)), None);
    let bad = RawMessage { address: None, location: 0, opcode: vec![], parameters: vec![] };
    assert_eq!(telemetry_of(&bad), None);
}

#[test]
fn battery_presence_from_low_bits() {
    assert_eq!(battery_presence(0x0c), BatteryPresence::NotPresent);
    assert_eq!(battery_presence(0x01), BatteryPresence::PresentRemovable);
    assert_eq!(battery_presence(0x06), BatteryPresence::PresentNotRemovable);
    assert_eq!(battery_presence(0xff), BatteryPresence::Unknown);
}

#[test]
fn matrix_follows_acknowledged_sets_only() {
    let m = MatrixState::new();
    assert_eq!(m, MatrixState { on: false, brightness: 128 });
    let on = command_message(1, 0, true);
    let m = m.apply_command(&on);
    assert!(m.on);
    assert_eq!(m.brightness, 128);
    let unack = envelope(
        MeshMessage::OnOff(OnOffMessage::SetUnacknowledged(OnOffSet { on_off: 0, tid: 0, transition: None })),
        0,
    );
    assert!(m.apply_command(&unack).on);
    assert!(!m.apply_command(&command_message(1, 0, false)).on);
}

#[test]
fn simulator_labels() {
    let running: SimulatorState<u8> = SimulatorState::Running(0);
    let stopped: SimulatorState<u8> = SimulatorState::Stopped;
    assert_eq!(running.label(), "Running");
    assert_eq!(stopped.label(), "Stopped");
    assert_eq!(running.button_label(), "Stop");
    assert_eq!(stopped.button_label(), "Run");
}

#[test]
fn send_interval_adds_jitter() {
    assert_eq!(send_interval(5, 2500), Some(5500));
    assert_eq!(send_interval(0, 1999), Some(1999));
    assert_eq!(send_interval(u32::MAX / 1000, 0), Some(u32::MAX / 1000 * 1000));
    assert_eq!(send_interval(u32::MAX / 1000, 1999), None);
}

struct Recorder {
    sent: RefCell<Vec<RawMessage>>,
}

impl Publisher for Recorder {
    fn sent(&self, _message: RawMessage, r: Result<(), PublishError>) -> bool {
        r.is_ok()
    }

    fn send(&self, message: RawMessage) -> Result<(), PublishError> {
        self.sent.borrow_mut().push(message);
        Ok(())
    }
}

#[test]
fn publish_frames_for_slot_zero() {
    let r = Recorder { sent: RefCell::new(Vec::new()) };
    assert_eq!(r.publish(&simulated_sensor()), Ok(()));
    let sent = r.sent.borrow();
    assert_eq!(sent.len(), 1);
    assert_eq!(sent[0].address, None);
    assert_eq!(sent[0].location, 0);
    assert_eq!(sent[0].opcode, vec![0x52]);
    assert_eq!(sent[0].parameters, vec![0xe0, 0x09, 22]);
}

#[test]
fn simulator_start_periods() {
    assert_eq!(
        Simulator::start(5, 100, 2001),
        Some(Simulator { battery_period_ms: 5100, sensor_period_ms: 5001 })
    );
    assert_eq!(Simulator::start(u32::MAX / 1000, 0, 1999), None);
}

#[test]
fn published_set_decodes_to_same_intent() {
    for on in [false, true] {
        let r = Recorder { sent: RefCell::new(Vec::new()) };
        let set = MeshMessage::OnOff(OnOffMessage::SetAcknowledged(OnOffSet {
            on_off: if on { 1 } else { 0 },
            tid: 3,
            transition: None,
        }));
        assert_eq!(r.publish(&set), Ok(()));
        let sent = r.sent.borrow();
        assert_eq!(sent.len(), 1);
        assert_eq!(sent[0].decode(), Ok(Some(set)));
    }
}
