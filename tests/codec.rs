use mesh_models::codec::{
    decode, encode, DecodeError, EncodeError, Opcode, RawMessage, OPCODE_CAPACITY,
    PARAMETERS_CAPACITY,
};
use mesh_models::gateway::{telemetry_of, Telemetry};
use mesh_models::messages::{
    BatteryMessage, BatteryStatus, MeshMessage, OnOffMessage, OnOffSet, OnOffStatus,
    SensorMessage, SensorStatus, Target, Transition,
};

fn round_trip(m: MeshMessage) -> Result<Option<MeshMessage>, DecodeError> {
    let (opcode, parameters) = encode(&m).unwrap();
    decode(&opcode, &parameters)
}

#[test]
fn test_sensor_codec() {
    let msg = MeshMessage::Sensor(SensorMessage::Status(SensorStatus { temperature: 0 }));
    let (opcode, parameters) = encode(&msg).unwrap();
    assert!(opcode.len() <= 16);
    assert!(parameters.len() <= 386);
    let message = RawMessage::frame(Some(0), 0, opcode, parameters).unwrap();
    let parsed = telemetry_of(&message).unwrap();
    assert_eq!(parsed, Telemetry::Sensor { temperature: 0, location: 0 });
}

#[test]
fn onoff_set_round_trip_both_intents() {
    for on in [false, true] {
        let set = OnOffSet { on_off: if on { 1 } else { 0 }, tid: 0, transition: None };
        let m = MeshMessage::OnOff(OnOffMessage::SetAcknowledged(set));
        assert_eq!(round_trip(m), Ok(Some(m)));
    }
}

#[test]
fn onoff_set_exact_bytes() {
    let set = OnOffSet { on_off: 1, tid: 7, transition: Some(Transition { time: 3, delay: 4 }) };
    let (opcode, parameters) = encode(&MeshMessage::OnOff(OnOffMessage::SetUnacknowledged(set))).unwrap();
    assert_eq!(opcode, vec![0x82, 0x03]);
    assert_eq!(parameters, vec![1, 7, 3, 4]);
}

#[test]
fn every_kind_round_trips() {
    let set = OnOffSet { on_off: 0, tid: 9, transition: Some(Transition { time: 1, delay: 2 }) };
    let messages = [
        MeshMessage::OnOff(OnOffMessage::Get),
        MeshMessage::OnOff(OnOffMessage::SetAcknowledged(set)),
        MeshMessage::OnOff(OnOffMessage::SetUnacknowledged(set)),
        MeshMessage::OnOff(OnOffMessage::Status(OnOffStatus { present: 1, target: None })),
        MeshMessage::OnOff(OnOffMessage::Status(OnOffStatus {
            present: 0,
            target: Some(Target { state: 1, remaining: 5 }),
        })),
        MeshMessage::Sensor(SensorMessage::Get),
        MeshMessage::Sensor(SensorMessage::Status(SensorStatus { temperature: -128 })),
        MeshMessage::Battery(BatteryMessage::Get),
        MeshMessage::Battery(BatteryMessage::Status(BatteryStatus {
            level: 100,
            time_to_discharge: 0xff_ffff,
            time_to_charge: 0x01_0203,
            flags: 0x0c,
        })),
    ];
    for m in messages {
        assert_eq!(round_trip(m), Ok(Some(m)));
    }
}

#[test]
fn sensor_readings_round_trip_at_half_degree_scale() {
    for t in i8::MIN..=i8::MAX {
        let m = MeshMessage::Sensor(SensorMessage::Status(SensorStatus { temperature: t }));
        assert_eq!(round_trip(m), Ok(Some(m)));
    }
}

#[test]
fn battery_times_are_little_endian() {
    let m = MeshMessage::Battery(BatteryMessage::Status(BatteryStatus {
        level: 50,
        time_to_discharge: 0x01_0203,
        time_to_charge: 0x0a_0b0c,
        flags: 2,
    }));
    let (opcode, parameters) = encode(&m).unwrap();
    assert_eq!(opcode, vec![0x82, 0x24]);
    assert_eq!(parameters, vec![50, 0x03, 0x02, 0x01, 0x0c, 0x0b, 0x0a, 2]);
}

#[test]
fn unknown_opcode_is_no_match() {
    assert_eq!(decode(&[0x01], &[]), Ok(None));
    assert_eq!(decode(&[0x82, 0x99], &[1, 2, 3]), Ok(None));
    assert_eq!(decode(&[0xc0, 0x01, 0x02], &[0; 386]), Ok(None));
}

#[test]
fn arbitrary_short_opcodes_never_panic() {
    for a in 0..=255u8 {
        for b in [0u8, 0x01, 0x24, 0x31, 0xff] {
            let _ = decode(&[a, b], &[0; 386]);
            let _ = decode(&[a], &[1, 2]);
            let _ = decode(&[a, b, 0, 0, 0, 0, 0, 0, 0, 0, 0, 0, 0, 0, 0, 0], &[]);
        }
    }
}

#[test]
fn malformed_opcode_is_an_error() {
    assert_eq!(decode(&[], &[]), Err(DecodeError::InvalidOpcode));
    assert_eq!(decode(&[0x7f], &[]), Err(DecodeError::InvalidOpcode));
    assert_eq!(decode(&[0x82], &[]), Err(DecodeError::InvalidOpcode));
    assert_eq!(decode(&[0xc1, 0x00], &[]), Err(DecodeError::InvalidOpcode));
}

#[test]
fn truncated_or_extra_parameters_are_an_error() {
    assert_eq!(decode(&[0x82, 0x02], &[1]), Err(DecodeError::InvalidParameters));
    assert_eq!(decode(&[0x82, 0x02], &[1, 0, 0]), Err(DecodeError::InvalidParameters));
    assert_eq!(decode(&[0x82, 0x01], &[0]), Err(DecodeError::InvalidParameters));
    assert_eq!(decode(&[0x52], &[0xe0, 0x09]), Err(DecodeError::InvalidParameters));
    assert_eq!(decode(&[0x82, 0x24], &[0; 7]), Err(DecodeError::InvalidParameters));
}

#[test]
fn opcode_split_lengths() {
    assert_eq!(Opcode::split(&[0x52, 9]), Some((Opcode::OneOctet(0x52), 1)));
    assert_eq!(Opcode::split(&[0x82, 0x02, 9]), Some((Opcode::TwoOctet(0x82, 0x02), 2)));
    assert_eq!(Opcode::split(&[0xc3, 1, 2]), Some((Opcode::ThreeOctet(0xc3, 1, 2), 3)));
    assert_eq!(Opcode::ThreeOctet(0xc3, 1, 2).emit(), vec![0xc3, 1, 2]);
}

#[test]
fn frame_enforces_capacities() {
    assert!(RawMessage::frame(None, 0, vec![0; OPCODE_CAPACITY], vec![0; PARAMETERS_CAPACITY]).is_ok());
    assert_eq!(
        RawMessage::frame(None, 0, vec![0; OPCODE_CAPACITY + 1], vec![]).unwrap_err(),
        EncodeError::CapacityExceeded
    );
    assert_eq!(
        RawMessage::frame(None, 0, vec![], vec![0; PARAMETERS_CAPACITY + 1]).unwrap_err(),
        EncodeError::CapacityExceeded
    );
}

#[test]
fn envelope_from_message_decodes() {
    let m = MeshMessage::OnOff(OnOffMessage::Get);
    let raw = RawMessage::from_message(Some(5), 2, &m).unwrap();
    assert_eq!(raw.address, Some(5));
    assert_eq!(raw.location, 2);
    assert_eq!(raw.decode(), Ok(Some(m)));
}
