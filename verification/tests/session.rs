use sma_inverter_exporter::discovery::InverterAddress;
use sma_inverter_exporter::frame::{DeviceAddress, Endpoint, Field, Frame};
use sma_inverter_exporter::measurement::Quantity;
use sma_inverter_exporter::readings::{Command, PollData};
use sma_inverter_exporter::session::{
    login_outcome, next_counter, obfuscate_password, opcode_answers, poll_outcome, Inverter,
    Progress, SessionError, SessionState, UserClass, FIRST_COUNTER, OPCODE_LOGIN, OPCODE_LOGOFF,
    PASSWORD_LEN, PASSWORD_OFFSET,
};

const SESSION_LOCAL: DeviceAddress = DeviceAddress { low: 0x3B9A_CA00, high: 0x0001 };

const SESSION_DEVICE: Endpoint =
    Endpoint { address: DeviceAddress { low: 0x7712_3456, high: 0x0002 }, susy_id: 0x015A };

fn session_fresh() -> Inverter {
    Inverter::new(InverterAddress { a: 192, b: 168, c: 1, d: 10 }, SESSION_LOCAL)
}

fn session_reply(opcode: u32, counter: u16, source: Endpoint, payload: Vec<u8>) -> Vec<u8> {
    Frame {
        group: 0,
        destination: Endpoint { address: SESSION_LOCAL, susy_id: 0x0078 },
        source,
        control: 0x00E0,
        counter,
        session_id: 0,
        opcode,
        payload,
    }
    .encode()
    .unwrap()
}

fn session_logged_in() -> Inverter {
    let mut inverter = session_fresh();
    inverter.login(b"0000", UserClass::User, 1_700_000_000);
    let reply = session_reply(
        OPCODE_LOGIN,
        0x8000,
        SESSION_DEVICE,
        vec![0, 0, 0, 0, 0x44, 0x33, 0x22, 0x11],
    );
    assert_eq!(inverter.on_login_datagram(&reply), Progress::Done(Ok(())));
    inverter
}

fn session_record(lri: u32, class: u8, channel: u8, raw: u32) -> Vec<u8> {
    let mut record = Vec::new();
    record.extend_from_slice(&lri.to_le_bytes());
    record.push(class);
    record.push(channel);
    record.extend_from_slice(&[0, 0]);
    record.extend_from_slice(&1_700_000_000u32.to_le_bytes());
    record.extend_from_slice(&raw.to_le_bytes());
    record.extend_from_slice(&[0; 12]);
    record
}

#[test]
fn new_device_is_discovered() {
    let inverter = session_fresh();
    assert_eq!(inverter.state, SessionState::Discovered);
    assert!(!inverter.is_authenticated());
    assert_eq!(inverter.session_id, 0);
    assert_eq!(inverter.counter, 0x8000);
    assert_eq!(inverter.address, InverterAddress { a: 192, b: 168, c: 1, d: 10 });
}

#[test]
fn password_obfuscation_of_the_default_password() {
    let mut inverter = session_fresh();
    let datagram = inverter.login(b"0000", UserClass::User, 1_700_000_000);
    assert_eq!(
        &datagram[58..70],
        &[0xB8, 0xB8, 0xB8, 0xB8, 0x88, 0x88, 0x88, 0x88, 0x88, 0x88, 0x88, 0x88]
    );
    assert_eq!(datagram.len(), 70);
    assert_eq!(PASSWORD_OFFSET, 58);
    assert_eq!(PASSWORD_LEN, 12);
}

#[test]
fn password_field_for_each_class() {
    assert_eq!(
        obfuscate_password(b"sma", UserClass::Installer),
        vec![0xC8, 0xD6, 0xDA, 0xBB, 0xBB, 0xBB, 0xBB, 0xBB, 0xBB, 0xBB, 0xBB, 0xBB]
    );
    assert_eq!(obfuscate_password(b"", UserClass::User), vec![0x88; 12]);
    assert_eq!(
        obfuscate_password(b"0123456789abcdef", UserClass::User),
        vec![0xB8, 0xB9, 0xBA, 0xBB, 0xBC, 0xBD, 0xBE, 0xBF, 0xB0, 0xB1, 0xE9, 0xEA]
    );
    assert_eq!(UserClass::User.code(), 0x07);
    assert_eq!(UserClass::Installer.code(), 0x0A);
    assert_eq!(UserClass::User.key(), 0x88);
    assert_eq!(UserClass::Installer.key(), 0xBB);
}

#[test]
fn login_request_is_built_field_by_field() {
    let mut inverter = session_fresh();
    let datagram = inverter.login(b"0000", UserClass::User, 0x6553_F100);
    let frame = Frame::decode(&datagram).unwrap();
    assert_eq!(frame.opcode, 0xFFFD_040C);
    assert_eq!(frame.counter, 0x8000);
    assert_eq!(frame.session_id, 0);
    assert_eq!(frame.group, 0);
    assert_eq!(frame.control, 0x00A0);
    assert_eq!(frame.source, Endpoint { address: SESSION_LOCAL, susy_id: 0x0078 });
    assert_eq!(
        frame.destination,
        Endpoint { address: DeviceAddress { low: 0xFFFF_FFFF, high: 0xFFFF }, susy_id: 0xFFFF }
    );
    assert_eq!(&frame.payload[..8], &[0x07, 0, 0, 0, 0x00, 0xF1, 0x53, 0x65]);
    assert_eq!(inverter.state, SessionState::Discovered);
}

#[test]
fn installer_login_carries_its_class_and_key() {
    let mut inverter = session_fresh();
    let datagram = inverter.login(b"1111", UserClass::Installer, 0);
    assert_eq!(&datagram[50..54], &[0x0A, 0, 0, 0]);
    assert_eq!(
        &datagram[58..70],
        &[0x8A, 0x8A, 0x8A, 0x8A, 0xBB, 0xBB, 0xBB, 0xBB, 0xBB, 0xBB, 0xBB, 0xBB]
    );
}

#[test]
fn login_reply_opens_the_session() {
    let inverter = session_logged_in();
    assert_eq!(inverter.state, SessionState::Authenticated);
    assert!(inverter.is_authenticated());
    assert_eq!(inverter.session_id, 0x1122_3344);
    assert_eq!(inverter.device, SESSION_DEVICE);
    assert_eq!(inverter.counter, FIRST_COUNTER);
}

#[test]
fn login_is_refused_with_a_distinct_kind() {
    for (status, error) in [
        (0x01u8, SessionError::WrongPassword),
        (0x02u8, SessionError::Locked),
        (0x07u8, SessionError::Unsupported),
    ] {
        let mut inverter = session_fresh();
        inverter.login(b"1234", UserClass::User, 1);
        let before = inverter;
        let reply = session_reply(OPCODE_LOGIN, 0x8000, SESSION_DEVICE, vec![status, 0, 0, 0]);
        assert_eq!(inverter.on_login_datagram(&reply), Progress::Done(Err(error)));
        assert_eq!(inverter, before);
    }
}

#[test]
fn login_outcome_of_each_payload() {
    assert_eq!(login_outcome(&[]), Err(SessionError::Malformed(Field::Body)));
    assert_eq!(login_outcome(&[0, 0, 0, 0, 1, 2, 3]), Err(SessionError::Malformed(Field::Body)));
    assert_eq!(login_outcome(&[0, 9, 9, 9, 1, 2, 3, 4]), Ok(0x0403_0201));
    assert_eq!(login_outcome(&[1]), Err(SessionError::WrongPassword));
    assert_eq!(login_outcome(&[2]), Err(SessionError::Locked));
    assert_eq!(login_outcome(&[7]), Err(SessionError::Unsupported));
    assert_eq!(login_outcome(&[3, 0, 0, 0]), Err(SessionError::Malformed(Field::Status)));
}

#[test]
fn malformed_login_reply_is_passed_over() {
    let mut inverter = session_fresh();
    inverter.login(b"0000", UserClass::User, 1);
    let before = inverter;
    let odd_status = session_reply(OPCODE_LOGIN, 0x8000, SESSION_DEVICE, vec![0x55, 0, 0, 0]);
    assert_eq!(inverter.on_login_datagram(&odd_status), Progress::KeepReading);
    let short = session_reply(OPCODE_LOGIN, 0x8000, SESSION_DEVICE, vec![0, 0, 0, 0]);
    assert_eq!(inverter.on_login_datagram(&short), Progress::KeepReading);
    assert_eq!(inverter.on_login_datagram(&[1, 2, 3]), Progress::KeepReading);
    assert_eq!(inverter, before);
}

#[test]
fn login_reply_from_our_own_address_is_passed_over() {
    let mut inverter = session_fresh();
    inverter.login(b"0000", UserClass::User, 1);
    let own = Endpoint { address: SESSION_LOCAL, susy_id: 0x015A };
    let reply = session_reply(OPCODE_LOGIN, 0x8000, own, vec![0, 0, 0, 0, 1, 2, 3, 4]);
    assert_eq!(inverter.on_login_datagram(&reply), Progress::KeepReading);
    assert_eq!(inverter.state, SessionState::Discovered);
}

#[test]
fn poll_needs_a_session() {
    let mut inverter = session_fresh();
    assert_eq!(inverter.poll(Command::BatteryInfo), None);
    assert_eq!(inverter.logoff(), None);
    assert_eq!(inverter, session_fresh());
}

#[test]
fn poll_request_is_built_field_by_field() {
    let mut inverter = session_logged_in();
    let datagram = inverter.poll(Command::DcVoltage).unwrap();
    let frame = Frame::decode(&datagram).unwrap();
    assert_eq!(frame.opcode, 0x5100_0200);
    assert_eq!(frame.counter, 0x8001);
    assert_eq!(frame.session_id, 0x1122_3344);
    assert_eq!(frame.destination, SESSION_DEVICE);
    assert_eq!(frame.payload, vec![0x00, 0x1E, 0x25, 0x00, 0x00, 0x1E, 0x25, 0x00, 0x40, 0, 0, 0]);
    let datagram = inverter.poll(Command::EnergyProduction).unwrap();
    let frame = Frame::decode(&datagram).unwrap();
    assert_eq!(frame.opcode, 0x5400_0200);
    assert_eq!(frame.counter, 0x8002);
    assert_eq!(frame.payload, vec![0x00, 0x01, 0x26, 0x00, 0x00, 0x01, 0x26, 0x00, 0, 0, 0, 0]);
    let datagram = inverter.poll(Command::BatteryInfo).unwrap();
    assert_eq!(&datagram[50..54], &[0x00, 0x5B, 0x49, 0x00]);
    let datagram = inverter.poll(Command::BatteryChargeStatus).unwrap();
    assert_eq!(&datagram[50..54], &[0x00, 0x5A, 0x29, 0x00]);
    assert_eq!(inverter.counter, 0x8004);
}

#[test]
fn counter_strictly_increases_within_a_session() {
    let mut inverter = session_logged_in();
    let mut last = inverter.counter;
    for _ in 0..500 {
        inverter.poll(Command::BatteryChargeStatus).unwrap();
        assert!(inverter.counter > last);
        assert_eq!(inverter.counter, last + 1);
        assert_eq!(inverter.counter & 0x8000, 0x8000);
        last = inverter.counter;
    }
}

#[test]
fn counter_keeps_its_high_bit() {
    assert_eq!(next_counter(0x8000), 0x8001);
    assert_eq!(next_counter(0xFFFE), 0xFFFF);
    assert_eq!(next_counter(0xFFFF), 0x8000);
    assert_eq!(next_counter(0x0000), 0x8000);
    assert_eq!(next_counter(0x7FFF), 0x8000);
}

#[test]
fn counter_mismatch_is_rejected() {
    let mut inverter = session_logged_in();
    inverter.poll(Command::BatteryChargeStatus).unwrap();
    assert_eq!(inverter.counter, 0x8001);
    let before = inverter;
    let stale = session_reply(0x5100_0200, 0x7FFF, SESSION_DEVICE, vec![0, 0, 0, 0]);
    assert_eq!(
        inverter.on_poll_datagram(Command::BatteryChargeStatus, &stale),
        Progress::KeepReading
    );
    assert_eq!(inverter.on_deadline(), SessionError::Timeout);
    assert_eq!(inverter, before);
    assert_eq!(inverter.state, SessionState::Authenticated);
}

#[test]
fn rejected_reply_names_its_field() {
    let mut inverter = session_logged_in();
    inverter.poll(Command::DcVoltage).unwrap();
    let good = session_reply(0x5100_0200, 0x8001, SESSION_DEVICE, vec![0, 0, 0, 0]);
    assert_eq!(inverter.accept(0x5100_0200, &good).unwrap().counter, 0x8001);
    assert_eq!(inverter.accept(0x5100_0200, &good[..40]), Err(Field::Body));
    assert_eq!(inverter.accept(0x5400_0201, &good), Err(Field::Opcode));
    let stale = session_reply(0x5100_0200, 0x8000, SESSION_DEVICE, vec![0, 0, 0, 0]);
    assert_eq!(inverter.accept(0x5100_0200, &stale), Err(Field::Counter));
    assert_eq!(inverter.correlate(0x5100_0200, &stale), Err(Field::Counter));
    let mut other = SESSION_DEVICE;
    other.susy_id += 1;
    let foreign = session_reply(0x5100_0200, 0x8001, other, vec![0, 0, 0, 0]);
    assert_eq!(inverter.accept(0x5100_0200, &foreign), Err(Field::Address));
    assert_eq!(inverter.correlate(0x5100_0200, &foreign).unwrap().source, other);
    let own = Endpoint { address: SESSION_LOCAL, susy_id: 1 };
    let echo = session_reply(OPCODE_LOGIN, 0x8001, own, vec![0, 0, 0, 0]);
    assert_eq!(inverter.accept_login(&echo), Err(Field::Address));
    let login = session_reply(OPCODE_LOGIN, 0x8001, SESSION_DEVICE, vec![0, 0, 0, 0]);
    assert_eq!(inverter.accept_login(&login).unwrap().opcode, OPCODE_LOGIN);
}

#[test]
fn replayed_reply_is_rejected() {
    let mut inverter = session_logged_in();
    inverter.poll(Command::BatteryChargeStatus).unwrap();
    let reply = session_reply(0x5100_0200, 0x8001, SESSION_DEVICE, vec![0, 0, 0, 0]);
    assert!(matches!(
        inverter.on_poll_datagram(Command::BatteryChargeStatus, &reply),
        Progress::Done(Ok(_))
    ));
    inverter.poll(Command::BatteryChargeStatus).unwrap();
    assert_eq!(
        inverter.on_poll_datagram(Command::BatteryChargeStatus, &reply),
        Progress::KeepReading
    );
}

#[test]
fn reply_with_another_opcode_is_passed_over() {
    let mut inverter = session_logged_in();
    inverter.poll(Command::DcVoltage).unwrap();
    let other = session_reply(0x5100_0300, 0x8001, SESSION_DEVICE, vec![0, 0, 0, 0]);
    assert_eq!(inverter.on_poll_datagram(Command::DcVoltage, &other), Progress::KeepReading);
    let reply_form = session_reply(0x5180_0200, 0x8001, SESSION_DEVICE, vec![0, 0, 0, 0]);
    assert!(matches!(
        inverter.on_poll_datagram(Command::DcVoltage, &reply_form),
        Progress::Done(Ok(_))
    ));
    assert!(opcode_answers(0x5180_0200, 0x5100_0200));
    assert!(opcode_answers(0x0000_040C, OPCODE_LOGIN));
    assert!(!opcode_answers(0xFFFD_040D, OPCODE_LOGIN));
}

#[test]
fn reply_from_another_device_is_passed_over() {
    let mut inverter = session_logged_in();
    inverter.poll(Command::DcVoltage).unwrap();
    let mut other = SESSION_DEVICE;
    other.address.low += 1;
    let reply = session_reply(0x5100_0200, 0x8001, other, vec![0, 0, 0, 0]);
    assert_eq!(inverter.on_poll_datagram(Command::DcVoltage, &reply), Progress::KeepReading);
}

#[test]
fn unsupported_command_is_reported() {
    let mut inverter = session_logged_in();
    inverter.poll(Command::DcVoltage).unwrap();
    let reply = session_reply(0x5100_0200, 0x8001, SESSION_DEVICE, vec![0x07, 0, 0, 0]);
    assert_eq!(
        inverter.on_poll_datagram(Command::DcVoltage, &reply),
        Progress::Done(Err(SessionError::Unsupported))
    );
    assert_eq!(inverter.state, SessionState::Authenticated);
}

#[test]
fn malformed_poll_reply_is_passed_over() {
    let mut inverter = session_logged_in();
    inverter.poll(Command::DcVoltage).unwrap();
    let odd_status = session_reply(0x5100_0200, 0x8001, SESSION_DEVICE, vec![0x09, 0, 0, 0]);
    assert_eq!(inverter.on_poll_datagram(Command::DcVoltage, &odd_status), Progress::KeepReading);
    let short = session_reply(0x5100_0200, 0x8001, SESSION_DEVICE, vec![0, 0]);
    assert_eq!(inverter.on_poll_datagram(Command::DcVoltage, &short), Progress::KeepReading);
    let ragged = session_reply(0x5100_0200, 0x8001, SESSION_DEVICE, vec![0; 4 + 27]);
    assert_eq!(inverter.on_poll_datagram(Command::DcVoltage, &ragged), Progress::KeepReading);
    assert_eq!(
        poll_outcome(Command::DcVoltage, &[0x09, 0, 0, 0]),
        Err(SessionError::Malformed(Field::Status))
    );
    assert_eq!(poll_outcome(Command::DcVoltage, &[0, 0]), Err(SessionError::Malformed(Field::Body)));
    assert_eq!(
        poll_outcome(Command::DcVoltage, &[0; 4 + 27]),
        Err(SessionError::Malformed(Field::Body))
    );
}

#[test]
fn battery_info_decode() {
    let mut inverter = session_logged_in();
    inverter.poll(Command::BatteryInfo).unwrap();
    let mut payload = vec![0u8, 0, 0, 0];
    payload.extend(session_record(0x0049_5B00, 0x40, 0, 0x0000_0154));
    payload.extend(session_record(0x0049_5B00, 0x40, 1, 0x0000_0158));
    payload.extend(session_record(0x0049_5B00, 0x40, 2, 0x0000_015C));
    payload.extend(session_record(0x0049_5C00, 0x40, 0, 5120));
    payload.extend(session_record(0x0049_5D00, 0x40, 0, 1500));
    payload.extend(session_record(0x0049_5D00, 0x40, 1, 0x8000_0000));
    let reply = session_reply(0x5100_0200, 0x8001, SESSION_DEVICE, payload);
    let data = match inverter.on_poll_datagram(Command::BatteryInfo, &reply) {
        Progress::Done(Ok(PollData::BatteryInfo(info))) => info,
        other => panic!("{:?}", other),
    };
    assert_eq!(data.temperature.a, Some(Quantity { whole: 34, tenths: 0 }));
    assert_eq!(data.temperature.b, Some(Quantity { whole: 34, tenths: 4 }));
    assert_eq!(data.temperature.c, Some(Quantity { whole: 34, tenths: 8 }));
    let celsius: Vec<f64> = [data.temperature.a, data.temperature.b, data.temperature.c]
        .iter()
        .map(|q| q.unwrap().in_tenths().unwrap() as f64 / 10.0)
        .collect();
    assert_eq!(celsius, vec![34.0, 34.4, 34.8]);
    assert_eq!(data.voltage.a, Some(Quantity { whole: 51200, tenths: 0 }));
    assert_eq!(data.voltage.b, None);
    assert_eq!(data.current.a, Some(Quantity { whole: 1500, tenths: 0 }));
    assert_eq!(data.current.b, None);
    assert_eq!(data.current.c, None);
}

#[test]
fn io_failure_drops_the_session() {
    let mut inverter = session_logged_in();
    assert_eq!(inverter.on_io_failure(), SessionError::Io);
    assert_eq!(inverter.state, SessionState::Discovered);
    assert_eq!(inverter.session_id, 0);
    assert_eq!(inverter.poll(Command::DcVoltage), None);
}

#[test]
fn logoff_clears_the_session() {
    let mut inverter = session_logged_in();
    inverter.poll(Command::DcVoltage).unwrap();
    let datagram = inverter.logoff().unwrap();
    let frame = Frame::decode(&datagram).unwrap();
    assert_eq!(frame.opcode, OPCODE_LOGOFF);
    assert_eq!(frame.counter, 0x8002);
    assert_eq!(frame.session_id, 0x1122_3344);
    assert_eq!(frame.destination, SESSION_DEVICE);
    assert!(frame.payload.is_empty());
    assert_eq!(inverter.state, SessionState::Discovered);
    assert_eq!(inverter.session_id, 0);
    assert_eq!(inverter.logoff(), None);
}

#[test]
fn late_reply_after_logoff_is_ignored() {
    let mut inverter = session_logged_in();
    inverter.poll(Command::DcVoltage).unwrap();
    let reply = session_reply(0x5100_0200, 0x8001, SESSION_DEVICE, vec![0, 0, 0, 0]);
    inverter.logoff().unwrap();
    assert_eq!(inverter.on_poll_datagram(Command::DcVoltage, &reply), Progress::KeepReading);
}

#[test]
fn login_again_starts_a_fresh_counter() {
    let mut inverter = session_logged_in();
    inverter.poll(Command::DcVoltage).unwrap();
    inverter.poll(Command::DcVoltage).unwrap();
    let datagram = inverter.login(b"0000", UserClass::User, 2);
    assert_eq!(Frame::decode(&datagram).unwrap().counter, 0x8000);
    assert_eq!(inverter.state, SessionState::Discovered);
    assert_eq!(inverter.session_id, 0);
}
