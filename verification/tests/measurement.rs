use sma_inverter_exporter::frame::Field;
use sma_inverter_exporter::measurement::{
    convert, decode_record, decode_records, decode_value, lookup, register_info, Conversion,
    Measurement, Quantity,
};
use sma_inverter_exporter::readings::{commands, poll_data, Command, PollData};

fn measurement_record(lri: u32, class: u8, channel: u8, timestamp: u32, raw: u32) -> Vec<u8> {
    let mut record = Vec::new();
    record.extend_from_slice(&lri.to_le_bytes());
    record.push(class);
    record.push(channel);
    record.extend_from_slice(&[0xAA, 0xBB]);
    record.extend_from_slice(&timestamp.to_le_bytes());
    record.extend_from_slice(&raw.to_le_bytes());
    record.extend_from_slice(&[0x11; 12]);
    record
}

#[test]
fn temperature_is_a_tenth_of_the_raw_value() {
    assert_eq!(convert(Conversion::DivideByTen, 340), Quantity { whole: 34, tenths: 0 });
    assert_eq!(convert(Conversion::DivideByTen, 344), Quantity { whole: 34, tenths: 4 });
    assert_eq!(convert(Conversion::DivideByTen, 9), Quantity { whole: 0, tenths: 9 });
}

#[test]
fn voltage_is_ten_times_the_raw_value() {
    assert_eq!(convert(Conversion::TimesTen, 5120), Quantity { whole: 51200, tenths: 0 });
}

#[test]
fn current_and_energy_are_the_raw_value() {
    assert_eq!(convert(Conversion::AsIs, 1500), Quantity { whole: 1500, tenths: 0 });
}

#[test]
fn conversions_at_the_ends_of_the_raw_range() {
    for conversion in [Conversion::DivideByTen, Conversion::TimesTen, Conversion::AsIs] {
        assert_eq!(convert(conversion, 0), Quantity { whole: 0, tenths: 0 });
    }
    assert_eq!(
        convert(Conversion::DivideByTen, 0xFFFF_FFFE),
        Quantity { whole: 429_496_729, tenths: 4 }
    );
    assert_eq!(
        convert(Conversion::TimesTen, 0xFFFF_FFFE),
        Quantity { whole: 42_949_672_940, tenths: 0 }
    );
    assert_eq!(convert(Conversion::AsIs, 0xFFFF_FFFE), Quantity { whole: 4_294_967_294, tenths: 0 });
    assert_eq!(convert(Conversion::TimesTen, 0xFFFF_FFFE).in_tenths(), Some(429_496_729_400));
    assert_eq!(Quantity { whole: u64::MAX, tenths: 0 }.in_tenths(), None);
    assert_eq!(Quantity { whole: u64::MAX / 10, tenths: 5 }.in_tenths(), Some(u64::MAX));
    assert_eq!(Quantity { whole: u64::MAX / 10, tenths: 6 }.in_tenths(), None);
}

#[test]
fn no_value_markers_decode_to_absent() {
    for lri in [
        0x0049_5B00u32,
        0x0049_5C00,
        0x0049_5D00,
        0x0029_5A00,
        0x0045_1F00,
        0x0045_2100,
        0x0026_0100,
        0x0026_2200,
    ] {
        let info = register_info(lri).unwrap();
        assert_eq!(decode_value(&info, 0x8000_0000), None);
        assert_eq!(decode_value(&info, 0xFFFF_FFFF), None);
        assert_eq!(decode_value(&info, 0), Some(Quantity { whole: 0, tenths: 0 }));
        assert!(decode_value(&info, 0xFFFF_FFFE).is_some());
    }
}

#[test]
fn marker_is_a_value_where_the_slot_cannot_be_absent() {
    let mut info = register_info(0x0026_0100).unwrap();
    info.may_be_absent = false;
    assert_eq!(
        decode_value(&info, 0x8000_0000),
        Some(Quantity { whole: 0x8000_0000, tenths: 0 })
    );
}

#[test]
fn register_table() {
    let temperature = register_info(0x0049_5B00).unwrap();
    assert_eq!(temperature.channels, 3);
    assert_eq!(temperature.class, 0x40);
    assert_eq!(temperature.slot, 0);
    assert_eq!(temperature.conversion, Conversion::DivideByTen);
    assert_eq!(register_info(0x0049_5C00).unwrap().conversion, Conversion::TimesTen);
    assert_eq!(register_info(0x0049_5D00).unwrap().conversion, Conversion::AsIs);
    assert_eq!(register_info(0x0029_5A00).unwrap().channels, 3);
    assert_eq!(register_info(0x0029_5A00).unwrap().class, 0x00);
    assert_eq!(register_info(0x0045_1F00).unwrap().channels, 2);
    assert_eq!(register_info(0x0045_1F00).unwrap().conversion, Conversion::TimesTen);
    assert_eq!(register_info(0x0045_2100).unwrap().channels, 2);
    assert_eq!(register_info(0x0026_0100).unwrap().channels, 1);
    assert_eq!(register_info(0x0026_2200).unwrap().conversion, Conversion::AsIs);
    assert_eq!(register_info(0x0012_3400), None);
}

#[test]
fn record_is_decoded_field_by_field() {
    let data = measurement_record(0x0045_1F00, 0x40, 1, 1_700_000_000, 23_456);
    assert_eq!(
        decode_record(&data, 0),
        Ok(Some(Measurement {
            lri: 0x0045_1F00,
            channel: 1,
            class: 0x40,
            timestamp: 1_700_000_000,
            value: Some(Quantity { whole: 234_560, tenths: 0 }),
        }))
    );
}

#[test]
fn record_with_the_wrong_class_fails() {
    let data = measurement_record(0x0045_1F00, 0x00, 1, 1_700_000_000, 23_456);
    assert_eq!(decode_record(&data, 0), Err(Field::Class));
}

#[test]
fn record_without_a_timestamp_fails() {
    let data = measurement_record(0x0045_1F00, 0x40, 1, 0, 23_456);
    assert_eq!(decode_record(&data, 0), Err(Field::Timestamp));
}

#[test]
fn record_outside_the_table_or_the_channels_is_passed_over() {
    let unknown = measurement_record(0x0012_3400, 0x00, 0, 0, 1);
    assert_eq!(decode_record(&unknown, 0), Ok(None));
    let third_string = measurement_record(0x0045_1F00, 0x40, 2, 1_700_000_000, 1);
    assert_eq!(decode_record(&third_string, 0), Ok(None));
}

#[test]
fn records_are_walked_in_order() {
    let mut data = Vec::new();
    data.extend(measurement_record(0x0026_0100, 0x00, 0, 5, 7_000_000));
    data.extend(measurement_record(0x0012_3400, 0x00, 0, 5, 1));
    data.extend(measurement_record(0x0026_2200, 0x00, 0, 5, 12_345));
    let found = decode_records(&data).unwrap();
    assert_eq!(found.len(), 2);
    assert_eq!(found[0].lri, 0x0026_0100);
    assert_eq!(found[1].lri, 0x0026_2200);
    assert_eq!(lookup(&found, 0x0026_2200, 0), Some(Quantity { whole: 12_345, tenths: 0 }));
    assert_eq!(lookup(&found, 0x0026_2200, 1), None);
    match poll_data(Command::EnergyProduction, &found) {
        PollData::EnergyProduction(energy) => {
            assert_eq!(energy.total_wh, Some(Quantity { whole: 7_000_000, tenths: 0 }));
            assert_eq!(energy.daily_wh, Some(Quantity { whole: 12_345, tenths: 0 }));
        }
        other => panic!("{:?}", other),
    }
    assert_eq!(decode_records(&[]), Ok(Vec::new()));
}

#[test]
fn first_failing_record_decides() {
    let mut data = Vec::new();
    data.extend(measurement_record(0x0026_0100, 0x00, 0, 5, 7));
    data.extend(measurement_record(0x0026_0100, 0x00, 0, 0, 7));
    data.extend(measurement_record(0x0026_0100, 0x40, 0, 5, 7));
    assert_eq!(decode_records(&data), Err(Field::Timestamp));
    data.pop();
    assert_eq!(decode_records(&data), Err(Field::Body));
}

#[test]
fn first_measurement_of_a_channel_wins() {
    let mut data = Vec::new();
    data.extend(measurement_record(0x0029_5A00, 0x00, 1, 5, 80));
    data.extend(measurement_record(0x0029_5A00, 0x00, 1, 6, 81));
    data.extend(measurement_record(0x0029_5A00, 0x00, 2, 6, 0xFFFF_FFFF));
    let found = decode_records(&data).unwrap();
    match poll_data(Command::BatteryChargeStatus, &found) {
        PollData::BatteryChargeStatus(charge) => {
            assert_eq!(charge.a, None);
            assert_eq!(charge.b, Some(Quantity { whole: 80, tenths: 0 }));
            assert_eq!(charge.c, None);
        }
        other => panic!("{:?}", other),
    }
}

#[test]
fn dc_values_of_both_strings() {
    let mut data = Vec::new();
    data.extend(measurement_record(0x0045_1F00, 0x40, 0, 5, 30_000));
    data.extend(measurement_record(0x0045_1F00, 0x40, 1, 5, 31_000));
    data.extend(measurement_record(0x0045_2100, 0x40, 0, 5, 4_000));
    data.extend(measurement_record(0x0045_2100, 0x40, 1, 5, 4_100));
    let found = decode_records(&data).unwrap();
    match poll_data(Command::DcVoltage, &found) {
        PollData::DcVoltage(dc) => {
            assert_eq!(dc.voltage.first, Some(Quantity { whole: 300_000, tenths: 0 }));
            assert_eq!(dc.voltage.second, Some(Quantity { whole: 310_000, tenths: 0 }));
            assert_eq!(dc.current.first, Some(Quantity { whole: 4_000, tenths: 0 }));
            assert_eq!(dc.current.second, Some(Quantity { whole: 4_100, tenths: 0 }));
        }
        other => panic!("{:?}", other),
    }
}

#[test]
fn commands_and_their_windows() {
    assert_eq!(Command::BatteryInfo.window(), 0x0049_5B00);
    assert_eq!(Command::DcVoltage.window(), 0x0025_1E00);
    assert_eq!(Command::BatteryChargeStatus.window(), 0x0029_5A00);
    assert_eq!(Command::EnergyProduction.window(), 0x0026_0100);
    assert_eq!(Command::BatteryInfo.opcode(), 0x5100_0200);
    assert_eq!(Command::EnergyProduction.opcode(), 0x5400_0200);
    assert_eq!(
        commands(),
        vec![
            Command::BatteryInfo,
            Command::DcVoltage,
            Command::BatteryChargeStatus,
            Command::EnergyProduction
        ]
    );
    assert_eq!(Command::BatteryInfo.class(), 0x40);
    assert_eq!(Command::EnergyProduction.class(), 0x00);
}
