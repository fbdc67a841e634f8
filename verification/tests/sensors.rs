use base64::Engine;
use sensor_models::config::{ComponentConfig, Dependency};
use sensor_models::error::SensorError;
use sensor_models::fat::FatMessages;
use sensor_models::internet::InternetSensor;
use sensor_models::rando::RandoSensors;
use sensor_models::record::Record;
use sensor_models::timestamp::{Diagnostics, TimestampSensor};
use sensor_models::value::{Number, Value};

fn config_with_len(value: Value) -> ComponentConfig {
    let mut attributes = Record::new();
    attributes.insert("len", value);
    ComponentConfig::from_attributes(attributes)
}

fn fat_of_size(size: i128) -> FatMessages {
    FatMessages::from_config(&config_with_len(Value::from_integer(size)), Vec::new()).unwrap()
}

fn decoded_blob(readings: &Record) -> Vec<u8> {
    assert_eq!(readings.len(), 1);
    assert_eq!(readings.key_at(0), "blob");
    let text = readings.get("blob").unwrap().as_text().unwrap();
    base64::engine::general_purpose::STANDARD.decode(text).unwrap()
}

#[test]
fn fat_size_defaults_to_ten() {
    let sensor = FatMessages::from_config(&ComponentConfig::new(), Vec::new()).unwrap();
    assert_eq!(sensor.buf_len(), 10);
}

#[test]
fn fat_size_is_read_from_len() {
    assert_eq!(fat_of_size(0).buf_len(), 0);
    assert_eq!(fat_of_size(7).buf_len(), 7);
    assert_eq!(fat_of_size(-1).buf_len(), -1);
}

#[test]
fn fat_size_of_wrong_type_defaults_to_ten() {
    for v in vec![
        Value::from_text("7"),
        Value::from_bool(true),
        Value::null(),
        Value::from_integer(1 << 40),
    ] {
        let sensor = FatMessages::from_config(&config_with_len(v), Vec::new()).unwrap();
        assert_eq!(sensor.buf_len(), 10);
    }
}

#[test]
fn fat_ignores_dependencies() {
    let deps = vec![Dependency::new("board"), Dependency::new("other")];
    let sensor = FatMessages::from_config(&config_with_len(Value::from_integer(4)), deps).unwrap();
    assert_eq!(sensor.buf_len(), 4);
}

#[test]
fn fat_blob_decodes_to_the_configured_size() {
    for size in [0usize, 1, 2, 3, 4, 5, 10, 47, 48, 49, 1000] {
        let mut sensor = fat_of_size(size as i128);
        let readings = sensor.get_generic_readings().unwrap();
        assert_eq!(decoded_blob(&readings).len(), size);
        let text = readings.get("blob").unwrap().as_text().unwrap();
        assert_eq!(text.len(), 4 * ((size + 2) / 3));
        assert_eq!(sensor.buf_len(), size as i32);
    }
}

#[test]
fn fat_blob_of_size_zero_is_empty() {
    let mut sensor = fat_of_size(0);
    let readings = sensor.get_generic_readings().unwrap();
    assert_eq!(readings.get("blob"), Some(&Value::from_text("")));
    assert_eq!(decoded_blob(&readings), Vec::<u8>::new());
}

#[test]
fn fat_default_blob_has_ten_bytes() {
    let mut sensor = FatMessages::from_config(&ComponentConfig::new(), Vec::new()).unwrap();
    let readings = sensor.get_generic_readings().unwrap();
    assert_eq!(decoded_blob(&readings).len(), 10);
}

#[test]
fn fat_blobs_differ_between_snapshots() {
    let mut sensor = fat_of_size(64);
    let first = sensor.get_generic_readings().unwrap();
    let second = sensor.get_generic_readings().unwrap();
    assert_ne!(first, second);
}

#[test]
fn blob_reading_encodes_the_bytes() {
    let readings = FatMessages::blob_reading(&b"hello world~".to_vec());
    assert_eq!(readings.get("blob"), Some(&Value::from_text("aGVsbG8gd29ybGR+")));
    let readings = FatMessages::blob_reading(&b"foobar".to_vec());
    assert_eq!(readings.get("blob"), Some(&Value::from_text("Zm9vYmFy")));
    let readings = FatMessages::blob_reading(&vec![0xfb, 0xff]);
    assert_eq!(readings.get("blob"), Some(&Value::from_text("+/8=")));
    let readings = FatMessages::blob_reading(&vec![0]);
    assert_eq!(readings.get("blob"), Some(&Value::from_text("AA==")));
    let readings = FatMessages::blob_reading(&Vec::new());
    assert_eq!(readings.get("blob"), Some(&Value::from_text("")));
}

#[test]
fn blob_text_is_padded_at_its_end_only() {
    for size in 0usize..=64 {
        let bytes: Vec<u8> = (0..size).map(|i| (i * 37 + 11) as u8).collect();
        let readings = FatMessages::blob_reading(&bytes);
        let text = readings.get("blob").unwrap().as_text().unwrap();
        let padding = (3 - size % 3) % 3;
        assert_eq!(text.chars().count(), 4 * ((size + 2) / 3));
        for (i, c) in text.chars().enumerate() {
            assert_eq!(c == '=', i >= text.len() - padding);
        }
        let trailing = text.chars().rev().take_while(|c| *c == '=').count();
        assert_eq!(3 * (text.len() / 4) - trailing, size);
        assert_eq!(decoded_blob(&readings), bytes);
    }
}

#[test]
fn blob_reading_decodes_to_the_bytes() {
    let bytes: Vec<u8> = (0..=255).collect();
    let readings = FatMessages::blob_reading(&bytes);
    assert_eq!(decoded_blob(&readings), bytes);
}

#[test]
fn readings_of_text_hold_the_text() {
    let readings = FatMessages::readings_of_text("QUJD".to_string());
    assert_eq!(readings.len(), 1);
    assert_eq!(readings.key_at(0), "blob");
    assert_eq!(readings.value_at(0), &Value::from_text("QUJD"));
}

#[test]
fn fat_status_is_an_empty_record() {
    let sensor = fat_of_size(3);
    assert_eq!(sensor.get_status(), Ok(Some(Record::new())));
}

fn wave(x: f64) -> Number {
    Number::Double(x.to_bits())
}

#[test]
fn rando_starts_at_zero() {
    let sensor = RandoSensors::from_config(&ComponentConfig::new(), Vec::new()).unwrap();
    assert_eq!(sensor.inner(), 0);
}

#[test]
fn rando_counter_is_one_after_the_first_snapshot() {
    let mut sensor = RandoSensors::from_config(&ComponentConfig::new(), Vec::new()).unwrap();
    let readings = sensor.get_generic_readings(wave(0.0), wave(0.0)).unwrap();
    assert_eq!(readings.get("inner"), Some(&Value::from_integer(1)));
    assert_eq!(sensor.inner(), 1);
}

#[test]
fn rando_counter_equals_the_number_of_snapshots() {
    let mut sensor = RandoSensors::from_config(&ComponentConfig::new(), Vec::new()).unwrap();
    for k in 1..=250i128 {
        let readings = sensor.get_generic_readings(wave(1.5), wave(-2.5)).unwrap();
        assert_eq!(readings.get("inner"), Some(&Value::from_integer(k)));
    }
    assert_eq!(sensor.inner(), 250);
}

#[test]
fn rando_readings_hold_the_samples_in_order() {
    let mut sensor = RandoSensors::from_config(&ComponentConfig::new(), Vec::new()).unwrap();
    let readings = sensor.get_generic_readings(wave(99.5), wave(-100.0)).unwrap();
    let mut expected = Record::new();
    expected.insert("sin1", Value::from_number(wave(99.5)));
    expected.insert("sin2", Value::from_number(wave(-100.0)));
    expected.insert("inner", Value::from_integer(1));
    assert_eq!(readings, expected);
    match readings.get("sin2") {
        Some(Value::Number(Number::Double(bits))) => assert_eq!(f64::from_bits(*bits), -100.0),
        other => panic!("not a double: {:?}", other),
    }
}

#[test]
fn rando_status_is_an_empty_record() {
    let sensor = RandoSensors::from_config(&ComponentConfig::new(), Vec::new()).unwrap();
    assert_eq!(sensor.get_status(), Ok(Some(Record::new())));
    assert_eq!(sensor.inner(), 0);
}

fn reachability(online: bool, failures: i128) -> Record {
    let mut expected = Record::new();
    expected.insert("online", Value::from_bool(online));
    expected.insert("inet", Value::from_integer(failures));
    expected
}

#[test]
fn internet_starts_offline_without_failures() {
    let sensor = InternetSensor::from_config(&ComponentConfig::new(), Vec::new()).unwrap();
    assert_eq!(sensor.inet(), 0);
    assert!(!sensor.online());
}

#[test]
fn internet_failures_count_up_and_success_clears_them() {
    for m in [0u32, 1, 2, 5, 40] {
        let mut sensor = InternetSensor::from_config(&ComponentConfig::new(), Vec::new()).unwrap();
        for k in 1..=m {
            let readings = sensor.get_generic_readings(false).unwrap();
            assert_eq!(readings, reachability(false, k as i128));
            assert_eq!(sensor.inet(), k);
            assert!(!sensor.online());
        }
        let readings = sensor.get_generic_readings(true).unwrap();
        assert_eq!(readings, reachability(true, 0));
        assert_eq!(sensor.inet(), 0);
        assert!(sensor.online());
    }
}

#[test]
fn internet_failure_after_success_counts_from_one() {
    let mut sensor = InternetSensor::from_config(&ComponentConfig::new(), Vec::new()).unwrap();
    sensor.get_generic_readings(false).unwrap();
    sensor.get_generic_readings(false).unwrap();
    sensor.get_generic_readings(true).unwrap();
    sensor.get_generic_readings(true).unwrap();
    assert_eq!(sensor.get_generic_readings(false).unwrap(), reachability(false, 1));
}

#[test]
fn internet_failed_probe_is_no_error() {
    let mut sensor = InternetSensor::from_config(&ComponentConfig::new(), Vec::new()).unwrap();
    assert!(sensor.get_generic_readings(false).is_ok());
}

#[test]
fn internet_status_is_an_empty_record() {
    let sensor = InternetSensor::from_config(&ComponentConfig::new(), Vec::new()).unwrap();
    assert_eq!(sensor.get_status(), Ok(Some(Record::new())));
}

#[test]
fn timestamp_readings_show_what_was_measured() {
    let readings = TimestampSensor::readings_from(Diagnostics {
        timestamp: 1_700_000_000,
        internal: 123_456,
        spiram: 0,
        stack: Some(2048),
    });
    let mut expected = Record::new();
    expected.insert("timestamp", Value::from_integer(1_700_000_000));
    expected.insert("internal", Value::from_integer(123_456));
    expected.insert("spiram", Value::from_integer(0));
    expected.insert("stack", Value::from_integer(2048));
    assert_eq!(readings, expected);
}

#[test]
fn timestamp_readings_without_stack_mark_hold_null() {
    let readings = TimestampSensor::readings_from(Diagnostics {
        timestamp: u64::MAX,
        internal: 1,
        spiram: 2,
        stack: None,
    });
    assert_eq!(readings.len(), 4);
    assert_eq!(readings.key_at(3), "stack");
    assert_eq!(readings.get("stack"), Some(&Value::Null));
    assert_eq!(readings.get("timestamp"), Some(&Value::from_integer(18446744073709551615)));
}

#[test]
fn timestamp_host_readings_need_the_clock() {
    assert_eq!(
        TimestampSensor::readings_on_host(None, 5, 6),
        Err(SensorError::ClockBeforeEpoch)
    );
    let readings = TimestampSensor::readings_on_host(Some(9), 5, 6).unwrap();
    let mut expected = Record::new();
    expected.insert("timestamp", Value::from_integer(9));
    expected.insert("internal", Value::from_integer(5));
    expected.insert("spiram", Value::from_integer(6));
    expected.insert("stack", Value::null());
    assert_eq!(readings, expected);
}

#[test]
fn timestamp_snapshot_on_this_host() {
    let mut sensor = TimestampSensor::from_config(&ComponentConfig::new(), Vec::new()).unwrap();
    let readings = sensor.get_generic_readings().unwrap();
    assert_eq!(readings.len(), 4);
    assert_eq!(readings.key_at(0), "timestamp");
    assert_eq!(readings.key_at(1), "internal");
    assert_eq!(readings.key_at(2), "spiram");
    assert_eq!(readings.key_at(3), "stack");
    match readings.get("timestamp") {
        Some(Value::Number(Number::Integer(seconds))) => assert!(*seconds > 1_600_000_000),
        other => panic!("not a whole number: {:?}", other),
    }
    assert!(matches!(readings.get("internal"), Some(Value::Number(Number::Integer(_)))));
    assert!(matches!(readings.get("spiram"), Some(Value::Number(Number::Integer(_)))));
    assert_eq!(readings.get("stack"), Some(&Value::Null));
}

#[test]
fn timestamp_status_is_an_empty_record() {
    let sensor = TimestampSensor::from_config(&ComponentConfig::new(), Vec::new()).unwrap();
    assert_eq!(sensor.get_status(), Ok(Some(Record::new())));
}

#[test]
fn timestamp_absent_command_has_no_response() {
    let mut sensor = TimestampSensor::from_config(&ComponentConfig::new(), Vec::new()).unwrap();
    assert!(!TimestampSensor::wants_abort(&None));
    assert_eq!(sensor.do_command(None), Ok(None));
}

#[test]
fn timestamp_empty_command_has_no_response() {
    let mut sensor = TimestampSensor::from_config(&ComponentConfig::new(), Vec::new()).unwrap();
    assert!(!TimestampSensor::wants_abort(&Some(Record::new())));
    assert_eq!(sensor.do_command(Some(Record::new())), Ok(None));
}

#[test]
fn timestamp_unknown_keys_have_no_response() {
    let mut sensor = TimestampSensor::from_config(&ComponentConfig::new(), Vec::new()).unwrap();
    let mut command = Record::new();
    command.insert("Panic", Value::from_bool(true));
    command.insert("panic ", Value::from_bool(true));
    command.insert("reboot", Value::from_text("panic"));
    let command = Some(command);
    assert!(!TimestampSensor::wants_abort(&command));
    let before = sensor;
    assert_eq!(sensor.do_command(command), Ok(None));
    assert_eq!(sensor, before);
}

#[test]
fn timestamp_trigger_key_asks_for_the_abort() {
    for v in vec![Value::null(), Value::from_bool(false), Value::from_text("no")] {
        let mut command = Record::new();
        command.insert("other", Value::from_integer(1));
        command.insert("panic", v);
        assert!(TimestampSensor::wants_abort(&Some(command)));
    }
}
