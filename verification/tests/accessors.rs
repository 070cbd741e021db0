//! The driver end to end, over the scripted transport: decoded values,
//! transaction shapes, error propagation, and the absence of caching.

use bq40z50::Cmd;
use bq40z50::Error;
use bq40z50::MockError;
use bq40z50::MockTransport;
use bq40z50::BQ40Z50;
use bq40z50::SCRIPT_EXHAUSTED;

#[test]
fn construction_issues_no_traffic() {
    let transport = MockTransport::new();
    let driver = BQ40Z50::new(transport).unwrap();
    let transport = driver.free();
    assert_eq!(transport.request_count(), 0);
}

#[test]
fn voltage_zero_reply_decodes_to_zero() {
    let mut transport = MockTransport::new();
    transport.push_reply(vec![0x00, 0x00]);
    let mut driver = BQ40Z50::new(transport).unwrap();
    let v = driver.get_voltage().unwrap();
    assert_eq!(v, 0);
    let transport = driver.free();
    assert_eq!(transport.request_count(), 1);
    let request = transport.request(0);
    assert_eq!(request.address, 0x0B);
    assert_eq!(request.write, vec![0x09]);
    assert_eq!(request.read_len, 2);
}

#[test]
fn temperature_reply_decodes_to_deci_kelvin() {
    let mut transport = MockTransport::new();
    transport.push_reply(vec![0xDC, 0x05]);
    let mut driver = BQ40Z50::new(transport).unwrap();
    let raw = driver.get_temperature().unwrap();
    // 1500 deci-Kelvin, i.e. 150 K, i.e. -123.15 degrees Celsius.
    assert_eq!(raw, 1500);
    assert_eq!(bq40z50::convert_temperature_centi(raw), -12315);
    let transport = driver.free();
    let request = transport.request(0);
    assert_eq!(request.address, 0x0B);
    assert_eq!(request.write, vec![0x08]);
    assert_eq!(request.read_len, 2);
}

#[test]
fn each_accessor_writes_its_register_address() {
    let mut transport = MockTransport::new();
    for _ in 0..7 {
        transport.push_reply(vec![0x01, 0x00]);
    }
    let mut driver = BQ40Z50::new(transport).unwrap();
    assert_eq!(driver.get_temperature().unwrap(), 1);
    assert_eq!(driver.get_voltage().unwrap(), 1);
    assert_eq!(driver.get_current().unwrap(), 1);
    assert_eq!(driver.get_cell_voltage_1().unwrap(), 1);
    assert_eq!(driver.get_cell_voltage_2().unwrap(), 1);
    assert_eq!(driver.get_cell_voltage_3().unwrap(), 1);
    assert_eq!(driver.get_cell_voltage_4().unwrap(), 1);
    let transport = driver.free();
    assert_eq!(transport.request_count(), 7);
    let expected: Vec<Cmd> = vec![
        Cmd::TemperatureReg,
        Cmd::VoltageReg,
        Cmd::CurrentReg,
        Cmd::CellVoltage1Reg,
        Cmd::CellVoltage2Reg,
        Cmd::CellVoltage3Reg,
        Cmd::CellVoltage4Reg,
    ];
    for (i, cmd) in expected.into_iter().enumerate() {
        let request = transport.request(i);
        assert_eq!(request.address, 0x0B);
        assert_eq!(request.write, vec![cmd.value()]);
        assert_eq!(request.read_len, 2);
    }
}

#[test]
fn current_decodes_little_endian() {
    let mut transport = MockTransport::new();
    transport.push_reply(vec![0xE8, 0x03]);
    let mut driver = BQ40Z50::new(transport).unwrap();
    assert_eq!(driver.get_current().unwrap(), 1000);
}

#[test]
fn transport_failure_is_wrapped_verbatim() {
    let mut transport = MockTransport::new();
    transport.push_failure(MockError { code: 7 });
    let mut driver = BQ40Z50::new(transport).unwrap();
    let r = driver.get_current();
    assert!(matches!(r, Err(Error::I2cError(MockError { code: 7 }))));
    // The failed transaction was still issued, addressed like any other.
    let transport = driver.free();
    assert_eq!(transport.request_count(), 1);
    let request = transport.request(0);
    assert_eq!(request.address, 0x0B);
    assert_eq!(request.write, vec![0x0A]);
    assert!(matches!(request.response, Err(MockError { code: 7 })));
}

#[test]
fn failure_midway_does_not_disturb_later_calls() {
    let mut transport = MockTransport::new();
    transport.push_reply(vec![0x10, 0x00]);
    transport.push_failure(MockError { code: 3 });
    transport.push_reply(vec![0x20, 0x00]);
    let mut driver = BQ40Z50::new(transport).unwrap();
    assert_eq!(driver.get_voltage().unwrap(), 0x10);
    assert!(matches!(driver.get_voltage(), Err(Error::I2cError(MockError { code: 3 }))));
    assert_eq!(driver.get_voltage().unwrap(), 0x20);
}

#[test]
fn consecutive_reads_are_not_cached() {
    let mut transport = MockTransport::new();
    transport.push_reply(vec![0xE8, 0x03]);
    transport.push_reply(vec![0xE9, 0x03]);
    let mut driver = BQ40Z50::new(transport).unwrap();
    let first = driver.get_voltage().unwrap();
    let second = driver.get_voltage().unwrap();
    assert_eq!(first, 1000);
    assert_eq!(second, 1001);
    assert_ne!(first, second);
}

#[test]
fn exhausted_script_reports_its_own_code() {
    let transport = MockTransport::new();
    let mut driver = BQ40Z50::new(transport).unwrap();
    let r = driver.get_cell_voltage_1();
    match r {
        Err(Error::I2cError(e)) => assert_eq!(e.code, SCRIPT_EXHAUSTED),
        Ok(_) => panic!("a transport without replies cannot succeed"),
    }
}

#[test]
fn transport_error_converts_into_driver_error() {
    let e: Error<MockError> = Error::from(MockError { code: 9 });
    assert!(matches!(e, Error::I2cError(MockError { code: 9 })));
}

#[test]
fn short_reply_is_padded_with_zeros_by_the_mock() {
    let mut transport = MockTransport::new();
    transport.push_reply(vec![0x05]);
    let mut driver = BQ40Z50::new(transport).unwrap();
    // Only the scripted low byte arrives; the high byte reads as zero.
    assert_eq!(driver.get_voltage().unwrap(), 5);
}
