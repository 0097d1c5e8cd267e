use ds4432::{
    resolve, AsyncDS4432, BusRecord, Current, Error, MockI2c, Output, Status, SLAVE_ADDRESS,
};

/// A current in micro-amperes, converted with the device's full-scale
/// constant of 62312.5 ohm-microamps.
#[derive(Debug, Clone, Copy, PartialEq)]
struct Ua(f32);

impl Current for Ua {
    fn from_code(code: u8, rfs_ohm: u32) -> Self {
        Ua(((62_312.5 * code as f64) / (rfs_ohm as f64)) as f32)
    }

    fn to_code(&self, rfs_ohm: u32) -> u8 {
        ((self.0 * (rfs_ohm as f32)) / 62_312.5) as u8
    }
}

#[test]
fn can_get_output_0_status() {
    let mock = MockI2c::new(vec![0xAA]);
    let mut ds4432 = AsyncDS4432::new(mock);

    let status: Status<Ua> = ds4432.status(Output::Zero).unwrap();
    assert!(matches!(status, Status::Source(42)));

    let mock = ds4432.release();
    assert!(mock.done());
    let records = mock.records();
    assert_eq!(records.len(), 1);
    assert!(matches!(
        records[0],
        BusRecord::WriteRead { address: SLAVE_ADDRESS, register: 0xF8, response: 0xAA }
    ));
}

#[test]
fn can_set_output_1_status() {
    let mock = MockI2c::new(Vec::new());
    let mut ds4432 = AsyncDS4432::new(mock);

    ds4432.set_status(Output::One, Status::<Ua>::Sink(42)).unwrap();

    let mock = ds4432.release();
    let records = mock.records();
    assert_eq!(records.len(), 1);
    assert!(matches!(
        records[0],
        BusRecord::Write { address: SLAVE_ADDRESS, data: [0xF9, 0x2A] }
    ));
}

#[test]
fn can_get_output_0_status_current() {
    let mock = MockI2c::new(vec![0xAA]);
    let mut ds4432 = AsyncDS4432::with_rfs(mock, Some(80_000), None).unwrap();

    let status: Status<Ua> = ds4432.status(Output::Zero).unwrap();
    assert!(matches!(status, Status::SourceMicroAmp(Ua(current)) if current == 32.71406));

    let mock = ds4432.release();
    assert!(mock.done());
}

#[test]
fn can_set_output_1_status_current() {
    let mock = MockI2c::new(Vec::new());
    let mut ds4432 = AsyncDS4432::with_rfs(mock, None, Some(80_000)).unwrap();

    ds4432
        .set_status(Output::One, Status::SinkMicroAmp(Ua(32.71406)))
        .unwrap();

    let mock = ds4432.release();
    let records = mock.records();
    assert_eq!(records.len(), 1);
    assert!(matches!(
        records[0],
        BusRecord::Write { address: SLAVE_ADDRESS, data: [0xF9, 0x2A] }
    ));
}

#[test]
fn mixed_channels_resolve_only_where_configured() {
    // resistor on channel 0 only: the same raw byte reads back as a current
    // there and as a bare code on channel 1
    let mock = MockI2c::new(vec![0xAA, 0xAA]);
    let mut ds4432 = AsyncDS4432::with_rfs(mock, Some(80_000), None).unwrap();

    let status: Status<Ua> = ds4432.status(Output::Zero).unwrap();
    assert!(matches!(status, Status::SourceMicroAmp(Ua(current)) if current == 32.71406));

    let status: Status<Ua> = ds4432.status(Output::One).unwrap();
    assert!(matches!(status, Status::Source(42)));

    let mock = ds4432.release();
    assert!(mock.done());
    let records = mock.records();
    assert_eq!(records.len(), 2);
    assert!(matches!(
        records[1],
        BusRecord::WriteRead { address: SLAVE_ADDRESS, register: 0xF9, response: 0xAA }
    ));
}

#[test]
fn disabled_reading_stays_code_based_with_resistor() {
    let mock = MockI2c::new(vec![0x00]);
    let mut ds4432 = AsyncDS4432::with_rfs(mock, Some(80_000), None).unwrap();

    let status: Status<Ua> = ds4432.status(Output::Zero).unwrap();
    assert!(matches!(status, Status::Disable));
}

#[test]
fn set_current_without_resistor_fails_and_issues_no_write() {
    let mock = MockI2c::new(Vec::new());
    let mut ds4432 = AsyncDS4432::new(mock);

    let result = ds4432.set_status(Output::Zero, Status::SinkMicroAmp(Ua(32.71406)));
    assert_eq!(result, Err(Error::UnknownRfs));

    let mock = ds4432.release();
    assert_eq!(mock.records().len(), 0);
}

#[test]
fn set_invalid_code_fails_and_issues_no_write() {
    let mock = MockI2c::new(Vec::new());
    let mut ds4432 = AsyncDS4432::new(mock);

    let result = ds4432.set_status(Output::Zero, Status::<Ua>::Sink(200));
    assert_eq!(result, Err(Error::InvalidCode(200)));
    let result = ds4432.set_status(Output::One, Status::<Ua>::Source(128));
    assert_eq!(result, Err(Error::InvalidCode(128)));

    let mock = ds4432.release();
    assert_eq!(mock.records().len(), 0);
}

#[test]
fn set_oversized_current_fails_after_conversion() {
    // a current large enough that truncation lands above the 7-bit range is
    // rejected instead of silently corrupting the direction bit
    let mock = MockI2c::new(Vec::new());
    let mut ds4432 = AsyncDS4432::with_rfs(mock, Some(80_000), None).unwrap();

    let result = ds4432.set_status(Output::Zero, Status::SourceMicroAmp(Ua(200.0)));
    assert!(matches!(result, Err(Error::InvalidCode(code)) if code > 127));

    let mock = ds4432.release();
    assert_eq!(mock.records().len(), 0);
}

#[test]
fn set_disable_writes_zero_byte() {
    let mock = MockI2c::new(Vec::new());
    let mut ds4432 = AsyncDS4432::new(mock);

    ds4432.set_status(Output::Zero, Status::<Ua>::Disable).unwrap();

    let mock = ds4432.release();
    let records = mock.records();
    assert_eq!(records.len(), 1);
    assert!(matches!(
        records[0],
        BusRecord::Write { address: SLAVE_ADDRESS, data: [0xF8, 0x00] }
    ));
}

#[test]
fn set_zero_current_writes_disabled_byte() {
    // a current that truncates to code 0 goes through the codec, so it is
    // written as the disabled byte whatever the requested direction
    let mock = MockI2c::new(Vec::new());
    let mut ds4432 = AsyncDS4432::with_rfs(mock, Some(80_000), None).unwrap();

    ds4432
        .set_status(Output::Zero, Status::SourceMicroAmp(Ua(0.0)))
        .unwrap();

    let mock = ds4432.release();
    let records = mock.records();
    assert_eq!(records.len(), 1);
    assert!(matches!(
        records[0],
        BusRecord::Write { address: SLAVE_ADDRESS, data: [0xF8, 0x00] }
    ));
}

#[test]
fn bus_error_is_passed_back() {
    // an exhausted script makes every write-read fail
    let mock = MockI2c::new(Vec::new());
    let mut ds4432 = AsyncDS4432::new(mock);

    let result: Result<Status<Ua>, _> = ds4432.status(Output::Zero);
    assert!(matches!(result, Err(Error::I2c(_))));

    let mock = ds4432.release();
    assert_eq!(mock.records().len(), 0);
}

#[test]
fn destroy_consumes_the_session() {
    let mock = MockI2c::new(vec![0x2A]);
    let ds4432 = AsyncDS4432::new(mock);

    let mut ds4432 = ds4432.destroy();
    let status: Status<Ua> = ds4432.status(Output::One).unwrap();
    assert!(matches!(status, Status::Sink(42)));
}

#[test]
fn resolve_passes_non_code_statuses_through() {
    assert!(matches!(
        resolve(Status::SinkMicroAmp(Ua(1.5)), 80_000),
        Status::SinkMicroAmp(Ua(current)) if current == 1.5
    ));
    assert!(matches!(resolve::<Ua>(Status::Disable, 80_000), Status::Disable));
    assert!(matches!(
        resolve::<Ua>(Status::Sink(42), 80_000),
        Status::SinkMicroAmp(Ua(current)) if current == 32.71406
    ));
    // a zero code resolves to a zero current against any resistor value
    assert!(matches!(
        resolve::<Ua>(Status::Sink(0), 1_000),
        Status::SinkMicroAmp(Ua(current)) if current == 0.0
    ));
}
