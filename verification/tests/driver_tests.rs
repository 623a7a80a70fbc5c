use embassy_nrf::twim;
use embassy_time::TimeoutError;
use xiao_sense::lsm6ds3::{
    decode_sample, transfer_result, BusOutcome, BusRequest, Completion, ImuIoError, Lsm6ds3, ProbeResult, Step,
};

fn read_req(step: &Step) -> (u8, u8) {
    match step {
        Step::Transfer(BusRequest::Read { addr, reg }) => (*addr, *reg),
        _ => panic!("expected a register read"),
    }
}

fn write_req(step: &Step) -> (u8, u8, u8) {
    match step {
        Step::Transfer(BusRequest::Write { addr, reg, value }) => (*addr, *reg, *value),
        _ => panic!("expected a register write"),
    }
}

#[test]
fn matches_expected_compares_who_am_i() {
    let ok = ProbeResult { addr: 0x6A, who_am_i: 0x6A, expected: 0x6A };
    let bad = ProbeResult { addr: 0x6A, who_am_i: 0x69, expected: 0x6A };
    assert!(ok.matches_expected());
    assert!(!bad.matches_expected());
}

#[test]
fn probe_answers_at_primary() {
    let mut imu = Lsm6ds3::new();
    let s = imu.probe();
    assert_eq!(read_req(&s), (0x6A, 0x0F));
    match imu.resume(BusOutcome::Read(Ok(0x6A))) {
        Step::Done(Completion::Probed(Some(p))) => {
            assert_eq!((p.addr, p.who_am_i, p.expected), (0x6A, 0x6A, 0x6A));
        }
        _ => panic!("probe should finish"),
    }
    assert_eq!(imu.addr(), Some(0x6A));
}

#[test]
fn probe_falls_back_to_secondary() {
    let mut imu = Lsm6ds3::new();
    imu.probe();
    let s = imu.resume(BusOutcome::Read(Err(ImuIoError::Bus(twim::Error::AddressNack))));
    assert_eq!(read_req(&s), (0x6B, 0x0F));
    match imu.resume(BusOutcome::Read(Ok(0x69))) {
        Step::Done(Completion::Probed(Some(p))) => {
            assert_eq!((p.addr, p.who_am_i, p.expected), (0x6B, 0x69, 0x6A));
            assert!(!p.matches_expected());
        }
        _ => panic!("probe should finish"),
    }
    assert_eq!(imu.addr(), Some(0x6B));
}

#[test]
fn probe_finds_nothing_and_forgets_address() {
    let mut imu = Lsm6ds3::new();
    imu.probe();
    imu.resume(BusOutcome::Read(Ok(0x6A)));
    assert_eq!(imu.addr(), Some(0x6A));
    imu.probe();
    imu.resume(BusOutcome::Read(Err(ImuIoError::Timeout)));
    let s = imu.resume(BusOutcome::Read(Err(ImuIoError::Timeout)));
    assert!(matches!(s, Step::Done(Completion::Probed(None))));
    assert_eq!(imu.addr(), None);
}

#[test]
fn register_access_needs_detection() {
    let mut imu = Lsm6ds3::new();
    assert!(matches!(imu.read_reg(0x0F), Step::Done(Completion::RegRead(Err(ImuIoError::NotDetected)))));
    assert!(matches!(
        imu.write_reg(0x10, 0x40),
        Step::Done(Completion::RegWritten(Err(ImuIoError::NotDetected)))
    ));
    assert!(matches!(imu.configure(), Step::Done(Completion::Configured(Err(ImuIoError::NotDetected)))));
    assert!(matches!(imu.read_sample(), Step::Done(Completion::Sampled(Err(ImuIoError::NotDetected)))));
}

#[test]
fn register_access_uses_remembered_address() {
    let mut imu = Lsm6ds3::new();
    imu.probe();
    imu.resume(BusOutcome::Read(Err(ImuIoError::Timeout)));
    imu.resume(BusOutcome::Read(Ok(0x6A)));
    let s = imu.read_reg(0x20);
    assert_eq!(read_req(&s), (0x6B, 0x20));
    assert!(matches!(imu.resume(BusOutcome::Read(Ok(0x12))), Step::Done(Completion::RegRead(Ok(0x12)))));
    let s = imu.write_reg(0x10, 0x55);
    assert_eq!(write_req(&s), (0x6B, 0x10, 0x55));
    assert!(matches!(
        imu.resume(BusOutcome::Written(Err(ImuIoError::Timeout))),
        Step::Done(Completion::RegWritten(Err(ImuIoError::Timeout)))
    ));
    assert_eq!(imu.addr(), Some(0x6B));
}

#[test]
fn init_probes_then_configures() {
    let mut imu = Lsm6ds3::new();
    let s = imu.init();
    assert_eq!(read_req(&s), (0x6A, 0x0F));
    let s = imu.resume(BusOutcome::Read(Ok(0x6A)));
    assert_eq!(write_req(&s), (0x6A, 0x10, 0x40));
    let s = imu.resume(BusOutcome::Written(Ok(())));
    assert_eq!(write_req(&s), (0x6A, 0x11, 0x40));
    match imu.resume(BusOutcome::Written(Ok(()))) {
        Step::Done(Completion::Initialized(Some((p, Ok(()))))) => assert_eq!(p.addr, 0x6A),
        _ => panic!("init should finish configured"),
    }
}

#[test]
fn init_stops_at_first_failed_write() {
    let mut imu = Lsm6ds3::new();
    imu.init();
    imu.resume(BusOutcome::Read(Ok(0x6A)));
    match imu.resume(BusOutcome::Written(Err(ImuIoError::Bus(twim::Error::DataNack)))) {
        Step::Done(Completion::Initialized(Some((_, Err(ImuIoError::Bus(twim::Error::DataNack)))))) => {}
        _ => panic!("init should report the failed write"),
    }
}

#[test]
fn init_without_imu() {
    let mut imu = Lsm6ds3::new();
    imu.init();
    imu.resume(BusOutcome::Read(Err(ImuIoError::Timeout)));
    let s = imu.resume(BusOutcome::Read(Err(ImuIoError::Bus(twim::Error::AddressNack))));
    assert!(matches!(s, Step::Done(Completion::Initialized(None))));
}

#[test]
fn configure_writes_both_control_registers() {
    let mut imu = Lsm6ds3::new();
    imu.probe();
    imu.resume(BusOutcome::Read(Ok(0x6A)));
    let s = imu.configure();
    assert_eq!(write_req(&s), (0x6A, 0x10, 0x40));
    let s = imu.resume(BusOutcome::Written(Ok(())));
    assert_eq!(write_req(&s), (0x6A, 0x11, 0x40));
    assert!(matches!(imu.resume(BusOutcome::Written(Ok(()))), Step::Done(Completion::Configured(Ok(())))));
}

#[test]
fn sample_is_decoded_little_endian() {
    let mut imu = Lsm6ds3::new();
    imu.probe();
    imu.resume(BusOutcome::Read(Ok(0x6A)));
    match imu.read_sample() {
        Step::Transfer(BusRequest::ReadBurst { addr, reg }) => assert_eq!((addr, reg), (0x6A, 0x22)),
        _ => panic!("expected a burst read"),
    }
    let raw = [0x10, 0x00, 0xFF, 0xFF, 0x00, 0x80, 0x34, 0x12, 0x00, 0x00, 0xFF, 0x7F];
    match imu.resume(BusOutcome::Burst(Ok(raw))) {
        Step::Done(Completion::Sampled(Ok(a))) => assert_eq!(a, [16, -1, -32768, 0x1234, 0, 32767]),
        _ => panic!("expected a sample"),
    }
}

#[test]
fn decode_sample_orders_gyro_then_accel() {
    let raw = [1, 0, 2, 0, 3, 0, 4, 0, 5, 0, 0x00, 0xC0];
    assert_eq!(decode_sample(&raw), [1, 2, 3, 4, 5, -16384]);
}

#[test]
fn awaits_checks_the_outcome_kind() {
    let mut imu = Lsm6ds3::new();
    assert!(!imu.awaits(&BusOutcome::Read(Ok(0))));
    imu.probe();
    assert!(imu.awaits(&BusOutcome::Read(Ok(0))));
    assert!(!imu.awaits(&BusOutcome::Written(Ok(()))));
}

#[test]
fn transfer_results() {
    assert!(matches!(transfer_result(Err(TimeoutError)), Err(ImuIoError::Timeout)));
    assert!(matches!(
        transfer_result(Ok(Err(twim::Error::AddressNack))),
        Err(ImuIoError::Bus(twim::Error::AddressNack))
    ));
    assert!(matches!(transfer_result(Ok(Ok(()))), Ok(())));
}
