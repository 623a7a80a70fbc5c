use embassy_nrf::twim;
use xiao_sense::imu_task::{
    init_report, read_reply, sample_error_reply, status_reply, write_reply, ImuCommand, ImuReply,
    ImuTask, TaskStep,
};
use xiao_sense::lsm6ds3::{BusOutcome, BusRequest, ImuIoError, ProbeResult};

fn text(r: TaskStep) -> String {
    match r {
        TaskStep::Reply(ImuReply::Text(t)) => t.as_str().to_string(),
        _ => panic!("expected a text reply"),
    }
}

#[test]
fn status_detected() {
    let p = Some(ProbeResult { addr: 0x6A, who_am_i: 0x6A, expected: 0x6A });
    assert_eq!(status_reply(&p).as_str(), "IMU detected at 0x6A: WHO_AM_I=0x6A\n");
}

#[test]
fn status_mismatch() {
    let p = Some(ProbeResult { addr: 0x6B, who_am_i: 0x69, expected: 0x6A });
    assert_eq!(
        status_reply(&p).as_str(),
        "IMU mismatch at 0x6B: WHO_AM_I=0x69 (expected 0x6A)\n"
    );
}

#[test]
fn status_not_found() {
    assert_eq!(status_reply(&None).as_str(), "IMU not found at 0x6A or 0x6B.\n");
}

#[test]
fn read_replies() {
    assert_eq!(read_reply(0x0F, &Ok(0x6A)).as_str(), "IMU[0x0F] = 0x6A\n");
    assert_eq!(read_reply(0xAB, &Ok(0x05)).as_str(), "IMU[0xAB] = 0x05\n");
    assert_eq!(
        read_reply(0x0F, &Err(ImuIoError::Timeout)).as_str(),
        "IMU read timed out at 0x0F\n"
    );
    assert_eq!(
        read_reply(0x0F, &Err(ImuIoError::Bus(twim::Error::AddressNack))).as_str(),
        "IMU read error at 0x0F\n"
    );
    assert_eq!(
        read_reply(0x10, &Err(ImuIoError::NotDetected)).as_str(),
        "IMU read error at 0x10\n"
    );
}

#[test]
fn write_replies() {
    assert_eq!(write_reply(0x10, 0x40, &Ok(())).as_str(), "IMU[0x10] <= 0x40\n");
    assert_eq!(
        write_reply(0x11, 0xFF, &Err(ImuIoError::Timeout)).as_str(),
        "IMU write timed out at 0x11\n"
    );
    assert_eq!(
        write_reply(0x11, 0xFF, &Err(ImuIoError::Bus(twim::Error::DataNack))).as_str(),
        "IMU write error at 0x11\n"
    );
}

#[test]
fn sample_error_replies() {
    assert_eq!(sample_error_reply(&ImuIoError::Timeout).as_str(), "IMU sample read timed out\n");
    assert_eq!(
        sample_error_reply(&ImuIoError::Bus(twim::Error::Overrun)).as_str(),
        "IMU sample read error\n"
    );
}

#[test]
fn init_reports() {
    let p = ProbeResult { addr: 0x6A, who_am_i: 0x6A, expected: 0x6A };
    assert_eq!(
        init_report(&Some((p, Ok(())))).as_str(),
        "IMU init: 0x6A WHO_AM_I=0x6A configured OK\n"
    );
    assert_eq!(
        init_report(&Some((p, Err(ImuIoError::Timeout)))).as_str(),
        "IMU init: 0x6A WHO_AM_I=0x6A config FAILED\n"
    );
    assert_eq!(init_report(&None).as_str(), "IMU init: not found at 0x6A or 0x6B\n");
}

#[test]
fn task_boots_and_serves_commands() {
    let mut task = ImuTask::new();
    match task.boot() {
        TaskStep::Transfer(BusRequest::Read { addr: 0x6A, reg: 0x0F }) => {}
        _ => panic!("boot starts with a WHO_AM_I read"),
    }
    assert!(matches!(task.resume(BusOutcome::Read(Ok(0x6A))), TaskStep::Transfer(BusRequest::Write { .. })));
    assert!(matches!(task.resume(BusOutcome::Written(Ok(()))), TaskStep::Transfer(BusRequest::Write { .. })));
    assert_eq!(
        text(task.resume(BusOutcome::Written(Ok(())))),
        "IMU init: 0x6A WHO_AM_I=0x6A configured OK\n"
    );

    match task.handle(ImuCommand::ReadReg { reg: 0x10 }) {
        TaskStep::Transfer(BusRequest::Read { addr: 0x6A, reg: 0x10 }) => {}
        _ => panic!("expected a read at the probed address"),
    }
    assert_eq!(text(task.resume(BusOutcome::Read(Ok(0x40)))), "IMU[0x10] = 0x40\n");

    match task.handle(ImuCommand::WriteReg { reg: 0x11, value: 0x00 }) {
        TaskStep::Transfer(BusRequest::Write { addr: 0x6A, reg: 0x11, value: 0x00 }) => {}
        _ => panic!("expected a write at the probed address"),
    }
    assert_eq!(text(task.resume(BusOutcome::Written(Ok(())))), "IMU[0x11] <= 0x00\n");

    assert!(matches!(task.handle(ImuCommand::Sample), TaskStep::Transfer(BusRequest::ReadBurst { .. })));
    match task.resume(BusOutcome::Burst(Ok([0, 1, 0, 0, 0, 0, 0, 0, 0, 0, 0, 0]))) {
        TaskStep::Reply(ImuReply::Sample(a)) => assert_eq!(a, [256, 0, 0, 0, 0, 0]),
        _ => panic!("expected a sample"),
    }

    assert!(matches!(task.handle(ImuCommand::Status), TaskStep::Transfer(BusRequest::Read { .. })));
    assert_eq!(
        text(task.resume(BusOutcome::Read(Ok(0x6A)))),
        "IMU detected at 0x6A: WHO_AM_I=0x6A\n"
    );
}

#[test]
fn task_without_imu_reports_errors_at_once() {
    let mut task = ImuTask::new();
    task.boot();
    task.resume(BusOutcome::Read(Err(ImuIoError::Timeout)));
    assert_eq!(
        text(task.resume(BusOutcome::Read(Err(ImuIoError::Timeout)))),
        "IMU init: not found at 0x6A or 0x6B\n"
    );
    assert_eq!(text(task.handle(ImuCommand::ReadReg { reg: 0x0F })), "IMU read error at 0x0F\n");
    assert_eq!(text(task.handle(ImuCommand::Sample)), "IMU sample read error\n");
}
