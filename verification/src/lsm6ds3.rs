//! Decisions of the driver for the onboard LSM6DS3TR-C accelerometer/gyroscope.
//!
//! The driver never touches the I2C bus itself: every operation is a small
//! state machine. Starting an operation, and resuming it with the outcome of
//! the bus transfer it asked for, yields either the next transfer to perform
//! or the finished result. Whoever owns the bus performs the transfers.

use vstd::prelude::*;

verus! {

/// I2C address the IMU answers on when SA0 is low.
pub const IMU_ADDR_PRIMARY: u8 = 0x6A;

/// I2C address the IMU answers on when SA0 is high.
pub const IMU_ADDR_SECONDARY: u8 = 0x6B;

/// Identification register.
pub const WHO_AM_I_REG: u8 = 0x0F;

/// Chip ID of the LSM6DS3TR-C (the plain LSM6DS3 reports 0x69); it happens to
/// equal the primary address but is unrelated to it.
pub const WHO_AM_I_EXPECTED: u8 = 0x6A;

/// Accelerometer control register (output data rate and full scale).
pub const CTRL1_XL_REG: u8 = 0x10;

/// Gyroscope control register (output data rate and full scale).
pub const CTRL2_G_REG: u8 = 0x11;

/// 104 Hz output data rate, +/-2 g accelerometer range, +/-250 dps gyro range.
pub const ODR_104HZ_2G_250DPS: u8 = 0x40;

/// First output register: gyro X/Y/Z then accel X/Y/Z, two bytes each,
/// auto-incrementing from OUTX_L_G.
pub const OUT_START_REG: u8 = 0x22;

/// Length of the gyro+accel output burst.
pub const SAMPLE_LEN: usize = 12;

#[verifier::external_type_specification]
#[verifier::external_body]
pub struct ExTwimError(embassy_nrf::twim::Error);

#[verifier::external_type_specification]
#[verifier::external_body]
pub struct ExTimeoutError(embassy_time::TimeoutError);

/// Why an IMU register access failed.
#[derive(Debug)]
pub enum ImuIoError {
    /// The I2C peripheral reported an error.
    Bus(embassy_nrf::twim::Error),
    /// The transfer did not finish within the bus timeout.
    Timeout,
    /// No address is known yet; probing was never done or found nothing.
    NotDetected,
}

/// How a bus transfer bounded by the I2C timeout ended: the timeout elapsed
/// first, the peripheral reported an error, or the transfer succeeded.
pub fn transfer_result(
    r: Result<Result<(), embassy_nrf::twim::Error>, embassy_time::TimeoutError>,
) -> (res: Result<(), ImuIoError>)
    ensures
        match r {
            Err(_) => res == Err::<(), ImuIoError>(ImuIoError::Timeout),
            Ok(Err(e)) => res == Err::<(), ImuIoError>(ImuIoError::Bus(e)),
            Ok(Ok(u)) => res == Ok::<(), ImuIoError>(u),
        },
{
    match r {
        Err(_) => Err(ImuIoError::Timeout),
        Ok(Err(e)) => Err(ImuIoError::Bus(e)),
        Ok(Ok(u)) => Ok(u),
    }
}

/// Outcome of a WHO_AM_I probe: the address that answered and the value it returned.
#[derive(Clone, Copy)]
pub struct ProbeResult {
    pub addr: u8,
    pub who_am_i: u8,
    pub expected: u8,
}

impl ProbeResult {
    pub fn matches_expected(&self) -> (r: bool)
        ensures
            r == (self.who_am_i == self.expected),
    {
        self.who_am_i == self.expected
    }
}

/// A bus transfer the driver asks for.
pub enum BusRequest {
    /// Write the register number, then read one byte back.
    Read { addr: u8, reg: u8 },
    /// Write the register number followed by one value byte.
    Write { addr: u8, reg: u8, value: u8 },
    /// Write the start register, then read `SAMPLE_LEN` auto-incremented bytes.
    ReadBurst { addr: u8, reg: u8 },
}

/// The outcome of the transfer the driver asked for, of the same kind.
pub enum BusOutcome {
    Read(Result<u8, ImuIoError>),
    Written(Result<(), ImuIoError>),
    Burst(Result<[u8; 12], ImuIoError>),
}

/// What a finished operation gives back.
pub enum Completion {
    /// `probe`: the answering address and its WHO_AM_I, if any address answered.
    Probed(Option<ProbeResult>),
    /// `init`: the probe result and the outcome of configuring, if the probe found the IMU.
    Initialized(Option<(ProbeResult, Result<(), ImuIoError>)>),
    /// `configure`.
    Configured(Result<(), ImuIoError>),
    /// `read_reg`: the register's value.
    RegRead(Result<u8, ImuIoError>),
    /// `write_reg`.
    RegWritten(Result<(), ImuIoError>),
    /// `read_sample`: raw `[gx, gy, gz, ax, ay, az]` in LSB units.
    Sampled(Result<[i16; 6], ImuIoError>),
}

/// What the owner of the bus has to do next.
pub enum Step {
    /// Perform this transfer and resume the driver with its outcome.
    Transfer(BusRequest),
    /// The operation is over.
    Done(Completion),
}

/// The operation in progress, if any.
#[derive(Clone, Copy)]
pub enum Pending {
    Idle,
    /// Waiting for the WHO_AM_I read at the primary (`second == false`) or the
    /// secondary address; `then_configure` when probing on behalf of `init`.
    Probing { second: bool, then_configure: bool },
    /// Waiting for the CTRL1_XL (`second == false`) or CTRL2_G write at `addr`;
    /// `probe` holds the probe result when configuring on behalf of `init`.
    Configuring { addr: u8, second: bool, probe: Option<ProbeResult> },
    ReadingReg,
    WritingReg,
    Sampling,
}

/// Driver for the onboard LSM6DS3TR-C accelerometer/gyroscope.
pub struct Lsm6ds3 {
    /// Remembered from the last successful probe.
    addr: Option<u8>,
    pending: Pending,
}

/// The driver's state as the contracts see it.
pub struct DriverState {
    pub addr: Option<u8>,
    pub pending: Pending,
}

impl View for Lsm6ds3 {
    type V = DriverState;

    closed spec fn view(&self) -> DriverState {
        DriverState { addr: self.addr, pending: self.pending }
    }
}

/// An operation of the driver.
pub enum Operation {
    Probe,
    Init,
    Configure,
    ReadReg { reg: u8 },
    WriteReg { reg: u8, value: u8 },
    Sample,
}

/// The address probed first (`second == false`) or second.
pub open spec fn probe_addr(second: bool) -> u8 {
    if second {
        IMU_ADDR_SECONDARY
    } else {
        IMU_ADDR_PRIMARY
    }
}

/// The control register written first (`second == false`) or second while configuring.
pub open spec fn config_reg(second: bool) -> u8 {
    if second {
        CTRL2_G_REG
    } else {
        CTRL1_XL_REG
    }
}

pub open spec fn idle(addr: Option<u8>) -> DriverState {
    DriverState { addr, pending: Pending::Idle }
}

/// The result of a configure run, reported as `configure` or as `init` does.
pub open spec fn config_done(probe: Option<ProbeResult>, r: Result<(), ImuIoError>) -> Completion {
    match probe {
        Some(p) => Completion::Initialized(Some((p, r))),
        None => Completion::Configured(r),
    }
}

/// The 16-bit two's complement value of the little-endian pair `(lo, hi)`.
pub open spec fn le_i16(lo: u8, hi: u8) -> int {
    if hi < 128 {
        hi * 256 + lo
    } else {
        hi * 256 + lo - 65536
    }
}

/// The six axes of an output burst, each a little-endian pair in register order.
pub open spec fn axes_of(b: Seq<u8>) -> Seq<int> {
    Seq::new(6, |i: int| le_i16(b[2 * i], b[2 * i + 1]))
}

/// Starting an operation from state `s`: the next state and step.
pub open spec fn start_spec(s: DriverState, op: Operation) -> (DriverState, Step) {
    match op {
        Operation::Probe => (
            DriverState { addr: s.addr, pending: Pending::Probing { second: false, then_configure: false } },
            Step::Transfer(BusRequest::Read { addr: IMU_ADDR_PRIMARY, reg: WHO_AM_I_REG }),
        ),
        Operation::Init => (
            DriverState { addr: s.addr, pending: Pending::Probing { second: false, then_configure: true } },
            Step::Transfer(BusRequest::Read { addr: IMU_ADDR_PRIMARY, reg: WHO_AM_I_REG }),
        ),
        Operation::Configure => match s.addr {
            None => (idle(s.addr), Step::Done(Completion::Configured(Err(ImuIoError::NotDetected)))),
            Some(a) => (
                DriverState { addr: s.addr, pending: Pending::Configuring { addr: a, second: false, probe: None } },
                Step::Transfer(BusRequest::Write { addr: a, reg: CTRL1_XL_REG, value: ODR_104HZ_2G_250DPS }),
            ),
        },
        Operation::ReadReg { reg } => match s.addr {
            None => (idle(s.addr), Step::Done(Completion::RegRead(Err(ImuIoError::NotDetected)))),
            Some(a) => (
                DriverState { addr: s.addr, pending: Pending::ReadingReg },
                Step::Transfer(BusRequest::Read { addr: a, reg }),
            ),
        },
        Operation::WriteReg { reg, value } => match s.addr {
            None => (idle(s.addr), Step::Done(Completion::RegWritten(Err(ImuIoError::NotDetected)))),
            Some(a) => (
                DriverState { addr: s.addr, pending: Pending::WritingReg },
                Step::Transfer(BusRequest::Write { addr: a, reg, value }),
            ),
        },
        Operation::Sample => match s.addr {
            None => (idle(s.addr), Step::Done(Completion::Sampled(Err(ImuIoError::NotDetected)))),
            Some(a) => (
                DriverState { addr: s.addr, pending: Pending::Sampling },
                Step::Transfer(BusRequest::ReadBurst { addr: a, reg: OUT_START_REG }),
            ),
        },
    }
}

/// Whether `o` is the kind of outcome that the transfer asked for in state `s` gives.
pub open spec fn awaits(s: DriverState, o: BusOutcome) -> bool {
    match s.pending {
        Pending::Idle => false,
        Pending::Probing { .. } => o is Read,
        Pending::Configuring { .. } => o is Written,
        Pending::ReadingReg => o is Read,
        Pending::WritingReg => o is Written,
        Pending::Sampling => o is Burst,
    }
}

/// Resuming from state `s` with the outcome `o` of the transfer it asked for
/// leads to state `s2` and step `step`.
pub open spec fn resumes(s: DriverState, o: BusOutcome, s2: DriverState, step: Step) -> bool {
    match (s.pending, o) {
        (Pending::Probing { second, then_configure }, BusOutcome::Read(r)) => match r {
            Ok(w) => {
                let a = probe_addr(second);
                let p = ProbeResult { addr: a, who_am_i: w, expected: WHO_AM_I_EXPECTED };
                if then_configure {
                    &&& s2 == DriverState {
                        addr: Some(a),
                        pending: Pending::Configuring { addr: a, second: false, probe: Some(p) },
                    }
                    &&& step == Step::Transfer(
                        BusRequest::Write { addr: a, reg: CTRL1_XL_REG, value: ODR_104HZ_2G_250DPS },
                    )
                } else {
                    s2 == idle(Some(a)) && step == Step::Done(Completion::Probed(Some(p)))
                }
            },
            Err(_) => if !second {
                &&& s2 == DriverState {
                    addr: s.addr,
                    pending: Pending::Probing { second: true, then_configure },
                }
                &&& step == Step::Transfer(
                    BusRequest::Read { addr: IMU_ADDR_SECONDARY, reg: WHO_AM_I_REG },
                )
            } else if then_configure {
                s2 == idle(None) && step == Step::Done(Completion::Initialized(None))
            } else {
                s2 == idle(None) && step == Step::Done(Completion::Probed(None))
            },
        },
        (Pending::Configuring { addr, second, probe }, BusOutcome::Written(r)) => match r {
            Ok(_) => if !second {
                &&& s2 == DriverState {
                    addr: s.addr,
                    pending: Pending::Configuring { addr, second: true, probe },
                }
                &&& step == Step::Transfer(
                    BusRequest::Write { addr, reg: CTRL2_G_REG, value: ODR_104HZ_2G_250DPS },
                )
            } else {
                s2 == idle(s.addr) && step == Step::Done(config_done(probe, r))
            },
            Err(e) => s2 == idle(s.addr) && step == Step::Done(config_done(probe, Err(e))),
        },
        (Pending::ReadingReg, BusOutcome::Read(r)) => s2 == idle(s.addr) && step == Step::Done(
            Completion::RegRead(r),
        ),
        (Pending::WritingReg, BusOutcome::Written(r)) => s2 == idle(s.addr) && step == Step::Done(
            Completion::RegWritten(r),
        ),
        (Pending::Sampling, BusOutcome::Burst(r)) => s2 == idle(s.addr) && match r {
            Ok(b) => step matches Step::Done(Completion::Sampled(Ok(a))) && sample_matches(a, b),
            Err(e) => step == Step::Done(Completion::Sampled(Err(e))),
        },
        _ => false,
    }
}

/// The six raw axes `a` are those of the burst `b`.
pub open spec fn sample_matches(a: [i16; 6], b: [u8; 12]) -> bool {
    forall|i: int| 0 <= i < 6 ==> #[trigger] a@[i] as int == axes_of(b@)[i]
}

/// `i16::from_le_bytes`: the 16-bit two's complement value of `[lo, hi]`.
#[verifier::external_body]
fn i16_from_le(lo: u8, hi: u8) -> (v: i16)
    ensures
        v as int == le_i16(lo, hi),
{
    i16::from_le_bytes([lo, hi])
}

/// Decodes the gyro+accel burst into `[gx, gy, gz, ax, ay, az]`.
pub fn decode_sample(b: &[u8; 12]) -> (a: [i16; 6])
    ensures
        sample_matches(a, *b),
{
    let a = [
        i16_from_le(b[0], b[1]),
        i16_from_le(b[2], b[3]),
        i16_from_le(b[4], b[5]),
        i16_from_le(b[6], b[7]),
        i16_from_le(b[8], b[9]),
        i16_from_le(b[10], b[11]),
    ];
    assert(sample_matches(a, *b));
    a
}

impl Lsm6ds3 {
    /// A driver that knows no address yet and has no operation in progress.
    pub fn new() -> (d: Lsm6ds3)
        ensures
            d@ == idle(None),
    {
        Lsm6ds3 { addr: None, pending: Pending::Idle }
    }

    /// The address remembered from the last successful probe.
    pub fn addr(&self) -> (a: Option<u8>)
        ensures
            a == self@.addr,
    {
        self.addr
    }

    /// Starts `op`, abandoning any operation in progress.
    pub fn start(&mut self, op: Operation) -> (step: Step)
        ensures
            (final(self)@, step) == start_spec(old(self)@, op),
    {
        match op {
            Operation::Probe => {
                self.pending = Pending::Probing { second: false, then_configure: false };
                Step::Transfer(BusRequest::Read { addr: IMU_ADDR_PRIMARY, reg: WHO_AM_I_REG })
            },
            Operation::Init => {
                self.pending = Pending::Probing { second: false, then_configure: true };
                Step::Transfer(BusRequest::Read { addr: IMU_ADDR_PRIMARY, reg: WHO_AM_I_REG })
            },
            Operation::Configure => match self.addr {
                None => {
                    self.pending = Pending::Idle;
                    Step::Done(Completion::Configured(Err(ImuIoError::NotDetected)))
                },
                Some(a) => {
                    self.pending = Pending::Configuring { addr: a, second: false, probe: None };
                    Step::Transfer(
                        BusRequest::Write { addr: a, reg: CTRL1_XL_REG, value: ODR_104HZ_2G_250DPS },
                    )
                },
            },
            Operation::ReadReg { reg } => match self.addr {
                None => {
                    self.pending = Pending::Idle;
                    Step::Done(Completion::RegRead(Err(ImuIoError::NotDetected)))
                },
                Some(a) => {
                    self.pending = Pending::ReadingReg;
                    Step::Transfer(BusRequest::Read { addr: a, reg })
                },
            },
            Operation::WriteReg { reg, value } => match self.addr {
                None => {
                    self.pending = Pending::Idle;
                    Step::Done(Completion::RegWritten(Err(ImuIoError::NotDetected)))
                },
                Some(a) => {
                    self.pending = Pending::WritingReg;
                    Step::Transfer(BusRequest::Write { addr: a, reg, value })
                },
            },
            Operation::Sample => match self.addr {
                None => {
                    self.pending = Pending::Idle;
                    Step::Done(Completion::Sampled(Err(ImuIoError::NotDetected)))
                },
                Some(a) => {
                    self.pending = Pending::Sampling;
                    Step::Transfer(BusRequest::ReadBurst { addr: a, reg: OUT_START_REG })
                },
            },
        }
    }

    /// Probe the primary address, then the secondary, remembering whichever answered.
    pub fn probe(&mut self) -> (step: Step)
        ensures
            (final(self)@, step) == start_spec(old(self)@, Operation::Probe),
    {
        self.start(Operation::Probe)
    }

    /// Probe and apply the boot-time ODR/range configuration in one operation.
    pub fn init(&mut self) -> (step: Step)
        ensures
            (final(self)@, step) == start_spec(old(self)@, Operation::Init),
    {
        self.start(Operation::Init)
    }

    /// Set accelerometer/gyro output data rate and full-scale range.
    pub fn configure(&mut self) -> (step: Step)
        ensures
            (final(self)@, step) == start_spec(old(self)@, Operation::Configure),
    {
        self.start(Operation::Configure)
    }

    /// Read one register at the remembered address.
    pub fn read_reg(&mut self, reg: u8) -> (step: Step)
        ensures
            (final(self)@, step) == start_spec(old(self)@, Operation::ReadReg { reg }),
    {
        self.start(Operation::ReadReg { reg })
    }

    /// Write one register at the remembered address.
    pub fn write_reg(&mut self, reg: u8, value: u8) -> (step: Step)
        ensures
            (final(self)@, step) == start_spec(old(self)@, Operation::WriteReg { reg, value }),
    {
        self.start(Operation::WriteReg { reg, value })
    }

    /// Read the gyro+accel burst at the remembered address.
    pub fn read_sample(&mut self) -> (step: Step)
        ensures
            (final(self)@, step) == start_spec(old(self)@, Operation::Sample),
    {
        self.start(Operation::Sample)
    }

    /// Whether the operation in progress waits for an outcome of the kind of `o`.
    pub fn awaits(&self, o: &BusOutcome) -> (r: bool)
        ensures
            r == awaits(self@, *o),
    {
        match self.pending {
            Pending::Idle => false,
            Pending::Probing { .. } => matches!(o, BusOutcome::Read(_)),
            Pending::Configuring { .. } => matches!(o, BusOutcome::Written(_)),
            Pending::ReadingReg => matches!(o, BusOutcome::Read(_)),
            Pending::WritingReg => matches!(o, BusOutcome::Written(_)),
            Pending::Sampling => matches!(o, BusOutcome::Burst(_)),
        }
    }

    /// Continues the operation in progress with the outcome of the transfer it asked for.
    pub fn resume(&mut self, o: BusOutcome) -> (step: Step)
        requires
            awaits(old(self)@, o),
        ensures
            resumes(old(self)@, o, final(self)@, step),
    {
        let pending = self.pending;
        self.pending = Pending::Idle;
        match (pending, o) {
            (Pending::Probing { second, then_configure }, BusOutcome::Read(r)) => match r {
                Ok(w) => {
                    let a = if second { IMU_ADDR_SECONDARY } else { IMU_ADDR_PRIMARY };
                    let p = ProbeResult { addr: a, who_am_i: w, expected: WHO_AM_I_EXPECTED };
                    self.addr = Some(a);
                    if then_configure {
                        self.pending = Pending::Configuring { addr: a, second: false, probe: Some(p) };
                        Step::Transfer(
                            BusRequest::Write { addr: a, reg: CTRL1_XL_REG, value: ODR_104HZ_2G_250DPS },
                        )
                    } else {
                        Step::Done(Completion::Probed(Some(p)))
                    }
                },
                Err(_) => if !second {
                    self.pending = Pending::Probing { second: true, then_configure };
                    Step::Transfer(BusRequest::Read { addr: IMU_ADDR_SECONDARY, reg: WHO_AM_I_REG })
                } else {
                    self.addr = None;
                    if then_configure {
                        Step::Done(Completion::Initialized(None))
                    } else {
                        Step::Done(Completion::Probed(None))
                    }
                },
            },
            (Pending::Configuring { addr, second, probe }, BusOutcome::Written(r)) => {
                let r = match r {
                    Ok(u) => if !second {
                        self.pending = Pending::Configuring { addr, second: true, probe };
                        return Step::Transfer(
                            BusRequest::Write { addr, reg: CTRL2_G_REG, value: ODR_104HZ_2G_250DPS },
                        );
                    } else {
                        Ok(u)
                    },
                    Err(e) => Err(e),
                };
                match probe {
                    Some(p) => Step::Done(Completion::Initialized(Some((p, r)))),
                    None => Step::Done(Completion::Configured(r)),
                }
            },
            (Pending::ReadingReg, BusOutcome::Read(r)) => Step::Done(Completion::RegRead(r)),
            (Pending::WritingReg, BusOutcome::Written(r)) => Step::Done(Completion::RegWritten(r)),
            (Pending::Sampling, BusOutcome::Burst(r)) => match r {
                Ok(b) => Step::Done(Completion::Sampled(Ok(decode_sample(&b)))),
                Err(e) => Step::Done(Completion::Sampled(Err(e))),
            },
            _ => Step::Done(Completion::Probed(None)),
        }
    }
}

/// Probing reads WHO_AM_I at the primary address first and, only if that read
/// fails, at the secondary address; the driver then remembers the address
/// that answered, or forgets any address when neither did.
pub proof fn law_probe(
    s: DriverState,
    r1: Result<u8, ImuIoError>,
    s2: DriverState,
    st2: Step,
    r2: Result<u8, ImuIoError>,
    s3: DriverState,
    st3: Step,
)
    requires
        resumes(start_spec(s, Operation::Probe).0, BusOutcome::Read(r1), s2, st2),
        r1 is Err ==> resumes(s2, BusOutcome::Read(r2), s3, st3),
    ensures
        start_spec(s, Operation::Probe).1 == Step::Transfer(
            BusRequest::Read { addr: IMU_ADDR_PRIMARY, reg: WHO_AM_I_REG },
        ),
        r1 matches Ok(w) ==> s2 == idle(Some(IMU_ADDR_PRIMARY)) && st2 == Step::Done(
            Completion::Probed(
                Some(ProbeResult { addr: IMU_ADDR_PRIMARY, who_am_i: w, expected: WHO_AM_I_EXPECTED }),
            ),
        ),
        r1 is Err ==> st2 == Step::Transfer(
            BusRequest::Read { addr: IMU_ADDR_SECONDARY, reg: WHO_AM_I_REG },
        ),
        r1 is Err ==> (r2 matches Ok(w) ==> s3 == idle(Some(IMU_ADDR_SECONDARY)) && st3 == Step::Done(
            Completion::Probed(
                Some(ProbeResult { addr: IMU_ADDR_SECONDARY, who_am_i: w, expected: WHO_AM_I_EXPECTED }),
            ),
        )),
        r1 is Err && r2 is Err ==> s3 == idle(None) && st3 == Step::Done(Completion::Probed(None)),
{
}

/// Before an address is known, configuring, register access and sampling
/// fail at once with `NotDetected`, without any bus transfer.
pub proof fn law_not_detected(s: DriverState, reg: u8, value: u8)
    requires
        s.addr is None,
    ensures
        start_spec(s, Operation::Configure) == (idle(None), Step::Done(
            Completion::Configured(Err(ImuIoError::NotDetected)),
        )),
        start_spec(s, Operation::ReadReg { reg }) == (idle(None), Step::Done(
            Completion::RegRead(Err(ImuIoError::NotDetected)),
        )),
        start_spec(s, Operation::WriteReg { reg, value }) == (idle(None), Step::Done(
            Completion::RegWritten(Err(ImuIoError::NotDetected)),
        )),
        start_spec(s, Operation::Sample) == (idle(None), Step::Done(
            Completion::Sampled(Err(ImuIoError::NotDetected)),
        )),
{
}

/// Register reads and writes go to the remembered address, report exactly
/// the bus outcome, and keep the address.
pub proof fn law_register_access(
    a: u8,
    p: Pending,
    reg: u8,
    value: u8,
    rr: Result<u8, ImuIoError>,
    rw: Result<(), ImuIoError>,
    s2: DriverState,
    st2: Step,
    s3: DriverState,
    st3: Step,
)
    requires
        resumes(
            start_spec(DriverState { addr: Some(a), pending: p }, Operation::ReadReg { reg }).0,
            BusOutcome::Read(rr),
            s2,
            st2,
        ),
        resumes(
            start_spec(
                DriverState { addr: Some(a), pending: p },
                Operation::WriteReg { reg, value },
            ).0,
            BusOutcome::Written(rw),
            s3,
            st3,
        ),
    ensures
        start_spec(DriverState { addr: Some(a), pending: p }, Operation::ReadReg { reg }).1
            == Step::Transfer(BusRequest::Read { addr: a, reg }),
        s2 == idle(Some(a)) && st2 == Step::Done(Completion::RegRead(rr)),
        start_spec(DriverState { addr: Some(a), pending: p }, Operation::WriteReg { reg, value }).1
            == Step::Transfer(BusRequest::Write { addr: a, reg, value }),
        s3 == idle(Some(a)) && st3 == Step::Done(Completion::RegWritten(rw)),
{
}

/// Configuring writes 0x40 to CTRL1_XL and then to CTRL2_G at the remembered
/// address, stopping at the first failed write and reporting its error.
pub proof fn law_configure(
    a: u8,
    p: Pending,
    w1: Result<(), ImuIoError>,
    s2: DriverState,
    st2: Step,
    w2: Result<(), ImuIoError>,
    s3: DriverState,
    st3: Step,
)
    requires
        resumes(
            start_spec(DriverState { addr: Some(a), pending: p }, Operation::Configure).0,
            BusOutcome::Written(w1),
            s2,
            st2,
        ),
        w1 is Ok ==> resumes(s2, BusOutcome::Written(w2), s3, st3),
    ensures
        start_spec(DriverState { addr: Some(a), pending: p }, Operation::Configure).1
            == Step::Transfer(
            BusRequest::Write { addr: a, reg: CTRL1_XL_REG, value: ODR_104HZ_2G_250DPS },
        ),
        w1 matches Err(e) ==> s2 == idle(Some(a)) && st2 == Step::Done(
            Completion::Configured(Err(e)),
        ),
        w1 is Ok ==> st2 == Step::Transfer(
            BusRequest::Write { addr: a, reg: CTRL2_G_REG, value: ODR_104HZ_2G_250DPS },
        ),
        w1 is Ok ==> s3 == idle(Some(a)) && st3 == Step::Done(Completion::Configured(w2)),
{
}

/// `init` is a probe followed, only when the probe found the IMU, by the
/// configuration writes at the address found; it reports the probe result
/// together with the configuration outcome.
pub proof fn law_init(
    s: DriverState,
    r1: Result<u8, ImuIoError>,
    s2: DriverState,
    st2: Step,
    w1: Result<(), ImuIoError>,
    s3: DriverState,
    st3: Step,
    w2: Result<(), ImuIoError>,
    s4: DriverState,
    st4: Step,
)
    requires
        r1 is Ok,
        resumes(start_spec(s, Operation::Init).0, BusOutcome::Read(r1), s2, st2),
        resumes(s2, BusOutcome::Written(w1), s3, st3),
        w1 is Ok ==> resumes(s3, BusOutcome::Written(w2), s4, st4),
    ensures
        ({
            let p = ProbeResult {
                addr: IMU_ADDR_PRIMARY,
                who_am_i: r1.unwrap(),
                expected: WHO_AM_I_EXPECTED,
            };
            &&& st2 == Step::Transfer(
                BusRequest::Write { addr: IMU_ADDR_PRIMARY, reg: CTRL1_XL_REG, value: ODR_104HZ_2G_250DPS },
            )
            &&& w1 matches Err(e) ==> st3 == Step::Done(Completion::Initialized(Some((p, Err(e)))))
            &&& w1 is Ok ==> st3 == Step::Transfer(
                BusRequest::Write { addr: IMU_ADDR_PRIMARY, reg: CTRL2_G_REG, value: ODR_104HZ_2G_250DPS },
            )
            &&& w1 is Ok ==> st4 == Step::Done(Completion::Initialized(Some((p, w2))))
                && s4.addr == Some(IMU_ADDR_PRIMARY)
        }),
{
}

/// When neither address answers, `init` reports nothing found and writes no
/// configuration.
pub proof fn law_init_not_found(
    s: DriverState,
    r1: Result<u8, ImuIoError>,
    s2: DriverState,
    st2: Step,
    r2: Result<u8, ImuIoError>,
    s3: DriverState,
    st3: Step,
)
    requires
        r1 is Err,
        r2 is Err,
        resumes(start_spec(s, Operation::Init).0, BusOutcome::Read(r1), s2, st2),
        resumes(s2, BusOutcome::Read(r2), s3, st3),
    ensures
        st2 == Step::Transfer(BusRequest::Read { addr: IMU_ADDR_SECONDARY, reg: WHO_AM_I_REG }),
        s3 == idle(None),
        st3 == Step::Done(Completion::Initialized(None)),
{
}

/// A sample is read as one burst from OUTX_L_G at the remembered address and
/// decoded into six little-endian 16-bit values, gyro X/Y/Z then accel X/Y/Z.
pub proof fn law_sample(
    a: u8,
    p: Pending,
    b: [u8; 12],
    s2: DriverState,
    st2: Step,
)
    requires
        resumes(
            start_spec(DriverState { addr: Some(a), pending: p }, Operation::Sample).0,
            BusOutcome::Burst(Ok(b)),
            s2,
            st2,
        ),
    ensures
        start_spec(DriverState { addr: Some(a), pending: p }, Operation::Sample).1
            == Step::Transfer(BusRequest::ReadBurst { addr: a, reg: OUT_START_REG }),
        s2 == idle(Some(a)),
        st2 matches Step::Done(Completion::Sampled(Ok(v))) && forall|i: int|
            0 <= i < 6 ==> #[trigger] v@[i] as int == le_i16(b@[2 * i], b@[2 * i + 1]),
{
}

/// When the primary address does not answer and the secondary does, `init`
/// writes both control registers at the secondary address, remembers it, and
/// reports the probe result of the secondary address with the outcome of
/// configuring.
pub proof fn law_init_secondary(
    s: DriverState,
    r1: Result<u8, ImuIoError>,
    s2: DriverState,
    st2: Step,
    r2: Result<u8, ImuIoError>,
    s3: DriverState,
    st3: Step,
    w1: Result<(), ImuIoError>,
    s4: DriverState,
    st4: Step,
    w2: Result<(), ImuIoError>,
    s5: DriverState,
    st5: Step,
)
    requires
        r1 is Err,
        r2 is Ok,
        resumes(start_spec(s, Operation::Init).0, BusOutcome::Read(r1), s2, st2),
        resumes(s2, BusOutcome::Read(r2), s3, st3),
        resumes(s3, BusOutcome::Written(w1), s4, st4),
        w1 is Ok ==> resumes(s4, BusOutcome::Written(w2), s5, st5),
    ensures
        ({
            let p = ProbeResult {
                addr: IMU_ADDR_SECONDARY,
                who_am_i: r2.unwrap(),
                expected: WHO_AM_I_EXPECTED,
            };
            &&& st2 == Step::Transfer(BusRequest::Read { addr: IMU_ADDR_SECONDARY, reg: WHO_AM_I_REG })
            &&& st3 == Step::Transfer(
                BusRequest::Write { addr: IMU_ADDR_SECONDARY, reg: CTRL1_XL_REG, value: ODR_104HZ_2G_250DPS },
            )
            &&& s3.addr == Some(IMU_ADDR_SECONDARY)
            &&& w1 matches Err(e) ==> st4 == Step::Done(Completion::Initialized(Some((p, Err(e)))))
            &&& w1 is Ok ==> st4 == Step::Transfer(
                BusRequest::Write { addr: IMU_ADDR_SECONDARY, reg: CTRL2_G_REG, value: ODR_104HZ_2G_250DPS },
            )
            &&& w1 is Ok ==> st5 == Step::Done(Completion::Initialized(Some((p, w2))))
                && s5.addr == Some(IMU_ADDR_SECONDARY)
        }),
{
}

/// A configuration in progress writes to the address the driver remembers.
pub open spec fn writes_to_remembered(s: DriverState) -> bool {
    s.pending matches Pending::Configuring { addr, .. } ==> s.addr == Some(addr)
}

/// The address a transfer goes to.
pub open spec fn request_addr(r: BusRequest) -> u8 {
    match r {
        BusRequest::Read { addr, .. } => addr,
        BusRequest::Write { addr, .. } => addr,
        BusRequest::ReadBurst { addr, .. } => addr,
    }
}

/// Every transfer the driver asks for, apart from the WHO_AM_I reads of a
/// probe, goes to the address the driver remembers afterwards; every write and
/// burst read does. Starting or resuming an operation keeps this so.
pub proof fn law_transfers_use_remembered_address(
    s: DriverState,
    op: Operation,
    o: BusOutcome,
    s2: DriverState,
    st2: Step,
)
    requires
        writes_to_remembered(s),
    ensures
        writes_to_remembered(start_spec(s, op).0),
        start_spec(s, op).1 matches Step::Transfer(req) ==> (start_spec(s, op).0.pending is Probing
            || start_spec(s, op).0.addr == Some(request_addr(req))),
        resumes(s, o, s2, st2) ==> writes_to_remembered(s2),
        resumes(s, o, s2, st2) ==> (st2 matches Step::Transfer(req) ==> (s2.pending is Probing
            || s2.addr == Some(request_addr(req)))),
        resumes(s, o, s2, st2) ==> (st2 matches Step::Transfer(req) ==> (req is Read || s2.addr
            == Some(request_addr(req)))),
{
}

} // verus!
