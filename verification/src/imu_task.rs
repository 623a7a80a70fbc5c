//! The IMU task's decisions: which driver operation a command starts, and the
//! reply text that reports its outcome over UART.

use vstd::prelude::*;
use vstd::string::*;

use crate::lsm6ds3::{
    le_i16, OUT_START_REG,
    awaits, resumes, start_spec, BusOutcome, BusRequest, Completion, DriverState, ImuIoError,
    Lsm6ds3, Operation, Pending, ProbeResult, Step,
};
use crate::cli::{law_hex_round_trip, parse_hex_u8};
use crate::text::{hex_pair, lemma_ascii_len, lit, push_hex, push_lit, text_bytes, text_new};

verus! {

/// A request from the command line to the IMU task.
#[derive(Clone, Copy)]
pub enum ImuCommand {
    Status,
    ReadReg { reg: u8 },
    WriteReg { reg: u8, value: u8 },
    Sample,
}

/// What the IMU task sends back: a finished text, or a raw sample
/// `[gx, gy, gz, ax, ay, az]` that the caller prints in physical units.
pub enum ImuReply {
    Text(heapless::String<64>),
    Sample([i16; 6]),
}

/// The driver operation that serves a command.
pub open spec fn operation_of(cmd: ImuCommand) -> Operation {
    match cmd {
        ImuCommand::Status => Operation::Probe,
        ImuCommand::ReadReg { reg } => Operation::ReadReg { reg },
        ImuCommand::WriteReg { reg, value } => Operation::WriteReg { reg, value },
        ImuCommand::Sample => Operation::Sample,
    }
}

/// Reply to a status command.
pub open spec fn status_text(p: Option<ProbeResult>) -> Seq<u8> {
    match p {
        Some(p) => if p.who_am_i == p.expected {
            lit("IMU detected at 0x") + hex_pair(p.addr) + lit(": WHO_AM_I=0x") + hex_pair(
                p.who_am_i,
            ) + lit("\n")
        } else {
            lit("IMU mismatch at 0x") + hex_pair(p.addr) + lit(": WHO_AM_I=0x") + hex_pair(
                p.who_am_i,
            ) + lit(" (expected 0x") + hex_pair(p.expected) + lit(")\n")
        },
        None => lit("IMU not found at 0x6A or 0x6B.\n"),
    }
}

/// Reply to a register read.
pub open spec fn read_text(reg: u8, r: Result<u8, ImuIoError>) -> Seq<u8> {
    match r {
        Ok(v) => lit("IMU[0x") + hex_pair(reg) + lit("] = 0x") + hex_pair(v) + lit("\n"),
        Err(ImuIoError::Timeout) => lit("IMU read timed out at 0x") + hex_pair(reg) + lit("\n"),
        Err(_) => lit("IMU read error at 0x") + hex_pair(reg) + lit("\n"),
    }
}

/// Reply to a register write.
pub open spec fn write_text(reg: u8, value: u8, r: Result<(), ImuIoError>) -> Seq<u8> {
    match r {
        Ok(_) => lit("IMU[0x") + hex_pair(reg) + lit("] <= 0x") + hex_pair(value) + lit("\n"),
        Err(ImuIoError::Timeout) => lit("IMU write timed out at 0x") + hex_pair(reg) + lit("\n"),
        Err(_) => lit("IMU write error at 0x") + hex_pair(reg) + lit("\n"),
    }
}

/// Reply to a failed sample read.
pub open spec fn sample_error_text(e: ImuIoError) -> Seq<u8> {
    match e {
        ImuIoError::Timeout => lit("IMU sample read timed out\n"),
        _ => lit("IMU sample read error\n"),
    }
}

/// Report of the boot-time probe and configuration.
pub open spec fn init_text(x: Option<(ProbeResult, Result<(), ImuIoError>)>) -> Seq<u8> {
    match x {
        Some((p, Ok(_))) => lit("IMU init: 0x") + hex_pair(p.addr) + lit(" WHO_AM_I=0x") + hex_pair(
            p.who_am_i,
        ) + lit(" configured OK\n"),
        Some((p, Err(_))) => lit("IMU init: 0x") + hex_pair(p.addr) + lit(" WHO_AM_I=0x")
            + hex_pair(p.who_am_i) + lit(" config FAILED\n"),
        None => lit("IMU init: not found at 0x6A or 0x6B\n"),
    }
}

/// The byte lengths of the literal pieces of the replies.
proof fn lemma_reply_literals()
    ensures
        lit("IMU detected at 0x").len() == 18,
        lit(": WHO_AM_I=0x").len() == 13,
        lit("\n").len() == 1,
        lit("IMU mismatch at 0x").len() == 18,
        lit(" (expected 0x").len() == 13,
        lit(")\n").len() == 2,
        lit("IMU not found at 0x6A or 0x6B.\n").len() == 31,
        lit("IMU[0x").len() == 6,
        lit("] = 0x").len() == 6,
        lit("] <= 0x").len() == 7,
        lit("IMU read timed out at 0x").len() == 24,
        lit("IMU read error at 0x").len() == 20,
        lit("IMU write timed out at 0x").len() == 25,
        lit("IMU write error at 0x").len() == 21,
        lit("IMU sample read timed out\n").len() == 26,
        lit("IMU sample read error\n").len() == 22,
        lit("IMU init: 0x").len() == 12,
        lit(" WHO_AM_I=0x").len() == 12,
        lit(" configured OK\n").len() == 15,
        lit(" config FAILED\n").len() == 15,
        lit("IMU init: not found at 0x6A or 0x6B\n").len() == 36,
{
    reveal_strlit("IMU detected at 0x");
    lemma_ascii_len("IMU detected at 0x");
    reveal_strlit(": WHO_AM_I=0x");
    lemma_ascii_len(": WHO_AM_I=0x");
    reveal_strlit("\n");
    lemma_ascii_len("\n");
    reveal_strlit("IMU mismatch at 0x");
    lemma_ascii_len("IMU mismatch at 0x");
    reveal_strlit(" (expected 0x");
    lemma_ascii_len(" (expected 0x");
    reveal_strlit(")\n");
    lemma_ascii_len(")\n");
    reveal_strlit("IMU not found at 0x6A or 0x6B.\n");
    lemma_ascii_len("IMU not found at 0x6A or 0x6B.\n");
    reveal_strlit("IMU[0x");
    lemma_ascii_len("IMU[0x");
    reveal_strlit("] = 0x");
    lemma_ascii_len("] = 0x");
    reveal_strlit("] <= 0x");
    lemma_ascii_len("] <= 0x");
    reveal_strlit("IMU read timed out at 0x");
    lemma_ascii_len("IMU read timed out at 0x");
    reveal_strlit("IMU read error at 0x");
    lemma_ascii_len("IMU read error at 0x");
    reveal_strlit("IMU write timed out at 0x");
    lemma_ascii_len("IMU write timed out at 0x");
    reveal_strlit("IMU write error at 0x");
    lemma_ascii_len("IMU write error at 0x");
    reveal_strlit("IMU sample read timed out\n");
    lemma_ascii_len("IMU sample read timed out\n");
    reveal_strlit("IMU sample read error\n");
    lemma_ascii_len("IMU sample read error\n");
    reveal_strlit("IMU init: 0x");
    lemma_ascii_len("IMU init: 0x");
    reveal_strlit(" WHO_AM_I=0x");
    lemma_ascii_len(" WHO_AM_I=0x");
    reveal_strlit(" configured OK\n");
    lemma_ascii_len(" configured OK\n");
    reveal_strlit(" config FAILED\n");
    lemma_ascii_len(" config FAILED\n");
    reveal_strlit("IMU init: not found at 0x6A or 0x6B\n");
    lemma_ascii_len("IMU init: not found at 0x6A or 0x6B\n");
}

/// The reply to a status command.
pub fn status_reply(p: &Option<ProbeResult>) -> (t: heapless::String<64>)
    ensures
        text_bytes(t) == status_text(*p),
{
    proof {
        lemma_reply_literals();
    }
    let mut t = text_new();
    match p {
        Some(p) => {
            if p.matches_expected() {
                push_lit(&mut t, "IMU detected at 0x");
                push_hex(&mut t, p.addr);
                push_lit(&mut t, ": WHO_AM_I=0x");
                push_hex(&mut t, p.who_am_i);
                push_lit(&mut t, "\n");
            } else {
                push_lit(&mut t, "IMU mismatch at 0x");
                push_hex(&mut t, p.addr);
                push_lit(&mut t, ": WHO_AM_I=0x");
                push_hex(&mut t, p.who_am_i);
                push_lit(&mut t, " (expected 0x");
                push_hex(&mut t, p.expected);
                push_lit(&mut t, ")\n");
            }
        },
        None => {
            push_lit(&mut t, "IMU not found at 0x6A or 0x6B.\n");
        },
    }
    t
}

/// The reply to a register read of `reg`.
pub fn read_reply(reg: u8, r: &Result<u8, ImuIoError>) -> (t: heapless::String<64>)
    ensures
        text_bytes(t) == read_text(reg, *r),
{
    proof {
        lemma_reply_literals();
    }
    let mut t = text_new();
    match r {
        Ok(v) => {
            push_lit(&mut t, "IMU[0x");
            push_hex(&mut t, reg);
            push_lit(&mut t, "] = 0x");
            push_hex(&mut t, *v);
            push_lit(&mut t, "\n");
        },
        Err(ImuIoError::Timeout) => {
            push_lit(&mut t, "IMU read timed out at 0x");
            push_hex(&mut t, reg);
            push_lit(&mut t, "\n");
        },
        Err(_) => {
            push_lit(&mut t, "IMU read error at 0x");
            push_hex(&mut t, reg);
            push_lit(&mut t, "\n");
        },
    }
    t
}

/// The reply to a write of `value` to `reg`.
pub fn write_reply(reg: u8, value: u8, r: &Result<(), ImuIoError>) -> (t: heapless::String<64>)
    ensures
        text_bytes(t) == write_text(reg, value, *r),
{
    proof {
        lemma_reply_literals();
    }
    let mut t = text_new();
    match r {
        Ok(_) => {
            push_lit(&mut t, "IMU[0x");
            push_hex(&mut t, reg);
            push_lit(&mut t, "] <= 0x");
            push_hex(&mut t, value);
            push_lit(&mut t, "\n");
        },
        Err(ImuIoError::Timeout) => {
            push_lit(&mut t, "IMU write timed out at 0x");
            push_hex(&mut t, reg);
            push_lit(&mut t, "\n");
        },
        Err(_) => {
            push_lit(&mut t, "IMU write error at 0x");
            push_hex(&mut t, reg);
            push_lit(&mut t, "\n");
        },
    }
    t
}

/// The reply to a failed sample read.
pub fn sample_error_reply(e: &ImuIoError) -> (t: heapless::String<64>)
    ensures
        text_bytes(t) == sample_error_text(*e),
{
    proof {
        lemma_reply_literals();
    }
    let mut t = text_new();
    match e {
        ImuIoError::Timeout => push_lit(&mut t, "IMU sample read timed out\n"),
        _ => push_lit(&mut t, "IMU sample read error\n"),
    }
    t
}

/// Report of the boot-time probe and configuration, sent once over UART.
pub fn init_report(x: &Option<(ProbeResult, Result<(), ImuIoError>)>) -> (t: heapless::String<64>)
    ensures
        text_bytes(t) == init_text(*x),
{
    proof {
        lemma_reply_literals();
    }
    let mut t = text_new();
    match x {
        Some((p, r)) => {
            push_lit(&mut t, "IMU init: 0x");
            push_hex(&mut t, p.addr);
            push_lit(&mut t, " WHO_AM_I=0x");
            push_hex(&mut t, p.who_am_i);
            match r {
                Ok(_) => push_lit(&mut t, " configured OK\n"),
                Err(_) => push_lit(&mut t, " config FAILED\n"),
            }
        },
        None => {
            push_lit(&mut t, "IMU init: not found at 0x6A or 0x6B\n");
        },
    }
    t
}

/// Every reply fits in the 64-byte text, so no reply is ever cut short.
pub proof fn law_replies_fit(
    p: Option<ProbeResult>,
    reg: u8,
    value: u8,
    rr: Result<u8, ImuIoError>,
    rw: Result<(), ImuIoError>,
    e: ImuIoError,
    x: Option<(ProbeResult, Result<(), ImuIoError>)>,
)
    ensures
        status_text(p).len() <= 64,
        read_text(reg, rr).len() <= 64,
        write_text(reg, value, rw).len() <= 64,
        sample_error_text(e).len() <= 64,
        init_text(x).len() <= 64,
{
    lemma_reply_literals();
}

/// The two hexadecimal digits at `at` in `t`, read back as a number.
pub open spec fn hex_field(t: Seq<u8>, at: int) -> Option<u8> {
    parse_hex_u8(t.subrange(at, at + 2))
}

/// The two status headings differ.
proof fn lemma_status_headings_differ()
    ensures
        lit("IMU detected at 0x") != lit("IMU mismatch at 0x"),
{
    reveal_strlit("IMU detected at 0x");
    reveal_strlit("IMU mismatch at 0x");
    broadcast use is_ascii_spec_bytes;

    assert(is_ascii("IMU detected at 0x"));
    assert(is_ascii("IMU mismatch at 0x"));
    assert(lit("IMU detected at 0x")[4] != lit("IMU mismatch at 0x")[4]);
}

/// Where the fields of a status reply stand.
proof fn lemma_status_layout(p: ProbeResult)
    ensures
        ({
            let t = status_text(Some(p));
            &&& t.subrange(18, 20) == hex_pair(p.addr)
            &&& t.subrange(33, 35) == hex_pair(p.who_am_i)
            &&& p.who_am_i == p.expected ==> t.take(18) == lit("IMU detected at 0x")
            &&& p.who_am_i != p.expected ==> t.take(18) == lit("IMU mismatch at 0x")
                && t.subrange(48, 50) == hex_pair(p.expected)
        }),
{
    lemma_reply_literals();
    let t = status_text(Some(p));
    assert(t.subrange(18, 20) =~= hex_pair(p.addr));
    assert(t.subrange(33, 35) =~= hex_pair(p.who_am_i));
    if p.who_am_i == p.expected {
        assert(t.take(18) =~= lit("IMU detected at 0x"));
    } else {
        assert(t.take(18) =~= lit("IMU mismatch at 0x"));
        assert(t.subrange(48, 50) =~= hex_pair(p.expected));
    }
}

/// The status reply names the address that answered and the WHO_AM_I value
/// it returned, in that order; it says "detected" exactly when the value is
/// the expected chip ID, and a mismatch also names the expected value.
pub proof fn law_status_reply_fields(p: ProbeResult)
    ensures
        ({
            let t = status_text(Some(p));
            &&& hex_field(t, 18) == Some(p.addr)
            &&& hex_field(t, 33) == Some(p.who_am_i)
            &&& (t.take(18) == lit("IMU detected at 0x")) == (p.who_am_i == p.expected)
            &&& p.who_am_i != p.expected ==> t.take(18) == lit("IMU mismatch at 0x")
                && hex_field(t, 48) == Some(p.expected)
        }),
{
    lemma_status_layout(p);
    lemma_status_headings_differ();
    law_hex_round_trip(p.addr);
    law_hex_round_trip(p.who_am_i);
    law_hex_round_trip(p.expected);
}

/// A register read reply names the register and, on success, exactly the
/// value the bus returned.
pub proof fn law_read_reply_fields(reg: u8, r: Result<u8, ImuIoError>)
    ensures
        r matches Ok(v) ==> hex_field(read_text(reg, r), 6) == Some(reg) && hex_field(
            read_text(reg, r),
            14,
        ) == Some(v),
        r matches Err(ImuIoError::Timeout) ==> hex_field(read_text(reg, r), 24) == Some(reg),
        (r is Err && !(r matches Err(ImuIoError::Timeout))) ==> hex_field(read_text(reg, r), 20)
            == Some(reg),
{
    lemma_reply_literals();
    law_hex_round_trip(reg);
    let t = read_text(reg, r);
    match r {
        Ok(v) => {
            law_hex_round_trip(v);
            assert(t.subrange(6, 8) =~= hex_pair(reg));
            assert(t.subrange(14, 16) =~= hex_pair(v));
        },
        Err(ImuIoError::Timeout) => {
            assert(t.subrange(24, 26) =~= hex_pair(reg));
        },
        Err(_) => {
            assert(t.subrange(20, 22) =~= hex_pair(reg));
        },
    }
}

/// A register write reply names the register and the value written.
pub proof fn law_write_reply_fields(reg: u8, value: u8, r: Result<(), ImuIoError>)
    ensures
        r is Ok ==> hex_field(write_text(reg, value, r), 6) == Some(reg) && hex_field(
            write_text(reg, value, r),
            15,
        ) == Some(value),
        r matches Err(ImuIoError::Timeout) ==> hex_field(write_text(reg, value, r), 25) == Some(
            reg,
        ),
        (r is Err && !(r matches Err(ImuIoError::Timeout))) ==> hex_field(
            write_text(reg, value, r),
            21,
        ) == Some(reg),
{
    lemma_reply_literals();
    law_hex_round_trip(reg);
    law_hex_round_trip(value);
    let t = write_text(reg, value, r);
    match r {
        Ok(_) => {
            assert(t.subrange(6, 8) =~= hex_pair(reg));
            assert(t.subrange(15, 17) =~= hex_pair(value));
        },
        Err(ImuIoError::Timeout) => {
            assert(t.subrange(25, 27) =~= hex_pair(reg));
        },
        Err(_) => {
            assert(t.subrange(21, 23) =~= hex_pair(reg));
        },
    }
}

/// The boot report names the address that answered and its WHO_AM_I value,
/// whether or not configuring succeeded, and says which of the two happened.
pub proof fn law_init_report_fields(p: ProbeResult, r: Result<(), ImuIoError>)
    ensures
        ({
            let t = init_text(Some((p, r)));
            &&& t.take(12) == lit("IMU init: 0x")
            &&& hex_field(t, 12) == Some(p.addr)
            &&& hex_field(t, 26) == Some(p.who_am_i)
            &&& t.skip(28) == if r is Ok {
                lit(" configured OK\n")
            } else {
                lit(" config FAILED\n")
            }
        }),
{
    lemma_reply_literals();
    law_hex_round_trip(p.addr);
    law_hex_round_trip(p.who_am_i);
    let t = init_text(Some((p, r)));
    assert(t.take(12) =~= lit("IMU init: 0x"));
    assert(t.subrange(12, 14) =~= hex_pair(p.addr));
    assert(t.subrange(26, 28) =~= hex_pair(p.who_am_i));
    if r is Ok {
        assert(t.skip(28) =~= lit(" configured OK\n"));
    } else {
        assert(t.skip(28) =~= lit(" config FAILED\n"));
    }
}

/// The job the IMU task is working on.
#[derive(Clone, Copy)]
pub enum Job {
    /// The boot-time probe and configuration.
    Boot,
    /// A command from the command line.
    Command(ImuCommand),
}

/// What the owner of the I2C bus has to do next for the IMU task.
pub enum TaskStep {
    /// Perform this transfer and resume the task with its outcome.
    Transfer(BusRequest),
    /// The job is over; send this reply over UART.
    Reply(ImuReply),
}

/// `r` is the reply to `job` when the driver finished with `c`.
pub open spec fn reply_matches(job: Job, c: Completion, r: ImuReply) -> bool {
    match (job, c) {
        (Job::Boot, Completion::Initialized(x)) => r matches ImuReply::Text(t) && text_bytes(t)
            == init_text(x),
        (Job::Command(ImuCommand::Status), Completion::Probed(p)) => r matches ImuReply::Text(t)
            && text_bytes(t) == status_text(p),
        (Job::Command(ImuCommand::ReadReg { reg }), Completion::RegRead(v)) => r matches ImuReply::Text(t)
            && text_bytes(t) == read_text(reg, v),
        (
            Job::Command(ImuCommand::WriteReg { reg, value }),
            Completion::RegWritten(v),
        ) => r matches ImuReply::Text(t) && text_bytes(t) == write_text(reg, value, v),
        (Job::Command(ImuCommand::Sample), Completion::Sampled(Ok(a))) => r == ImuReply::Sample(a),
        (Job::Command(ImuCommand::Sample), Completion::Sampled(Err(e))) => r matches ImuReply::Text(
            t,
        ) && text_bytes(t) == sample_error_text(e),
        _ => false,
    }
}

/// `ts` is what the task does for `job` when the driver takes step `st`.
pub open spec fn step_matches(job: Job, st: Step, ts: TaskStep) -> bool {
    match st {
        Step::Transfer(req) => ts == TaskStep::Transfer(req),
        Step::Done(c) => ts matches TaskStep::Reply(r) && reply_matches(job, c, r),
    }
}

/// The driver operation in progress belongs to `job`.
pub open spec fn serves(job: Job, p: Pending) -> bool {
    match p {
        Pending::Idle => true,
        Pending::Probing { then_configure, .. } => if then_configure {
            job is Boot
        } else {
            job == Job::Command(ImuCommand::Status)
        },
        Pending::Configuring { probe, .. } => job is Boot && probe is Some,
        Pending::ReadingReg => job matches Job::Command(ImuCommand::ReadReg { .. }),
        Pending::WritingReg => job matches Job::Command(ImuCommand::WriteReg { .. }),
        Pending::Sampling => job == Job::Command(ImuCommand::Sample),
    }
}

/// A sample command reads one burst from OUTX_L_G at the remembered address,
/// and the task replies with the six axes of that burst, each the
/// little-endian pair at its place, gyro X/Y/Z then accel X/Y/Z.
pub proof fn law_sample_reply(
    a: u8,
    p: Pending,
    b: [u8; 12],
    s2: DriverState,
    st: Step,
    ts: TaskStep,
)
    requires
        resumes(
            start_spec(DriverState { addr: Some(a), pending: p }, operation_of(ImuCommand::Sample)).0,
            BusOutcome::Burst(Ok(b)),
            s2,
            st,
        ),
        step_matches(Job::Command(ImuCommand::Sample), st, ts),
    ensures
        start_spec(DriverState { addr: Some(a), pending: p }, operation_of(ImuCommand::Sample)).1
            == Step::Transfer(BusRequest::ReadBurst { addr: a, reg: OUT_START_REG }),
        ts matches TaskStep::Reply(ImuReply::Sample(v)) && forall|i: int|
            0 <= i < 6 ==> #[trigger] v@[i] as int == le_i16(b@[2 * i], b@[2 * i + 1]),
{
}

/// The IMU task: the driver and the job it serves.
pub struct ImuTask {
    imu: Lsm6ds3,
    job: Job,
}

impl ImuTask {
    /// The driver's state.
    pub closed spec fn driver(&self) -> DriverState {
        self.imu@
    }

    /// The job in progress, or the last one.
    pub closed spec fn job(&self) -> Job {
        self.job
    }

    /// The driver works for the job.
    pub closed spec fn wf(&self) -> bool {
        serves(self.job, self.imu@.pending)
    }

    pub fn new() -> (t: ImuTask)
        ensures
            t.wf(),
            t.job() == Job::Boot,
            t.driver().addr is None,
            t.driver().pending is Idle,
    {
        ImuTask { imu: Lsm6ds3::new(), job: Job::Boot }
    }

    /// The reply to `job` for the finished driver operation `c`.
    fn reply(job: Job, c: Completion) -> (r: ImuReply)
        requires
            match (job, c) {
                (Job::Boot, Completion::Initialized(_)) => true,
                (Job::Command(ImuCommand::Status), Completion::Probed(_)) => true,
                (Job::Command(ImuCommand::ReadReg { .. }), Completion::RegRead(_)) => true,
                (Job::Command(ImuCommand::WriteReg { .. }), Completion::RegWritten(_)) => true,
                (Job::Command(ImuCommand::Sample), Completion::Sampled(_)) => true,
                _ => false,
            },
        ensures
            reply_matches(job, c, r),
    {
        match (job, c) {
            (Job::Boot, Completion::Initialized(x)) => ImuReply::Text(init_report(&x)),
            (Job::Command(ImuCommand::Status), Completion::Probed(p)) => ImuReply::Text(
                status_reply(&p),
            ),
            (Job::Command(ImuCommand::ReadReg { reg }), Completion::RegRead(v)) => ImuReply::Text(
                read_reply(reg, &v),
            ),
            (Job::Command(ImuCommand::WriteReg { reg, value }), Completion::RegWritten(v)) => {
                ImuReply::Text(write_reply(reg, value, &v))
            },
            (Job::Command(ImuCommand::Sample), Completion::Sampled(Ok(a))) => ImuReply::Sample(a),
            (Job::Command(ImuCommand::Sample), Completion::Sampled(Err(e))) => ImuReply::Text(
                sample_error_reply(&e),
            ),
            _ => ImuReply::Sample([0i16; 6]),
        }
    }

    /// Turns the driver's step into the task's step.
    fn follow(job: Job, st: Step) -> (ts: TaskStep)
        requires
            st matches Step::Done(c) ==> match (job, c) {
                (Job::Boot, Completion::Initialized(_)) => true,
                (Job::Command(ImuCommand::Status), Completion::Probed(_)) => true,
                (Job::Command(ImuCommand::ReadReg { .. }), Completion::RegRead(_)) => true,
                (Job::Command(ImuCommand::WriteReg { .. }), Completion::RegWritten(_)) => true,
                (Job::Command(ImuCommand::Sample), Completion::Sampled(_)) => true,
                _ => false,
            },
        ensures
            step_matches(job, st, ts),
    {
        match st {
            Step::Transfer(req) => TaskStep::Transfer(req),
            Step::Done(c) => TaskStep::Reply(Self::reply(job, c)),
        }
    }

    /// Starts the boot-time probe and configuration.
    pub fn boot(&mut self) -> (ts: TaskStep)
        ensures
            final(self).wf(),
            final(self).job() == Job::Boot,
            ({
                let (s2, st) = start_spec(old(self).driver(), Operation::Init);
                final(self).driver() == s2 && step_matches(Job::Boot, st, ts)
            }),
    {
        self.job = Job::Boot;
        let st = self.imu.init();
        Self::follow(Job::Boot, st)
    }

    /// Starts serving a command from the command line.
    pub fn handle(&mut self, cmd: ImuCommand) -> (ts: TaskStep)
        ensures
            final(self).wf(),
            final(self).job() == Job::Command(cmd),
            ({
                let (s2, st) = start_spec(old(self).driver(), operation_of(cmd));
                final(self).driver() == s2 && step_matches(Job::Command(cmd), st, ts)
            }),
    {
        self.job = Job::Command(cmd);
        let st = match cmd {
            ImuCommand::Status => self.imu.probe(),
            ImuCommand::ReadReg { reg } => self.imu.read_reg(reg),
            ImuCommand::WriteReg { reg, value } => self.imu.write_reg(reg, value),
            ImuCommand::Sample => self.imu.read_sample(),
        };
        Self::follow(Job::Command(cmd), st)
    }

    /// Whether the job in progress waits for an outcome of the kind of `o`.
    pub fn awaits(&self, o: &BusOutcome) -> (r: bool)
        ensures
            r == awaits(self.driver(), *o),
    {
        self.imu.awaits(o)
    }

    /// Continues the job with the outcome of the transfer it asked for.
    pub fn resume(&mut self, o: BusOutcome) -> (ts: TaskStep)
        requires
            old(self).wf(),
            awaits(old(self).driver(), o),
        ensures
            final(self).wf(),
            final(self).job() == old(self).job(),
            exists|st: Step|
                #![trigger resumes(old(self).driver(), o, final(self).driver(), st)]
                resumes(old(self).driver(), o, final(self).driver(), st) && step_matches(
                    old(self).job(),
                    st,
                    ts,
                ),
    {
        let st = self.imu.resume(o);
        Self::follow(self.job, st)
    }
}

} // verus!
