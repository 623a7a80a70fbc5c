//! The UART command line: collects received bytes into a line, echoes them,
//! and decides what a finished line asks for.

use vstd::prelude::*;
use vstd::string::*;
use vstd::utf8::valid_utf8;

use crate::color::Color;
use crate::imu_task::ImuCommand;
use crate::text::{hex_digit, hex_pair, lit};
use crate::uart::UartTxMsg;

verus! {

/// Longest line the command line holds.
pub const LINE_CAPACITY: usize = 64;

/// Something the command line asks its surroundings to do, in order.
pub enum CliAction {
    /// Queue this message for the UART transmitter.
    Send(UartTxMsg),
    /// Show this colour on the LED.
    SetLed(Color),
    /// Hand this command to the IMU task.
    Imu(ImuCommand),
    /// Stop with a deliberate panic.
    Panic,
}

pub open spec fn said(s: &'static str) -> CliAction {
    CliAction::Send(UartTxMsg::Static(s))
}

/// The value of an ASCII hexadecimal digit, either case.
pub open spec fn hex_value(b: u8) -> Option<u8> {
    if 48 <= b <= 57 {
        Some((b - 48) as u8)
    } else if 97 <= b <= 102 {
        Some((b - 87) as u8)
    } else if 65 <= b <= 70 {
        Some((b - 55) as u8)
    } else {
        None
    }
}

/// A register number or value: one or two hexadecimal digits, optionally
/// after `0x` or `0X`.
pub open spec fn parse_hex_u8(s: Seq<u8>) -> Option<u8> {
    let d = if s.len() >= 2 && s[0] == 48 && (s[1] == 120 || s[1] == 88) {
        s.skip(2)
    } else {
        s
    };
    if d.len() == 1 {
        hex_value(d[0])
    } else if d.len() == 2 && hex_value(d[0]) is Some && hex_value(d[1]) is Some {
        Some((hex_value(d[0]).unwrap() * 16 + hex_value(d[1]).unwrap()) as u8)
    } else {
        None
    }
}

/// Index of the first space in `s`, or its length when there is none.
pub open spec fn first_space(s: Seq<u8>) -> nat
    decreases s.len(),
{
    if s.len() == 0 {
        0
    } else if s[0] == 32 {
        0
    } else {
        1 + first_space(s.drop_first())
    }
}

pub open spec fn starts_with(s: Seq<u8>, p: Seq<u8>) -> bool {
    s.len() >= p.len() && s.take(p.len() as int) == p
}

/// `imu-r <reg>`: the register to read.
pub open spec fn parse_read(line: Seq<u8>) -> Option<u8> {
    if starts_with(line, lit("imu-r ")) {
        parse_hex_u8(line.skip(lit("imu-r ").len() as int))
    } else {
        None
    }
}

/// `imu-w <reg> <value>`: the register and the value to write.
pub open spec fn parse_write(line: Seq<u8>) -> Option<(u8, u8)> {
    if starts_with(line, lit("imu-w ")) {
        let rest = line.skip(lit("imu-w ").len() as int);
        let k = first_space(rest);
        if k < rest.len() {
            match (parse_hex_u8(rest.take(k as int)), parse_hex_u8(rest.skip(k + 1 as int))) {
                (Some(r), Some(v)) => Some((r, v)),
                _ => None,
            }
        } else {
            None
        }
    } else {
        None
    }
}

/// What a finished line asks for. Lines that are not UTF-8 are ignored like
/// empty ones.
pub open spec fn command_actions(line: Seq<u8>) -> Seq<CliAction> {
    if line.len() == 0 {
        seq![]
    } else if line == lit("on") {
        seq![CliAction::SetLed(Color::Cyan), said("LED turned on.\r\n")]
    } else if line == lit("off") {
        seq![CliAction::SetLed(Color::Off), said("LED turned off.\r\n")]
    } else if line == lit("help") {
        seq![said("Available commands: on, off, help, panic\r\n")]
    } else if line == lit("panic") {
        seq![said("Triggering deliberate panic...\r\n"), CliAction::Panic]
    } else if line == lit("imu-status") {
        seq![CliAction::Imu(ImuCommand::Status)]
    } else if line == lit("imu-read") {
        seq![CliAction::Imu(ImuCommand::Sample)]
    } else if parse_read(line) is Some {
        seq![CliAction::Imu(ImuCommand::ReadReg { reg: parse_read(line).unwrap() })]
    } else if parse_write(line) is Some {
        seq![
            CliAction::Imu(
                ImuCommand::WriteReg {
                    reg: parse_write(line).unwrap().0,
                    value: parse_write(line).unwrap().1,
                },
            ),
        ]
    } else if valid_utf8(line) {
        seq![said("Unknown command.\r\n")]
    } else {
        seq![]
    }
}

/// Receiving `byte` with `line` collected so far: the new line and the actions.
/// Every byte is echoed first; a carriage return or line feed ends the line;
/// a byte that does not fit empties the line with an error message.
pub open spec fn byte_spec(line: Seq<u8>, byte: u8) -> (Seq<u8>, Seq<CliAction>) {
    let echo = CliAction::Send(UartTxMsg::Byte(byte));
    if byte == 13 || byte == 10 {
        (Seq::empty(), seq![echo] + command_actions(line))
    } else if line.len() < LINE_CAPACITY {
        (line.push(byte), seq![echo])
    } else {
        (Seq::empty(), seq![echo, said("[Error] Input buffer is full.\r\n")])
    }
}

/// `core::str::from_utf8` succeeds exactly on valid UTF-8.
#[verifier::external_body]
fn is_utf8(bytes: &[u8]) -> (r: bool)
    ensures
        r == valid_utf8(bytes@),
{
    core::str::from_utf8(bytes).is_ok()
}

fn eq_lit(s: &[u8], l: &str) -> (r: bool)
    ensures
        r == (s@ == lit(l)),
{
    let b = l.as_bytes();
    if s.len() != b.len() {
        return false;
    }
    let mut i: usize = 0;
    while i < s.len()
        invariant
            s@.len() == b@.len(),
            b@ == lit(l),
            i <= s@.len(),
            forall|j: int| 0 <= j < i ==> s@[j] == b@[j],
        decreases s@.len() - i,
    {
        if s[i] != b[i] {
            return false;
        }
        i = i + 1;
    }
    assert(s@ =~= b@);
    true
}

fn starts_with_lit(s: &[u8], l: &str) -> (r: bool)
    ensures
        r == starts_with(s@, lit(l)),
{
    let b = l.as_bytes();
    if s.len() < b.len() {
        return false;
    }
    let mut i: usize = 0;
    while i < b.len()
        invariant
            s@.len() >= b@.len(),
            b@ == lit(l),
            i <= b@.len(),
            forall|j: int| 0 <= j < i ==> s@[j] == b@[j],
        decreases b@.len() - i,
    {
        if s[i] != b[i] {
            assert(s@.take(b@.len() as int)[i as int] != b@[i as int]);
            return false;
        }
        i = i + 1;
    }
    assert(s@.take(b@.len() as int) =~= b@);
    true
}

fn hex_value_exec(b: u8) -> (r: Option<u8>)
    ensures
        r == hex_value(b),
        r matches Some(v) ==> v < 16,
{
    if 48 <= b && b <= 57 {
        Some(b - 48)
    } else if 97 <= b && b <= 102 {
        Some(b - 87)
    } else if 65 <= b && b <= 70 {
        Some(b - 55)
    } else {
        None
    }
}

fn parse_hex_exec(s: &[u8]) -> (r: Option<u8>)
    ensures
        r == parse_hex_u8(s@),
{
    let d = if s.len() >= 2 && s[0] == 48 && (s[1] == 120 || s[1] == 88) {
        vstd::slice::slice_subrange(s, 2, s.len())
    } else {
        s
    };
    assert(d@ =~= (if s@.len() >= 2 && s@[0] == 48 && (s@[1] == 120 || s@[1] == 88) {
        s@.skip(2)
    } else {
        s@
    }));
    if d.len() == 1 {
        hex_value_exec(d[0])
    } else if d.len() == 2 {
        match (hex_value_exec(d[0]), hex_value_exec(d[1])) {
            (Some(hi), Some(lo)) => Some(hi * 16 + lo),
            _ => None,
        }
    } else {
        None
    }
}

proof fn lemma_first_space_prefix(s: Seq<u8>, i: int)
    requires
        0 <= i <= s.len(),
        forall|j: int| 0 <= j < i ==> s[j] != 32,
    ensures
        first_space(s) == i + first_space(s.skip(i)),
    decreases i,
{
    if i > 0 {
        lemma_first_space_prefix(s.drop_first(), i - 1);
        assert(s.drop_first().skip(i - 1) =~= s.skip(i));
    } else {
        assert(s.skip(0) =~= s);
    }
}

fn first_space_exec(s: &[u8]) -> (k: usize)
    ensures
        k == first_space(s@),
        k <= s@.len(),
{
    let mut i: usize = 0;
    while i < s.len() && s[i] != 32
        invariant
            i <= s@.len(),
            forall|j: int| 0 <= j < i ==> s@[j] != 32,
        decreases s@.len() - i,
    {
        i = i + 1;
    }
    proof {
        lemma_first_space_prefix(s@, i as int);
        if i < s@.len() {
            assert(s@.skip(i as int)[0] == 32);
        } else {
            assert(s@.skip(i as int).len() == 0);
        }
    }
    i
}

fn parse_read_exec(line: &[u8]) -> (r: Option<u8>)
    ensures
        r == parse_read(line@),
{
    if starts_with_lit(line, "imu-r ") {
        let n = "imu-r ".len();
        parse_hex_exec(vstd::slice::slice_subrange(line, n, line.len()))
    } else {
        None
    }
}

fn parse_write_exec(line: &[u8]) -> (r: Option<(u8, u8)>)
    ensures
        r == parse_write(line@),
{
    if starts_with_lit(line, "imu-w ") {
        let n = "imu-w ".len();
        let rest = vstd::slice::slice_subrange(line, n, line.len());
        let k = first_space_exec(rest);
        if k < rest.len() {
            let a = parse_hex_exec(vstd::slice::slice_subrange(rest, 0, k));
            let b = parse_hex_exec(vstd::slice::slice_subrange(rest, k + 1, rest.len()));
            match (a, b) {
                (Some(r), Some(v)) => Some((r, v)),
                _ => None,
            }
        } else {
            None
        }
    } else {
        None
    }
}

/// What the finished line `line` asks for.
pub fn line_actions(line: &[u8]) -> (acts: Vec<CliAction>)
    ensures
        acts@ == command_actions(line@),
{
    if line.len() == 0 {
        Vec::new()
    } else if eq_lit(line, "on") {
        vec![CliAction::SetLed(Color::Cyan), CliAction::Send(UartTxMsg::Static("LED turned on.\r\n"))]
    } else if eq_lit(line, "off") {
        vec![CliAction::SetLed(Color::Off), CliAction::Send(UartTxMsg::Static("LED turned off.\r\n"))]
    } else if eq_lit(line, "help") {
        vec![CliAction::Send(UartTxMsg::Static("Available commands: on, off, help, panic\r\n"))]
    } else if eq_lit(line, "panic") {
        vec![CliAction::Send(UartTxMsg::Static("Triggering deliberate panic...\r\n")), CliAction::Panic]
    } else if eq_lit(line, "imu-status") {
        vec![CliAction::Imu(ImuCommand::Status)]
    } else if eq_lit(line, "imu-read") {
        vec![CliAction::Imu(ImuCommand::Sample)]
    } else if let Some(reg) = parse_read_exec(line) {
        vec![CliAction::Imu(ImuCommand::ReadReg { reg })]
    } else if let Some((reg, value)) = parse_write_exec(line) {
        vec![CliAction::Imu(ImuCommand::WriteReg { reg, value })]
    } else if is_utf8(line) {
        vec![CliAction::Send(UartTxMsg::Static("Unknown command.\r\n"))]
    } else {
        Vec::new()
    }
}

/// The line being typed on the UART command line.
pub struct CommandLine {
    buf: [u8; 64],
    cursor: usize,
}

impl CommandLine {
    #[verifier::type_invariant]
    spec fn inv(self) -> bool {
        self.cursor <= LINE_CAPACITY
    }

    /// The bytes typed since the last end of line.
    pub closed spec fn line(self) -> Seq<u8> {
        self.buf@.take(self.cursor as int)
    }

    /// The whole line buffer, including bytes past the line.
    pub closed spec fn buffer(self) -> Seq<u8> {
        self.buf@
    }

    /// An empty line with a zeroed 64-byte buffer.
    pub fn new() -> (c: CommandLine)
        ensures
            c.line() == Seq::<u8>::empty(),
            c.buffer() == Seq::new(LINE_CAPACITY as nat, |i: int| 0u8),
    {
        let c = CommandLine { buf: [0u8; 64], cursor: 0 };
        assert(c.buf@ =~= Seq::new(LINE_CAPACITY as nat, |i: int| 0u8));
        c
    }

    /// The banner sent when the command line starts.
    pub fn greeting() -> (m: UartTxMsg)
        ensures
            m == UartTxMsg::Static("Embassy CLI Ready. Type 'on', 'off', 'help', or 'panic'.\r\n"),
    {
        UartTxMsg::Static("Embassy CLI Ready. Type 'on', 'off', 'help', or 'panic'.\r\n")
    }

    /// Handles one received byte.
    pub fn on_byte(&mut self, byte: u8) -> (acts: Vec<CliAction>)
        ensures
            (final(self).line(), acts@) == byte_spec(old(self).line(), byte),
            final(self).line().len() <= LINE_CAPACITY,
            byte != 13 && byte != 10 && old(self).line().len() == LINE_CAPACITY
                ==> final(self).buffer() == Seq::new(LINE_CAPACITY as nat, |i: int| 0u8),
    {
        proof {
            use_type_invariant(&*self);
        }
        let mut acts = vec![CliAction::Send(UartTxMsg::Byte(byte))];
        if byte == 13 || byte == 10 {
            let line = vstd::slice::slice_subrange(self.buf.as_slice(), 0, self.cursor);
            let mut rest = line_actions(line);
            acts.append(&mut rest);
            self.cursor = 0;
        } else if self.cursor < LINE_CAPACITY {
            self.buf[self.cursor] = byte;
            self.cursor = self.cursor + 1;
            assert(self.buf@.take(self.cursor as int) =~= old(self).line().push(byte));
        } else {
            acts.push(CliAction::Send(UartTxMsg::Static("[Error] Input buffer is full.\r\n")));
            self.buf = [0u8; 64];
            self.cursor = 0;
            assert(self.buf@ =~= Seq::new(LINE_CAPACITY as nat, |i: int| 0u8));
        }
        proof {
            assert(self.buf@.take(0) =~= Seq::<u8>::empty());
        }
        acts
    }
}

/// Feeding `bytes` one by one, starting with `line`: the final line and all actions.
pub open spec fn feed(line: Seq<u8>, bytes: Seq<u8>) -> (Seq<u8>, Seq<CliAction>)
    decreases bytes.len(),
{
    if bytes.len() == 0 {
        (line, seq![])
    } else {
        let (l1, a1) = byte_spec(line, bytes[0]);
        let (l2, a2) = feed(l1, bytes.drop_first());
        (l2, a1 + a2)
    }
}

pub open spec fn echoes(bytes: Seq<u8>) -> Seq<CliAction> {
    bytes.map_values(|b: u8| CliAction::Send(UartTxMsg::Byte(b)))
}

/// Every received byte is echoed before anything else, and the line never
/// holds more than its capacity.
pub proof fn law_echo_first(line: Seq<u8>, byte: u8)
    requires
        line.len() <= LINE_CAPACITY,
    ensures
        byte_spec(line, byte).1.len() >= 1,
        byte_spec(line, byte).1[0] == CliAction::Send(UartTxMsg::Byte(byte)),
        byte_spec(line, byte).0.len() <= LINE_CAPACITY,
{
}

/// Bytes other than carriage return and line feed are collected into the
/// line and only echoed, as long as they fit.
pub proof fn law_collect(line: Seq<u8>, bytes: Seq<u8>)
    requires
        line.len() + bytes.len() <= LINE_CAPACITY,
        forall|i: int| 0 <= i < bytes.len() ==> #[trigger] bytes[i] != 13 && bytes[i] != 10,
    ensures
        feed(line, bytes) == (line + bytes, echoes(bytes)),
    decreases bytes.len(),
{
    if bytes.len() > 0 {
        let rest = bytes.drop_first();
        assert forall|i: int| 0 <= i < rest.len() implies #[trigger] rest[i] != 13 && rest[i]
            != 10 by {
            assert(rest[i] == bytes[i + 1]);
        }
        law_collect(line.push(bytes[0]), rest);
        assert(line.push(bytes[0]) + rest =~= line + bytes);
        assert(seq![CliAction::Send(UartTxMsg::Byte(bytes[0]))] + echoes(rest) =~= echoes(bytes));
    } else {
        assert(line + bytes =~= line);
        assert(echoes(bytes) =~= seq![]);
    }
}

/// Typing a command and ending the line echoes every byte, then does what the
/// command asks, and leaves an empty line.
pub proof fn law_typed_command(cmd: Seq<u8>, end: u8)
    requires
        cmd.len() <= LINE_CAPACITY,
        forall|i: int| 0 <= i < cmd.len() ==> #[trigger] cmd[i] != 13 && cmd[i] != 10,
        end == 13 || end == 10,
    ensures
        feed(Seq::empty(), cmd.push(end)) == (
            Seq::<u8>::empty(),
            echoes(cmd.push(end)) + command_actions(cmd),
        ),
{
    lemma_feed_split(Seq::empty(), cmd, seq![end]);
    law_collect(Seq::empty(), cmd);
    assert(Seq::<u8>::empty() + cmd =~= cmd);
    assert(cmd + seq![end] =~= cmd.push(end));
    let tail = seq![end];
    assert(tail.drop_first() =~= Seq::<u8>::empty());
    assert(tail[0] == end);
    assert(feed(cmd, tail) == byte_spec(cmd, end)) by {
        reveal_with_fuel(feed, 2);
        let (l1, a1) = byte_spec(cmd, end);
        assert(a1 + seq![] =~= a1);
    }
    assert(echoes(cmd.push(end)) =~= echoes(cmd) + seq![CliAction::Send(UartTxMsg::Byte(end))]);
    assert(echoes(cmd) + (seq![CliAction::Send(UartTxMsg::Byte(end))] + command_actions(cmd))
        =~= echoes(cmd.push(end)) + command_actions(cmd));
}

/// Feeding two runs of bytes is feeding the first, then the second.
pub proof fn lemma_feed_split(line: Seq<u8>, a: Seq<u8>, b: Seq<u8>)
    ensures
        feed(line, a + b) == ({
            let (l1, x1) = feed(line, a);
            let (l2, x2) = feed(l1, b);
            (l2, x1 + x2)
        }),
    decreases a.len(),
{
    if a.len() == 0 {
        assert(a + b =~= b);
        let (l2, x2) = feed(line, b);
        assert(seq![] + x2 =~= x2);
    } else {
        assert((a + b).drop_first() =~= a.drop_first() + b);
        assert((a + b)[0] == a[0]);
        let (l1, y1) = byte_spec(line, a[0]);
        lemma_feed_split(l1, a.drop_first(), b);
        let (m1, z1) = feed(l1, a.drop_first());
        let (m2, z2) = feed(m1, b);
        assert(y1 + (z1 + z2) =~= (y1 + z1) + z2);
    }
}

/// A hexadecimal digit as the replies print it reads back as its value.
proof fn lemma_hex_digit_value(n: u8)
    requires
        n < 16,
    ensures
        hex_value(hex_digit(n)) == Some(n),
{
}

/// A register or value written as the replies print it, `0x` and two digits,
/// is read back as the same number by `imu-r` and `imu-w`.
pub proof fn law_hex_round_trip(v: u8)
    ensures
        parse_hex_u8(lit("0x") + hex_pair(v)) == Some(v),
        parse_hex_u8(hex_pair(v)) == Some(v),
{
    reveal_strlit("0x");
    crate::text::lemma_ascii_len("0x");
    broadcast use is_ascii_spec_bytes;

    let s = lit("0x") + hex_pair(v);
    assert(is_ascii("0x"));
    assert("0x"@ =~= seq!['0', 'x']);
    assert(lit("0x") =~= seq![48u8, 120u8]);
    assert(s.skip(2) =~= hex_pair(v));
    lemma_hex_digit_value(v / 16);
    lemma_hex_digit_value(v % 16);
    assert(hex_digit(v / 16) != 48u8 || v / 16 == 0);
    assert(hex_pair(v)[1] == hex_digit(v % 16));
    assert(hex_digit(v % 16) != 120u8 && hex_digit(v % 16) != 88u8);
}

} // verus!
