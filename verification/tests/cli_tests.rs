use xiao_sense::cli::{CliAction, CommandLine};
use xiao_sense::color::Color;
use xiao_sense::imu_task::ImuCommand;
use xiao_sense::uart::UartTxMsg;

/// Types `input` and returns the actions after the echoes.
fn run(cli: &mut CommandLine, input: &[u8]) -> Vec<CliAction> {
    let mut out = Vec::new();
    for &b in input {
        let acts = cli.on_byte(b);
        assert!(matches!(acts[0], CliAction::Send(UartTxMsg::Byte(e)) if e == b));
        out.extend(acts.into_iter().skip(1));
    }
    out
}

fn said(a: &CliAction) -> &'static str {
    match a {
        CliAction::Send(UartTxMsg::Static(s)) => s,
        _ => panic!("expected a fixed message"),
    }
}

#[test]
fn greeting_text() {
    match CommandLine::greeting() {
        UartTxMsg::Static(s) => {
            assert_eq!(s, "Embassy CLI Ready. Type 'on', 'off', 'help', or 'panic'.\r\n")
        }
        _ => panic!("expected a fixed message"),
    }
}

#[test]
fn on_and_off() {
    let mut cli = CommandLine::new();
    let a = run(&mut cli, b"on\r");
    assert_eq!(a.len(), 2);
    assert!(matches!(a[0], CliAction::SetLed(Color::Cyan)));
    assert_eq!(said(&a[1]), "LED turned on.\r\n");
    let a = run(&mut cli, b"off\n");
    assert!(matches!(a[0], CliAction::SetLed(Color::Off)));
    assert_eq!(said(&a[1]), "LED turned off.\r\n");
}

#[test]
fn help_and_panic() {
    let mut cli = CommandLine::new();
    let a = run(&mut cli, b"help\r");
    assert_eq!(a.len(), 1);
    assert_eq!(said(&a[0]), "Available commands: on, off, help, panic\r\n");
    let a = run(&mut cli, b"panic\r");
    assert_eq!(said(&a[0]), "Triggering deliberate panic...\r\n");
    assert!(matches!(a[1], CliAction::Panic));
}

#[test]
fn empty_lines_are_ignored() {
    let mut cli = CommandLine::new();
    assert!(run(&mut cli, b"\r\n\r").is_empty());
}

#[test]
fn unknown_command() {
    let mut cli = CommandLine::new();
    let a = run(&mut cli, b"blink\r");
    assert_eq!(a.len(), 1);
    assert_eq!(said(&a[0]), "Unknown command.\r\n");
    let a = run(&mut cli, b"ON\r");
    assert_eq!(said(&a[0]), "Unknown command.\r\n");
}

#[test]
fn invalid_utf8_line_is_ignored() {
    let mut cli = CommandLine::new();
    assert!(run(&mut cli, &[0xFF, 0xFE, b'\r']).is_empty());
    let a = run(&mut cli, "héllo\r".as_bytes());
    assert_eq!(said(&a[0]), "Unknown command.\r\n");
}

#[test]
fn full_buffer_is_discarded() {
    let mut cli = CommandLine::new();
    let mut input = vec![b'a'; 64];
    assert!(run(&mut cli, &input).is_empty());
    input = vec![b'b'];
    let a = run(&mut cli, &input);
    assert_eq!(said(&a[0]), "[Error] Input buffer is full.\r\n");
    let a = run(&mut cli, b"on\r");
    assert!(matches!(a[0], CliAction::SetLed(Color::Cyan)));
}

#[test]
fn sixty_four_bytes_fit() {
    let mut cli = CommandLine::new();
    let mut input = vec![b'x'; 64];
    input.push(b'\r');
    let a = run(&mut cli, &input);
    assert_eq!(said(&a[0]), "Unknown command.\r\n");
}

#[test]
fn imu_commands() {
    let mut cli = CommandLine::new();
    assert!(matches!(run(&mut cli, b"imu-status\r")[0], CliAction::Imu(ImuCommand::Status)));
    assert!(matches!(run(&mut cli, b"imu-read\r")[0], CliAction::Imu(ImuCommand::Sample)));
    assert!(matches!(
        run(&mut cli, b"imu-r 0x0F\r")[0],
        CliAction::Imu(ImuCommand::ReadReg { reg: 0x0F })
    ));
    assert!(matches!(
        run(&mut cli, b"imu-r f\r")[0],
        CliAction::Imu(ImuCommand::ReadReg { reg: 0x0F })
    ));
    assert!(matches!(
        run(&mut cli, b"imu-w 0x10 0X4a\r")[0],
        CliAction::Imu(ImuCommand::WriteReg { reg: 0x10, value: 0x4A })
    ));
    assert!(matches!(
        run(&mut cli, b"imu-w 11 40\r")[0],
        CliAction::Imu(ImuCommand::WriteReg { reg: 0x11, value: 0x40 })
    ));
}

#[test]
fn malformed_imu_commands_are_unknown() {
    let mut cli = CommandLine::new();
    for line in [&b"imu-r\r"[..], b"imu-r 0x\r", b"imu-r 123\r", b"imu-r 0xG1\r", b"imu-w 10\r", b"imu-w 10  40\r"] {
        let a = run(&mut cli, line);
        assert_eq!(said(&a[0]), "Unknown command.\r\n");
    }
}
