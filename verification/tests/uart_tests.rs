use xiao_sense::imu_task::read_reply;
use xiao_sense::uart::UartTxMsg;

#[test]
fn message_bytes() {
    let m = UartTxMsg::from("LED turned on.\r\n");
    assert_eq!(m.as_bytes(), b"LED turned on.\r\n");
    let m = UartTxMsg::from(b'x');
    assert_eq!(m.as_bytes(), b"x");
    let m = UartTxMsg::from(read_reply(0x0F, &Ok(0x6A)));
    assert_eq!(m.as_bytes(), b"IMU[0x0F] = 0x6A\n");
}
