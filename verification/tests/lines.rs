use tms_heartbeat::heartbeat::Heartbeat;
use tms_heartbeat::received_line;
use tms_heartbeat::sent_line;
use tms_heartbeat::u32_to_decimal;

#[test]
fn decimal_zero() {
    assert_eq!(u32_to_decimal(0), "0");
}

#[test]
fn decimal_single_digit() {
    assert_eq!(u32_to_decimal(7), "7");
}

#[test]
fn decimal_multi_digit() {
    assert_eq!(u32_to_decimal(42), "42");
    assert_eq!(u32_to_decimal(1000), "1000");
}

#[test]
fn decimal_largest() {
    assert_eq!(u32_to_decimal(u32::MAX), "4294967295");
}

#[test]
fn sent_line_text() {
    assert_eq!(sent_line(0), "Sent TMS Heartbeat sequenceNumber 0");
    assert_eq!(sent_line(12), "Sent TMS Heartbeat sequenceNumber 12");
}

#[test]
fn received_line_text() {
    let h = Heartbeat {
        device_id: String::from("00112233445566778899aabbccddeeff"),
        sequence_number: 5,
    };
    assert_eq!(
        received_line(&h),
        "Received TMS Heartbeat: deviceId 00112233445566778899aabbccddeeff, sequenceNumber 5"
    );
}
