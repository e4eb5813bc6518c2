use weighty::dymo::encode_frame;
use weighty::dymo::interpret_read;
use weighty::dymo::parse_buffer;
use weighty::dymo::Reading;
use weighty::dymo::ReadingUnit;
use weighty::units::ScaledForce;
use weighty::HidScaleError;

fn scaled_to_f64(s: &ScaledForce) -> f64 {
    (s.mantissa as f64) * 10f64.powi(s.exp10 as i32) / (s.divisor as f64)
}

#[test]
fn end_to_end_leading_zero_frame() {
    // A stray zero byte, then frame start 3, status 4, unit 2 (grams),
    // exponent byte 0xFF (-1), raw value 0x0064 (100) little-endian.
    let buf: Vec<u8> = vec![0x00, 0x03, 0x04, 0x02, 0xFF, 0x64, 0x00];
    let r = parse_buffer(&buf).unwrap();
    assert_eq!(r, Reading { unit: ReadingUnit::Grams, raw: 100, exponent: -1 });
    let kg = scaled_to_f64(&r.to_kilograms());
    assert!((kg - 0.01).abs() < 1e-12);
}

#[test]
fn empty_buffer_not_enough_data() {
    let buf: Vec<u8> = vec![];
    assert_eq!(parse_buffer(&buf), Err(HidScaleError::NotEnoughData));
}

#[test]
fn short_buffer_not_enough_data() {
    let buf: Vec<u8> = vec![0x03, 0x04, 0x02, 0xFF, 0x64];
    assert_eq!(parse_buffer(&buf), Err(HidScaleError::NotEnoughData));
}

#[test]
fn no_frame_start_not_enough_data() {
    let buf: Vec<u8> = vec![0x00, 0x01, 0x02, 0x04, 0x05, 0x06, 0x07, 0x08];
    assert_eq!(parse_buffer(&buf), Err(HidScaleError::NotEnoughData));
}

#[test]
fn late_frame_start_not_enough_data() {
    let buf: Vec<u8> = vec![0x00, 0x00, 0x00, 0x00, 0x00, 0x03];
    assert_eq!(parse_buffer(&buf), Err(HidScaleError::NotEnoughData));
}

#[test]
fn status_five_unreportable_reading() {
    let buf: Vec<u8> = vec![0x03, 0x05, 0x02, 0x00, 0x0A, 0x00];
    assert_eq!(parse_buffer(&buf), Err(HidScaleError::UnreportableReading));
}

#[test]
fn status_six_overloaded_regardless_of_rest() {
    let buf: Vec<u8> = vec![0x03, 0x06, 0x0B, 0x7F, 0xAA, 0xBB];
    assert_eq!(parse_buffer(&buf), Err(HidScaleError::Overloaded));
    let with_stray: Vec<u8> = vec![0x00, 0x00, 0x03, 0x06, 0x02, 0x00, 0x01, 0x00];
    assert_eq!(parse_buffer(&with_stray), Err(HidScaleError::Overloaded));
}

#[test]
fn unknown_status_and_unit_combinations() {
    let odd_unit: Vec<u8> = vec![0x03, 0x02, 0x07, 0x00, 0x0A, 0x00];
    assert_eq!(parse_buffer(&odd_unit), Err(HidScaleError::UnknownUnits));
    let odd_status: Vec<u8> = vec![0x03, 0x09, 0x02, 0x00, 0x0A, 0x00];
    assert_eq!(parse_buffer(&odd_status), Err(HidScaleError::UnknownUnits));
}

#[test]
fn ounces_frame() {
    let buf: Vec<u8> = vec![0x03, 0x02, 0x0B, 0x00, 0x10, 0x00];
    let r = parse_buffer(&buf).unwrap();
    assert_eq!(r, Reading { unit: ReadingUnit::Ounces, raw: 16, exponent: 0 });
}

#[test]
fn encode_then_decode_round_trips() {
    let frame = encode_frame(0x02, 0x02, 0x02, 0x34, 0x12);
    let r = parse_buffer(&frame).unwrap();
    assert_eq!(r, Reading { unit: ReadingUnit::Grams, raw: 0x1234, exponent: 2 });

    let frame = encode_frame(0x04, 0x0B, 0xFE, 0xFF, 0xFF);
    let r = parse_buffer(&frame).unwrap();
    assert_eq!(r, Reading { unit: ReadingUnit::Ounces, raw: 0xFFFF, exponent: -2 });
}

#[test]
fn transport_error_surfaces_verbatim() {
    let buf: Vec<u8> = vec![0u8; 128];
    let r = interpret_read(&buf, Err(String::from("device unplugged")));
    assert_eq!(r, Err(HidScaleError::CantReadDueTo(String::from("device unplugged"))));
}

#[test]
fn short_transport_read_not_enough_data() {
    let buf: Vec<u8> = vec![0x03, 0x04, 0x02, 0x00, 0x64, 0x00];
    assert_eq!(interpret_read(&buf, Ok(3)), Err(HidScaleError::NotEnoughData));
}

#[test]
fn full_transport_read_decodes_buffer() {
    let mut buf: Vec<u8> = vec![0u8; 128];
    buf[0] = 0x03;
    buf[1] = 0x04;
    buf[2] = 0x02;
    buf[3] = 0x00;
    buf[4] = 0x64;
    buf[5] = 0x00;
    let r = interpret_read(&buf, Ok(6)).unwrap();
    assert_eq!(r, Reading { unit: ReadingUnit::Grams, raw: 100, exponent: 0 });
}
