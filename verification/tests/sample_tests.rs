use mouse2joystick::sample::{parse_sample, Axis, RawSample, ABS_X, ABS_Y, EV_ABS};

fn record(ty: u16, code: u16, value: i32) -> Vec<u8> {
    let mut b = vec![0u8; 24];
    b[16..18].copy_from_slice(&ty.to_le_bytes());
    b[18..20].copy_from_slice(&code.to_le_bytes());
    b[20..24].copy_from_slice(&value.to_le_bytes());
    b
}

#[test]
fn parses_horizontal_axis_sample() {
    let b = record(EV_ABS, ABS_X, 300);
    assert_eq!(parse_sample(&b, 0), RawSample { axis: Axis::X, value: 300 });
}

#[test]
fn parses_vertical_axis_sample() {
    let b = record(EV_ABS, ABS_Y, -512);
    assert_eq!(parse_sample(&b, 0), RawSample { axis: Axis::Y, value: -512 });
}

#[test]
fn parses_negative_and_extreme_values() {
    for v in [0, -1, 1, i32::MAX, i32::MIN, -300] {
        let b = record(EV_ABS, ABS_X, v);
        assert_eq!(parse_sample(&b, 0).value, v);
    }
}

#[test]
fn other_event_kinds_are_ignored_kinds() {
    // a key event (type 1) and a third axis are both not tracked
    let key = record(1, 0, 1);
    assert_eq!(parse_sample(&key, 0).axis, Axis::Other);
    let other_axis = record(EV_ABS, 2, 77);
    assert_eq!(parse_sample(&other_axis, 0).axis, Axis::Other);
}

#[test]
fn parses_record_at_an_offset() {
    let mut b = record(0, 0, 0);
    b.extend_from_slice(&record(EV_ABS, ABS_X, 42));
    assert_eq!(parse_sample(&b, 24), RawSample { axis: Axis::X, value: 42 });
}
