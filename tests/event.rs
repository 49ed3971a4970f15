use negicon::mlx90363::Mlx90363;
use negicon::negicon_encoder::NegiconEncoder;
use negicon::negicon_event::{EventError, NegiconEvent, NegiconEventType};
use negicon::upstream::{route_report, Command, RouteError};
use negicon::util::{make_i16, make_u16, to_u16_big_endian, to_u16_little_endian};

#[test]
fn event_wire_form() {
    let e = NegiconEvent::new(NegiconEventType::MemWrite, 0x1234, -2, 7, 9);
    assert_eq!(e.serialize(), [2, 0x12, 0x34, 0xFF, 0xFE, 7, 9, 0]);
    let e = NegiconEvent::new(NegiconEventType::Reboot, 1, 300, 0, 0);
    assert_eq!(e.serialize(), [3, 0, 1, 0x01, 0x2C, 0, 0, 0]);
}

#[test]
fn event_round_trip() {
    for (t, v) in [
        (NegiconEventType::Input, i16::MIN),
        (NegiconEventType::Output, -1),
        (NegiconEventType::MemWrite, 0),
        (NegiconEventType::Reboot, i16::MAX),
    ] {
        let e = NegiconEvent::new(t, 0xBEEF, v, 3, 200);
        assert_eq!(NegiconEvent::deserialize(e.serialize()), Ok(e));
    }
}

#[test]
fn unknown_event_type_is_refused() {
    assert_eq!(NegiconEvent::deserialize([4, 0, 0, 0, 0, 0, 0, 0]), Err(EventError::UnknownEventType(4)));
}

#[test]
fn routes_host_reports() {
    let w = NegiconEvent::new(NegiconEventType::MemWrite, 3, 0x55, 0, 0x10);
    assert_eq!(route_report(w.serialize()), Ok(Command::MemWrite(w)));
    assert_eq!(route_report([3, 0, 0, 0, 0, 0, 0, 0]), Ok(Command::Reboot));
    assert_eq!(
        route_report([0, 0, 0, 0, 0, 0, 0, 0]),
        Err(RouteError::Unsupported(NegiconEventType::Input))
    );
    assert_eq!(
        route_report([1, 0, 0, 0, 0, 0, 0, 0]),
        Err(RouteError::Unsupported(NegiconEventType::Output))
    );
    assert_eq!(
        route_report([9, 0, 0, 0, 0, 0, 0, 0]),
        Err(RouteError::Malformed(EventError::UnknownEventType(9)))
    );
}

#[test]
fn word_helpers() {
    assert_eq!(make_u16(0x12, 0x34), 0x1234);
    assert_eq!(make_i16(0xFF, 0xFE), -2);
    assert_eq!(make_i16(0x80, 0x00), i16::MIN);
    let b = [1, 2, 3, 4, 5, 6, 7, 8];
    assert_eq!(to_u16_big_endian(b), [0x0102, 0x0304, 0x0506, 0x0708]);
    assert_eq!(to_u16_little_endian(b), [0x0201, 0x0403, 0x0605, 0x0807]);
}

#[test]
fn encoder_output_and_deadzone() {
    let mut enc = NegiconEncoder::new(Mlx90363::new(), 0, 100, 50, 10);
    assert_eq!(enc.calculate_output(55), 0);
    assert_eq!(enc.calculate_output(80), 30);
}
