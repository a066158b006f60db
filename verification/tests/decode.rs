use forward_server::decode::{
    decode_button, decode_button_shape, decode_motion, decode_wheel, decode_wheel_shape,
    InputShape, RawInput,
};
use forward_server::event::{DomainEvent, ImuData, Label, MotionSample, Vector3};
use forward_server::text::read_text;

fn text(s: &str) -> Label {
    Label::Text(s.to_string())
}

#[test]
fn motion_readings_are_grouped_into_accel_and_gyro() {
    let input = ImuData {
        ax: 1.0f32.to_bits(),
        ay: 2.0f32.to_bits(),
        az: 3.0f32.to_bits(),
        gx: 4.0f32.to_bits(),
        gy: 5.0f32.to_bits(),
        gz: 6.0f32.to_bits(),
    };
    let expected = MotionSample {
        accel: Vector3 { x: 1.0f32.to_bits(), y: 2.0f32.to_bits(), z: 3.0f32.to_bits() },
        gyro: Vector3 { x: 4.0f32.to_bits(), y: 5.0f32.to_bits(), z: 6.0f32.to_bits() },
    };
    assert_eq!(decode_motion(input), DomainEvent::Motion(expected));
    match decode_motion(input) {
        DomainEvent::Motion(m) => {
            assert_eq!(f32::from_bits(m.accel.x), 1.0);
            assert_eq!(f32::from_bits(m.accel.y), 2.0);
            assert_eq!(f32::from_bits(m.accel.z), 3.0);
            assert_eq!(f32::from_bits(m.gyro.x), 4.0);
            assert_eq!(f32::from_bits(m.gyro.y), 5.0);
            assert_eq!(f32::from_bits(m.gyro.z), 6.0);
        }
        other => panic!("not a motion event: {:?}", other),
    }
}

#[test]
fn button_text_buffer_is_passed_through() {
    let event = decode_button(RawInput::Buffer(b"upper".to_vec()));
    assert_eq!(event, Some(DomainEvent::ButtonPress(text("upper"))));
}

#[test]
fn button_text_is_not_looked_up() {
    // Text that no table knows, and text whose only byte is a known code.
    assert_eq!(
        decode_button(RawInput::Buffer(b"middle".to_vec())),
        Some(DomainEvent::ButtonPress(text("middle")))
    );
    assert_eq!(
        decode_button(RawInput::Buffer(vec![1])),
        Some(DomainEvent::ButtonPress(text("\u{1}")))
    );
    assert_eq!(
        decode_button(RawInput::Buffer(b"1".to_vec())),
        Some(DomainEvent::ButtonPress(text("1")))
    );
}

#[test]
fn button_text_may_span_several_bytes_per_character() {
    let bytes = "né→😀".as_bytes().to_vec();
    assert_eq!(
        decode_button(RawInput::Buffer(bytes)),
        Some(DomainEvent::ButtonPress(text("né→😀")))
    );
}

#[test]
fn wheel_text_buffer_is_passed_through() {
    assert_eq!(
        decode_wheel(RawInput::Buffer(b"left".to_vec())),
        Some(DomainEvent::WheelTurn(text("left")))
    );
    assert_eq!(
        decode_wheel(RawInput::Buffer(b"sideways".to_vec())),
        Some(DomainEvent::WheelTurn(text("sideways")))
    );
}

#[test]
fn raw_bytes_without_a_first_byte_give_no_button_event() {
    assert_eq!(decode_button_shape(InputShape::RawBytes(vec![])), None);
}

#[test]
fn raw_bytes_without_a_first_byte_give_no_wheel_event() {
    assert_eq!(decode_wheel_shape(InputShape::RawBytes(vec![])), None);
}

#[test]
fn empty_buffer_is_empty_text() {
    assert_eq!(InputShape::classify(RawInput::Buffer(vec![])), InputShape::Text(String::new()));
    assert_eq!(decode_button(RawInput::Buffer(vec![])), Some(DomainEvent::ButtonPress(text(""))));
    assert_eq!(decode_wheel(RawInput::Buffer(vec![])), Some(DomainEvent::WheelTurn(text(""))));
}

#[test]
fn buffer_that_is_not_text_is_read_by_its_first_byte() {
    assert_eq!(
        decode_button(RawInput::Buffer(vec![2, 0xff])),
        Some(DomainEvent::ButtonPress(text("lower")))
    );
    assert_eq!(
        decode_button(RawInput::Buffer(vec![3, 0xc0, 0x00])),
        Some(DomainEvent::ButtonPress(text("something_else")))
    );
    assert_eq!(
        decode_wheel(RawInput::Buffer(vec![0, 0xff])),
        Some(DomainEvent::WheelTurn(text("left")))
    );
    assert_eq!(
        decode_wheel(RawInput::Buffer(vec![1, 0x80])),
        Some(DomainEvent::WheelTurn(text("right")))
    );
}

#[test]
fn unknown_first_byte_is_forwarded_as_the_bare_code() {
    assert_eq!(
        decode_button(RawInput::Buffer(vec![0xff])),
        Some(DomainEvent::ButtonPress(Label::Code(255)))
    );
    assert_eq!(
        decode_button(RawInput::Buffer(vec![9, 0xfe])),
        Some(DomainEvent::ButtonPress(Label::Code(9)))
    );
    assert_eq!(
        decode_wheel(RawInput::Buffer(vec![0x80])),
        Some(DomainEvent::WheelTurn(Label::Code(128)))
    );
}

#[test]
fn bare_button_codes_are_looked_up() {
    assert_eq!(decode_button(RawInput::Code(1)), Some(DomainEvent::ButtonPress(text("upper"))));
    assert_eq!(decode_button(RawInput::Code(2)), Some(DomainEvent::ButtonPress(text("lower"))));
    assert_eq!(
        decode_button(RawInput::Code(3)),
        Some(DomainEvent::ButtonPress(text("something_else")))
    );
}

#[test]
fn unknown_bare_button_code_is_forwarded_not_dropped() {
    assert_eq!(decode_button(RawInput::Code(9)), Some(DomainEvent::ButtonPress(Label::Code(9))));
    assert_eq!(decode_button(RawInput::Code(0)), Some(DomainEvent::ButtonPress(Label::Code(0))));
}

#[test]
fn bare_wheel_codes_are_looked_up() {
    assert_eq!(decode_wheel(RawInput::Code(0)), Some(DomainEvent::WheelTurn(text("left"))));
    assert_eq!(decode_wheel(RawInput::Code(1)), Some(DomainEvent::WheelTurn(text("right"))));
    assert_eq!(decode_wheel(RawInput::Code(2)), Some(DomainEvent::WheelTurn(Label::Code(2))));
}

#[test]
fn every_bare_code_yields_an_event() {
    for code in 0..=255u8 {
        assert!(decode_button(RawInput::Code(code)).is_some());
        assert!(decode_wheel(RawInput::Code(code)).is_some());
    }
}

#[test]
fn classify_tries_text_first() {
    assert_eq!(
        InputShape::classify(RawInput::Buffer(b"upper".to_vec())),
        InputShape::Text("upper".to_string())
    );
    assert_eq!(
        InputShape::classify(RawInput::Buffer(vec![1, 0xff])),
        InputShape::RawBytes(vec![1, 0xff])
    );
    assert_eq!(InputShape::classify(RawInput::Code(7)), InputShape::BareInteger(7));
}

#[test]
fn shapes_decode_each_in_their_own_way() {
    assert_eq!(
        decode_button_shape(InputShape::Text("2".to_string())),
        Some(DomainEvent::ButtonPress(text("2")))
    );
    assert_eq!(
        decode_button_shape(InputShape::RawBytes(vec![2])),
        Some(DomainEvent::ButtonPress(text("lower")))
    );
    assert_eq!(
        decode_button_shape(InputShape::BareInteger(2)),
        Some(DomainEvent::ButtonPress(text("lower")))
    );
    assert_eq!(
        decode_wheel_shape(InputShape::RawBytes(vec![1, 2, 3])),
        Some(DomainEvent::WheelTurn(text("right")))
    );
    assert_eq!(
        decode_wheel_shape(InputShape::BareInteger(200)),
        Some(DomainEvent::WheelTurn(Label::Code(200)))
    );
}

#[test]
fn read_text_accepts_exactly_well_formed_buffers() {
    assert_eq!(read_text(&b"hello".to_vec()), Some("hello".to_string()));
    assert_eq!(read_text(&vec![]), Some(String::new()));
    assert_eq!(read_text(&vec![0xe2, 0x82, 0xac]), Some("€".to_string()));
    // A lone continuation byte, a truncated sequence, an overlong form, a surrogate.
    assert_eq!(read_text(&vec![0x80]), None);
    assert_eq!(read_text(&vec![0xe2, 0x82]), None);
    assert_eq!(read_text(&vec![0xc0, 0x80]), None);
    assert_eq!(read_text(&vec![0xed, 0xa0, 0x80]), None);
}

#[test]
fn label_from_entry_keeps_unknown_codes() {
    assert_eq!(Label::from_entry(Some("upper"), 1), text("upper"));
    assert_eq!(Label::from_entry(None, 77), Label::Code(77));
}
