//! Payload decoders: from raw transport input to domain events.
//!
//! A button or wheel message arrives either as a byte buffer or as a bare
//! code. A buffer is read as text first; only a buffer that is not text is
//! read by its first byte. The one input that yields no event is a buffer
//! that is neither text nor has a first byte.

use vstd::prelude::*;
use crate::event::{
    event_view, label_or_code, DomainEvent, DomainEventView, ImuData, Label, LabelView,
    MotionSample, Vector3,
};
use crate::tables::{button_label, resolve_button, resolve_wheel, wheel_label};
use crate::text::{read_text, text_of};
use vstd::utf8::{decode_utf8, valid_utf8};

verus! {

/// A button or wheel message as a transport hands it over.
#[derive(Clone, Debug, PartialEq, Eq)]
pub enum RawInput {
    /// A byte buffer, as written to a characteristic.
    Buffer(Vec<u8>),
    /// A single unsigned byte, as given in a request path.
    Code(u8),
}

/// The mathematical value of a [`RawInput`].
pub ghost enum RawInputView {
    Buffer(Seq<u8>),
    Code(u8),
}

impl View for RawInput {
    type V = RawInputView;

    open spec fn view(&self) -> RawInputView {
        match self {
            RawInput::Buffer(bytes) => RawInputView::Buffer(bytes@),
            RawInput::Code(code) => RawInputView::Code(*code),
        }
    }
}

/// The shape that a message is found to have, which decides how it is read.
#[derive(Clone, Debug, PartialEq, Eq)]
pub enum InputShape {
    /// Text, used verbatim.
    Text(String),
    /// Bytes that are not text, read by their first byte.
    RawBytes(Vec<u8>),
    /// A bare numeric code.
    BareInteger(u8),
}

/// The mathematical value of an [`InputShape`].
pub ghost enum InputShapeView {
    Text(Seq<char>),
    RawBytes(Seq<u8>),
    BareInteger(u8),
}

impl View for InputShape {
    type V = InputShapeView;

    open spec fn view(&self) -> InputShapeView {
        match self {
            InputShape::Text(text) => InputShapeView::Text(text@),
            InputShape::RawBytes(bytes) => InputShapeView::RawBytes(bytes@),
            InputShape::BareInteger(code) => InputShapeView::BareInteger(*code),
        }
    }
}

/// The shape of an input: a buffer is text wherever it can be read as text.
pub open spec fn shape_of(input: RawInputView) -> InputShapeView {
    match input {
        RawInputView::Buffer(bytes) => match text_of(bytes) {
            Some(text) => InputShapeView::Text(text),
            None => InputShapeView::RawBytes(bytes),
        },
        RawInputView::Code(code) => InputShapeView::BareInteger(code),
    }
}

/// The label that an input of the given shape carries under a table, if any.
/// Text is its own label. A code is looked up and kept bare where the table
/// has nothing for it. Bytes without a first byte carry nothing.
pub open spec fn shape_label(
    shape: InputShapeView,
    table: spec_fn(u8) -> Option<Seq<char>>,
) -> Option<LabelView> {
    match shape {
        InputShapeView::Text(text) => Some(LabelView::Text(text)),
        InputShapeView::RawBytes(bytes) => if bytes.len() > 0 {
            Some(label_or_code(table(bytes[0]), bytes[0]))
        } else {
            None
        },
        InputShapeView::BareInteger(code) => Some(label_or_code(table(code), code)),
    }
}

/// Whether an input yields no event: it is a buffer that is not text and has
/// no first byte.
pub open spec fn dropped(input: RawInputView) -> bool {
    input matches RawInputView::Buffer(bytes) && !valid_utf8(bytes) && bytes.len() == 0
}

/// The button event of an input shape.
pub open spec fn button_event(shape: InputShapeView) -> Option<DomainEventView> {
    match shape_label(shape, |code: u8| button_label(code)) {
        Some(label) => Some(DomainEventView::ButtonPress(label)),
        None => None,
    }
}

/// The wheel event of an input shape.
pub open spec fn wheel_event(shape: InputShapeView) -> Option<DomainEventView> {
    match shape_label(shape, |code: u8| wheel_label(code)) {
        Some(label) => Some(DomainEventView::WheelTurn(label)),
        None => None,
    }
}

/// The motion sample of six readings: the first three are the acceleration,
/// the last three the angular rate.
pub open spec fn motion_of(input: ImuData) -> MotionSample {
    MotionSample {
        accel: Vector3 { x: input.ax, y: input.ay, z: input.az },
        gyro: Vector3 { x: input.gx, y: input.gy, z: input.gz },
    }
}

impl InputShape {
    /// Finds the shape of an input. Text interpretation is tried first; a
    /// buffer is kept as raw bytes only when it is not text.
    pub fn classify(input: RawInput) -> (shape: InputShape)
        ensures
            shape@ == shape_of(input@),
    {
        match input {
            RawInput::Buffer(bytes) => match read_text(&bytes) {
                Some(text) => InputShape::Text(text),
                None => InputShape::RawBytes(bytes),
            },
            RawInput::Code(code) => InputShape::BareInteger(code),
        }
    }
}

/// Decodes six readings into a motion event. There is no failure.
pub fn decode_motion(input: ImuData) -> (event: DomainEvent)
    ensures
        event@ == DomainEventView::Motion(motion_of(input)),
{
    DomainEvent::Motion(
        MotionSample {
            accel: Vector3 { x: input.ax, y: input.ay, z: input.az },
            gyro: Vector3 { x: input.gx, y: input.gy, z: input.gz },
        },
    )
}

/// Reads an input of a known shape as a button press.
pub fn decode_button_shape(shape: InputShape) -> (event: Option<DomainEvent>)
    ensures
        event_view(event) == button_event(shape@),
{
    match shape {
        InputShape::Text(text) => Some(DomainEvent::ButtonPress(Label::Text(text))),
        InputShape::RawBytes(bytes) => {
            if bytes.len() > 0 {
                let code: u8 = bytes[0];
                Some(DomainEvent::ButtonPress(Label::from_entry(resolve_button(code), code)))
            } else {
                None
            }
        },
        InputShape::BareInteger(code) => Some(
            DomainEvent::ButtonPress(Label::from_entry(resolve_button(code), code)),
        ),
    }
}

/// Reads an input of a known shape as a wheel turn.
pub fn decode_wheel_shape(shape: InputShape) -> (event: Option<DomainEvent>)
    ensures
        event_view(event) == wheel_event(shape@),
{
    match shape {
        InputShape::Text(text) => Some(DomainEvent::WheelTurn(Label::Text(text))),
        InputShape::RawBytes(bytes) => {
            if bytes.len() > 0 {
                let code: u8 = bytes[0];
                Some(DomainEvent::WheelTurn(Label::from_entry(resolve_wheel(code), code)))
            } else {
                None
            }
        },
        InputShape::BareInteger(code) => Some(
            DomainEvent::WheelTurn(Label::from_entry(resolve_wheel(code), code)),
        ),
    }
}

/// Decodes a button message. The result is `None` only for a buffer that is
/// not text and has no first byte.
pub fn decode_button(input: RawInput) -> (event: Option<DomainEvent>)
    ensures
        event_view(event) == button_event(shape_of(input@)),
        event.is_none() <==> dropped(input@),
        input matches RawInput::Buffer(bytes) ==> (valid_utf8(bytes@) ==> event_view(event) == Some(
            DomainEventView::ButtonPress(LabelView::Text(decode_utf8(bytes@))),
        )),
        input matches RawInput::Code(code) ==> event_view(event) == Some(
            DomainEventView::ButtonPress(label_or_code(button_label(code), code)),
        ),
{
    decode_button_shape(InputShape::classify(input))
}

/// Decodes a wheel message. The result is `None` only for a buffer that is
/// not text and has no first byte.
pub fn decode_wheel(input: RawInput) -> (event: Option<DomainEvent>)
    ensures
        event_view(event) == wheel_event(shape_of(input@)),
        event.is_none() <==> dropped(input@),
        input matches RawInput::Buffer(bytes) ==> (valid_utf8(bytes@) ==> event_view(event) == Some(
            DomainEventView::WheelTurn(LabelView::Text(decode_utf8(bytes@))),
        )),
        input matches RawInput::Code(code) ==> event_view(event) == Some(
            DomainEventView::WheelTurn(label_or_code(wheel_label(code), code)),
        ),
{
    decode_wheel_shape(InputShape::classify(input))
}

/// An empty buffer is empty text, so no input is in fact dropped: every
/// button or wheel message yields an event.
pub proof fn lemma_nothing_dropped(input: RawInputView)
    ensures
        !dropped(input),
        button_event(shape_of(input)).is_some(),
        wheel_event(shape_of(input)).is_some(),
{
}

/// Text takes precedence over the tables: a buffer that is text becomes the
/// label as it stands, whether or not its first byte is a known code.
pub proof fn lemma_text_precedes_lookup(bytes: Seq<u8>)
    requires
        valid_utf8(bytes),
    ensures
        button_event(shape_of(RawInputView::Buffer(bytes))) == Some(
            DomainEventView::ButtonPress(LabelView::Text(decode_utf8(bytes))),
        ),
        wheel_event(shape_of(RawInputView::Buffer(bytes))) == Some(
            DomainEventView::WheelTurn(LabelView::Text(decode_utf8(bytes))),
        ),
{
}

/// A code is never rejected: a bare code, or the first byte of a buffer that
/// is not text, is forwarded under its label where the table has one and as
/// the code itself where it has none.
pub proof fn lemma_code_is_forwarded(input: RawInputView, code: u8)
    requires
        input == RawInputView::Code(code) || (input matches RawInputView::Buffer(bytes)
            && !valid_utf8(bytes) && bytes.len() > 0 && bytes[0] == code),
    ensures
        button_event(shape_of(input)) == Some(
            DomainEventView::ButtonPress(label_or_code(button_label(code), code)),
        ),
        wheel_event(shape_of(input)) == Some(
            DomainEventView::WheelTurn(label_or_code(wheel_label(code), code)),
        ),
        button_label(code).is_none() ==> button_event(shape_of(input)) == Some(
            DomainEventView::ButtonPress(LabelView::Code(code)),
        ),
        wheel_label(code).is_none() ==> wheel_event(shape_of(input)) == Some(
            DomainEventView::WheelTurn(LabelView::Code(code)),
        ),
{
}

} // verus!
