//! The domain events that decoding produces and dispatch consumes.
//!
//! Real-valued readings are carried as their IEEE-754 single-precision bit
//! patterns, so that every value in this crate is an integer or text.

use vstd::prelude::*;

verus! {

/// Three real components, each as a single-precision bit pattern.
#[derive(Clone, Copy, Debug, PartialEq, Eq, Structural)]
pub struct Vector3 {
    pub x: u32,
    pub y: u32,
    pub z: u32,
}

/// One motion message as the transport delivers it: six named readings.
#[derive(Clone, Copy, Debug, PartialEq, Eq, Structural)]
pub struct ImuData {
    pub ax: u32,
    pub ay: u32,
    pub az: u32,
    pub gx: u32,
    pub gy: u32,
    pub gz: u32,
}

/// Linear acceleration and angular rate of one motion message.
#[derive(Clone, Copy, Debug, PartialEq, Eq, Structural)]
pub struct MotionSample {
    pub accel: Vector3,
    pub gyro: Vector3,
}

/// What identifies a button or a wheel direction in an event: display text,
/// or the bare numeric code where no text is known for it.
#[derive(Clone, Debug, PartialEq, Eq)]
pub enum Label {
    Text(String),
    Code(u8),
}

/// The mathematical value of a [`Label`].
pub ghost enum LabelView {
    Text(Seq<char>),
    Code(u8),
}

impl View for Label {
    type V = LabelView;

    open spec fn view(&self) -> LabelView {
        match self {
            Label::Text(s) => LabelView::Text(s@),
            Label::Code(c) => LabelView::Code(*c),
        }
    }
}

/// A normalized, transport-independent input occurrence.
#[derive(Clone, Debug, PartialEq, Eq)]
pub enum DomainEvent {
    Motion(MotionSample),
    ButtonPress(Label),
    WheelTurn(Label),
}

/// The mathematical value of a [`DomainEvent`].
pub ghost enum DomainEventView {
    Motion(MotionSample),
    ButtonPress(LabelView),
    WheelTurn(LabelView),
}

impl View for DomainEvent {
    type V = DomainEventView;

    open spec fn view(&self) -> DomainEventView {
        match self {
            DomainEvent::Motion(m) => DomainEventView::Motion(*m),
            DomainEvent::ButtonPress(l) => DomainEventView::ButtonPress(l@),
            DomainEvent::WheelTurn(l) => DomainEventView::WheelTurn(l@),
        }
    }
}

/// The view of an event that may be absent.
pub open spec fn event_view(event: Option<DomainEvent>) -> Option<DomainEventView> {
    match event {
        Some(e) => Some(e@),
        None => None,
    }
}

/// The label that a code stands for under a table entry: the entry's text
/// where there is one, else the code itself.
pub open spec fn label_or_code(entry: Option<Seq<char>>, code: u8) -> LabelView {
    match entry {
        Some(text) => LabelView::Text(text),
        None => LabelView::Code(code),
    }
}

impl Label {
    /// Makes the label of `code` from what a table holds for it. An unknown
    /// code is kept as it is.
    pub fn from_entry(entry: Option<&'static str>, code: u8) -> (label: Label)
        ensures
            label@ == label_or_code(crate::tables::label_view(entry), code),
    {
        match entry {
            Some(text) => Label::Text(text.to_owned()),
            None => Label::Code(code),
        }
    }
}

} // verus!
