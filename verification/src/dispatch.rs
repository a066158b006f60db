//! The event dispatcher: from a domain event to a named notification.
//!
//! A notification is a fixed name and a payload. Dispatching appends it to a
//! sink of pending notifications, which the host side hands on to its
//! listeners. Delivery can fail there without anything here learning of it.

use vstd::prelude::*;
use crate::event::{DomainEvent, DomainEventView, Label, LabelView, Vector3};
use crate::json::{Json, JsonView};

verus! {

/// A named notification for the host.
#[derive(Debug, PartialEq, Eq)]
pub struct Notification {
    pub name: &'static str,
    pub payload: Json,
}

/// The mathematical value of a [`Notification`].
pub ghost struct NotificationView {
    pub name: Seq<char>,
    pub payload: JsonView,
}

impl View for Notification {
    type V = NotificationView;

    open spec fn view(&self) -> NotificationView {
        NotificationView { name: self.name@, payload: self.payload@ }
    }
}

/// The name under which an event is made known.
pub open spec fn name_of(event: DomainEventView) -> Seq<char> {
    match event {
        DomainEventView::Motion(_) => "imu-data"@,
        DomainEventView::ButtonPress(_) => "button-pressed"@,
        DomainEventView::WheelTurn(_) => "wheel-turned"@,
    }
}

/// A label as a payload value: its text, or its bare code as a number.
pub open spec fn label_json(label: LabelView) -> JsonView {
    match label {
        LabelView::Text(text) => JsonView::Text(text),
        LabelView::Code(code) => JsonView::Integer(code),
    }
}

/// Three components as the object `{x, y, z}`.
pub open spec fn vector_json(v: Vector3) -> JsonView {
    JsonView::Object(
        seq![
            ("x"@, JsonView::Real(v.x)),
            ("y"@, JsonView::Real(v.y)),
            ("z"@, JsonView::Real(v.z)),
        ],
    )
}

/// The payload of an event: `{accel: {x, y, z}, gyro: {x, y, z}}` for motion,
/// `{button: label}` for a button press, `{direction: label}` for a wheel turn.
pub open spec fn payload_of(event: DomainEventView) -> JsonView {
    match event {
        DomainEventView::Motion(m) => JsonView::Object(
            seq![("accel"@, vector_json(m.accel)), ("gyro"@, vector_json(m.gyro))],
        ),
        DomainEventView::ButtonPress(label) => JsonView::Object(
            seq![("button"@, label_json(label))],
        ),
        DomainEventView::WheelTurn(label) => JsonView::Object(
            seq![("direction"@, label_json(label))],
        ),
    }
}

/// The notification of an event.
pub open spec fn notification_of(event: DomainEventView) -> NotificationView {
    NotificationView { name: name_of(event), payload: payload_of(event) }
}

/// The notification of an event that may be absent.
pub open spec fn notification_of_decoded(event: Option<DomainEventView>) -> Option<
    NotificationView,
> {
    match event {
        Some(e) => Some(notification_of(e)),
        None => None,
    }
}

/// How a sink changes when `what` is emitted into it: one notification is
/// appended and the earlier ones stay, or, with nothing to emit, the sink
/// stays as it was.
pub open spec fn emitted(
    before: Seq<Notification>,
    after: Seq<Notification>,
    what: Option<NotificationView>,
) -> bool {
    match what {
        Some(notification) => {
            &&& after.len() == before.len() + 1
            &&& after.drop_last() == before
            &&& after.last()@ == notification
        },
        None => after == before,
    }
}

fn label_payload(label: Label) -> (json: Json)
    ensures
        json@ == label_json(label@),
{
    match label {
        Label::Text(text) => Json::Text(text),
        Label::Code(code) => Json::Integer(code),
    }
}

fn vector_payload(v: Vector3) -> (json: Json)
    ensures
        json@ == vector_json(v),
{
    Json::object3("x", Json::Real(v.x), "y", Json::Real(v.y), "z", Json::Real(v.z))
}

impl DomainEvent {
    /// The fixed name under which this event is made known.
    pub fn name(&self) -> (name: &'static str)
        ensures
            name@ == name_of(self@),
    {
        match self {
            DomainEvent::Motion(_) => "imu-data",
            DomainEvent::ButtonPress(_) => "button-pressed",
            DomainEvent::WheelTurn(_) => "wheel-turned",
        }
    }

    /// The payload that goes with this event.
    pub fn payload(self) -> (payload: Json)
        ensures
            payload@ == payload_of(self@),
    {
        match self {
            DomainEvent::Motion(m) => Json::object2(
                "accel",
                vector_payload(m.accel),
                "gyro",
                vector_payload(m.gyro),
            ),
            DomainEvent::ButtonPress(label) => Json::object1("button", label_payload(label)),
            DomainEvent::WheelTurn(label) => Json::object1("direction", label_payload(label)),
        }
    }

    /// The notification of this event: its name and its payload.
    pub fn notification(self) -> (notification: Notification)
        ensures
            notification@ == notification_of(self@),
    {
        let name = self.name();
        Notification { name, payload: self.payload() }
    }
}

/// Dispatches an event: exactly one notification is appended to the sink.
pub fn dispatch(event: DomainEvent, sink: &mut Vec<Notification>)
    ensures
        emitted(old(sink)@, final(sink)@, Some(notification_of(event@))),
{
    let notification = event.notification();
    sink.push(notification);
    assert(sink@.drop_last() =~= old(sink)@);
}

/// Dispatches what a decoder produced: one notification for an event, none
/// for a dropped message.
pub fn forward(decoded: Option<DomainEvent>, sink: &mut Vec<Notification>)
    ensures
        emitted(
            old(sink)@,
            final(sink)@,
            notification_of_decoded(crate::event::event_view(decoded)),
        ),
{
    match decoded {
        Some(event) => dispatch(event, sink),
        None => {},
    }
}

} // verus!
