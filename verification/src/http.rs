//! The request handlers of the HTTP surface, without the server around them.
//!
//! Each handler decodes what the request carried, dispatches the event and
//! returns the text of the response body.

use vstd::prelude::*;
use vstd::string::*;
use crate::decode::{decode_motion, motion_of};
use crate::dispatch::{dispatch, emitted, notification_of, Notification};
use crate::event::{label_or_code, DomainEvent, DomainEventView, ImuData, Label};
use crate::tables::{button_label, resolve_button, resolve_wheel, wheel_label};

verus! {

/// The character of a decimal digit.
pub open spec fn digit_char(d: nat) -> char {
    if d == 0 {
        '0'
    } else if d == 1 {
        '1'
    } else if d == 2 {
        '2'
    } else if d == 3 {
        '3'
    } else if d == 4 {
        '4'
    } else if d == 5 {
        '5'
    } else if d == 6 {
        '6'
    } else if d == 7 {
        '7'
    } else if d == 8 {
        '8'
    } else {
        '9'
    }
}

/// A number in decimal, without leading zeros.
pub open spec fn decimal(n: nat) -> Seq<char>
    decreases n,
{
    if n < 10 {
        seq![digit_char(n)]
    } else {
        decimal(n / 10).push(digit_char(n % 10))
    }
}

/// The response body to a button request.
pub open spec fn press_response(button: u8) -> Seq<char> {
    match button_label(button) {
        Some(name) => "Button pressed: "@ + name,
        None => "Unknown button pressed: "@ + decimal(button as nat),
    }
}

/// The response body to a wheel request.
pub open spec fn wheel_response(direction: u8) -> Seq<char> {
    match wheel_label(direction) {
        Some(name) => "Wheel turned: "@ + name,
        None => "Unknown wheel direction: "@ + decimal(direction as nat),
    }
}

fn digit_text(d: u8) -> (text: &'static str)
    requires
        d < 10,
    ensures
        text@ == seq![digit_char(d as nat)],
{
    proof {
        reveal_strlit("0");
        reveal_strlit("1");
        reveal_strlit("2");
        reveal_strlit("3");
        reveal_strlit("4");
        reveal_strlit("5");
        reveal_strlit("6");
        reveal_strlit("7");
        reveal_strlit("8");
        reveal_strlit("9");
    }
    let text = match d {
        0 => "0",
        1 => "1",
        2 => "2",
        3 => "3",
        4 => "4",
        5 => "5",
        6 => "6",
        7 => "7",
        8 => "8",
        _ => "9",
    };
    assert(text@ =~= seq![digit_char(d as nat)]);
    text
}

/// Writes a code in decimal.
pub fn decimal_text(n: u8) -> (text: String)
    ensures
        text@ == decimal(n as nat),
{
    let mut text = String::new();
    if n >= 100 {
        text.append(digit_text(n / 100));
    }
    if n >= 10 {
        text.append(digit_text((n / 10) % 10));
    }
    text.append(digit_text(n % 10));
    proof {
        reveal_with_fuel(decimal, 4);
        assert(text@ =~= decimal(n as nat));
    }
    text
}

/// Handles a motion request: the six readings are dispatched as one motion
/// event.
pub fn imu_data(query: ImuData, sink: &mut Vec<Notification>)
    ensures
        emitted(
            old(sink)@,
            final(sink)@,
            Some(notification_of(DomainEventView::Motion(motion_of(query)))),
        ),
{
    dispatch(decode_motion(query), sink);
}

/// Handles a button request. The press is dispatched whether or not the code
/// is known: a known code under its label, an unknown one as the bare code.
/// The response names the label, or says that the code is unknown.
pub fn press(button: u8, sink: &mut Vec<Notification>) -> (response: String)
    ensures
        response@ == press_response(button),
        emitted(
            old(sink)@,
            final(sink)@,
            Some(
                notification_of(
                    DomainEventView::ButtonPress(label_or_code(button_label(button), button)),
                ),
            ),
        ),
{
    let entry = resolve_button(button);
    dispatch(DomainEvent::ButtonPress(Label::from_entry(entry, button)), sink);
    match entry {
        Some(name) => String::from_str("Button pressed: ").concat(name),
        None => {
            let number = decimal_text(button);
            String::from_str("Unknown button pressed: ").concat(number.as_str())
        },
    }
}

/// Handles a wheel request. The turn is dispatched whether or not the code is
/// known: a known code under its label, an unknown one as the bare code. The
/// response names the label, or says that the code is unknown.
pub fn wheel(direction: u8, sink: &mut Vec<Notification>) -> (response: String)
    ensures
        response@ == wheel_response(direction),
        emitted(
            old(sink)@,
            final(sink)@,
            Some(
                notification_of(
                    DomainEventView::WheelTurn(label_or_code(wheel_label(direction), direction)),
                ),
            ),
        ),
{
    let entry = resolve_wheel(direction);
    dispatch(DomainEvent::WheelTurn(Label::from_entry(entry, direction)), sink);
    match entry {
        Some(name) => String::from_str("Wheel turned: ").concat(name),
        None => {
            let number = decimal_text(direction);
            String::from_str("Unknown wheel direction: ").concat(number.as_str())
        },
    }
}

} // verus!
