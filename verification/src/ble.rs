//! The handling of peripheral updates of the BLE surface, without the radio.
//!
//! A write to one of three characteristics carries a message. Button and
//! wheel writes are decoded and dispatched here. A motion write is text whose
//! six readings the caller extracts and hands to the motion handler.

use vstd::prelude::*;
use crate::decode::{
    button_event, decode_button, decode_wheel, shape_of, wheel_event, RawInput, RawInputView,
};
use crate::dispatch::{emitted, forward, notification_of_decoded, Notification, NotificationView};
use crate::text::{read_text, text_of};

verus! {

/// An update from the peripheral, with identifiers as 128-bit numbers.
#[derive(Clone, Debug, PartialEq, Eq)]
pub enum PeripheralUpdate {
    /// The adapter was switched on or off.
    StateUpdate { is_powered: bool },
    /// A central subscribed to a characteristic, or left it.
    CharacteristicSubscriptionUpdate { characteristic: u128, subscribed: bool },
    /// A central asked to read a characteristic.
    ReadRequest { characteristic: u128, offset: u64 },
    /// A central wrote a value to a characteristic.
    WriteRequest { characteristic: u128, value: Vec<u8> },
}

/// The three characteristics that take writes.
#[derive(Clone, Copy, Debug, PartialEq, Eq, Structural)]
pub enum Channel {
    Imu,
    Button,
    Wheel,
}

/// What is left for the caller to do after an update was handled.
#[derive(Clone, Debug, PartialEq, Eq)]
pub struct Handled {
    /// Whether the request is to be answered with success.
    pub respond_success: bool,
    /// The text of a motion message, still to be read.
    pub motion_text: Option<String>,
}

/// The channel that a characteristic belongs to. The motion characteristic is
/// compared first, then the button's, then the wheel's.
pub open spec fn channel_of(
    characteristic: u128,
    imu_uuid: u128,
    button_uuid: u128,
    wheel_uuid: u128,
) -> Option<Channel> {
    if characteristic == imu_uuid {
        Some(Channel::Imu)
    } else if characteristic == button_uuid {
        Some(Channel::Button)
    } else if characteristic == wheel_uuid {
        Some(Channel::Wheel)
    } else {
        None
    }
}

/// What a write of `value` to a channel emits.
pub open spec fn write_emits(channel: Option<Channel>, value: Seq<u8>) -> Option<
    NotificationView,
> {
    match channel {
        Some(Channel::Button) => notification_of_decoded(
            button_event(shape_of(RawInputView::Buffer(value))),
        ),
        Some(Channel::Wheel) => notification_of_decoded(
            wheel_event(shape_of(RawInputView::Buffer(value))),
        ),
        _ => None,
    }
}

/// The motion text that a write of `value` to a channel leaves to be read.
pub open spec fn write_motion_text(channel: Option<Channel>, value: Seq<u8>) -> Option<
    Seq<char>,
> {
    match channel {
        Some(Channel::Imu) => text_of(value),
        _ => None,
    }
}

/// The view of a text that may be absent.
pub open spec fn text_view(text: Option<String>) -> Option<Seq<char>> {
    match text {
        Some(s) => Some(s@),
        None => None,
    }
}

/// Finds the channel of a characteristic.
pub fn route(characteristic: u128, imu_uuid: u128, button_uuid: u128, wheel_uuid: u128) -> (channel:
    Option<Channel>)
    ensures
        channel == channel_of(characteristic, imu_uuid, button_uuid, wheel_uuid),
{
    if characteristic == imu_uuid {
        Some(Channel::Imu)
    } else if characteristic == button_uuid {
        Some(Channel::Button)
    } else if characteristic == wheel_uuid {
        Some(Channel::Wheel)
    } else {
        None
    }
}

/// Handles one update from the peripheral.
///
/// Only a write request has any effect. It is always answered with success,
/// whatever it carried. A button or wheel write emits the notification of its
/// event, or nothing where the message is dropped. A motion write emits
/// nothing here: its text, if it is text, is returned.
pub fn handle_updates(
    update: PeripheralUpdate,
    imu_uuid: u128,
    button_uuid: u128,
    wheel_uuid: u128,
    sink: &mut Vec<Notification>,
) -> (handled: Handled)
    ensures
        handled.respond_success == (update is WriteRequest),
        match update {
            PeripheralUpdate::WriteRequest { characteristic, value } => {
                let channel = channel_of(characteristic, imu_uuid, button_uuid, wheel_uuid);
                &&& emitted(old(sink)@, final(sink)@, write_emits(channel, value@))
                &&& text_view(handled.motion_text) == write_motion_text(channel, value@)
            },
            _ => final(sink)@ == old(sink)@ && handled.motion_text.is_none(),
        },
{
    match update {
        PeripheralUpdate::WriteRequest { characteristic, value } => {
            let motion_text = match route(characteristic, imu_uuid, button_uuid, wheel_uuid) {
                Some(Channel::Imu) => read_text(&value),
                Some(Channel::Button) => {
                    forward(decode_button(RawInput::Buffer(value)), sink);
                    None
                },
                Some(Channel::Wheel) => {
                    forward(decode_wheel(RawInput::Buffer(value)), sink);
                    None
                },
                None => None,
            };
            Handled { respond_success: true, motion_text }
        },
        _ => Handled { respond_success: false, motion_text: None },
    }
}

} // verus!
