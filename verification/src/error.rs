//! Error values returned by the codec, the status decoder and the client.

use vstd::prelude::*;

verus! {

/// The enumerated fields of a status notification.
#[derive(PartialEq, Eq, Clone, Copy, Debug, Structural)]
pub enum StatusField {
    /// The pixel type byte, fifth in the notification.
    PixelType,
    /// The color order byte, sixth in the notification.
    ColorOrder,
}

impl StatusField {
    /// The name of the field as it is written in diagnostics.
    pub fn name(&self) -> (text: &'static str)
        ensures
            text@ == (match *self {
                StatusField::PixelType => "pixel_type"@,
                StatusField::ColorOrder => "color_order"@,
            }),
    {
        match self {
            StatusField::PixelType => "pixel_type",
            StatusField::ColorOrder => "color_order",
        }
    }
}

/// A violation of the wire protocol: a payload the controller does not
/// accept, or a status notification that cannot be read.
#[derive(PartialEq, Eq, Clone, Copy, Debug, Structural)]
pub enum ProtocolError {
    /// A pixel count or an animation index lies outside the range the
    /// controller accepts.
    OutOfRange,
    /// A status payload is not exactly eight bytes long.
    MalformedStatus,
    /// The mode byte of a status payload names no known mode.
    UnknownMode(u8),
    /// An enumerated field of a status payload holds no ordinal of its
    /// enumeration.
    InvalidEnumValue { field: StatusField, value: u8 },
    /// The notification source ended before a whole status had arrived.
    IncompleteStatus,
}

/// A failure reported by, or decided about, the transport.
#[derive(PartialEq, Eq, Clone, Copy, Debug, Structural)]
pub enum TransportError {
    /// Every connect attempt failed.
    ConnectionFailed,
    /// The device offers no service with the wanted characteristic.
    CharacteristicNotFound,
    /// A transport call other than a connect attempt failed. The driver
    /// holds the cause.
    Failed,
}

/// Everything an operation of the client can fail with.
#[derive(PartialEq, Eq, Clone, Copy, Debug, Structural)]
pub enum Error {
    /// The transport failed.
    Transport(TransportError),
    /// The protocol was violated.
    Protocol(ProtocolError),
    /// The operation is not permitted in the state the client is in.
    ConnectionState,
}

} // verus!
