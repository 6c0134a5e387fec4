//! The status notification of the controller.
//!
//! A status arrives as eight bytes: power, mode, speed, brightness, pixel
//! type, color order and two bytes whose meaning is not known.

use vstd::prelude::*;
use vstd::std_specs::convert::TryFromSpecImpl;

use crate::commands::{Command, STATUS_RETURN_LENGTH};
use crate::error::{ProtocolError, StatusField};
use crate::settings::{ColorOrder, PixelType};

verus! {

/// The largest mode byte that is the index of an animation.
pub const MODE_LAST_ANIMATION: u8 = 0xC8;

/// The mode byte that stands for a custom color.
pub const MODE_CUSTOM_COLOR: u8 = 0xC9;

/// The largest mode byte that stands for a mode.
pub const MODE_LAST: u8 = 0xCE;

/// What the controller reports of itself.
#[derive(PartialEq, Eq, Clone, Copy, Debug)]
pub struct StatusResp {
    /// Whether the strip is on: 0 when off, 1 when on.
    pub power: u8,
    /// What the strip shows: an animation, a fixed color, or a custom color.
    /// A custom color is reported as `Command::Color([0, 0, 0])`, for the
    /// controller does not say which color it shows.
    pub mode: Command,
    /// The animation speed, from 0 to 6. It is reported in every mode.
    pub speed: u8,
    /// The brightness, from 0 to 6.
    pub brightness: u8,
    /// The type of the pixels.
    pub pixel_type: PixelType,
    /// The order of the color channels.
    pub color_order: ColorOrder,
    /// The last two bytes of the notification, as they arrived.
    pub _unknown: [u8; 2],
}

/// The mode a mode byte stands for. A byte up to 0xC8 is the index of the
/// running animation, 0xC9 stands for a custom color, 0xCA to 0xCE for the
/// five fixed colors, and a larger byte for nothing.
pub open spec fn mode_of(raw: u8) -> Option<Command> {
    if raw <= MODE_LAST_ANIMATION {
        Some(Command::Animation(raw))
    } else if raw == MODE_CUSTOM_COLOR {
        Some(Command::Color([0u8, 0u8, 0u8]))
    } else if raw == 0xCA {
        Some(Command::FixedRed)
    } else if raw == 0xCB {
        Some(Command::FixedGreen)
    } else if raw == 0xCC {
        Some(Command::FixedBlue)
    } else if raw == 0xCD {
        Some(Command::FixedWhite1)
    } else if raw == 0xCE {
        Some(Command::FixedWhite2)
    } else {
        None
    }
}

/// What a payload decodes to. The length is checked first, then the mode,
/// the pixel type and the color order, and the first check that fails
/// names the error. The other bytes are taken as they are.
pub open spec fn decoded(bytes: Seq<u8>) -> Result<StatusResp, ProtocolError> {
    if bytes.len() != STATUS_RETURN_LENGTH {
        Err(ProtocolError::MalformedStatus)
    } else if mode_of(bytes[1]) is None {
        Err(ProtocolError::UnknownMode(bytes[1]))
    } else if bytes[4] > 26 {
        Err(ProtocolError::InvalidEnumValue { field: StatusField::PixelType, value: bytes[4] })
    } else if bytes[5] > 5 {
        Err(ProtocolError::InvalidEnumValue { field: StatusField::ColorOrder, value: bytes[5] })
    } else {
        Ok(
            StatusResp {
                power: bytes[0],
                mode: mode_of(bytes[1]).unwrap(),
                speed: bytes[2],
                brightness: bytes[3],
                pixel_type: PixelType::at(bytes[4]),
                color_order: ColorOrder::at(bytes[5]),
                _unknown: [bytes[6], bytes[7]],
            },
        )
    }
}

/// Reads a mode byte.
pub fn decode_mode(raw: u8) -> (mode: Result<Command, ProtocolError>)
    ensures
        mode == (match mode_of(raw) {
            Some(command) => Ok::<Command, ProtocolError>(command),
            None => Err::<Command, ProtocolError>(ProtocolError::UnknownMode(raw)),
        }),
        mode is Ok <==> raw <= MODE_LAST,
{
    if raw <= MODE_LAST_ANIMATION {
        Ok(Command::Animation(raw))
    } else {
        match raw {
            0xC9 => {
                let custom = Command::Color([0, 0, 0]);
                assert(custom->Color_0 =~= [0u8, 0u8, 0u8]);
                Ok(custom)
            },
            0xCA => Ok(Command::FixedRed),
            0xCB => Ok(Command::FixedGreen),
            0xCC => Ok(Command::FixedBlue),
            0xCD => Ok(Command::FixedWhite1),
            0xCE => Ok(Command::FixedWhite2),
            _ => Err(ProtocolError::UnknownMode(raw)),
        }
    }
}

impl StatusResp {
    /// Decodes the payload of a status notification.
    pub fn decode(bytes: &[u8]) -> (status: Result<StatusResp, ProtocolError>)
        ensures
            status == decoded(bytes@),
    {
        if bytes.len() != STATUS_RETURN_LENGTH as usize {
            return Err(ProtocolError::MalformedStatus);
        }
        let mode = match decode_mode(bytes[1]) {
            Ok(mode) => mode,
            Err(error) => {
                return Err(error);
            },
        };
        let pixel_type = match PixelType::from_ordinal(bytes[4]) {
            Some(pixel_type) => pixel_type,
            None => {
                return Err(
                    ProtocolError::InvalidEnumValue {
                        field: StatusField::PixelType,
                        value: bytes[4],
                    },
                );
            },
        };
        let color_order = match ColorOrder::from_ordinal(bytes[5]) {
            Some(color_order) => color_order,
            None => {
                return Err(
                    ProtocolError::InvalidEnumValue {
                        field: StatusField::ColorOrder,
                        value: bytes[5],
                    },
                );
            },
        };
        let status = StatusResp {
            power: bytes[0],
            mode,
            speed: bytes[2],
            brightness: bytes[3],
            pixel_type,
            color_order,
            _unknown: [bytes[6], bytes[7]],
        };
        assert(status._unknown =~= [bytes@[6], bytes@[7]]);
        Ok(status)
    }

    /// The eight bytes that decode to the status.
    pub open spec fn bytes_of(self) -> Seq<u8> {
        seq![
            self.power,
            mode_byte_of(self.mode),
            self.speed,
            self.brightness,
            self.pixel_type.ordinal_of(),
            self.color_order.ordinal_of(),
            self._unknown[0],
            self._unknown[1],
        ]
    }
}

/// The byte that stands for a mode in a status notification. Commands that
/// are no mode have none; zero stands there.
pub open spec fn mode_byte_of(mode: Command) -> u8 {
    match mode {
        Command::Animation(index) => index,
        Command::Color(_) => MODE_CUSTOM_COLOR,
        Command::FixedRed => 0xCAu8,
        Command::FixedGreen => 0xCBu8,
        Command::FixedBlue => 0xCCu8,
        Command::FixedWhite1 => 0xCDu8,
        Command::FixedWhite2 => 0xCEu8,
        _ => 0u8,
    }
}

impl TryFrom<Vec<u8>> for StatusResp {
    type Error = ProtocolError;

    /// Decodes the payload of a status notification.
    fn try_from(value: Vec<u8>) -> (status: Result<StatusResp, ProtocolError>) {
        StatusResp::decode(value.as_slice())
    }
}

impl TryFromSpecImpl<Vec<u8>> for StatusResp {
    open spec fn obeys_try_from_spec() -> bool {
        true
    }

    open spec fn try_from_spec(value: Vec<u8>) -> Result<StatusResp, ProtocolError> {
        decoded(value@)
    }
}

/// A payload whose length is not eight is refused as malformed, whatever
/// it holds.
pub proof fn lemma_wrong_length_is_malformed(bytes: Seq<u8>)
    requires
        bytes.len() != 8,
    ensures
        decoded(bytes) == Err::<StatusResp, ProtocolError>(ProtocolError::MalformedStatus),
{
}

/// A payload decodes exactly if it has eight bytes, a mode byte up to
/// 0xCE, a pixel type byte up to 26 and a color order byte up to 5.
pub proof fn lemma_decodes_iff_valid(bytes: Seq<u8>)
    ensures
        decoded(bytes) is Ok <==> bytes.len() == 8 && bytes[1] <= 0xCE && bytes[4] <= 26
            && bytes[5] <= 5,
{
}

/// A payload of eight bytes whose mode byte is above 0xCE is refused with
/// `UnknownMode` and that byte, whatever the other bytes hold.
pub proof fn lemma_unknown_mode(bytes: Seq<u8>)
    requires
        bytes.len() == 8,
        bytes[1] > MODE_LAST,
    ensures
        decoded(bytes) == Err::<StatusResp, ProtocolError>(ProtocolError::UnknownMode(bytes[1])),
{
}

/// A payload of eight bytes with a known mode whose pixel type byte is
/// above 26 is refused with `InvalidEnumValue`, the field and that byte.
/// With a known pixel type, a color order byte above 5 is refused alike.
pub proof fn lemma_invalid_enum_value(bytes: Seq<u8>)
    requires
        bytes.len() == 8,
        bytes[1] <= MODE_LAST,
    ensures
        bytes[4] > 26 ==> decoded(bytes) == Err::<StatusResp, ProtocolError>(
            ProtocolError::InvalidEnumValue { field: StatusField::PixelType, value: bytes[4] },
        ),
        bytes[4] <= 26 && bytes[5] > 5 ==> decoded(bytes) == Err::<StatusResp, ProtocolError>(
            ProtocolError::InvalidEnumValue { field: StatusField::ColorOrder, value: bytes[5] },
        ),
{
}

/// Nothing is lost in decoding: the bytes of a decoded status are the
/// payload it was decoded from. So no two payloads decode to one status,
/// and every field is the byte at its place.
pub proof fn lemma_decoded_keeps_bytes(bytes: Seq<u8>)
    requires
        decoded(bytes) is Ok,
    ensures
        decoded(bytes).unwrap().bytes_of() == bytes,
{
    let status = decoded(bytes).unwrap();
    PixelType::lemma_ordinal_at(bytes[4]);
    ColorOrder::lemma_ordinal_at(bytes[5]);
    assert(status.bytes_of() =~= bytes);
}

} // verus!
