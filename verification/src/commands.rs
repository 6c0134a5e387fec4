//! The commands of the controller and the frames that carry them.

use vstd::prelude::*;

use crate::error::ProtocolError;
pub use crate::settings::{ColorOrder, PixelType};
pub use crate::status::StatusResp;

verus! {

/// Number of bytes in a command frame.
pub const COMMAND_BUF_LENGTH: usize = 5;

/// First byte of every frame sent to the SP105E.
pub const COMMAND_PREFIX: u8 = 0x38;

/// Number of bytes in the notification that answers a status query.
pub const STATUS_RETURN_LENGTH: u8 = 8;

/// The GATT service of the controller.
pub const GATT_SERVICE_UUID: &'static str = "0000ffe0-0000-1000-8000-00805f9b34fb";

/// The GATT characteristic that frames are written to and notifications
/// arrive on.
pub const GATT_CHARACTERISTIC_UUID: &'static str = "0000ffe1-0000-1000-8000-00805f9b34fb";

/// Smallest number of pixels the controller accepts.
pub const MIN_PIXELS: u16 = 1;

/// Largest number of pixels the controller accepts.
pub const MAX_PIXELS: u16 = 2048;

/// Index of the last preprogrammed animation.
pub const MAX_ANIMATION: u8 = 200;

/// Number of command kinds.
pub const KIND_COUNT: usize = 17;

/// What a command does, without what it carries. Each kind has one opcode,
/// the last byte of its frame.
#[derive(PartialEq, Eq, Clone, Copy, Debug, Structural)]
pub enum Kind {
    /// Asks the controller to announce itself.
    Hello,
    /// Asks the controller for a status notification.
    Status,
    /// Toggles the power.
    Power,
    /// Sets the number of pixels on the strip.
    SetPixels,
    /// Sets the order of the color channels.
    SetColorOrder,
    /// Sets the type of the pixels.
    SetPixelType,
    /// Shows the fixed color red.
    FixedRed,
    /// Shows the fixed color green.
    FixedGreen,
    /// Shows the fixed color blue.
    FixedBlue,
    /// Shows the first fixed white.
    FixedWhite1,
    /// Shows the second fixed white.
    FixedWhite2,
    /// Starts a preprogrammed animation.
    Animation,
    /// Shows a custom color.
    Color,
    /// Raises the animation speed by one step.
    SpeedUp,
    /// Lowers the animation speed by one step.
    SpeedDown,
    /// Raises the brightness by one step.
    BrightnessUp,
    /// Lowers the brightness by one step.
    BrightnessDown,
}

impl Kind {
    /// The position of the kind in the list of kinds, below `KIND_COUNT`.
    pub open spec fn index_of(self) -> int {
        match self {
            Kind::Hello => 0,
            Kind::Status => 1,
            Kind::Power => 2,
            Kind::SetPixels => 3,
            Kind::SetColorOrder => 4,
            Kind::SetPixelType => 5,
            Kind::FixedRed => 6,
            Kind::FixedGreen => 7,
            Kind::FixedBlue => 8,
            Kind::FixedWhite1 => 9,
            Kind::FixedWhite2 => 10,
            Kind::Animation => 11,
            Kind::Color => 12,
            Kind::SpeedUp => 13,
            Kind::SpeedDown => 14,
            Kind::BrightnessUp => 15,
            Kind::BrightnessDown => 16,
        }
    }

    /// The kind at a position of the list of kinds. Positions outside the
    /// list have no meaning; `Kind::BrightnessDown` stands there.
    pub open spec fn at(index: int) -> Kind {
        if index == 0 {
            Kind::Hello
        } else if index == 1 {
            Kind::Status
        } else if index == 2 {
            Kind::Power
        } else if index == 3 {
            Kind::SetPixels
        } else if index == 4 {
            Kind::SetColorOrder
        } else if index == 5 {
            Kind::SetPixelType
        } else if index == 6 {
            Kind::FixedRed
        } else if index == 7 {
            Kind::FixedGreen
        } else if index == 8 {
            Kind::FixedBlue
        } else if index == 9 {
            Kind::FixedWhite1
        } else if index == 10 {
            Kind::FixedWhite2
        } else if index == 11 {
            Kind::Animation
        } else if index == 12 {
            Kind::Color
        } else if index == 13 {
            Kind::SpeedUp
        } else if index == 14 {
            Kind::SpeedDown
        } else if index == 15 {
            Kind::BrightnessUp
        } else {
            Kind::BrightnessDown
        }
    }

    /// The opcode of the kind on the SP105E.
    pub open spec fn standard_opcode(self) -> u8 {
        match self {
            Kind::Hello => 0xD5u8,
            Kind::Status => 0x10u8,
            Kind::Power => 0xAAu8,
            Kind::SetPixels => 0x2Du8,
            Kind::SetColorOrder => 0x3Cu8,
            Kind::SetPixelType => 0x1Cu8,
            Kind::FixedRed => 0x12u8,
            Kind::FixedGreen => 0x18u8,
            Kind::FixedBlue => 0x36u8,
            Kind::FixedWhite1 => 0x3Bu8,
            Kind::FixedWhite2 => 0x56u8,
            Kind::Animation => 0x2Cu8,
            Kind::Color => 0x1Eu8,
            Kind::SpeedUp => 0x03u8,
            Kind::SpeedDown => 0x09u8,
            Kind::BrightnessUp => 0x2Au8,
            Kind::BrightnessDown => 0x28u8,
        }
    }

    /// The position of the kind in the list of kinds.
    pub fn index(&self) -> (index: usize)
        ensures
            index == self.index_of(),
            index < KIND_COUNT,
    {
        match self {
            Kind::Hello => 0,
            Kind::Status => 1,
            Kind::Power => 2,
            Kind::SetPixels => 3,
            Kind::SetColorOrder => 4,
            Kind::SetPixelType => 5,
            Kind::FixedRed => 6,
            Kind::FixedGreen => 7,
            Kind::FixedBlue => 8,
            Kind::FixedWhite1 => 9,
            Kind::FixedWhite2 => 10,
            Kind::Animation => 11,
            Kind::Color => 12,
            Kind::SpeedUp => 13,
            Kind::SpeedDown => 14,
            Kind::BrightnessUp => 15,
            Kind::BrightnessDown => 16,
        }
    }

    /// The kind at a position of the list of kinds, if the position is in
    /// the list.
    pub fn from_index(index: usize) -> (kind: Option<Kind>)
        ensures
            kind == (if index < KIND_COUNT {
                Some(Kind::at(index as int))
            } else {
                None::<Kind>
            }),
            kind matches Some(k) ==> k.index_of() == index,
    {
        match index {
            0 => Some(Kind::Hello),
            1 => Some(Kind::Status),
            2 => Some(Kind::Power),
            3 => Some(Kind::SetPixels),
            4 => Some(Kind::SetColorOrder),
            5 => Some(Kind::SetPixelType),
            6 => Some(Kind::FixedRed),
            7 => Some(Kind::FixedGreen),
            8 => Some(Kind::FixedBlue),
            9 => Some(Kind::FixedWhite1),
            10 => Some(Kind::FixedWhite2),
            11 => Some(Kind::Animation),
            12 => Some(Kind::Color),
            13 => Some(Kind::SpeedUp),
            14 => Some(Kind::SpeedDown),
            15 => Some(Kind::BrightnessUp),
            16 => Some(Kind::BrightnessDown),
            _ => None,
        }
    }

    /// Kinds and positions correspond one to one.
    pub proof fn lemma_at_index(self)
        ensures
            0 <= self.index_of() < KIND_COUNT,
            Kind::at(self.index_of()) == self,
    {
    }

    /// Every position of the list holds the kind whose position it is.
    pub proof fn lemma_index_at(index: int)
        requires
            0 <= index < KIND_COUNT,
        ensures
            Kind::at(index).index_of() == index,
    {
    }

    /// No opcode of the SP105E stands for two kinds.
    pub proof fn lemma_standard_opcodes_distinct(self, other: Kind)
        requires
            self.standard_opcode() == other.standard_opcode(),
        ensures
            self == other,
    {
    }
}

/// A command for the controller.
#[derive(PartialEq, Eq, Clone, Copy, Debug)]
pub enum Command {
    /// Asks the controller to announce itself.
    Hello,
    /// Asks the controller for its status, which arrives as a notification.
    Status,
    /// Toggles the power.
    Power,
    /// Sets the number of pixels on the strip, from 1 to 2048.
    SetPixels(u16),
    /// Sets the order in which the color channels are sent to the strip.
    SetColorOrder(ColorOrder),
    /// Sets the type of the pixels on the strip.
    SetPixelType(PixelType),
    /// Shows the fixed color red.
    FixedRed,
    /// Shows the fixed color green.
    FixedGreen,
    /// Shows the fixed color blue.
    FixedBlue,
    /// Shows the first fixed white.
    FixedWhite1,
    /// Shows the second fixed white.
    FixedWhite2,
    /// Starts the preprogrammed animation with the given index, from 0 to
    /// 200.
    Animation(u8),
    /// Shows a custom color. The three bytes are sent as they are; which of
    /// them is red depends on the color order the controller is set to.
    Color([u8; 3]),
    /// Raises the animation speed by one step.
    SpeedUp,
    /// Lowers the animation speed by one step.
    SpeedDown,
    /// Raises the brightness by one step.
    BrightnessUp,
    /// Lowers the brightness by one step.
    BrightnessDown,
}

impl Command {
    /// What the command does.
    pub open spec fn kind_of(self) -> Kind {
        match self {
            Command::Hello => Kind::Hello,
            Command::Status => Kind::Status,
            Command::Power => Kind::Power,
            Command::SetPixels(_) => Kind::SetPixels,
            Command::SetColorOrder(_) => Kind::SetColorOrder,
            Command::SetPixelType(_) => Kind::SetPixelType,
            Command::FixedRed => Kind::FixedRed,
            Command::FixedGreen => Kind::FixedGreen,
            Command::FixedBlue => Kind::FixedBlue,
            Command::FixedWhite1 => Kind::FixedWhite1,
            Command::FixedWhite2 => Kind::FixedWhite2,
            Command::Animation(_) => Kind::Animation,
            Command::Color(_) => Kind::Color,
            Command::SpeedUp => Kind::SpeedUp,
            Command::SpeedDown => Kind::SpeedDown,
            Command::BrightnessUp => Kind::BrightnessUp,
            Command::BrightnessDown => Kind::BrightnessDown,
        }
    }

    /// Whether the command carries nothing.
    pub open spec fn is_bare(self) -> bool {
        match self {
            Command::SetPixels(_) => false,
            Command::SetColorOrder(_) => false,
            Command::SetPixelType(_) => false,
            Command::Animation(_) => false,
            Command::Color(_) => false,
            _ => true,
        }
    }

    /// The three bytes between the prefix and the opcode of the frame. A
    /// pixel count is written high byte first, a setting as its ordinal, a
    /// color as its three bytes; every place left over holds zero.
    pub open spec fn payload_of(self) -> [u8; 3] {
        match self {
            Command::SetPixels(count) => [(count / 256) as u8, (count % 256) as u8, 0u8],
            Command::SetColorOrder(order) => [order.ordinal_of(), 0u8, 0u8],
            Command::SetPixelType(pixel_type) => [pixel_type.ordinal_of(), 0u8, 0u8],
            Command::Animation(index) => [index, 0u8, 0u8],
            Command::Color(channels) => [channels[0], channels[1], channels[2]],
            _ => [0u8, 0u8, 0u8],
        }
    }

    /// Whether the controller accepts what the command carries: a pixel
    /// count from 1 to 2048, an animation index up to 200, anything else.
    pub open spec fn in_range(self) -> bool {
        match self {
            Command::SetPixels(count) => MIN_PIXELS <= count <= MAX_PIXELS,
            Command::Animation(index) => index <= MAX_ANIMATION,
            _ => true,
        }
    }

    /// The frame of the command under a prefix and an opcode.
    pub open spec fn frame_of(self, prefix: u8, opcode: u8) -> [u8; 5] {
        let payload = self.payload_of();
        [prefix, payload[0], payload[1], payload[2], opcode]
    }

    /// What the command does.
    pub fn kind(&self) -> (kind: Kind)
        ensures
            kind == self.kind_of(),
    {
        match self {
            Command::Hello => Kind::Hello,
            Command::Status => Kind::Status,
            Command::Power => Kind::Power,
            Command::SetPixels(_) => Kind::SetPixels,
            Command::SetColorOrder(_) => Kind::SetColorOrder,
            Command::SetPixelType(_) => Kind::SetPixelType,
            Command::FixedRed => Kind::FixedRed,
            Command::FixedGreen => Kind::FixedGreen,
            Command::FixedBlue => Kind::FixedBlue,
            Command::FixedWhite1 => Kind::FixedWhite1,
            Command::FixedWhite2 => Kind::FixedWhite2,
            Command::Animation(_) => Kind::Animation,
            Command::Color(_) => Kind::Color,
            Command::SpeedUp => Kind::SpeedUp,
            Command::SpeedDown => Kind::SpeedDown,
            Command::BrightnessUp => Kind::BrightnessUp,
            Command::BrightnessDown => Kind::BrightnessDown,
        }
    }

    /// The opcode of the command on the SP105E.
    pub fn discriminant(&self) -> (opcode: u8)
        ensures
            opcode == self.kind_of().standard_opcode(),
    {
        match self {
            Command::Hello => 0xD5,
            Command::Status => 0x10,
            Command::Power => 0xAA,
            Command::SetPixels(_) => 0x2D,
            Command::SetColorOrder(_) => 0x3C,
            Command::SetPixelType(_) => 0x1C,
            Command::FixedRed => 0x12,
            Command::FixedGreen => 0x18,
            Command::FixedBlue => 0x36,
            Command::FixedWhite1 => 0x3B,
            Command::FixedWhite2 => 0x56,
            Command::Animation(_) => 0x2C,
            Command::Color(_) => 0x1E,
            Command::SpeedUp => 0x03,
            Command::SpeedDown => 0x09,
            Command::BrightnessUp => 0x2A,
            Command::BrightnessDown => 0x28,
        }
    }

    /// The three bytes between the prefix and the opcode of the frame.
    pub(crate) fn payload(&self) -> (payload: [u8; 3])
        ensures
            payload == self.payload_of(),
    {
        let payload: [u8; 3] = match self {
            Command::SetPixels(count) => {
                let count: u16 = *count;
                let hi: u8 = (count >> 8) as u8;
                let lo: u8 = (count & 0xff) as u8;
                assert(hi == count / 256 && lo == count % 256) by (bit_vector)
                    requires
                        hi == (count >> 8) as u8,
                        lo == (count & 0xff) as u8,
                ;
                [hi, lo, 0]
            },
            Command::SetColorOrder(order) => [order.ordinal(), 0, 0],
            Command::SetPixelType(pixel_type) => [pixel_type.ordinal(), 0, 0],
            Command::Animation(index) => [*index, 0, 0],
            Command::Color(channels) => [channels[0], channels[1], channels[2]],
            _ => [0, 0, 0],
        };
        assert(payload =~= self.payload_of());
        payload
    }

    /// Whether the controller accepts what the command carries.
    pub fn is_in_range(&self) -> (accepted: bool)
        ensures
            accepted == self.in_range(),
    {
        match self {
            Command::SetPixels(count) => MIN_PIXELS <= *count && *count <= MAX_PIXELS,
            Command::Animation(index) => *index <= MAX_ANIMATION,
            _ => true,
        }
    }

    /// Encodes the command for the SP105E: the prefix 0x38, the payload,
    /// the opcode. A pixel count outside 1 to 2048 and an animation index
    /// above 200 are refused with `OutOfRange`; every other command gives
    /// its frame. `Codec::encode` does the same under any codec.
    pub fn buf(&self) -> (frame: Result<Box<[u8; COMMAND_BUF_LENGTH]>, ProtocolError>)
        ensures
            frame is Ok <==> self.in_range(),
            frame matches Ok(bytes) ==> *bytes == self.frame_of(
                COMMAND_PREFIX,
                self.kind_of().standard_opcode(),
            ),
            frame matches Err(error) ==> error == ProtocolError::OutOfRange,
    {
        if !self.is_in_range() {
            return Err(ProtocolError::OutOfRange);
        }
        let payload = self.payload();
        let frame: [u8; COMMAND_BUF_LENGTH] = [
            COMMAND_PREFIX,
            payload[0],
            payload[1],
            payload[2],
            self.discriminant(),
        ];
        assert(frame =~= self.frame_of(COMMAND_PREFIX, self.kind_of().standard_opcode()));
        Ok(Box::new(frame))
    }
}

} // verus!
