//! The settings a command can carry: the order of the color channels and the
//! type of the pixels on the strip.

use vstd::prelude::*;

verus! {

/// The order in which the controller sends the three color channels to the
/// strip.
#[derive(PartialEq, Eq, Clone, Copy, Debug, Structural)]
pub enum ColorOrder {
    RGB,
    RBG,
    GRB,
    GBR,
    BRG,
    BGR,
}

impl ColorOrder {
    /// The zero-based position of the value in the enumeration, which is
    /// the byte that stands for it on the wire.
    pub open spec fn ordinal_of(self) -> u8 {
        match self {
            ColorOrder::RGB => 0u8,
            ColorOrder::RBG => 1u8,
            ColorOrder::GRB => 2u8,
            ColorOrder::GBR => 3u8,
            ColorOrder::BRG => 4u8,
            ColorOrder::BGR => 5u8,
        }
    }

    /// The value at a position of the enumeration. Positions past the last
    /// value have no meaning; `ColorOrder::BGR` stands there.
    pub open spec fn at(ordinal: u8) -> ColorOrder {
        if ordinal == 0 {
            ColorOrder::RGB
        } else if ordinal == 1 {
            ColorOrder::RBG
        } else if ordinal == 2 {
            ColorOrder::GRB
        } else if ordinal == 3 {
            ColorOrder::GBR
        } else if ordinal == 4 {
            ColorOrder::BRG
        } else {
            ColorOrder::BGR
        }
    }

    /// The byte that stands for the value on the wire.
    pub fn ordinal(&self) -> (ordinal: u8)
        ensures
            ordinal == self.ordinal_of(),
            ordinal <= 5,
    {
        match self {
            ColorOrder::RGB => 0,
            ColorOrder::RBG => 1,
            ColorOrder::GRB => 2,
            ColorOrder::GBR => 3,
            ColorOrder::BRG => 4,
            ColorOrder::BGR => 5,
        }
    }

    /// The value that a byte stands for, if it stands for one: a byte up to
    /// 5 gives the value whose ordinal it is, a larger one gives nothing.
    pub fn from_ordinal(ordinal: u8) -> (value: Option<ColorOrder>)
        ensures
            value == (if ordinal <= 5 {
                Some(ColorOrder::at(ordinal))
            } else {
                None::<ColorOrder>
            }),
            value matches Some(v) ==> v.ordinal_of() == ordinal,
    {
        match ordinal {
            0 => Some(ColorOrder::RGB),
            1 => Some(ColorOrder::RBG),
            2 => Some(ColorOrder::GRB),
            3 => Some(ColorOrder::GBR),
            4 => Some(ColorOrder::BRG),
            5 => Some(ColorOrder::BGR),
            _ => None,
        }
    }

    /// Ordinals and values correspond one to one: the value at the ordinal
    /// of `self` is `self`, so no two values share an ordinal.
    pub proof fn lemma_at_ordinal(self)
        ensures
            self.ordinal_of() <= 5,
            ColorOrder::at(self.ordinal_of()) == self,
    {
    }

    /// Every byte up to 5 is the ordinal of the value that stands at it.
    pub proof fn lemma_ordinal_at(ordinal: u8)
        requires
            ordinal <= 5,
        ensures
            ColorOrder::at(ordinal).ordinal_of() == ordinal,
    {
    }
}

impl Default for ColorOrder {
    /// Red, green, blue.
    fn default() -> (value: ColorOrder)
        ensures
            value == ColorOrder::RGB,
    {
        ColorOrder::RGB
    }
}
/// The LED driver chips the controller can address.
#[derive(PartialEq, Eq, Clone, Copy, Debug, Structural)]
pub enum PixelType {
    SM16703,
    TM1804,
    USC1903,
    WS2811,
    WS2801,
    SK6812,
    SK6812RGBW,
    LPD6803,
    LPD8806,
    APA102,
    APA105,
    TM1814,
    TM1914,
    TM1913,
    P9813,
    INK1003,
    DMX512,
    P943S,
    P9411,
    P9412,
    P9413,
    P9414,
    TX1812,
    TX1813,
    GS8206,
    GS8208,
    SK9822,
}

impl PixelType {
    /// The zero-based position of the value in the enumeration, which is
    /// the byte that stands for it on the wire.
    pub open spec fn ordinal_of(self) -> u8 {
        match self {
            PixelType::SM16703 => 0u8,
            PixelType::TM1804 => 1u8,
            PixelType::USC1903 => 2u8,
            PixelType::WS2811 => 3u8,
            PixelType::WS2801 => 4u8,
            PixelType::SK6812 => 5u8,
            PixelType::SK6812RGBW => 6u8,
            PixelType::LPD6803 => 7u8,
            PixelType::LPD8806 => 8u8,
            PixelType::APA102 => 9u8,
            PixelType::APA105 => 10u8,
            PixelType::TM1814 => 11u8,
            PixelType::TM1914 => 12u8,
            PixelType::TM1913 => 13u8,
            PixelType::P9813 => 14u8,
            PixelType::INK1003 => 15u8,
            PixelType::DMX512 => 16u8,
            PixelType::P943S => 17u8,
            PixelType::P9411 => 18u8,
            PixelType::P9412 => 19u8,
            PixelType::P9413 => 20u8,
            PixelType::P9414 => 21u8,
            PixelType::TX1812 => 22u8,
            PixelType::TX1813 => 23u8,
            PixelType::GS8206 => 24u8,
            PixelType::GS8208 => 25u8,
            PixelType::SK9822 => 26u8,
        }
    }

    /// The value at a position of the enumeration. Positions past the last
    /// value have no meaning; `PixelType::SK9822` stands there.
    pub open spec fn at(ordinal: u8) -> PixelType {
        if ordinal == 0 {
            PixelType::SM16703
        } else if ordinal == 1 {
            PixelType::TM1804
        } else if ordinal == 2 {
            PixelType::USC1903
        } else if ordinal == 3 {
            PixelType::WS2811
        } else if ordinal == 4 {
            PixelType::WS2801
        } else if ordinal == 5 {
            PixelType::SK6812
        } else if ordinal == 6 {
            PixelType::SK6812RGBW
        } else if ordinal == 7 {
            PixelType::LPD6803
        } else if ordinal == 8 {
            PixelType::LPD8806
        } else if ordinal == 9 {
            PixelType::APA102
        } else if ordinal == 10 {
            PixelType::APA105
        } else if ordinal == 11 {
            PixelType::TM1814
        } else if ordinal == 12 {
            PixelType::TM1914
        } else if ordinal == 13 {
            PixelType::TM1913
        } else if ordinal == 14 {
            PixelType::P9813
        } else if ordinal == 15 {
            PixelType::INK1003
        } else if ordinal == 16 {
            PixelType::DMX512
        } else if ordinal == 17 {
            PixelType::P943S
        } else if ordinal == 18 {
            PixelType::P9411
        } else if ordinal == 19 {
            PixelType::P9412
        } else if ordinal == 20 {
            PixelType::P9413
        } else if ordinal == 21 {
            PixelType::P9414
        } else if ordinal == 22 {
            PixelType::TX1812
        } else if ordinal == 23 {
            PixelType::TX1813
        } else if ordinal == 24 {
            PixelType::GS8206
        } else if ordinal == 25 {
            PixelType::GS8208
        } else {
            PixelType::SK9822
        }
    }

    /// The byte that stands for the value on the wire.
    pub fn ordinal(&self) -> (ordinal: u8)
        ensures
            ordinal == self.ordinal_of(),
            ordinal <= 26,
    {
        match self {
            PixelType::SM16703 => 0,
            PixelType::TM1804 => 1,
            PixelType::USC1903 => 2,
            PixelType::WS2811 => 3,
            PixelType::WS2801 => 4,
            PixelType::SK6812 => 5,
            PixelType::SK6812RGBW => 6,
            PixelType::LPD6803 => 7,
            PixelType::LPD8806 => 8,
            PixelType::APA102 => 9,
            PixelType::APA105 => 10,
            PixelType::TM1814 => 11,
            PixelType::TM1914 => 12,
            PixelType::TM1913 => 13,
            PixelType::P9813 => 14,
            PixelType::INK1003 => 15,
            PixelType::DMX512 => 16,
            PixelType::P943S => 17,
            PixelType::P9411 => 18,
            PixelType::P9412 => 19,
            PixelType::P9413 => 20,
            PixelType::P9414 => 21,
            PixelType::TX1812 => 22,
            PixelType::TX1813 => 23,
            PixelType::GS8206 => 24,
            PixelType::GS8208 => 25,
            PixelType::SK9822 => 26,
        }
    }

    /// The value that a byte stands for, if it stands for one: a byte up to
    /// 26 gives the value whose ordinal it is, a larger one gives nothing.
    pub fn from_ordinal(ordinal: u8) -> (value: Option<PixelType>)
        ensures
            value == (if ordinal <= 26 {
                Some(PixelType::at(ordinal))
            } else {
                None::<PixelType>
            }),
            value matches Some(v) ==> v.ordinal_of() == ordinal,
    {
        match ordinal {
            0 => Some(PixelType::SM16703),
            1 => Some(PixelType::TM1804),
            2 => Some(PixelType::USC1903),
            3 => Some(PixelType::WS2811),
            4 => Some(PixelType::WS2801),
            5 => Some(PixelType::SK6812),
            6 => Some(PixelType::SK6812RGBW),
            7 => Some(PixelType::LPD6803),
            8 => Some(PixelType::LPD8806),
            9 => Some(PixelType::APA102),
            10 => Some(PixelType::APA105),
            11 => Some(PixelType::TM1814),
            12 => Some(PixelType::TM1914),
            13 => Some(PixelType::TM1913),
            14 => Some(PixelType::P9813),
            15 => Some(PixelType::INK1003),
            16 => Some(PixelType::DMX512),
            17 => Some(PixelType::P943S),
            18 => Some(PixelType::P9411),
            19 => Some(PixelType::P9412),
            20 => Some(PixelType::P9413),
            21 => Some(PixelType::P9414),
            22 => Some(PixelType::TX1812),
            23 => Some(PixelType::TX1813),
            24 => Some(PixelType::GS8206),
            25 => Some(PixelType::GS8208),
            26 => Some(PixelType::SK9822),
            _ => None,
        }
    }

    /// Ordinals and values correspond one to one: the value at the ordinal
    /// of `self` is `self`, so no two values share an ordinal.
    pub proof fn lemma_at_ordinal(self)
        ensures
            self.ordinal_of() <= 26,
            PixelType::at(self.ordinal_of()) == self,
    {
    }

    /// Every byte up to 26 is the ordinal of the value that stands at it.
    pub proof fn lemma_ordinal_at(ordinal: u8)
        requires
            ordinal <= 26,
        ensures
            PixelType::at(ordinal).ordinal_of() == ordinal,
    {
    }
}

impl Default for PixelType {
    /// The APA102.
    fn default() -> (value: PixelType)
        ensures
            value == PixelType::APA102,
    {
        PixelType::APA102
    }
}
} // verus!
