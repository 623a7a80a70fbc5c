//! 3-bit weighted RGB colour of the onboard LED, and how a colour maps to the
//! active-low LED pins.

use vstd::prelude::*;

verus! {

/// 3-bit weighted RGB colour representing all 8 additive colour combinations.
///
/// Bit 0 (`0b001`) = Red, bit 1 (`0b010`) = Green, bit 2 (`0b100`) = Blue.
#[derive(Copy, Clone, Debug, PartialEq, Eq, Structural)]
pub enum Color {
    /// No LEDs active (`0b000`)
    Off,
    /// Red only (`0b001`)
    Red,
    /// Green only (`0b010`)
    Green,
    /// Red + Green (`0b011`)
    Yellow,
    /// Blue only (`0b100`)
    Blue,
    /// Red + Blue (`0b101`)
    Magenta,
    /// Green + Blue (`0b110`)
    Cyan,
    /// Red + Green + Blue (`0b111`)
    White,
}

/// The weight of a colour: bit 0 red, bit 1 green, bit 2 blue.
pub open spec fn color_bits(c: Color) -> u8 {
    match c {
        Color::Off => 0,
        Color::Red => 1,
        Color::Green => 2,
        Color::Yellow => 3,
        Color::Blue => 4,
        Color::Magenta => 5,
        Color::Cyan => 6,
        Color::White => 7,
    }
}

/// The colour whose weight is the low three bits of `bits`.
pub open spec fn color_of_bits(bits: u8) -> Color {
    let b = bits & 7u8;
    if b == 1 {
        Color::Red
    } else if b == 2 {
        Color::Green
    } else if b == 3 {
        Color::Yellow
    } else if b == 4 {
        Color::Blue
    } else if b == 5 {
        Color::Magenta
    } else if b == 6 {
        Color::Cyan
    } else if b == 7 {
        Color::White
    } else {
        Color::Off
    }
}

impl Color {
    /// The colour's weight as a byte (`Off` is 0, `White` is 7).
    pub fn bits(self) -> (b: u8)
        ensures
            b == color_bits(self),
            b < 8,
    {
        match self {
            Color::Off => 0,
            Color::Red => 1,
            Color::Green => 2,
            Color::Yellow => 3,
            Color::Blue => 4,
            Color::Magenta => 5,
            Color::Cyan => 6,
            Color::White => 7,
        }
    }

    pub fn red_active(self) -> (r: bool)
        ensures
            r == (color_bits(self) & 1u8 != 0),
    {
        (self.bits() & 0b001) != 0
    }

    pub fn green_active(self) -> (r: bool)
        ensures
            r == (color_bits(self) & 2u8 != 0),
    {
        (self.bits() & 0b010) != 0
    }

    pub fn blue_active(self) -> (r: bool)
        ensures
            r == (color_bits(self) & 4u8 != 0),
    {
        (self.bits() & 0b100) != 0
    }

    /// The colour given by the low three bits of `bits`; higher bits are ignored.
    pub fn from_bits(bits: u8) -> (c: Color)
        ensures
            c == color_of_bits(bits),
            color_bits(c) == bits & 7u8,
    {
        let b = bits & 0b111;
        assert(b < 8) by (bit_vector)
            requires
                b == bits & 7u8,
        ;
        match b {
            1 => Color::Red,
            2 => Color::Green,
            3 => Color::Yellow,
            4 => Color::Blue,
            5 => Color::Magenta,
            6 => Color::Cyan,
            7 => Color::White,
            _ => Color::Off,
        }
    }
}


/// Additive mixing of two colours: the union of their weights.
pub open spec fn mix(c: Color, d: Color) -> Color {
    color_of_bits(color_bits(c) | color_bits(d))
}

impl core::ops::BitOr for Color {
    type Output = Color;

    /// Additive mixing: the colour whose weight is the union of both weights.
    fn bitor(self, rhs: Color) -> (c: Color) {
        Color::from_bits(self.bits() | rhs.bits())
    }
}

impl vstd::std_specs::ops::BitOrSpecImpl for Color {
    open spec fn obeys_bitor_spec() -> bool {
        true
    }

    open spec fn bitor_req(self, rhs: Color) -> bool {
        true
    }

    open spec fn bitor_spec(self, rhs: Color) -> Color {
        mix(self, rhs)
    }
}

/// Electrical level of an LED pin.
#[derive(Copy, Clone, Debug, PartialEq, Eq, Structural)]
pub enum PinLevel {
    Low,
    High,
}

/// Levels to drive on the red, green and blue LED pins.
#[derive(Copy, Clone, Debug, PartialEq, Eq, Structural)]
pub struct LedLevels {
    pub red: PinLevel,
    pub green: PinLevel,
    pub blue: PinLevel,
}

/// The onboard LEDs are active-low: a lit channel is driven low, a dark one high.
pub open spec fn level_for(active: bool) -> PinLevel {
    if active {
        PinLevel::Low
    } else {
        PinLevel::High
    }
}

impl Color {
    /// The pin levels that show this colour on the active-low RGB LED.
    pub fn led_levels(self) -> (l: LedLevels)
        ensures
            l.red == level_for(color_bits(self) & 1u8 != 0),
            l.green == level_for(color_bits(self) & 2u8 != 0),
            l.blue == level_for(color_bits(self) & 4u8 != 0),
    {
        LedLevels {
            red: if self.red_active() { PinLevel::Low } else { PinLevel::High },
            green: if self.green_active() { PinLevel::Low } else { PinLevel::High },
            blue: if self.blue_active() { PinLevel::Low } else { PinLevel::High },
        }
    }
}

/// Reading a colour's weight back gives the colour: `from_bits` undoes `bits`.
pub proof fn lemma_bits_round_trip(c: Color)
    ensures
        color_of_bits(color_bits(c)) == c,
{
    assert(0u8 & 7u8 == 0u8 && 1u8 & 7u8 == 1u8 && 2u8 & 7u8 == 2u8 && 3u8 & 7u8 == 3u8)
        by (bit_vector);
    assert(4u8 & 7u8 == 4u8 && 5u8 & 7u8 == 5u8 && 6u8 & 7u8 == 6u8 && 7u8 & 7u8 == 7u8)
        by (bit_vector);
}

/// Only the low three bits of a byte decide its colour.
pub proof fn lemma_from_bits_low_three(bits: u8)
    ensures
        color_of_bits(bits) == color_of_bits(bits & 7u8),
        color_bits(color_of_bits(bits)) == bits & 7u8,
{
    assert((bits & 7u8) & 7u8 == bits & 7u8) by (bit_vector);
    assert(bits & 7u8 < 8u8) by (bit_vector);
}

/// The three channel flags describe a colour completely.
pub proof fn lemma_channels_determine_color(c: Color, d: Color)
    requires
        (color_bits(c) & 1u8 != 0) == (color_bits(d) & 1u8 != 0),
        (color_bits(c) & 2u8 != 0) == (color_bits(d) & 2u8 != 0),
        (color_bits(c) & 4u8 != 0) == (color_bits(d) & 4u8 != 0),
    ensures
        c == d,
{
    let x = color_bits(c);
    let y = color_bits(d);
    assert(x < 8u8 && y < 8u8 && (x & 1u8 != 0) == (y & 1u8 != 0) && (x & 2u8 != 0) == (y & 2u8
        != 0) && (x & 4u8 != 0) == (y & 4u8 != 0) ==> x == y) by (bit_vector);
}

/// Mixing lights a channel exactly when either colour lights it.
pub proof fn lemma_mix_channels(c: Color, d: Color)
    ensures
        (color_bits(mix(c, d)) & 1u8 != 0) == ((color_bits(c) & 1u8 != 0) || (color_bits(d)
            & 1u8 != 0)),
        (color_bits(mix(c, d)) & 2u8 != 0) == ((color_bits(c) & 2u8 != 0) || (color_bits(d)
            & 2u8 != 0)),
        (color_bits(mix(c, d)) & 4u8 != 0) == ((color_bits(c) & 4u8 != 0) || (color_bits(d)
            & 4u8 != 0)),
{
    let x = color_bits(c);
    let y = color_bits(d);
    lemma_from_bits_low_three(x | y);
    assert(x < 8u8 && y < 8u8 ==> (x | y) & 7u8 == x | y) by (bit_vector);
    assert((((x | y) & 1u8) != 0) == ((x & 1u8 != 0) || (y & 1u8 != 0))) by (bit_vector);
    assert((((x | y) & 2u8) != 0) == ((x & 2u8 != 0) || (y & 2u8 != 0))) by (bit_vector);
    assert((((x | y) & 4u8) != 0) == ((x & 4u8 != 0) || (y & 4u8 != 0))) by (bit_vector);
}

/// Mixing colours is commutative, associative and idempotent, `Off` mixes to
/// nothing and `White` absorbs every colour.
pub proof fn lemma_mix_algebra(c: Color, d: Color, e: Color)
    ensures
        mix(c, d) == mix(d, c),
        mix(mix(c, d), e) == mix(c, mix(d, e)),
        mix(c, c) == c,
        mix(c, Color::Off) == c,
        mix(c, Color::White) == Color::White,
{
    lemma_mix_channels(c, d);
    lemma_mix_channels(d, c);
    lemma_mix_channels(mix(c, d), e);
    lemma_mix_channels(d, e);
    lemma_mix_channels(c, mix(d, e));
    lemma_mix_channels(c, c);
    lemma_mix_channels(c, Color::Off);
    lemma_mix_channels(c, Color::White);
    lemma_channels_determine_color(mix(c, d), mix(d, c));
    lemma_channels_determine_color(
        mix(mix(c, d), e),
        mix(c, mix(d, e)),
    );
    lemma_channels_determine_color(mix(c, c), c);
    assert(0u8 & 1u8 == 0u8 && 0u8 & 2u8 == 0u8 && 0u8 & 4u8 == 0u8) by (bit_vector);
    assert(7u8 & 1u8 != 0u8 && 7u8 & 2u8 != 0u8 && 7u8 & 4u8 != 0u8) by (bit_vector);
    lemma_channels_determine_color(mix(c, Color::Off), c);
    lemma_channels_determine_color(mix(c, Color::White), Color::White);
}

/// Red, green and blue together make white.
pub proof fn lemma_primaries_make_white()
    ensures
        mix(mix(Color::Red, Color::Green), Color::Blue) == Color::White,
{
    assert((1u8 | 2u8) & 7u8 == 3u8) by (bit_vector);
    assert((3u8 | 4u8) & 7u8 == 7u8) by (bit_vector);
}

/// A pin is driven low exactly when its channel is lit in the colour.
pub proof fn lemma_active_low(c: Color)
    ensures
        (level_for(color_bits(c) & 1u8 != 0) == PinLevel::Low) == (color_bits(c) & 1u8 != 0),
        (level_for(color_bits(c) & 2u8 != 0) == PinLevel::Low) == (color_bits(c) & 2u8 != 0),
        (level_for(color_bits(c) & 4u8 != 0) == PinLevel::Low) == (color_bits(c) & 4u8 != 0),
{
}

} // verus!
