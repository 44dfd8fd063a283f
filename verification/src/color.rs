use vstd::prelude::*;
use embedded_graphics::pixelcolor::Rgb565;

verus! {

#[verifier::external_type_specification]
#[verifier::external_body]
pub struct ExRgb565(Rgb565);

/// The color that `Rgb565::new` builds from the three channels.
pub uninterp spec fn rgb565_new(r: u8, g: u8, b: u8) -> Rgb565;

/// Calls `embedded_graphics::pixelcolor::Rgb565::new` on in-range channels.
/// Claims that the result is the one `rgb565_new` names for them, and that no
/// other in-range channels give the same color: `new` packs the three channels
/// into disjoint bit fields of a `u16`.
#[verifier::external_body]
pub(crate) fn rgb565(r: u8, g: u8, b: u8) -> (c: Rgb565)
    requires
        r < 32,
        g < 64,
        b < 32,
    ensures
        c == rgb565_new(r, g, b),
        forall|r2: u8, g2: u8, b2: u8|
            r2 < 32 && g2 < 64 && b2 < 32 && #[trigger] rgb565_new(r2, g2, b2) == c
                ==> r2 == r && g2 == g && b2 == b,
{
    Rgb565::new(r, g, b)
}

/// Health zone of a PM2.5 concentration.
#[derive(Copy, Clone, Debug, PartialEq, Eq)]
pub enum AqiLevel {
    Good,
    Moderate,
    Sensitive,
    Unhealthy,
}

/// The zone of a PM2.5 value in µg/m³: 0-12 good, 13-35 moderate,
/// 36-55 unhealthy for sensitive groups, anything else (above 55, or a
/// negative value) unhealthy.
pub open spec fn spec_aqi_level(pm2_5: int) -> AqiLevel {
    if 0 <= pm2_5 <= 12 {
        AqiLevel::Good
    } else if 13 <= pm2_5 <= 35 {
        AqiLevel::Moderate
    } else if 36 <= pm2_5 <= 55 {
        AqiLevel::Sensitive
    } else {
        AqiLevel::Unhealthy
    }
}

/// Rank of a zone, from cleanest (0) to worst (3).
pub open spec fn level_rank(level: AqiLevel) -> int {
    match level {
        AqiLevel::Good => 0,
        AqiLevel::Moderate => 1,
        AqiLevel::Sensitive => 2,
        AqiLevel::Unhealthy => 3,
    }
}

/// Classifies a PM2.5 concentration into its health zone.
pub fn aqi_level(pm2_5: i32) -> (level: AqiLevel)
    ensures
        level == spec_aqi_level(pm2_5 as int),
{
    if 0 <= pm2_5 && pm2_5 <= 12 {
        AqiLevel::Good
    } else if 13 <= pm2_5 && pm2_5 <= 35 {
        AqiLevel::Moderate
    } else if 36 <= pm2_5 && pm2_5 <= 55 {
        AqiLevel::Sensitive
    } else {
        AqiLevel::Unhealthy
    }
}

/// A color the display uses, named by its role.
#[derive(Copy, Clone, Debug, PartialEq, Eq)]
pub enum Ink {
    Black,
    White,
    Cyan,
    /// The alert color of a health zone.
    Aqi(AqiLevel),
}

/// The RGB565 channels (red 0-31, green 0-63, blue 0-31) of each ink: the
/// zones are green, yellow, orange and red.
pub open spec fn ink_channels(ink: Ink) -> (u8, u8, u8) {
    match ink {
        Ink::Black => (0, 0, 0),
        Ink::White => (31, 63, 31),
        Ink::Cyan => (0, 63, 31),
        Ink::Aqi(AqiLevel::Good) => (0, 63, 0),
        Ink::Aqi(AqiLevel::Moderate) => (31, 63, 0),
        Ink::Aqi(AqiLevel::Sensitive) => (31, 38, 0),
        Ink::Aqi(AqiLevel::Unhealthy) => (31, 0, 0),
    }
}

/// The display color of an ink.
pub open spec fn ink_color(ink: Ink) -> Rgb565 {
    rgb565_new(ink_channels(ink).0, ink_channels(ink).1, ink_channels(ink).2)
}

/// The channels of every ink are in range.
pub open spec fn channels_in_range(ch: (u8, u8, u8)) -> bool {
    ch.0 < 32 && ch.1 < 64 && ch.2 < 32
}

impl Ink {
    /// The RGB565 color of this ink; an ink with other channels has another color.
    pub fn color(self) -> (c: Rgb565)
        ensures
            c == ink_color(self),
            forall|other: Ink| #[trigger] ink_color(other) == c ==> ink_channels(other) == ink_channels(self),
    {
        match self {
            Ink::Black => rgb565(0, 0, 0),
            Ink::White => rgb565(31, 63, 31),
            Ink::Cyan => rgb565(0, 63, 31),
            Ink::Aqi(AqiLevel::Good) => rgb565(0, 63, 0),
            Ink::Aqi(AqiLevel::Moderate) => rgb565(31, 63, 0),
            Ink::Aqi(AqiLevel::Sensitive) => rgb565(31, 38, 0),
            Ink::Aqi(AqiLevel::Unhealthy) => rgb565(31, 0, 0),
        }
    }
}

/// `c` is the alert color of the zone of `pm2_5`, and of no other zone.
pub open spec fn is_zone_color_of(pm2_5: int, c: Rgb565) -> bool {
    &&& c == ink_color(Ink::Aqi(spec_aqi_level(pm2_5)))
    &&& forall|l: AqiLevel| #[trigger] ink_color(Ink::Aqi(l)) == c ==> l == spec_aqi_level(pm2_5)
}

/// The alert color of a PM2.5 concentration.
pub fn get_aqi_color(pm2_5: i32) -> (c: Rgb565)
    ensures
        is_zone_color_of(pm2_5 as int, c),
{
    let c = Ink::Aqi(aqi_level(pm2_5)).color();
    assert forall|l: AqiLevel| #[trigger] ink_color(Ink::Aqi(l)) == c implies l == spec_aqi_level(pm2_5 as int) by {
        assert(ink_channels(Ink::Aqi(l)) == ink_channels(Ink::Aqi(spec_aqi_level(pm2_5 as int))));
    }
    c
}

/// Rank of a zone color, from green (0) through yellow and orange to red (3);
/// any other color ranks 4.
pub open spec fn color_rank(c: Rgb565) -> int {
    if c == ink_color(Ink::Aqi(AqiLevel::Good)) {
        0
    } else if c == ink_color(Ink::Aqi(AqiLevel::Moderate)) {
        1
    } else if c == ink_color(Ink::Aqi(AqiLevel::Sensitive)) {
        2
    } else if c == ink_color(Ink::Aqi(AqiLevel::Unhealthy)) {
        3
    } else {
        4
    }
}

/// The alert color is one of the four zone colors, and it never gets
/// better as the concentration rises.
pub proof fn lemma_aqi_color_monotone(a: int, b: int, ca: Rgb565, cb: Rgb565)
    requires
        0 <= a <= b,
        is_zone_color_of(a, ca),
        is_zone_color_of(b, cb),
    ensures
        color_rank(ca) == level_rank(spec_aqi_level(a)),
        color_rank(cb) == level_rank(spec_aqi_level(b)),
        color_rank(ca) <= color_rank(cb),
{
    assert(ink_color(Ink::Aqi(AqiLevel::Good)) == ca ==> AqiLevel::Good == spec_aqi_level(a));
    assert(ink_color(Ink::Aqi(AqiLevel::Moderate)) == ca ==> AqiLevel::Moderate == spec_aqi_level(a));
    assert(ink_color(Ink::Aqi(AqiLevel::Sensitive)) == ca ==> AqiLevel::Sensitive == spec_aqi_level(a));
    assert(ink_color(Ink::Aqi(AqiLevel::Good)) == cb ==> AqiLevel::Good == spec_aqi_level(b));
    assert(ink_color(Ink::Aqi(AqiLevel::Moderate)) == cb ==> AqiLevel::Moderate == spec_aqi_level(b));
    assert(ink_color(Ink::Aqi(AqiLevel::Sensitive)) == cb ==> AqiLevel::Sensitive == spec_aqi_level(b));
}

/// Zones never get better as the concentration rises (over the
/// concentrations a sensor can report, which are not negative).
pub proof fn lemma_aqi_level_monotone(a: int, b: int)
    requires
        0 <= a <= b,
    ensures
        level_rank(spec_aqi_level(a)) <= level_rank(spec_aqi_level(b)),
{
}

} // verus!
