//! Display colours and the temperature bands that choose the background.

use vstd::prelude::*;

verus! {

/// The named display colours that a scene uses.
#[derive(Clone, Copy, Debug, PartialEq, Eq, Structural)]
pub enum Color {
    Black,
    DarkRed,
    Crimson,
    OrangeRed,
    Orange,
    Gold,
    LightYellow,
    PaleGreen,
    PowderBlue,
    RoyalBlue,
    SlateBlue,
    RebeccaPurple,
    Indigo,
    Blue,
    Yellow,
    White,
    DimGray,
    LightGray,
    DarkGray,
    BurlyWood,
    SandyBrown,
    Gray,
    Gainsboro,
}

/// Red, green and blue components of a display colour.
#[derive(Clone, Copy, Debug, PartialEq, Eq, Structural)]
pub struct Rgb {
    pub red: u8,
    pub green: u8,
    pub blue: u8,
}

impl Color {
    /// The components of each named colour, as the SVG colour table gives them.
    pub open spec fn channels(self) -> Rgb {
        match self {
            Color::Black => Rgb { red: 0, green: 0, blue: 0 },
            Color::DarkRed => Rgb { red: 139, green: 0, blue: 0 },
            Color::Crimson => Rgb { red: 220, green: 20, blue: 60 },
            Color::OrangeRed => Rgb { red: 255, green: 69, blue: 0 },
            Color::Orange => Rgb { red: 255, green: 165, blue: 0 },
            Color::Gold => Rgb { red: 255, green: 215, blue: 0 },
            Color::LightYellow => Rgb { red: 255, green: 255, blue: 224 },
            Color::PaleGreen => Rgb { red: 152, green: 251, blue: 152 },
            Color::PowderBlue => Rgb { red: 176, green: 224, blue: 230 },
            Color::RoyalBlue => Rgb { red: 65, green: 105, blue: 225 },
            Color::SlateBlue => Rgb { red: 106, green: 90, blue: 205 },
            Color::RebeccaPurple => Rgb { red: 102, green: 51, blue: 153 },
            Color::Indigo => Rgb { red: 75, green: 0, blue: 130 },
            Color::Blue => Rgb { red: 0, green: 0, blue: 255 },
            Color::Yellow => Rgb { red: 255, green: 255, blue: 0 },
            Color::White => Rgb { red: 255, green: 255, blue: 255 },
            Color::DimGray => Rgb { red: 105, green: 105, blue: 105 },
            Color::LightGray => Rgb { red: 211, green: 211, blue: 211 },
            Color::DarkGray => Rgb { red: 169, green: 169, blue: 169 },
            Color::BurlyWood => Rgb { red: 222, green: 184, blue: 135 },
            Color::SandyBrown => Rgb { red: 244, green: 164, blue: 96 },
            Color::Gray => Rgb { red: 128, green: 128, blue: 128 },
            Color::Gainsboro => Rgb { red: 220, green: 220, blue: 220 },
        }
    }

    /// The components to hand to a renderer.
    pub fn rgb(self) -> (c: Rgb)
        ensures
            c == self.channels(),
    {
        match self {
            Color::Black => Rgb { red: 0, green: 0, blue: 0 },
            Color::DarkRed => Rgb { red: 139, green: 0, blue: 0 },
            Color::Crimson => Rgb { red: 220, green: 20, blue: 60 },
            Color::OrangeRed => Rgb { red: 255, green: 69, blue: 0 },
            Color::Orange => Rgb { red: 255, green: 165, blue: 0 },
            Color::Gold => Rgb { red: 255, green: 215, blue: 0 },
            Color::LightYellow => Rgb { red: 255, green: 255, blue: 224 },
            Color::PaleGreen => Rgb { red: 152, green: 251, blue: 152 },
            Color::PowderBlue => Rgb { red: 176, green: 224, blue: 230 },
            Color::RoyalBlue => Rgb { red: 65, green: 105, blue: 225 },
            Color::SlateBlue => Rgb { red: 106, green: 90, blue: 205 },
            Color::RebeccaPurple => Rgb { red: 102, green: 51, blue: 153 },
            Color::Indigo => Rgb { red: 75, green: 0, blue: 130 },
            Color::Blue => Rgb { red: 0, green: 0, blue: 255 },
            Color::Yellow => Rgb { red: 255, green: 255, blue: 0 },
            Color::White => Rgb { red: 255, green: 255, blue: 255 },
            Color::DimGray => Rgb { red: 105, green: 105, blue: 105 },
            Color::LightGray => Rgb { red: 211, green: 211, blue: 211 },
            Color::DarkGray => Rgb { red: 169, green: 169, blue: 169 },
            Color::BurlyWood => Rgb { red: 222, green: 184, blue: 135 },
            Color::SandyBrown => Rgb { red: 244, green: 164, blue: 96 },
            Color::Gray => Rgb { red: 128, green: 128, blue: 128 },
            Color::Gainsboro => Rgb { red: 220, green: 220, blue: 220 },
        }
    }
}

/// A temperature reading in hundredths of a degree Celsius, the resolution at
/// which weather services report it, or the marker for a reading that is not
/// a number.
#[derive(Clone, Copy, Debug, PartialEq, Eq, Structural)]
pub enum Temperature {
    Hundredths(i64),
    NotANumber,
}

/// The thirteen temperature bands, warmest first. Each is named after the
/// colour it is shown in.
#[derive(Clone, Copy, Debug, PartialEq, Eq, Structural)]
pub enum ColorBucket {
    Black,
    DarkRed,
    Crimson,
    OrangeRed,
    Orange,
    Gold,
    LightYellow,
    PaleGreen,
    PowderBlue,
    RoyalBlue,
    SlateBlue,
    RebeccaPurple,
    Indigo,
}

impl ColorBucket {
    /// Position of the band in the ladder: 0 for the warmest, 12 for the coldest.
    pub open spec fn rank(self) -> int {
        match self {
            ColorBucket::Black => 0,
            ColorBucket::DarkRed => 1,
            ColorBucket::Crimson => 2,
            ColorBucket::OrangeRed => 3,
            ColorBucket::Orange => 4,
            ColorBucket::Gold => 5,
            ColorBucket::LightYellow => 6,
            ColorBucket::PaleGreen => 7,
            ColorBucket::PowderBlue => 8,
            ColorBucket::RoyalBlue => 9,
            ColorBucket::SlateBlue => 10,
            ColorBucket::RebeccaPurple => 11,
            ColorBucket::Indigo => 12,
        }
    }

    /// The display colour of the band.
    pub open spec fn shade(self) -> Color {
        match self {
            ColorBucket::Black => Color::Black,
            ColorBucket::DarkRed => Color::DarkRed,
            ColorBucket::Crimson => Color::Crimson,
            ColorBucket::OrangeRed => Color::OrangeRed,
            ColorBucket::Orange => Color::Orange,
            ColorBucket::Gold => Color::Gold,
            ColorBucket::LightYellow => Color::LightYellow,
            ColorBucket::PaleGreen => Color::PaleGreen,
            ColorBucket::PowderBlue => Color::PowderBlue,
            ColorBucket::RoyalBlue => Color::RoyalBlue,
            ColorBucket::SlateBlue => Color::SlateBlue,
            ColorBucket::RebeccaPurple => Color::RebeccaPurple,
            ColorBucket::Indigo => Color::Indigo,
        }
    }

    /// The display colour of the band.
    pub fn color(self) -> (c: Color)
        ensures
            c == self.shade(),
    {
        match self {
            ColorBucket::Black => Color::Black,
            ColorBucket::DarkRed => Color::DarkRed,
            ColorBucket::Crimson => Color::Crimson,
            ColorBucket::OrangeRed => Color::OrangeRed,
            ColorBucket::Orange => Color::Orange,
            ColorBucket::Gold => Color::Gold,
            ColorBucket::LightYellow => Color::LightYellow,
            ColorBucket::PaleGreen => Color::PaleGreen,
            ColorBucket::PowderBlue => Color::PowderBlue,
            ColorBucket::RoyalBlue => Color::RoyalBlue,
            ColorBucket::SlateBlue => Color::SlateBlue,
            ColorBucket::RebeccaPurple => Color::RebeccaPurple,
            ColorBucket::Indigo => Color::Indigo,
        }
    }
}

/// The band of a reading given in hundredths of a degree. Every band but the
/// two coldest starts strictly above its threshold; the second coldest
/// includes its threshold of -29 degrees.
pub open spec fn bucket_of_hundredths(h: int) -> ColorBucket {
    if h > 4600 {
        ColorBucket::Black
    } else if h > 3800 {
        ColorBucket::DarkRed
    } else if h > 2900 {
        ColorBucket::Crimson
    } else if h > 2400 {
        ColorBucket::OrangeRed
    } else if h > 1600 {
        ColorBucket::Orange
    } else if h > 1000 {
        ColorBucket::Gold
    } else if h > 400 {
        ColorBucket::LightYellow
    } else if h > -100 {
        ColorBucket::PaleGreen
    } else if h > -900 {
        ColorBucket::PowderBlue
    } else if h > -1800 {
        ColorBucket::RoyalBlue
    } else if h > -2300 {
        ColorBucket::SlateBlue
    } else if h >= -2900 {
        ColorBucket::RebeccaPurple
    } else {
        ColorBucket::Indigo
    }
}

/// The band of any reading. A reading that is not a number compares above no
/// threshold and so falls to the coldest band.
pub open spec fn bucket_of(t: Temperature) -> ColorBucket {
    match t {
        Temperature::Hundredths(h) => bucket_of_hundredths(h as int),
        Temperature::NotANumber => ColorBucket::Indigo,
    }
}

/// Maps a temperature to its band.
pub fn color_for(temperature: &Temperature) -> (bucket: ColorBucket)
    ensures
        bucket == bucket_of(*temperature),
{
    match *temperature {
        Temperature::NotANumber => ColorBucket::Indigo,
        Temperature::Hundredths(h) => {
            if h > 4600 {
                ColorBucket::Black
            } else if h > 3800 {
                ColorBucket::DarkRed
            } else if h > 2900 {
                ColorBucket::Crimson
            } else if h > 2400 {
                ColorBucket::OrangeRed
            } else if h > 1600 {
                ColorBucket::Orange
            } else if h > 1000 {
                ColorBucket::Gold
            } else if h > 400 {
                ColorBucket::LightYellow
            } else if h > -100 {
                ColorBucket::PaleGreen
            } else if h > -900 {
                ColorBucket::PowderBlue
            } else if h > -1800 {
                ColorBucket::RoyalBlue
            } else if h > -2300 {
                ColorBucket::SlateBlue
            } else if h >= -2900 {
                ColorBucket::RebeccaPurple
            } else {
                ColorBucket::Indigo
            }
        },
    }
}

/// The background colour for a temperature: the colour of its band.
pub fn get_temp_color(temperature: &Temperature) -> (c: Color)
    ensures
        c == bucket_of(*temperature).shade(),
{
    color_for(temperature).color()
}

/// A warmer reading never falls into a colder band.
pub proof fn lemma_bands_are_ordered(colder: int, warmer: int)
    requires
        colder <= warmer,
    ensures
        bucket_of_hundredths(warmer).rank() <= bucket_of_hundredths(colder).rank(),
{
}

/// Every band is a single interval of readings: whatever lies between two
/// readings of one band belongs to that band too, so no reading has two bands
/// and none is left without one.
pub proof fn lemma_band_is_an_interval(low: int, mid: int, high: int)
    requires
        low <= mid <= high,
        bucket_of_hundredths(low) == bucket_of_hundredths(high),
    ensures
        bucket_of_hundredths(mid) == bucket_of_hundredths(low),
{
}

/// Each band has its own colour.
pub proof fn lemma_band_colors_differ(a: ColorBucket, b: ColorBucket)
    requires
        a != b,
    ensures
        a.shade() != b.shade(),
{
}

} // verus!
