//! Classification of weather condition codes into visual effects.

use vstd::prelude::*;
use crate::color::Color;

verus! {

/// The tint of airborne particles.
#[derive(Clone, Copy, Debug, PartialEq, Eq, Structural)]
pub enum Tint {
    LightGray,
    DarkGray,
    Tan,
    Sandy,
    Gray,
}

impl Tint {
    /// The display colour of the tint.
    pub open spec fn shade(self) -> Color {
        match self {
            Tint::LightGray => Color::LightGray,
            Tint::DarkGray => Color::DarkGray,
            Tint::Tan => Color::BurlyWood,
            Tint::Sandy => Color::SandyBrown,
            Tint::Gray => Color::Gray,
        }
    }

    /// The display colour of the tint.
    pub fn color(self) -> (c: Color)
        ensures
            c == self.shade(),
    {
        match self {
            Tint::LightGray => Color::LightGray,
            Tint::DarkGray => Color::DarkGray,
            Tint::Tan => Color::BurlyWood,
            Tint::Sandy => Color::SandyBrown,
            Tint::Gray => Color::Gray,
        }
    }
}

/// The visual effect chosen for a condition code, with what is needed to
/// render it.
#[derive(Clone, Copy, Debug, PartialEq, Eq, Structural)]
pub enum EffectVariant {
    Thunderstorm { intensity: i32 },
    Rain { intensity: i32 },
    Snow,
    Sleet,
    AtmosphericParticles { tint: Tint },
    Squalls,
    Tornado,
    ClearSky,
    Overcast { coverage: i32, rain_layer: bool },
    NoEffect,
}

/// The codes that the weather service defines: the thunderstorm, drizzle,
/// rain, snow, atmosphere and cloud groups.
pub open spec fn is_known_code(code: int) -> bool {
    ||| 200 <= code <= 232
    ||| 300 <= code <= 321
    ||| 500 <= code <= 531
    ||| 600 <= code <= 622
    ||| 701 <= code <= 781
    ||| 800 <= code <= 804
}

/// The effect of each condition code. A code that no row lists has no effect.
pub open spec fn effect_of(code: int) -> EffectVariant {
    if code == 200 || code == 201 || code == 210 || code == 230 || code == 231 || code == 232 {
        EffectVariant::Thunderstorm { intensity: 50 }
    } else if code == 202 || code == 211 || code == 212 || code == 221 {
        EffectVariant::Thunderstorm { intensity: 100 }
    } else if code == 300 || code == 301 || code == 302 || (310 <= code <= 314) || code == 321 {
        EffectVariant::Rain { intensity: 10 }
    } else if code == 500 || code == 501 || code == 511 || code == 520 || code == 521 || code
        == 531 {
        EffectVariant::Rain { intensity: 50 }
    } else if code == 502 || code == 503 || code == 504 || code == 522 {
        EffectVariant::Rain { intensity: 100 }
    } else if code == 600 || code == 601 || code == 602 || code == 612 || code == 615 || code
        == 616 || (620 <= code <= 622) {
        EffectVariant::Snow
    } else if code == 611 || code == 613 {
        EffectVariant::Sleet
    } else if code == 701 || code == 721 {
        EffectVariant::AtmosphericParticles { tint: Tint::LightGray }
    } else if code == 711 {
        EffectVariant::AtmosphericParticles { tint: Tint::DarkGray }
    } else if code == 731 || code == 761 {
        EffectVariant::AtmosphericParticles { tint: Tint::Tan }
    } else if code == 751 {
        EffectVariant::AtmosphericParticles { tint: Tint::Sandy }
    } else if code == 762 {
        EffectVariant::AtmosphericParticles { tint: Tint::Gray }
    } else if code == 771 {
        EffectVariant::Squalls
    } else if code == 781 {
        EffectVariant::Tornado
    } else if code == 800 {
        EffectVariant::ClearSky
    } else if code == 801 {
        EffectVariant::Overcast { coverage: 10, rain_layer: false }
    } else if code == 802 {
        EffectVariant::Overcast { coverage: 50, rain_layer: false }
    } else if code == 803 {
        EffectVariant::Overcast { coverage: 75, rain_layer: false }
    } else if code == 804 {
        EffectVariant::Overcast { coverage: 100, rain_layer: false }
    } else {
        EffectVariant::NoEffect
    }
}

/// Chooses the effect for a condition code. Groups are tried in the order of
/// the table, so a code that two groups list belongs to the first.
pub fn classify(condition_code: i64) -> (effect: EffectVariant)
    ensures
        effect == effect_of(condition_code as int),
{
    match condition_code {
        200 | 201 | 210 | 230 | 231 | 232 => EffectVariant::Thunderstorm { intensity: 50 },
        202 | 211 | 212 | 221 => EffectVariant::Thunderstorm { intensity: 100 },
        300 | 301 | 302 | 310 | 311 | 312 | 313 | 314 | 321 => EffectVariant::Rain {
            intensity: 10,
        },
        500 | 501 | 520 | 521 | 531 | 511 => EffectVariant::Rain { intensity: 50 },
        502 | 503 | 504 | 522 => EffectVariant::Rain { intensity: 100 },
        600 | 601 | 612 | 615 | 616 | 620 | 621 | 622 => EffectVariant::Snow,
        602 => EffectVariant::Snow,
        611 | 613 => EffectVariant::Sleet,
        701 | 721 => EffectVariant::AtmosphericParticles { tint: Tint::LightGray },
        711 => EffectVariant::AtmosphericParticles { tint: Tint::DarkGray },
        731 | 761 => EffectVariant::AtmosphericParticles { tint: Tint::Tan },
        751 => EffectVariant::AtmosphericParticles { tint: Tint::Sandy },
        762 => EffectVariant::AtmosphericParticles { tint: Tint::Gray },
        771 => EffectVariant::Squalls,
        781 => EffectVariant::Tornado,
        800 => EffectVariant::ClearSky,
        801 => EffectVariant::Overcast { coverage: 10, rain_layer: false },
        802 => EffectVariant::Overcast { coverage: 50, rain_layer: false },
        803 => EffectVariant::Overcast { coverage: 75, rain_layer: false },
        804 => EffectVariant::Overcast { coverage: 100, rain_layer: false },
        _ => EffectVariant::NoEffect,
    }
}

/// Whether a code belongs to one of the groups that the weather service defines.
pub fn code_is_known(condition_code: i64) -> (known: bool)
    ensures
        known == is_known_code(condition_code as int),
{
    (200 <= condition_code && condition_code <= 232) || (300 <= condition_code && condition_code
        <= 321) || (500 <= condition_code && condition_code <= 531) || (600 <= condition_code
        && condition_code <= 622) || (701 <= condition_code && condition_code <= 781) || (800
        <= condition_code && condition_code <= 804)
}

/// Only codes of the defined groups select an effect: the fallback code 0 and
/// every other code outside the groups leave the scene without one.
pub proof fn lemma_effect_needs_known_code(code: int)
    requires
        !is_known_code(code),
    ensures
        effect_of(code) == EffectVariant::NoEffect,
{
}

/// What classification can hand out: an intensity is 10, 50 or 100, a cloud
/// coverage is 10, 50, 75 or 100, and the rain layer is never chosen directly.
pub proof fn lemma_effect_parameters(code: int)
    ensures
        match effect_of(code) {
            EffectVariant::Thunderstorm { intensity } => intensity == 50 || intensity == 100,
            EffectVariant::Rain { intensity } => intensity == 10 || intensity == 50 || intensity
                == 100,
            EffectVariant::Overcast { coverage, rain_layer } => !rain_layer && (coverage == 10
                || coverage == 50 || coverage == 75 || coverage == 100),
            _ => true,
        },
{
}

} // verus!
