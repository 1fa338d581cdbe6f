use weather_scene::color::Color;
use weather_scene::effect::{classify, code_is_known, EffectVariant, Tint};

fn all_give(codes: &[i64], effect: EffectVariant) {
    for code in codes {
        assert_eq!(classify(*code), effect, "code {}", code);
    }
}

#[test]
fn thunderstorm_codes() {
    all_give(&[200, 201, 210, 230, 231, 232], EffectVariant::Thunderstorm { intensity: 50 });
    all_give(&[202, 211, 212, 221], EffectVariant::Thunderstorm { intensity: 100 });
}

#[test]
fn rain_codes() {
    all_give(
        &[300, 301, 302, 310, 311, 312, 313, 314, 321],
        EffectVariant::Rain { intensity: 10 },
    );
    all_give(&[500, 501, 511, 520, 521, 531], EffectVariant::Rain { intensity: 50 });
    all_give(&[502, 503, 504, 522], EffectVariant::Rain { intensity: 100 });
}

#[test]
fn snow_and_sleet_codes() {
    all_give(&[600, 601, 602, 612, 615, 616, 620, 621, 622], EffectVariant::Snow);
    all_give(&[611, 613], EffectVariant::Sleet);
}

#[test]
fn a_code_of_two_groups_belongs_to_the_first() {
    assert_eq!(classify(612), EffectVariant::Snow);
    assert_eq!(classify(622), EffectVariant::Snow);
}

#[test]
fn atmosphere_codes() {
    all_give(&[701, 721], EffectVariant::AtmosphericParticles { tint: Tint::LightGray });
    all_give(&[711], EffectVariant::AtmosphericParticles { tint: Tint::DarkGray });
    all_give(&[731, 761], EffectVariant::AtmosphericParticles { tint: Tint::Tan });
    all_give(&[751], EffectVariant::AtmosphericParticles { tint: Tint::Sandy });
    all_give(&[762], EffectVariant::AtmosphericParticles { tint: Tint::Gray });
    all_give(&[771], EffectVariant::Squalls);
    all_give(&[781], EffectVariant::Tornado);
}

#[test]
fn cloud_codes() {
    assert_eq!(classify(800), EffectVariant::ClearSky);
    assert_eq!(classify(801), EffectVariant::Overcast { coverage: 10, rain_layer: false });
    assert_eq!(classify(802), EffectVariant::Overcast { coverage: 50, rain_layer: false });
    assert_eq!(classify(803), EffectVariant::Overcast { coverage: 75, rain_layer: false });
    assert_eq!(classify(804), EffectVariant::Overcast { coverage: 100, rain_layer: false });
}

#[test]
fn every_other_code_has_no_effect() {
    let listed: [i64; 54] = [
        200, 201, 202, 210, 211, 212, 221, 230, 231, 232, 300, 301, 302, 310, 311, 312, 313, 314,
        321, 500, 501, 502, 503, 504, 511, 520, 521, 522, 531, 600, 601, 602, 611, 612, 613, 615,
        616, 620, 621, 622, 701, 711, 721, 731, 751, 761, 762, 771, 781, 800, 801, 802, 803, 804,
    ];
    let mut code: i64 = -50;
    let mut with_effect = 0;
    while code <= 1200 {
        if listed.contains(&code) {
            assert_ne!(classify(code), EffectVariant::NoEffect, "code {}", code);
            with_effect += 1;
        } else {
            assert_eq!(classify(code), EffectVariant::NoEffect, "code {}", code);
        }
        code += 1;
    }
    assert_eq!(with_effect, 54);
    all_give(&[0, 999, 741, 220, 805, i64::MIN, i64::MAX], EffectVariant::NoEffect);
}

#[test]
fn only_known_codes_select_an_effect() {
    let mut code: i64 = -50;
    while code <= 1200 {
        if classify(code) != EffectVariant::NoEffect {
            assert!(code_is_known(code), "code {}", code);
        }
        code += 1;
    }
    assert!(code_is_known(200) && code_is_known(232) && !code_is_known(199) && !code_is_known(233));
    assert!(code_is_known(300) && code_is_known(321) && !code_is_known(299) && !code_is_known(322));
    assert!(code_is_known(500) && code_is_known(531) && !code_is_known(499) && !code_is_known(532));
    assert!(code_is_known(600) && code_is_known(622) && !code_is_known(599) && !code_is_known(623));
    assert!(code_is_known(701) && code_is_known(781) && !code_is_known(700) && !code_is_known(782));
    assert!(code_is_known(800) && code_is_known(804) && !code_is_known(799) && !code_is_known(805));
    assert!(!code_is_known(0));
}

#[test]
fn tints_have_their_colors() {
    assert_eq!(Tint::LightGray.color(), Color::LightGray);
    assert_eq!(Tint::DarkGray.color(), Color::DarkGray);
    assert_eq!(Tint::Tan.color(), Color::BurlyWood);
    assert_eq!(Tint::Sandy.color(), Color::SandyBrown);
    assert_eq!(Tint::Gray.color(), Color::Gray);
}
