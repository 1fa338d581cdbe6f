use weather_scene::city::CityImage;
use weather_scene::color::{Color, Temperature};
use weather_scene::draw::{
    count_primitives, first_visible, Canvas, DrawOp, Point, Primitive, Stroke,
};
use weather_scene::sample::{sample_or_sentinel, FetchError, WeatherSample};
use weather_scene::scene::{
    compose, draw_atmospheric_particles, draw_clear_sky, draw_overcast, draw_rain, draw_sleet,
    draw_snow, draw_squalls, draw_thunderstorm, draw_tornado, draw_weather_label, presents_frame,
    Model,
};

fn window() -> Canvas {
    Canvas::centered(1024, 512)
}

fn model(code: i64, hundredths: i64, city: &str) -> Model {
    Model::new(
        city,
        WeatherSample::new(
            Temperature::Hundredths(hundredths),
            code,
            "light rain".to_string(),
            city.to_string(),
        ),
    )
}

fn base(color: Color, image: CityImage) -> Vec<DrawOp> {
    vec![DrawOp::SetBackground { color }, DrawOp::DrawTexture { image }]
}

fn label(color: Color, image: CityImage, forecast: &str, reading: &str, top: i64) -> Vec<DrawOp> {
    let mut ops = base(color, image);
    ops.push(DrawOp::DrawText {
        content: format!("Forecast: {}", forecast),
        position: Point { x: -300, y: top - 400 },
        size: 24,
        color: Color::Black,
    });
    ops.push(DrawOp::DrawText {
        content: format!("Temperature: {} \u{b0}C", reading),
        position: Point { x: -300, y: top - 460 },
        size: 24,
        color: Color::Black,
    });
    ops
}

fn between(a: i64, b: i64, r: i64) -> bool {
    if a < b {
        a <= r && r < b
    } else if b < a {
        b <= r && r < a
    } else {
        r == a
    }
}

fn is_dot(op: &DrawOp, x: (i64, i64), y: (i64, i64), radius: i64, color: Color) -> bool {
    match op {
        DrawOp::DrawEllipse { center, radius_x, radius_y, color: c, stroke } => {
            between(x.0, x.1, center.x)
                && between(y.0, y.1, center.y)
                && *radius_x == radius
                && *radius_y == radius
                && *c == color
                && stroke.is_none()
        }
        _ => false,
    }
}

fn puff(x: i64, y: i64, color: Color) -> DrawOp {
    DrawOp::DrawEllipse {
        center: Point { x, y },
        radius_x: 45,
        radius_y: 30,
        color,
        stroke: None,
    }
}

fn are_clouds(ops: &[DrawOp], n: usize, win: &Canvas, color: Color) -> bool {
    if ops.len() != 5 * n {
        return false;
    }
    for cloud in ops.chunks(5) {
        let (x, y) = match &cloud[0] {
            DrawOp::DrawEllipse { center, .. } => (center.x, center.y),
            _ => return false,
        };
        if !between(win.left as i64, win.right as i64, x)
            || !between(win.top as i64, win.bottom as i64 + 300, y)
        {
            return false;
        }
        let expected = [
            puff(x, y, color),
            puff(x, y + 50, color),
            puff(x - 50, y, color),
            puff(x, y + 25, color),
            puff(x + 50, y + 25, color),
        ];
        if cloud != expected {
            return false;
        }
    }
    true
}

fn shape(op: &DrawOp) -> DrawOp {
    let origin = Point { x: 0, y: 0 };
    match op.clone() {
        DrawOp::DrawText { content, size, color, .. } => {
            DrawOp::DrawText { content, position: origin, size, color }
        }
        DrawOp::DrawEllipse { radius_x, radius_y, color, stroke, .. } => {
            DrawOp::DrawEllipse { center: origin, radius_x, radius_y, color, stroke }
        }
        DrawOp::DrawLine { weight, color, .. } => {
            DrawOp::DrawLine { start: origin, end: origin, weight, color }
        }
        other => other,
    }
}

fn ellipses(ops: &Vec<DrawOp>) -> usize {
    count_primitives(ops, Primitive::Ellipse)
}

fn lines(ops: &Vec<DrawOp>) -> usize {
    count_primitives(ops, Primitive::Line)
}

#[test]
fn canvas_is_centered() {
    assert_eq!(window(), Canvas { left: -512, right: 512, bottom: -256, top: 256 });
    assert_eq!(Canvas::centered(5, 3), Canvas { left: -2, right: 3, bottom: -1, top: 2 });
    assert_eq!(Canvas::centered(0, 0), Canvas { left: 0, right: 0, bottom: 0, top: 0 });
    assert_eq!(
        Canvas::centered(65535, 65535),
        Canvas { left: -32767, right: 32768, bottom: -32767, top: 32768 }
    );
}

#[test]
fn label_shows_forecast_and_temperature() {
    let m = model(800, 2000, "Kyoto");
    let ops = draw_weather_label(&m, &window(), Color::Orange);
    assert_eq!(ops, label(Color::Orange, CityImage::Kyoto, "light rain", "20", 256));
    let cold = model(800, -550, "nowhere");
    let ops = draw_weather_label(&cold, &window(), Color::Gold);
    assert_eq!(ops, label(Color::Gold, CityImage::Empty, "light rain", "-5.5", 256));
}

#[test]
fn clear_sky_end_to_end() {
    let m = model(800, 2000, "Kyoto");
    let ops = compose(&m, &window());
    assert_eq!(ops.len(), 29);
    assert_eq!(&ops[0..2], &base(Color::Orange, CityImage::Kyoto)[..]);
    assert_eq!(&ops[2..4], &base(Color::Orange, CityImage::Kyoto)[..]);
    assert_eq!(&ops[4..8], &label(Color::Orange, CityImage::Kyoto, "light rain", "20", 256)[..]);
    assert_eq!(
        ops[8],
        DrawOp::DrawEllipse {
            center: Point { x: 0, y: 156 },
            radius_x: 50,
            radius_y: 50,
            color: Color::Yellow,
            stroke: None,
        }
    );
    assert_eq!(ellipses(&ops), 1);
    assert_eq!(lines(&ops), 20);
    for op in &ops[9..] {
        assert!(matches!(op, DrawOp::DrawLine { weight: 2, color: Color::Yellow, .. }));
    }
    assert_eq!(ops[2..].to_vec(), draw_clear_sky(&m, &window(), Color::Orange));
}

#[test]
fn sun_rays_point_outwards() {
    let m = model(800, 2000, "Kyoto");
    let ops = draw_clear_sky(&m, &window(), Color::Orange);
    let ray = |i: usize| match &ops[7 + i] {
        DrawOp::DrawLine { start, end, .. } => (start.x, start.y - 156, end.x, end.y - 156),
        _ => panic!("no line"),
    };
    assert_eq!(ray(0), (50, 0, 150, 0));
    assert_eq!(ray(1), (48, 15, 143, 46));
    assert_eq!(ray(2), (40, 29, 121, 88));
    assert_eq!(ray(3), (29, 40, 88, 121));
    assert_eq!(ray(4), (15, 48, 46, 143));
    assert_eq!(ray(5), (0, 50, 0, 150));
    assert_eq!(ray(6), (-15, 48, -46, 143));
    assert_eq!(ray(10), (-50, 0, -150, 0));
    assert_eq!(ray(15), (0, -50, 0, -150));
    assert_eq!(ray(19), (48, -15, 143, -46));
    for i in 0..20 {
        let angle = (i as f64 * 18.0).to_radians();
        let (sx, sy, ex, ey) = ray(i);
        assert_eq!(sx, (angle.cos() * 50.0).round() as i64);
        assert_eq!(sy, (angle.sin() * 50.0).round() as i64);
        assert_eq!(ex, (angle.cos() * 150.0).round() as i64);
        assert_eq!(ey, (angle.sin() * 150.0).round() as i64);
    }
}

#[test]
fn unknown_code_end_to_end() {
    let m = model(999, 0, "Kyoto");
    let ops = compose(&m, &window());
    assert_eq!(ops, base(Color::PaleGreen, CityImage::Kyoto));
    assert!(!presents_frame(&m));
}

#[test]
fn only_a_scene_with_an_effect_is_shown() {
    for code in [200, 300, 600, 611, 701, 771, 781, 800, 804] {
        assert!(presents_frame(&model(code, 0, "Kyoto")), "code {}", code);
    }
    for code in [0, 999, 805, -1] {
        assert!(!presents_frame(&model(code, 0, "Kyoto")), "code {}", code);
    }
    let failed = sample_or_sentinel("Kyoto", Err(FetchError::ServiceFailure));
    assert!(!presents_frame(&Model::new("Kyoto", failed)));
}

#[test]
fn unknown_city_gets_the_empty_image() {
    for code in [800, 999, 0, 202, 781] {
        let m = model(code, 1500, "Unknown City");
        assert_eq!(m.texture(), CityImage::Empty);
        let ops = compose(&m, &window());
        assert_eq!(ops[1], DrawOp::DrawTexture { image: CityImage::Empty });
    }
    let failed = sample_or_sentinel("Unknown City", Err(FetchError::UnknownCity));
    let m = Model::new("Unknown City", failed);
    assert_eq!(m.texture(), CityImage::Empty);
    assert_eq!(compose(&m, &window()), base(Color::PaleGreen, CityImage::Empty));
}

#[test]
fn image_goes_by_the_name_that_was_asked_for() {
    let sample = WeatherSample::new(
        Temperature::Hundredths(1234),
        800,
        "clear sky".to_string(),
        "New York".to_string(),
    );
    let m = Model::new("nyc", sample.clone());
    assert_eq!(m.texture(), CityImage::Empty);
    assert_eq!(m.city().city_name(), "New York");
    let m = Model::new("NEW YORK", sample);
    assert_eq!(m.texture(), CityImage::NewYork);
}

#[test]
fn model_keeps_its_sample() {
    let m = model(501, 1234, "LONDON");
    assert_eq!(m.texture(), CityImage::London);
    assert_eq!(m.city().condition_code(), 501);
    assert_eq!(m.city().temperature(), Temperature::Hundredths(1234));
    assert_eq!(m.city().description(), "light rain");
    assert_eq!(m.city().city_name(), "LONDON");
}

#[test]
fn failed_fetch_renders_the_base_layer_only() {
    let failed = sample_or_sentinel("Madrid", Err(FetchError::ServiceFailure));
    let m = Model::new("Madrid", failed);
    assert_eq!(compose(&m, &window()), base(Color::PaleGreen, CityImage::Madrid));
}

#[test]
fn snow_has_five_flakes() {
    let win = window();
    let m = model(600, -300, "Tokyo");
    let ops = draw_snow(&m, &win, Color::PowderBlue);
    assert_eq!(ops.len(), 11);
    assert_eq!(&ops[0..2], &base(Color::PowderBlue, CityImage::Tokyo)[..]);
    assert_eq!(&ops[2..6], &label(Color::PowderBlue, CityImage::Tokyo, "light rain", "-3", 256)[..]);
    for op in &ops[6..] {
        assert!(is_dot(op, (-512, 512), (56, -256), 10, Color::White));
    }
    assert_eq!(compose(&m, &win).len(), 13);
}

#[test]
fn particles_have_their_tint() {
    let win = window();
    let m = model(751, 3500, "Madrid");
    let ops = draw_atmospheric_particles(&m, &win, Color::Crimson, Color::SandyBrown);
    assert_eq!(ops.len(), 2006);
    for op in &ops[6..] {
        assert!(is_dot(op, (-512, 512), (256, -256), 1, Color::SandyBrown));
    }
    let scene = compose(&m, &win);
    assert_eq!(scene.len(), 2008);
    assert_eq!(scene[0], DrawOp::SetBackground { color: Color::Crimson });
    for op in &scene[8..] {
        assert!(is_dot(op, (-512, 512), (256, -256), 1, Color::SandyBrown));
    }
}

#[test]
fn random_places_are_not_all_the_same() {
    let win = window();
    let m = model(751, 3500, "Madrid");
    let ops = draw_atmospheric_particles(&m, &win, Color::Crimson, Color::Gray);
    let first = ops[6].clone();
    assert!(ops[6..].iter().any(|op| *op != first));
    let xs: Vec<i64> = ops[6..]
        .iter()
        .map(|op| match op {
            DrawOp::DrawEllipse { center, .. } => center.x,
            _ => panic!("no ellipse"),
        })
        .collect();
    assert!(xs.iter().any(|x| *x != -512));
    assert!(xs.iter().all(|x| *x != 512));
}

#[test]
fn overcast_with_rain_has_dark_clouds_and_no_sun() {
    let win = window();
    let m = model(500, 900, "London");
    let ops = draw_overcast(&m, &win, Color::LightYellow, 10, true);
    assert_eq!(ops.len(), 6 + 50);
    assert_eq!(&ops[0..2], &base(Color::LightYellow, CityImage::London)[..]);
    assert_eq!(
        &ops[2..6],
        &label(Color::LightYellow, CityImage::London, "light rain", "9", 256)[..]
    );
    assert!(are_clouds(&ops[6..], 10, &win, Color::DimGray));
    assert_eq!(lines(&ops), 0);
}

#[test]
fn few_clouds_show_the_sun() {
    let win = window();
    let m = model(801, 900, "London");
    let ops = draw_overcast(&m, &win, Color::LightYellow, 10, false);
    assert_eq!(ops.len(), 6 + 27 + 50);
    assert_eq!(ops[6..33].to_vec(), draw_clear_sky(&m, &win, Color::LightYellow));
    assert!(are_clouds(&ops[33..], 10, &win, Color::LightGray));
    assert_eq!(ellipses(&ops), 51);
    assert_eq!(lines(&ops), 20);
    let scene = compose(&m, &win);
    assert_eq!(scene.len(), 2 + 83);
}

#[test]
fn half_covered_sky_hides_the_sun() {
    let win = window();
    for (code, coverage) in [(802, 50), (803, 75), (804, 100)] {
        let m = model(code, 900, "London");
        let scene = compose(&m, &win);
        assert_eq!(scene.len(), 2 + 6 + 5 * coverage);
        assert!(are_clouds(&scene[8..], coverage, &win, Color::LightGray));
        assert_eq!(lines(&scene), 0);
    }
    let m = model(801, 900, "London");
    let below = draw_overcast(&m, &win, Color::Gold, 49, false);
    assert_eq!(below.len(), 6 + 27 + 5 * 49);
    let at = draw_overcast(&m, &win, Color::Gold, 50, false);
    assert_eq!(at.len(), 6 + 5 * 50);
}

#[test]
fn a_count_below_zero_draws_nothing_more() {
    let win = window();
    let m = model(500, 900, "London");
    assert_eq!(draw_overcast(&m, &win, Color::Gold, -3, true).len(), 6);
    assert_eq!(draw_overcast(&m, &win, Color::Gold, 0, true).len(), 6);
    assert_eq!(draw_overcast(&m, &win, Color::Gold, -3, false).len(), 33);
    assert_eq!(draw_rain(&m, &win, Color::Gold, -3).len(), 8);
    assert_eq!(draw_thunderstorm(&m, &win, Color::Gold, 0).len(), 2 + 6 + 8 + 10);
}

#[test]
fn rain_has_clouds_and_drops() {
    let win = window();
    for (code, n) in [(300, 10usize), (500, 50), (502, 100)] {
        let m = model(code, 900, "Nashville");
        let scene = compose(&m, &win);
        assert_eq!(scene.len(), 2 + 2 + 6 + 5 * n + n);
        assert_eq!(&scene[0..2], &base(Color::LightYellow, CityImage::Nashville)[..]);
        assert_eq!(&scene[2..4], &base(Color::LightYellow, CityImage::Nashville)[..]);
        assert_eq!(
            &scene[6..10],
            &label(Color::LightYellow, CityImage::Nashville, "light rain", "9", 256)[..]
        );
        assert!(are_clouds(&scene[10..10 + 5 * n], n, &win, Color::DimGray));
        for op in &scene[10 + 5 * n..] {
            assert!(is_dot(op, (-512, 512), (56, -256), 10, Color::Blue));
        }
        assert_eq!(ellipses(&scene), 6 * n);
        assert_eq!(lines(&scene), 0);
    }
}

#[test]
fn thunderstorm_holds_overcast_rain_and_ten_bolts() {
    let win = window();
    for (code, n) in [(200, 50usize), (202, 100)] {
        let m = model(code, 2500, "New York");
        let scene = compose(&m, &win);
        let overcast = 6 + 5 * n;
        let rain = 2 + overcast + n;
        assert_eq!(scene.len(), 4 + overcast + rain + 10);
        let shapes = |ops: &[DrawOp]| ops.iter().map(shape).collect::<Vec<DrawOp>>();
        let direct_overcast = draw_overcast(&m, &win, Color::OrangeRed, n as i32, true);
        let direct_rain = draw_rain(&m, &win, Color::OrangeRed, n as i32);
        assert_eq!(shapes(&scene[4..4 + overcast]), shapes(&direct_overcast));
        assert_eq!(shapes(&scene[4 + overcast..4 + overcast + rain]), shapes(&direct_rain));
        assert!(are_clouds(&scene[10..10 + 5 * n], n, &win, Color::DimGray));
        for op in &scene[4 + overcast + rain..] {
            match op {
                DrawOp::DrawLine { start, end, weight, color } => {
                    assert!(between(-512, 512, start.x) && between(256, -256, start.y));
                    assert!(between(-512, 512, end.x) && between(256, -256, end.y));
                    assert_eq!(*weight, 2);
                    assert_eq!(*color, Color::Yellow);
                }
                _ => panic!("no line"),
            }
        }
        assert_eq!(lines(&scene), 10);
        assert_eq!(ellipses(&scene), 11 * n);
        assert_eq!(scene[2..].len(), draw_thunderstorm(&m, &win, Color::OrangeRed, n as i32).len());
    }
}

#[test]
fn sleet_is_light_rain_with_white_marks() {
    let win = window();
    let m = model(611, -50, "Kyoto");
    let ops = draw_sleet(&m, &win, Color::PaleGreen);
    assert_eq!(ops.len(), 2 + 68 + 100);
    let shapes = |ops: &[DrawOp]| ops.iter().map(shape).collect::<Vec<DrawOp>>();
    assert_eq!(shapes(&ops[2..70]), shapes(&draw_rain(&m, &win, Color::PaleGreen, 10)));
    for op in &ops[70..] {
        assert!(is_dot(op, (-512, 512), (56, -256), 10, Color::White));
    }
    let scene = compose(&m, &win);
    assert_eq!(scene.len(), 172);
    assert_eq!(ellipses(&scene), 160);
    assert_eq!(lines(&scene), 0);
}

#[test]
fn squalls_blow_to_the_right() {
    let win = window();
    let m = model(771, 1200, "Kyoto");
    let ops = draw_squalls(&m, &win, Color::Gold);
    assert_eq!(ops.len(), 56);
    assert_eq!(&ops[2..6], &label(Color::Gold, CityImage::Kyoto, "light rain", "12", 256)[..]);
    for op in &ops[6..] {
        match op {
            DrawOp::DrawLine { start, end, weight, color } => {
                assert!(between(-512, 512, start.x) && between(256, -256, start.y));
                assert!(between(50, 150, end.x - start.x));
                assert!(between(-20, 20, end.y - start.y));
                assert_eq!(*weight, 2);
                assert_eq!(*color, Color::Gainsboro);
            }
            _ => panic!("no line"),
        }
    }
    assert_eq!(lines(&compose(&m, &win)), 50);
}

#[test]
fn tornado_has_squalls_and_a_funnel() {
    let win = window();
    let m = model(781, 1200, "Kyoto");
    let scene = compose(&m, &win);
    assert_eq!(scene.len(), 2 + 108);
    let ops = draw_tornado(&m, &win, Color::Gold);
    assert_eq!(ops.len(), 108);
    for (i, op) in ops[58..].iter().enumerate() {
        let i = i as i64;
        assert_eq!(
            *op,
            DrawOp::DrawEllipse {
                center: Point { x: 0, y: 156 - 6 * i },
                radius_x: 100 - 2 * i,
                radius_y: 3,
                color: Color::DimGray,
                stroke: Some(Stroke { color: Color::Black, weight: 1 }),
            }
        );
    }
    assert_eq!(ellipses(&scene), 50);
    assert_eq!(lines(&scene), 50);
}

#[test]
fn composing_twice_gives_the_same_shapes() {
    let win = window();
    for code in [200, 202, 300, 500, 502, 600, 602, 611, 701, 711, 731, 751, 762, 771, 781, 800,
        801, 802, 803, 804, 0, 999]
    {
        let m = model(code, 1700, "Tokyo");
        let a = compose(&m, &win);
        let b = compose(&m, &win);
        assert_eq!(a.len(), b.len(), "code {}", code);
        for (x, y) in a.iter().zip(b.iter()) {
            assert_eq!(shape(x), shape(y), "code {}", code);
        }
        assert_eq!(ellipses(&a), ellipses(&b));
        assert_eq!(lines(&a), lines(&b));
    }
}

#[test]
fn a_canvas_without_extent_still_gets_its_scene() {
    let point = Canvas { left: 7, right: 7, bottom: 7, top: 7 };
    let m = model(200, 1700, "Tokyo");
    let scene = compose(&m, &point);
    assert_eq!(scene.len(), 4 + 256 + 308 + 10);
    for op in &scene {
        if let DrawOp::DrawLine { start, end, .. } = op {
            assert_eq!((start.x, start.y, end.x, end.y), (7, 7, 7, 7));
        }
    }
    let flipped = Canvas { left: 512, right: -512, bottom: 256, top: -256 };
    let snow = draw_snow(&m, &flipped, Color::White);
    for op in &snow[6..] {
        assert!(is_dot(op, (512, -512), (-456, 256), 10, Color::White));
    }
    let edge = Canvas { left: i32::MIN, right: i32::MAX, bottom: i32::MAX, top: i32::MIN };
    assert_eq!(compose(&m, &edge).len(), 4 + 256 + 308 + 10);
}

#[test]
fn counting_primitives() {
    let ops = vec![
        DrawOp::SetBackground { color: Color::Black },
        DrawOp::DrawLine {
            start: Point { x: 0, y: 0 },
            end: Point { x: 1, y: 1 },
            weight: 2,
            color: Color::Yellow,
        },
        puff(0, 0, Color::White),
        puff(1, 0, Color::White),
    ];
    assert_eq!(count_primitives(&ops, Primitive::Ellipse), 2);
    assert_eq!(count_primitives(&ops, Primitive::Line), 1);
    assert_eq!(count_primitives(&Vec::new(), Primitive::Line), 0);
}

#[test]
fn the_last_background_covers_what_came_before() {
    let win = window();
    let clear = compose(&model(800, 2000, "Kyoto"), &win);
    assert_eq!(first_visible(&clear), 4);
    let storm = compose(&model(200, 2000, "Kyoto"), &win);
    assert_eq!(first_visible(&storm), 264);
    assert_eq!(storm[264], DrawOp::SetBackground { color: Color::Orange });
    assert_eq!(storm.len() - 264, 4 + 250 + 50 + 10);
    assert!(storm[265..].iter().all(|op| !matches!(op, DrawOp::SetBackground { .. })));
    let nothing = compose(&model(999, 2000, "Kyoto"), &win);
    assert_eq!(first_visible(&nothing), 0);
}

#[test]
fn a_list_without_background_is_visible_from_its_start() {
    assert_eq!(first_visible(&Vec::new()), 0);
    let ops = vec![puff(0, 0, Color::White), puff(1, 1, Color::White)];
    assert_eq!(first_visible(&ops), 0);
    let ops = vec![
        puff(0, 0, Color::White),
        DrawOp::SetBackground { color: Color::Black },
        puff(1, 1, Color::White),
        DrawOp::SetBackground { color: Color::Gold },
    ];
    assert_eq!(first_visible(&ops), 3);
}
