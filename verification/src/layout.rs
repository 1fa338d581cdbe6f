//! What each pass of a scene must look like. A pass is a list of drawing
//! instructions; where elements are placed at random, the description fixes
//! their number, size, colour and the area they lie in, and leaves the place
//! within that area open.

use vstd::prelude::*;
use crate::city::CityImage;
use crate::color::{bucket_of, Color};
use crate::draw::{at, plain_ellipse, Canvas, DrawOpView, Point, Primitive, Stroke};
use crate::effect::{effect_of, EffectVariant};
use crate::random::lies_between;
use crate::sample::{temperature_text_of, WeatherSampleView};

verus! {

/// What the passes draw from: the image of the city and its weather sample.
pub struct ModelView {
    pub texture: CityImage,
    pub city: WeatherSampleView,
}

/// The bounds between which a random place is picked: `x` between `x0` and
/// `x1`, `y` between `y0` and `y1`, each pair in either order.
pub struct Area {
    pub x0: int,
    pub x1: int,
    pub y0: int,
    pub y1: int,
}

/// Whether a point is a legal pick from an area.
pub open spec fn inside(p: Point, area: Area) -> bool {
    &&& lies_between(area.x0, area.x1, p.x as int)
    &&& lies_between(area.y0, area.y1, p.y as int)
}

/// The whole canvas: where lightning, wind and particles are placed.
pub open spec fn sky_area(win: Canvas) -> Area {
    Area { x0: win.left as int, x1: win.right as int, y0: win.top as int, y1: win.bottom as int }
}

/// Where drops and flakes are placed: from 200 below the top edge to the
/// bottom edge.
pub open spec fn fall_area(win: Canvas) -> Area {
    Area { x0: win.left as int, x1: win.right as int, y0: win.top - 200, y1: win.bottom as int }
}

/// Where clouds are anchored: from the top edge to 300 above the bottom edge.
pub open spec fn cloud_area(win: Canvas) -> Area {
    Area { x0: win.left as int, x1: win.right as int, y0: win.top as int, y1: win.bottom + 300 }
}

/// How far a line of wind reaches from its start.
pub open spec fn gust_area() -> Area {
    Area { x0: 50, x1: 150, y0: -20, y1: 20 }
}

/// How many elements a count asks for: none where it is negative.
pub open spec fn count(n: int) -> nat {
    if n > 0 {
        n as nat
    } else {
        0
    }
}

/// Whether a list begins with the given instructions.
pub open spec fn starts_with(ops: Seq<DrawOpView>, head: Seq<DrawOpView>) -> bool {
    &&& head.len() <= ops.len()
    &&& ops.take(head.len() as int) == head
}

// ---------------------------------------------------------------------------
// The fixed parts

/// The base layer: the background colour, then the image of the city.
pub open spec fn base(m: ModelView, temp: Color) -> Seq<DrawOpView> {
    seq![
        DrawOpView::SetBackground { color: temp },
        DrawOpView::DrawTexture { image: m.texture },
    ]
}

/// The first line of the label.
pub open spec fn forecast_line(description: Seq<char>) -> Seq<char> {
    "Forecast: "@ + description
}

/// The second line of the label.
pub open spec fn temperature_line(reading: Seq<char>) -> Seq<char> {
    "Temperature: "@ + reading + " \u{b0}C"@
}

/// A line of the label: black text of size 24.
pub open spec fn label_text(content: Seq<char>, position: Point) -> DrawOpView {
    DrawOpView::DrawText { content, position, size: 24, color: Color::Black }
}

/// The label pass: the base layer, the forecast in words and the temperature.
pub open spec fn label(m: ModelView, win: Canvas, temp: Color) -> Seq<DrawOpView> {
    base(m, temp) + seq![
        label_text(forecast_line(m.city.description), at(-300, win.top - 400)),
        label_text(
            temperature_line(temperature_text_of(m.city.temperature)),
            at(-300, win.top - 460),
        ),
    ]
}

/// The sun: a yellow disc of radius 50 whose centre lies 100 below the top edge.
pub open spec fn sun(win: Canvas) -> DrawOpView {
    plain_ellipse(at(0, win.top - 100), 50, 50, Color::Yellow)
}

/// The length of a ray's shadow on an axis, in pixels, for the six angles
/// from 0 to 90 degrees in steps of 18: the cosine of the angle times 50 for
/// the near end of a ray, times 150 for the far end, rounded.
pub open spec fn ray_reach(step: int, far: bool) -> int {
    if step == 0 {
        if far {
            150
        } else {
            50
        }
    } else if step == 1 {
        if far {
            143
        } else {
            48
        }
    } else if step == 2 {
        if far {
            121
        } else {
            40
        }
    } else if step == 3 {
        if far {
            88
        } else {
            29
        }
    } else if step == 4 {
        if far {
            46
        } else {
            15
        }
    } else {
        0
    }
}

/// Where an end of ray `i` lies, seen from the centre of the sun. Ray `i`
/// points in the direction of `18 * i` degrees.
pub open spec fn ray_offset(i: int, far: bool) -> (int, int) {
    let quarter = i / 5;
    let step = i % 5;
    let along = ray_reach(step, far);
    let across = ray_reach(5 - step, far);
    if quarter == 0 {
        (along, across)
    } else if quarter == 1 {
        (-across, along)
    } else if quarter == 2 {
        (-along, -across)
    } else {
        (across, -along)
    }
}

/// One of the twenty rays of the sun: a yellow line of weight 2 from the rim
/// of the disc to 100 beyond it.
pub open spec fn ray(win: Canvas, i: int) -> DrawOpView {
    DrawOpView::DrawLine {
        start: at(ray_offset(i, false).0, win.top - 100 + ray_offset(i, false).1),
        end: at(ray_offset(i, true).0, win.top - 100 + ray_offset(i, true).1),
        weight: 2,
        color: Color::Yellow,
    }
}

/// The twenty rays of the sun.
pub open spec fn rays(win: Canvas) -> Seq<DrawOpView> {
    Seq::new(20, |i: int| ray(win, i))
}

/// The clear-sky pass: the base layer, the label pass, the sun and its rays.
pub open spec fn clear_sky(m: ModelView, win: Canvas, temp: Color) -> Seq<DrawOpView> {
    base(m, temp) + label(m, win, temp) + seq![sun(win)] + rays(win)
}

/// A slice of the funnel of a tornado: slice `i` lies `6 * i` below the top
/// of the funnel and is `4 * i` narrower than its mouth of 200.
pub open spec fn funnel_slice(win: Canvas, i: int) -> DrawOpView {
    DrawOpView::DrawEllipse {
        center: at(0, win.top - 100 - 6 * i),
        radius_x: (100 - 2 * i) as i64,
        radius_y: 3,
        color: Color::DimGray,
        stroke: Some(Stroke { color: Color::Black, weight: 1 }),
    }
}

/// The funnel of a tornado: fifty slices from the top down.
pub open spec fn funnel(win: Canvas) -> Seq<DrawOpView> {
    Seq::new(50, |i: int| funnel_slice(win, i))
}

// ---------------------------------------------------------------------------
// The layers that are placed at random

/// A round mark of the given radius and colour, somewhere in the area.
pub open spec fn is_dot(op: DrawOpView, area: Area, radius: int, color: Color) -> bool {
    &&& op matches DrawOpView::DrawEllipse { center, .. }
    &&& inside(center, area)
    &&& op == plain_ellipse(center, radius, radius, color)
}

/// A layer of `n` round marks, each somewhere in the area.
pub open spec fn is_dots(ops: Seq<DrawOpView>, n: nat, area: Area, radius: int, color: Color)
    -> bool {
    &&& ops.len() == n
    &&& forall|i: int| 0 <= i < n ==> is_dot(#[trigger] ops[i], area, radius, color)
}

/// One puff of a cloud: an ellipse 90 wide and 60 high.
pub open spec fn puff(x: int, y: int, color: Color) -> DrawOpView {
    plain_ellipse(at(x, y), 45, 30, color)
}

/// Cloud `k` of a layer: five puffs around an anchor that lies somewhere in
/// the area of the clouds.
pub open spec fn is_cloud(ops: Seq<DrawOpView>, k: int, win: Canvas, color: Color) -> bool {
    &&& ops[5 * k] matches DrawOpView::DrawEllipse { center, .. }
    &&& inside(center, cloud_area(win))
    &&& ops[5 * k] == puff(center.x as int, center.y as int, color)
    &&& ops[5 * k + 1] == puff(center.x as int, center.y + 50, color)
    &&& ops[5 * k + 2] == puff(center.x - 50, center.y as int, color)
    &&& ops[5 * k + 3] == puff(center.x as int, center.y + 25, color)
    &&& ops[5 * k + 4] == puff(center.x + 50, center.y + 25, color)
}

/// A layer of `n` clouds.
pub open spec fn is_clouds(ops: Seq<DrawOpView>, n: nat, win: Canvas, color: Color) -> bool {
    &&& ops.len() == 5 * n
    &&& forall|k: int| 0 <= k < n ==> #[trigger] is_cloud(ops, k, win, color)
}

/// A flash of lightning: a yellow line of weight 2 between two places of the
/// area.
pub open spec fn is_bolt(op: DrawOpView, area: Area) -> bool {
    &&& op matches DrawOpView::DrawLine { start, end, weight, color }
    &&& inside(start, area)
    &&& inside(end, area)
    &&& weight == 2
    &&& color == Color::Yellow
}

/// A layer of `n` flashes of lightning.
pub open spec fn is_bolts(ops: Seq<DrawOpView>, n: nat, area: Area) -> bool {
    &&& ops.len() == n
    &&& forall|i: int| 0 <= i < n ==> is_bolt(#[trigger] ops[i], area)
}

/// A line of wind: a pale line of weight 2 that starts somewhere in the area
/// and ends between 50 and 150 to the right of its start, at most 20 above or
/// below it.
pub open spec fn is_gust(op: DrawOpView, area: Area) -> bool {
    &&& op matches DrawOpView::DrawLine { start, end, weight, color }
    &&& inside(start, area)
    &&& lies_between(gust_area().x0, gust_area().x1, end.x - start.x)
    &&& lies_between(gust_area().y0, gust_area().y1, end.y - start.y)
    &&& weight == 2
    &&& color == Color::Gainsboro
}

/// A layer of `n` lines of wind.
pub open spec fn is_gusts(ops: Seq<DrawOpView>, n: nat, area: Area) -> bool {
    &&& ops.len() == n
    &&& forall|i: int| 0 <= i < n ==> is_gust(#[trigger] ops[i], area)
}

// ---------------------------------------------------------------------------
// The passes

/// The colour of the clouds: dark under rain, light otherwise.
pub open spec fn cloud_color(rain: bool) -> Color {
    if rain {
        Color::DimGray
    } else {
        Color::LightGray
    }
}

/// Whether the sun shows behind the clouds: only without rain, and only where
/// the clouds cover less than half of the sky.
pub open spec fn sun_shows(speed: int, rain: bool) -> bool {
    !rain && speed < 50
}

/// What an overcast pass draws before its clouds: the base layer, the label
/// pass and, where the sun shows, a clear-sky pass.
pub open spec fn overcast_head(m: ModelView, win: Canvas, temp: Color, speed: int, rain: bool)
    -> Seq<DrawOpView> {
    base(m, temp) + label(m, win, temp) + if sun_shows(speed, rain) {
        clear_sky(m, win, temp)
    } else {
        Seq::empty()
    }
}

/// The length of an overcast pass.
pub open spec fn overcast_len(speed: int, rain: bool) -> nat {
    if sun_shows(speed, rain) {
        33 + 5 * count(speed)
    } else {
        6 + 5 * count(speed)
    }
}

/// An overcast pass: its head, then as many clouds as the coverage says.
pub open spec fn is_overcast(
    ops: Seq<DrawOpView>,
    m: ModelView,
    win: Canvas,
    temp: Color,
    speed: int,
    rain: bool,
) -> bool {
    let head = overcast_head(m, win, temp, speed, rain);
    &&& starts_with(ops, head)
    &&& is_clouds(ops.skip(head.len() as int), count(speed), win, cloud_color(rain))
}

/// The length of a rain pass.
pub open spec fn rain_len(speed: int) -> nat {
    2 + overcast_len(speed, true) + count(speed)
}

/// A rain pass: the base layer, an overcast pass of the same intensity with
/// the rain layer, then as many blue drops as the intensity says.
pub open spec fn is_rain(ops: Seq<DrawOpView>, m: ModelView, win: Canvas, temp: Color, speed: int)
    -> bool {
    let clouds_end = 2 + overcast_len(speed, true);
    &&& ops.len() == rain_len(speed)
    &&& starts_with(ops, base(m, temp))
    &&& is_overcast(ops.subrange(2, clouds_end as int), m, win, temp, speed, true)
    &&& is_dots(ops.skip(clouds_end as int), count(speed), fall_area(win), 10, Color::Blue)
}

/// The length of a thunderstorm pass.
pub open spec fn thunderstorm_len(speed: int) -> nat {
    2 + overcast_len(speed, true) + rain_len(speed) + 10
}

/// A thunderstorm pass: the base layer, an overcast pass with the rain layer,
/// a rain pass, then ten flashes of lightning.
pub open spec fn is_thunderstorm(
    ops: Seq<DrawOpView>,
    m: ModelView,
    win: Canvas,
    temp: Color,
    speed: int,
) -> bool {
    let clouds_end = 2 + overcast_len(speed, true);
    let rain_end = clouds_end + rain_len(speed);
    &&& ops.len() == thunderstorm_len(speed)
    &&& starts_with(ops, base(m, temp))
    &&& is_overcast(ops.subrange(2, clouds_end as int), m, win, temp, speed, true)
    &&& is_rain(ops.subrange(clouds_end as int, rain_end as int), m, win, temp, speed)
    &&& is_bolts(ops.skip(rain_end as int), 10, sky_area(win))
}

/// A snow pass: the base layer, the label pass, then five white flakes.
pub open spec fn is_snow(ops: Seq<DrawOpView>, m: ModelView, win: Canvas, temp: Color) -> bool {
    &&& starts_with(ops, base(m, temp) + label(m, win, temp))
    &&& is_dots(ops.skip(6), 5, fall_area(win), 10, Color::White)
}

/// The length of a sleet pass.
pub open spec fn sleet_len() -> nat {
    2 + rain_len(10) + 100
}

/// A sleet pass: the base layer, a rain pass of intensity 10, then a hundred
/// white marks.
pub open spec fn is_sleet(ops: Seq<DrawOpView>, m: ModelView, win: Canvas, temp: Color) -> bool {
    let rain_end = 2 + rain_len(10);
    &&& ops.len() == sleet_len()
    &&& starts_with(ops, base(m, temp))
    &&& is_rain(ops.subrange(2, rain_end as int), m, win, temp, 10)
    &&& is_dots(ops.skip(rain_end as int), 100, fall_area(win), 10, Color::White)
}

/// A pass of airborne particles: the base layer, the label pass, then two
/// thousand specks of the given colour anywhere on the canvas.
pub open spec fn is_particles(
    ops: Seq<DrawOpView>,
    m: ModelView,
    win: Canvas,
    temp: Color,
    tint: Color,
) -> bool {
    &&& starts_with(ops, base(m, temp) + label(m, win, temp))
    &&& is_dots(ops.skip(6), 2000, sky_area(win), 1, tint)
}

/// A pass of squalls: the base layer, the label pass, then fifty lines of wind.
pub open spec fn is_squalls(ops: Seq<DrawOpView>, m: ModelView, win: Canvas, temp: Color) -> bool {
    &&& starts_with(ops, base(m, temp) + label(m, win, temp))
    &&& is_gusts(ops.skip(6), 50, sky_area(win))
}

/// A tornado pass: the base layer, a pass of squalls, then the funnel.
pub open spec fn is_tornado(ops: Seq<DrawOpView>, m: ModelView, win: Canvas, temp: Color) -> bool {
    &&& ops.len() == 108
    &&& starts_with(ops, base(m, temp))
    &&& is_squalls(ops.subrange(2, 58), m, win, temp)
    &&& ops.skip(58) == funnel(win)
}

/// The pass of an effect. Without an effect nothing is drawn.
pub open spec fn is_effect_pass(
    ops: Seq<DrawOpView>,
    m: ModelView,
    win: Canvas,
    temp: Color,
    effect: EffectVariant,
) -> bool {
    match effect {
        EffectVariant::Thunderstorm { intensity } => is_thunderstorm(
            ops,
            m,
            win,
            temp,
            intensity as int,
        ),
        EffectVariant::Rain { intensity } => is_rain(ops, m, win, temp, intensity as int),
        EffectVariant::Snow => is_snow(ops, m, win, temp),
        EffectVariant::Sleet => is_sleet(ops, m, win, temp),
        EffectVariant::AtmosphericParticles { tint } => is_particles(
            ops,
            m,
            win,
            temp,
            tint.shade(),
        ),
        EffectVariant::Squalls => is_squalls(ops, m, win, temp),
        EffectVariant::Tornado => is_tornado(ops, m, win, temp),
        EffectVariant::ClearSky => ops == clear_sky(m, win, temp),
        EffectVariant::Overcast { coverage, rain_layer } => is_overcast(
            ops,
            m,
            win,
            temp,
            coverage as int,
            rain_layer,
        ),
        EffectVariant::NoEffect => ops.len() == 0,
    }
}

/// The number of instructions in the pass of an effect.
pub open spec fn effect_len(effect: EffectVariant) -> nat {
    match effect {
        EffectVariant::Thunderstorm { intensity } => thunderstorm_len(intensity as int),
        EffectVariant::Rain { intensity } => rain_len(intensity as int),
        EffectVariant::Snow => 11,
        EffectVariant::Sleet => sleet_len(),
        EffectVariant::AtmosphericParticles { tint } => 2006,
        EffectVariant::Squalls => 56,
        EffectVariant::Tornado => 108,
        EffectVariant::ClearSky => 27,
        EffectVariant::Overcast { coverage, rain_layer } => overcast_len(
            coverage as int,
            rain_layer,
        ),
        EffectVariant::NoEffect => 0,
    }
}

/// How many ellipses and how many lines an overcast pass holds: five
/// ellipses for each cloud and, where the sun shows, the sun and its rays.
pub open spec fn overcast_count(speed: int, rain: bool, primitive: Primitive) -> nat {
    match primitive {
        Primitive::Ellipse => 5 * count(speed) + if sun_shows(speed, rain) {
            1nat
        } else {
            0nat
        },
        Primitive::Line => if sun_shows(speed, rain) {
            20
        } else {
            0
        },
    }
}

/// How many ellipses and how many lines the pass of an effect holds.
pub open spec fn effect_count(effect: EffectVariant, primitive: Primitive) -> nat {
    match effect {
        EffectVariant::Thunderstorm { intensity } => match primitive {
            Primitive::Ellipse => 11 * count(intensity as int),
            Primitive::Line => 10,
        },
        EffectVariant::Rain { intensity } => match primitive {
            Primitive::Ellipse => 6 * count(intensity as int),
            Primitive::Line => 0,
        },
        EffectVariant::Snow => match primitive {
            Primitive::Ellipse => 5,
            Primitive::Line => 0,
        },
        EffectVariant::Sleet => match primitive {
            Primitive::Ellipse => 160,
            Primitive::Line => 0,
        },
        EffectVariant::AtmosphericParticles { tint } => match primitive {
            Primitive::Ellipse => 2000,
            Primitive::Line => 0,
        },
        EffectVariant::Squalls => match primitive {
            Primitive::Ellipse => 0,
            Primitive::Line => 50,
        },
        EffectVariant::Tornado => match primitive {
            Primitive::Ellipse => 50,
            Primitive::Line => 50,
        },
        EffectVariant::ClearSky => match primitive {
            Primitive::Ellipse => 1,
            Primitive::Line => 20,
        },
        EffectVariant::Overcast { coverage, rain_layer } => overcast_count(
            coverage as int,
            rain_layer,
            primitive,
        ),
        EffectVariant::NoEffect => 0,
    }
}

/// The background colour of a scene: the colour of the band of its temperature.
pub open spec fn backdrop(m: ModelView) -> Color {
    bucket_of(m.city.temperature).shade()
}

/// A whole scene: the base layer in the colour of the temperature, then the
/// pass of the effect that the condition code selects.
pub open spec fn is_scene(ops: Seq<DrawOpView>, m: ModelView, win: Canvas) -> bool {
    &&& starts_with(ops, base(m, backdrop(m)))
    &&& is_effect_pass(ops.skip(2), m, win, backdrop(m), effect_of(m.city.condition_code as int))
}

} // verus!
