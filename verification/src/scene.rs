//! Composition of a scene: the passes that draw each effect, and the choice
//! among them.

use vstd::prelude::*;
use vstd::string::*;
use crate::city::{image_of_lowercase, resolve, CityImage};
use crate::color::{get_temp_color, Color};
use crate::draw::{lemma_views_add, lemma_views_push, views, Canvas, DrawOp, Point, Stroke};
use crate::effect::{classify, effect_of, EffectVariant};
use crate::laws::{lemma_effect_len, lemma_overcast_len};
use crate::layout::{
    base, clear_sky, cloud_color, count, effect_len, funnel, funnel_slice, is_bolt, is_bolts,
    is_cloud, is_clouds, is_dot, is_dots, is_gust, is_gusts, is_overcast, is_particles, is_rain,
    is_scene, is_sleet, is_snow, is_squalls, is_thunderstorm, is_tornado, label, overcast_head,
    puff, ray, ray_offset, ray_reach, rays, sky_area, sun, Area, ModelView,
};
use crate::random::pick_between;
use crate::sample::{temperature_text, WeatherSample};
use crate::text::lowercase_of;

verus! {

/// What the passes draw from: the image of a city and its weather sample.
#[derive(Clone, Debug)]
pub struct Model {
    texture: CityImage,
    city: WeatherSample,
}

impl View for Model {
    type V = ModelView;

    closed spec fn view(&self) -> ModelView {
        ModelView { texture: self.texture, city: self.city@ }
    }
}

impl Model {
    /// Puts the sample of a city together with the image of the city. The
    /// image is found by the name that was asked for, whatever the case it is
    /// written in. A city without an image of its own gets the empty image,
    /// whatever its weather is.
    pub fn new(asked: &str, city: WeatherSample) -> (model: Model)
        ensures
            model@.city == city@,
            model@.texture == image_of_lowercase(lowercase_of(asked@)),
    {
        let texture = resolve(asked);
        Model { texture, city }
    }

    /// The image of the city.
    pub fn texture(&self) -> (image: CityImage)
        ensures
            image == self@.texture,
    {
        self.texture
    }

    /// The weather sample.
    pub fn city(&self) -> (sample: &WeatherSample)
        ensures
            sample@ == self@.city,
    {
        &self.city
    }
}

/// The base layer that every pass starts with.
fn base_ops(model: &Model, temp: Color) -> (ops: Vec<DrawOp>)
    ensures
        views(ops@) == base(model@, temp),
{
    let mut ops: Vec<DrawOp> = Vec::new();
    ops.push(DrawOp::SetBackground { color: temp });
    ops.push(DrawOp::DrawTexture { image: model.texture });
    assert(views(ops@) =~= base(model@, temp));
    ops
}

/// Adds the instructions of one pass to the end of a list.
fn add_pass(ops: &mut Vec<DrawOp>, pass: Vec<DrawOp>)
    ensures
        views(final(ops)@) == views(old(ops)@) + views(pass@),
{
    let mut pass = pass;
    proof {
        lemma_views_add(ops@, pass@);
    }
    ops.append(&mut pass);
}

/// Draws the label: the base layer, then the forecast in words and the
/// temperature, one below the other.
pub fn draw_weather_label(model: &Model, win: &Canvas, temp: Color) -> (ops: Vec<DrawOp>)
    ensures
        views(ops@) == label(model@, *win, temp),
{
    let mut ops = base_ops(model, temp);
    let mut forecast = String::from_str("Forecast: ");
    forecast.append(model.city.description());
    let reading = temperature_text(&model.city.temperature());
    let mut temp_str = String::from_str("Temperature: ");
    temp_str.append(reading.as_str());
    temp_str.append(" \u{b0}C");
    ops.push(
        DrawOp::DrawText {
            content: forecast,
            position: Point { x: -300, y: win.top as i64 - 400 },
            size: 24,
            color: Color::Black,
        },
    );
    ops.push(
        DrawOp::DrawText {
            content: temp_str,
            position: Point { x: -300, y: win.top as i64 - 460 },
            size: 24,
            color: Color::Black,
        },
    );
    assert(views(ops@) =~= label(model@, *win, temp));
    ops
}

/// The length of a ray's shadow on an axis, for the angle of the given step.
fn reach(step: i64, far: bool) -> (r: i64)
    ensures
        r == ray_reach(step as int, far),
{
    if step == 0 {
        if far {
            150
        } else {
            50
        }
    } else if step == 1 {
        if far {
            143
        } else {
            48
        }
    } else if step == 2 {
        if far {
            121
        } else {
            40
        }
    } else if step == 3 {
        if far {
            88
        } else {
            29
        }
    } else if step == 4 {
        if far {
            46
        } else {
            15
        }
    } else {
        0
    }
}

/// Where an end of ray `i` lies, seen from the centre of the sun.
fn offset(i: i64, far: bool) -> (d: (i64, i64))
    requires
        0 <= i < 20,
    ensures
        d.0 == ray_offset(i as int, far).0,
        d.1 == ray_offset(i as int, far).1,
{
    let quarter = i / 5;
    let step = i % 5;
    let along = reach(step, far);
    let across = reach(5 - step, far);
    if quarter == 0 {
        (along, across)
    } else if quarter == 1 {
        (-across, along)
    } else if quarter == 2 {
        (-along, -across)
    } else {
        (across, -along)
    }
}

/// Draws a clear sky: the base layer, the label, the sun below the top edge
/// and its twenty rays.
pub fn draw_clear_sky(model: &Model, win: &Canvas, temp: Color) -> (ops: Vec<DrawOp>)
    ensures
        views(ops@) == clear_sky(model@, *win, temp),
{
    let mut ops = base_ops(model, temp);
    add_pass(&mut ops, draw_weather_label(model, win, temp));
    let height: i64 = win.top as i64 - 100;
    ops.push(
        DrawOp::DrawEllipse {
            center: Point { x: 0, y: height },
            radius_x: 50,
            radius_y: 50,
            color: Color::Yellow,
            stroke: None,
        },
    );
    let ghost head = base(model@, temp) + label(model@, *win, temp) + seq![sun(*win)];
    assert(views(ops@) =~= head);
    let mut i: i64 = 0;
    while i < 20
        invariant
            0 <= i <= 20,
            height == win.top - 100,
            views(ops@) == head + rays(*win).take(i as int),
        decreases 20 - i,
    {
        let near = offset(i, false);
        let far = offset(i, true);
        let line = DrawOp::DrawLine {
            start: Point { x: near.0, y: height + near.1 },
            end: Point { x: far.0, y: height + far.1 },
            weight: 2,
            color: Color::Yellow,
        };
        proof {
            lemma_views_push(ops@, line);
            assert(line@ == ray(*win, i as int));
            assert((head + rays(*win).take(i as int)).push(line@) =~= head + rays(*win).take(
                i + 1,
            ));
        }
        ops.push(line);
        i += 1;
    }
    assert(rays(*win).take(20) =~= rays(*win));
    ops
}

/// Places `n` round marks of one radius and colour at random: `x` between
/// `x0` and `x1`, `y` between `y0` and `y1`.
fn scatter(x0: i64, x1: i64, y0: i64, y1: i64, n: i32, radius: i64, color: Color) -> (ops: Vec<
    DrawOp,
>)
    ensures
        is_dots(
            views(ops@),
            count(n as int),
            Area { x0: x0 as int, x1: x1 as int, y0: y0 as int, y1: y1 as int },
            radius as int,
            color,
        ),
{
    let ghost area = Area { x0: x0 as int, x1: x1 as int, y0: y0 as int, y1: y1 as int };
    let mut ops: Vec<DrawOp> = Vec::new();
    let mut k: i32 = 0;
    assert(views(ops@) =~= Seq::empty());
    while k < n
        invariant
            0 <= k,
            k <= count(n as int),
            area == (Area { x0: x0 as int, x1: x1 as int, y0: y0 as int, y1: y1 as int }),
            is_dots(views(ops@), k as nat, area, radius as int, color),
        decreases n - k,
    {
        let x = pick_between(x0, x1);
        let y = pick_between(y0, y1);
        let dot = DrawOp::DrawEllipse {
            center: Point { x, y },
            radius_x: radius,
            radius_y: radius,
            color,
            stroke: None,
        };
        proof {
            lemma_views_push(ops@, dot);
            assert(is_dot(dot@, area, radius as int, color));
        }
        ops.push(dot);
        k += 1;
    }
    ops
}

/// Draws snow: the base layer, the label, then five white flakes of radius 10
/// between 200 below the top edge and the bottom edge.
pub fn draw_snow(model: &Model, win: &Canvas, temp: Color) -> (ops: Vec<DrawOp>)
    ensures
        is_snow(views(ops@), model@, *win, temp),
{
    let mut ops = base_ops(model, temp);
    add_pass(&mut ops, draw_weather_label(model, win, temp));
    let ghost head = views(ops@);
    let flakes = scatter(
        win.left as i64,
        win.right as i64,
        win.top as i64 - 200,
        win.bottom as i64,
        5,
        10,
        Color::White,
    );
    let ghost tail = views(flakes@);
    add_pass(&mut ops, flakes);
    proof {
        lemma_split(views(ops@), head, tail);
    }
    ops
}

/// Draws airborne particles: the base layer, the label, then two thousand
/// specks of radius 1 in the given colour anywhere on the canvas.
pub fn draw_atmospheric_particles(model: &Model, win: &Canvas, temp: Color, weather_cond: Color)
    -> (ops: Vec<DrawOp>)
    ensures
        is_particles(views(ops@), model@, *win, temp, weather_cond),
{
    let mut ops = base_ops(model, temp);
    add_pass(&mut ops, draw_weather_label(model, win, temp));
    let ghost head = views(ops@);
    let specks = scatter(
        win.left as i64,
        win.right as i64,
        win.top as i64,
        win.bottom as i64,
        2000,
        1,
        weather_cond,
    );
    let ghost tail = views(specks@);
    add_pass(&mut ops, specks);
    proof {
        lemma_split(views(ops@), head, tail);
    }
    ops
}

/// Anchors `n` clouds at random between the top edge and 300 above the bottom
/// edge, and draws the five puffs of each.
fn cloud_layer(win: &Canvas, n: i32, color: Color) -> (ops: Vec<DrawOp>)
    ensures
        is_clouds(views(ops@), count(n as int), *win, color),
{
    let mut ops: Vec<DrawOp> = Vec::new();
    let mut k: i32 = 0;
    assert(views(ops@) =~= Seq::empty());
    while k < n
        invariant
            0 <= k,
            k <= count(n as int),
            is_clouds(views(ops@), k as nat, *win, color),
        decreases n - k,
    {
        let x = pick_between(win.left as i64, win.right as i64);
        let y = pick_between(win.top as i64, win.bottom as i64 + 300);
        let ghost before = views(ops@);
        let first = cloud_puff(x, y, color);
        let second = cloud_puff(x, y + 50, color);
        let third = cloud_puff(x - 50, y, color);
        let fourth = cloud_puff(x, y + 25, color);
        let fifth = cloud_puff(x + 50, y + 25, color);
        proof {
            let grown = ops@.push(first).push(second).push(third).push(fourth).push(fifth);
            lemma_views_push(ops@, first);
            lemma_views_push(ops@.push(first), second);
            lemma_views_push(ops@.push(first).push(second), third);
            lemma_views_push(ops@.push(first).push(second).push(third), fourth);
            lemma_views_push(ops@.push(first).push(second).push(third).push(fourth), fifth);
            assert(views(grown) == before.push(first@).push(second@).push(third@).push(
                fourth@,
            ).push(fifth@));
            assert forall|j: int| 0 <= j < k + 1 implies #[trigger] is_cloud(
                views(grown),
                j,
                *win,
                color,
            ) by {
                if j < k {
                    assert(is_cloud(before, j, *win, color));
                }
            }
        }
        ops.push(first);
        ops.push(second);
        ops.push(third);
        ops.push(fourth);
        ops.push(fifth);
        k += 1;
    }
    ops
}

/// One puff of a cloud.
fn cloud_puff(x: i64, y: i64, color: Color) -> (op: DrawOp)
    ensures
        op@ == puff(x as int, y as int, color),
{
    DrawOp::DrawEllipse { center: Point { x, y }, radius_x: 45, radius_y: 30, color, stroke: None }
}

/// Draws an overcast sky: the base layer, the label, a clear sky behind the
/// clouds where there is no rain and the coverage is below 50, then as many
/// clouds as the coverage says, dark ones under rain and light ones otherwise.
pub fn draw_overcast(model: &Model, win: &Canvas, temp: Color, speed: i32, rain: bool) -> (ops: Vec<
    DrawOp,
>)
    ensures
        is_overcast(views(ops@), model@, *win, temp, speed as int, rain),
{
    let mut ops = base_ops(model, temp);
    add_pass(&mut ops, draw_weather_label(model, win, temp));
    let cloud_color;
    if rain {
        cloud_color = Color::DimGray;
    } else {
        cloud_color = Color::LightGray;
        if speed < 50 {
            add_pass(&mut ops, draw_clear_sky(model, win, temp));
        }
    }
    let ghost head = views(ops@);
    assert(head =~= overcast_head(model@, *win, temp, speed as int, rain));
    let clouds = cloud_layer(win, speed, cloud_color);
    let ghost tail = views(clouds@);
    add_pass(&mut ops, clouds);
    proof {
        lemma_split(views(ops@), head, tail);
    }
    ops
}

/// Draws rain: the base layer, an overcast sky of the same intensity with the
/// rain layer, then as many blue drops of radius 10 as the intensity says,
/// between 200 below the top edge and the bottom edge.
pub fn draw_rain(model: &Model, win: &Canvas, temp: Color, speed: i32) -> (ops: Vec<DrawOp>)
    ensures
        is_rain(views(ops@), model@, *win, temp, speed as int),
{
    let mut ops = base_ops(model, temp);
    let ghost front = views(ops@);
    let clouds = draw_overcast(model, win, temp, speed, true);
    let ghost middle = views(clouds@);
    add_pass(&mut ops, clouds);
    let drops = scatter(
        win.left as i64,
        win.right as i64,
        win.top as i64 - 200,
        win.bottom as i64,
        speed,
        10,
        Color::Blue,
    );
    let ghost back = views(drops@);
    add_pass(&mut ops, drops);
    proof {
        lemma_overcast_len(middle, model@, *win, temp, speed as int, true);
        lemma_parts(views(ops@), front, middle, back);
    }
    ops
}

/// Draws a thunderstorm: the base layer, an overcast sky with the rain layer,
/// rain of the same intensity, then ten yellow flashes of lightning between
/// places picked anywhere on the canvas.
pub fn draw_thunderstorm(model: &Model, win: &Canvas, temp: Color, speed: i32) -> (ops: Vec<DrawOp>)
    ensures
        is_thunderstorm(views(ops@), model@, *win, temp, speed as int),
{
    let mut ops = base_ops(model, temp);
    let ghost front = views(ops@);
    let clouds = draw_overcast(model, win, temp, speed, true);
    let ghost second = views(clouds@);
    add_pass(&mut ops, clouds);
    let rain = draw_rain(model, win, temp, speed);
    let ghost third = views(rain@);
    add_pass(&mut ops, rain);
    let mut bolts: Vec<DrawOp> = Vec::new();
    let mut k: i32 = 0;
    assert(views(bolts@) =~= Seq::empty());
    while k < 10
        invariant
            0 <= k <= 10,
            is_bolts(views(bolts@), k as nat, sky_area(*win)),
        decreases 10 - k,
    {
        let start_x = pick_between(win.left as i64, win.right as i64);
        let start_y = pick_between(win.top as i64, win.bottom as i64);
        let end_x = pick_between(win.left as i64, win.right as i64);
        let end_y = pick_between(win.top as i64, win.bottom as i64);
        let bolt = DrawOp::DrawLine {
            start: Point { x: start_x, y: start_y },
            end: Point { x: end_x, y: end_y },
            weight: 2,
            color: Color::Yellow,
        };
        proof {
            lemma_views_push(bolts@, bolt);
            assert(is_bolt(bolt@, sky_area(*win)));
        }
        bolts.push(bolt);
        k += 1;
    }
    let ghost fourth = views(bolts@);
    add_pass(&mut ops, bolts);
    proof {
        lemma_overcast_len(second, model@, *win, temp, speed as int, true);
        assert(views(ops@) =~= (front + second) + third + fourth);
        lemma_parts(views(ops@), front + second, third, fourth);
        lemma_parts(front + second + third, front, second, third);
        assert(views(ops@).subrange(2, 2 + second.len() as int) =~= (front + second
            + third).subrange(2, 2 + second.len() as int));
        assert(views(ops@).take(2) =~= (front + second + third).take(2));
    }
    ops
}

/// Draws sleet: the base layer, rain of intensity 10, then a hundred white
/// marks of radius 10 between 200 below the top edge and the bottom edge.
pub fn draw_sleet(model: &Model, win: &Canvas, temp: Color) -> (ops: Vec<DrawOp>)
    ensures
        is_sleet(views(ops@), model@, *win, temp),
{
    let mut ops = base_ops(model, temp);
    let ghost front = views(ops@);
    let rain = draw_rain(model, win, temp, 10);
    let ghost middle = views(rain@);
    add_pass(&mut ops, rain);
    let marks = scatter(
        win.left as i64,
        win.right as i64,
        win.top as i64 - 200,
        win.bottom as i64,
        100,
        10,
        Color::White,
    );
    let ghost back = views(marks@);
    add_pass(&mut ops, marks);
    proof {
        lemma_parts(views(ops@), front, middle, back);
    }
    ops
}

/// Draws squalls: the base layer, the label, then fifty pale lines of wind.
/// Each starts anywhere on the canvas and ends between 50 and 150 to the
/// right of its start, at most 20 above or below it.
pub fn draw_squalls(model: &Model, win: &Canvas, temp: Color) -> (ops: Vec<DrawOp>)
    ensures
        is_squalls(views(ops@), model@, *win, temp),
{
    let mut ops = base_ops(model, temp);
    add_pass(&mut ops, draw_weather_label(model, win, temp));
    let ghost head = views(ops@);
    let mut gusts: Vec<DrawOp> = Vec::new();
    let mut k: i32 = 0;
    assert(views(gusts@) =~= Seq::empty());
    while k < 50
        invariant
            0 <= k <= 50,
            is_gusts(views(gusts@), k as nat, sky_area(*win)),
        decreases 50 - k,
    {
        let start_x = pick_between(win.left as i64, win.right as i64);
        let start_y = pick_between(win.top as i64, win.bottom as i64);
        let end_x = start_x + pick_between(50, 150);
        let end_y = start_y + pick_between(-20, 20);
        let gust = DrawOp::DrawLine {
            start: Point { x: start_x, y: start_y },
            end: Point { x: end_x, y: end_y },
            weight: 2,
            color: Color::Gainsboro,
        };
        proof {
            lemma_views_push(gusts@, gust);
            assert(is_gust(gust@, sky_area(*win)));
        }
        gusts.push(gust);
        k += 1;
    }
    let ghost tail = views(gusts@);
    add_pass(&mut ops, gusts);
    proof {
        lemma_split(views(ops@), head, tail);
    }
    ops
}

/// Draws a tornado: the base layer, squalls, then the funnel. Its fifty
/// slices start 100 below the top edge, each 6 lower and 4 narrower than
/// the one above it, dark with a black outline.
pub fn draw_tornado(model: &Model, win: &Canvas, temp: Color) -> (ops: Vec<DrawOp>)
    ensures
        is_tornado(views(ops@), model@, *win, temp),
{
    let mut ops = base_ops(model, temp);
    let ghost front = views(ops@);
    let squalls = draw_squalls(model, win, temp);
    let ghost middle = views(squalls@);
    add_pass(&mut ops, squalls);
    let mut slices: Vec<DrawOp> = Vec::new();
    let mut i: i64 = 0;
    assert(views(slices@) =~= funnel(*win).take(0));
    while i < 50
        invariant
            0 <= i <= 50,
            views(slices@) == funnel(*win).take(i as int),
        decreases 50 - i,
    {
        let slice = DrawOp::DrawEllipse {
            center: Point { x: 0, y: (win.top as i64 - 100) - i * 6 },
            radius_x: 100 - 2 * i,
            radius_y: 3,
            color: Color::DimGray,
            stroke: Some(Stroke { color: Color::Black, weight: 1 }),
        };
        proof {
            lemma_views_push(slices@, slice);
            assert(slice@ == funnel_slice(*win, i as int));
            assert(funnel(*win).take(i as int).push(slice@) =~= funnel(*win).take(i + 1));
        }
        slices.push(slice);
        i += 1;
    }
    assert(funnel(*win).take(50) =~= funnel(*win));
    let ghost back = views(slices@);
    add_pass(&mut ops, slices);
    proof {
        lemma_parts(views(ops@), front, middle, back);
    }
    ops
}

/// Whether the scene of a sample is to be shown. A sample whose condition
/// code selects no effect has nothing to show but the base layer: its frame
/// is skipped, which is no error.
pub fn presents_frame(model: &Model) -> (shown: bool)
    ensures
        shown == (effect_of(model@.city.condition_code as int) != EffectVariant::NoEffect),
{
    match classify(model.city.condition_code()) {
        EffectVariant::NoEffect => false,
        _ => true,
    }
}

/// Composes the scene of a sample on a canvas: the base layer in the colour
/// of the temperature's band, then the pass of the effect that the condition
/// code selects. Where the code selects no effect, the base layer is all
/// there is. Places that are picked at random differ from call to call; what
/// is drawn, how often, how large and in which colour does not.
pub fn compose(model: &Model, win: &Canvas) -> (ops: Vec<DrawOp>)
    ensures
        is_scene(views(ops@), model@, *win),
        ops@.len() == 2 + effect_len(effect_of(model@.city.condition_code as int)),
{
    let temp = get_temp_color(&model.city.temperature());
    let mut ops = base_ops(model, temp);
    let ghost head = views(ops@);
    let pass = match classify(model.city.condition_code()) {
        EffectVariant::Thunderstorm { intensity } => draw_thunderstorm(model, win, temp, intensity),
        EffectVariant::Rain { intensity } => draw_rain(model, win, temp, intensity),
        EffectVariant::Snow => draw_snow(model, win, temp),
        EffectVariant::Sleet => draw_sleet(model, win, temp),
        EffectVariant::AtmosphericParticles { tint } => draw_atmospheric_particles(
            model,
            win,
            temp,
            tint.color(),
        ),
        EffectVariant::Squalls => draw_squalls(model, win, temp),
        EffectVariant::Tornado => draw_tornado(model, win, temp),
        EffectVariant::ClearSky => draw_clear_sky(model, win, temp),
        EffectVariant::Overcast { coverage, rain_layer } => draw_overcast(
            model,
            win,
            temp,
            coverage,
            rain_layer,
        ),
        EffectVariant::NoEffect => Vec::new(),
    };
    let ghost tail = views(pass@);
    add_pass(&mut ops, pass);
    proof {
        lemma_split(views(ops@), head, tail);
        lemma_effect_len(
            tail,
            model@,
            *win,
            temp,
            effect_of(model@.city.condition_code as int),
        );
    }
    ops
}

/// A list that was put together from three parts gives them back when it is
/// cut where they meet.
proof fn lemma_parts<A>(whole: Seq<A>, front: Seq<A>, middle: Seq<A>, back: Seq<A>)
    requires
        whole == front + middle + back,
    ensures
        whole.len() == front.len() + middle.len() + back.len(),
        whole.take(front.len() as int) == front,
        whole.subrange(front.len() as int, (front.len() + middle.len()) as int) == middle,
        whole.skip((front.len() + middle.len()) as int) == back,
{
    assert(whole.take(front.len() as int) =~= front);
    assert(whole.subrange(front.len() as int, (front.len() + middle.len()) as int) =~= middle);
    assert(whole.skip((front.len() + middle.len()) as int) =~= back);
}

/// A list that was put together from two parts gives them back when it is cut
/// where they meet.
proof fn lemma_split<A>(whole: Seq<A>, front: Seq<A>, back: Seq<A>)
    requires
        whole == front + back,
    ensures
        whole.len() == front.len() + back.len(),
        whole.take(front.len() as int) == front,
        whole.skip(front.len() as int) == back,
        whole.subrange(0, front.len() as int) == front,
        whole.subrange(front.len() as int, whole.len() as int) == back,
{
    assert(whole.take(front.len() as int) =~= front);
    assert(whole.skip(front.len() as int) =~= back);
}

} // verus!
