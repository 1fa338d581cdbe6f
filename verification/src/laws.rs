//! What holds of every scene, whatever places were picked at random.

use vstd::prelude::*;
use crate::color::Color;
use crate::draw::{count_of, draws, same_shapes, shape, Canvas, DrawOpView, Primitive};
use crate::effect::{effect_of, EffectVariant};
use crate::layout::{
    backdrop, base, clear_sky, cloud_color, count, effect_count, effect_len, fall_area, funnel,
    is_bolt, is_bolts, is_cloud, is_clouds, is_dot, is_dots, is_effect_pass, is_gust, is_gusts,
    is_overcast, is_rain, is_scene, is_squalls, label, overcast_count, overcast_head,
    overcast_len, puff, rain_len, ray_offset, ray_reach, rays, sky_area, starts_with, sun, sun_shows, Area,
    ModelView,
};

verus! {

// ---------------------------------------------------------------------------
// Lists that are put together from parts

/// Two lists that agree in shape before a cut and after it agree as a whole.
proof fn lemma_join(a: Seq<DrawOpView>, b: Seq<DrawOpView>, cut: int)
    requires
        0 <= cut <= a.len(),
        cut <= b.len(),
        same_shapes(a.take(cut), b.take(cut)),
        same_shapes(a.skip(cut), b.skip(cut)),
    ensures
        same_shapes(a, b),
{
    assert(a.skip(cut).len() == a.len() - cut);
    assert(b.skip(cut).len() == b.len() - cut);
    assert forall|i: int| 0 <= i < a.len() implies shape(#[trigger] a[i]) == shape(b[i]) by {
        if i < cut {
            assert(a.take(cut)[i] == a[i]);
            assert(b.take(cut)[i] == b[i]);
        } else {
            assert(a.skip(cut)[i - cut] == a[i]);
            assert(b.skip(cut)[i - cut] == b[i]);
        }
    }
}

/// Two lists that agree in shape in each of three parts agree as a whole.
proof fn lemma_join3(a: Seq<DrawOpView>, b: Seq<DrawOpView>, first: int, second: int)
    requires
        0 <= first <= second <= a.len(),
        second <= b.len(),
        same_shapes(a.take(first), b.take(first)),
        same_shapes(a.subrange(first, second), b.subrange(first, second)),
        same_shapes(a.skip(second), b.skip(second)),
    ensures
        same_shapes(a, b),
{
    assert(a.skip(second).len() == a.len() - second);
    assert(b.skip(second).len() == b.len() - second);
    assert forall|i: int| 0 <= i < a.len() implies shape(#[trigger] a[i]) == shape(b[i]) by {
        if i < first {
            assert(a.take(first)[i] == a[i]);
            assert(b.take(first)[i] == b[i]);
        } else if i < second {
            assert(a.subrange(first, second)[i - first] == a[i]);
            assert(b.subrange(first, second)[i - first] == b[i]);
        } else {
            assert(a.skip(second)[i - second] == a[i]);
            assert(b.skip(second)[i - second] == b[i]);
        }
    }
}

/// The count of a list that is put together from two is the sum of their counts.
pub proof fn lemma_count_add(front: Seq<DrawOpView>, back: Seq<DrawOpView>, primitive: Primitive)
    ensures
        count_of(front + back, primitive) == count_of(front, primitive) + count_of(
            back,
            primitive,
        ),
    decreases back.len(),
{
    if back.len() == 0 {
        assert(front + back =~= front);
    } else {
        assert((front + back).drop_last() =~= front + back.drop_last());
        assert((front + back).last() == back.last());
        lemma_count_add(front, back.drop_last(), primitive);
    }
}

/// The count of a list is the sum of the counts before and after a cut.
proof fn lemma_count_cut(ops: Seq<DrawOpView>, cut: int, primitive: Primitive)
    requires
        0 <= cut <= ops.len(),
    ensures
        count_of(ops, primitive) == count_of(ops.take(cut), primitive) + count_of(
            ops.skip(cut),
            primitive,
        ),
{
    assert(ops =~= ops.take(cut) + ops.skip(cut));
    lemma_count_add(ops.take(cut), ops.skip(cut), primitive);
}

/// A list in which nothing draws a primitive counts none of it.
proof fn lemma_count_none(ops: Seq<DrawOpView>, primitive: Primitive)
    requires
        forall|i: int| 0 <= i < ops.len() ==> !draws(#[trigger] ops[i], primitive),
    ensures
        count_of(ops, primitive) == 0,
    decreases ops.len(),
{
    if ops.len() > 0 {
        assert(forall|i: int|
            0 <= i < ops.drop_last().len() ==> ops.drop_last()[i] == #[trigger] ops[i]);
        lemma_count_none(ops.drop_last(), primitive);
    }
}

/// A list in which everything draws a primitive counts as many as it is long.
proof fn lemma_count_all(ops: Seq<DrawOpView>, primitive: Primitive)
    requires
        forall|i: int| 0 <= i < ops.len() ==> draws(#[trigger] ops[i], primitive),
    ensures
        count_of(ops, primitive) == ops.len(),
    decreases ops.len(),
{
    if ops.len() > 0 {
        assert(forall|i: int|
            0 <= i < ops.drop_last().len() ==> ops.drop_last()[i] == #[trigger] ops[i]);
        lemma_count_all(ops.drop_last(), primitive);
    }
}

/// Lists that agree in shape hold the same number of each primitive.
pub proof fn lemma_shapes_fix_counts(a: Seq<DrawOpView>, b: Seq<DrawOpView>, primitive: Primitive)
    requires
        same_shapes(a, b),
    ensures
        count_of(a, primitive) == count_of(b, primitive),
    decreases a.len(),
{
    if a.len() > 0 {
        assert(forall|i: int| 0 <= i < a.drop_last().len() ==> a.drop_last()[i] == #[trigger] a[i]);
        assert(forall|i: int| 0 <= i < b.drop_last().len() ==> b.drop_last()[i] == #[trigger] b[i]);
        assert(same_shapes(a.drop_last(), b.drop_last())) by {
            assert forall|i: int| 0 <= i < a.drop_last().len() implies shape(
                #[trigger] a.drop_last()[i],
            ) == shape(b.drop_last()[i]) by {
                assert(shape(a[i]) == shape(b[i]));
            }
        }
        lemma_shapes_fix_counts(a.drop_last(), b.drop_last(), primitive);
        assert(shape(a[a.len() - 1]) == shape(b[a.len() - 1]));
    }
}

// ---------------------------------------------------------------------------
// Layers

/// Two layers of marks of one number, size and colour agree in shape.
proof fn lemma_dots_agree(
    a: Seq<DrawOpView>,
    b: Seq<DrawOpView>,
    n: nat,
    area: Area,
    radius: int,
    color: Color,
)
    requires
        is_dots(a, n, area, radius, color),
        is_dots(b, n, area, radius, color),
    ensures
        same_shapes(a, b),
{
    assert forall|i: int| 0 <= i < a.len() implies shape(#[trigger] a[i]) == shape(b[i]) by {
        assert(is_dot(a[i], area, radius, color));
        assert(is_dot(b[i], area, radius, color));
    }
}

/// A layer of marks holds ellipses only.
proof fn lemma_dots_count(
    ops: Seq<DrawOpView>,
    n: nat,
    area: Area,
    radius: int,
    color: Color,
)
    requires
        is_dots(ops, n, area, radius, color),
    ensures
        count_of(ops, Primitive::Line) == 0,
        count_of(ops, Primitive::Ellipse) == n,
{
    assert forall|i: int| 0 <= i < ops.len() implies draws(
        #[trigger] ops[i],
        Primitive::Ellipse,
    ) && !draws(ops[i], Primitive::Line) by {
        assert(is_dot(ops[i], area, radius, color));
    }
    lemma_count_none(ops, Primitive::Line);
    lemma_count_all(ops, Primitive::Ellipse);
}

/// Every puff of a layer of clouds is an ellipse of the size and colour of a puff.
proof fn lemma_cloud_puffs(ops: Seq<DrawOpView>, n: nat, win: Canvas, color: Color, i: int)
    requires
        is_clouds(ops, n, win, color),
        0 <= i < ops.len(),
    ensures
        shape(ops[i]) == shape(puff(0, 0, color)),
        ops[i] is DrawEllipse,
{
    let k = i / 5;
    assert(is_cloud(ops, k, win, color));
    assert(i == 5 * k || i == 5 * k + 1 || i == 5 * k + 2 || i == 5 * k + 3 || i == 5 * k + 4);
}

/// Two layers of clouds of one number and colour agree in shape.
proof fn lemma_clouds_agree(
    a: Seq<DrawOpView>,
    b: Seq<DrawOpView>,
    n: nat,
    win: Canvas,
    color: Color,
)
    requires
        is_clouds(a, n, win, color),
        is_clouds(b, n, win, color),
    ensures
        same_shapes(a, b),
{
    assert forall|i: int| 0 <= i < a.len() implies shape(#[trigger] a[i]) == shape(b[i]) by {
        lemma_cloud_puffs(a, n, win, color, i);
        lemma_cloud_puffs(b, n, win, color, i);
    }
}

/// A layer of clouds holds ellipses only: five for each cloud.
proof fn lemma_clouds_count(ops: Seq<DrawOpView>, n: nat, win: Canvas, color: Color)
    requires
        is_clouds(ops, n, win, color),
    ensures
        count_of(ops, Primitive::Line) == 0,
        count_of(ops, Primitive::Ellipse) == 5 * n,
{
    assert forall|i: int| 0 <= i < ops.len() implies draws(
        #[trigger] ops[i],
        Primitive::Ellipse,
    ) && !draws(ops[i], Primitive::Line) by {
        lemma_cloud_puffs(ops, n, win, color, i);
    }
    lemma_count_none(ops, Primitive::Line);
    lemma_count_all(ops, Primitive::Ellipse);
}

/// Two layers of as many flashes of lightning agree in shape.
proof fn lemma_bolts_agree(a: Seq<DrawOpView>, b: Seq<DrawOpView>, n: nat, area: Area)
    requires
        is_bolts(a, n, area),
        is_bolts(b, n, area),
    ensures
        same_shapes(a, b),
{
    assert forall|i: int| 0 <= i < a.len() implies shape(#[trigger] a[i]) == shape(b[i]) by {
        assert(is_bolt(a[i], area));
        assert(is_bolt(b[i], area));
    }
}

/// A layer of lightning holds lines only.
proof fn lemma_bolts_count(ops: Seq<DrawOpView>, n: nat, area: Area)
    requires
        is_bolts(ops, n, area),
    ensures
        count_of(ops, Primitive::Line) == n,
        count_of(ops, Primitive::Ellipse) == 0,
{
    assert forall|i: int| 0 <= i < ops.len() implies draws(#[trigger] ops[i], Primitive::Line)
        && !draws(ops[i], Primitive::Ellipse) by {
        assert(is_bolt(ops[i], area));
    }
    lemma_count_none(ops, Primitive::Ellipse);
    lemma_count_all(ops, Primitive::Line);
}

/// Two layers of as many lines of wind agree in shape.
proof fn lemma_gusts_agree(a: Seq<DrawOpView>, b: Seq<DrawOpView>, n: nat, area: Area)
    requires
        is_gusts(a, n, area),
        is_gusts(b, n, area),
    ensures
        same_shapes(a, b),
{
    assert forall|i: int| 0 <= i < a.len() implies shape(#[trigger] a[i]) == shape(b[i]) by {
        assert(is_gust(a[i], area));
        assert(is_gust(b[i], area));
    }
}

// ---------------------------------------------------------------------------
// Passes

/// Two overcast passes of one coverage and rain layer agree in shape.
proof fn lemma_overcast_agree(
    a: Seq<DrawOpView>,
    b: Seq<DrawOpView>,
    m: ModelView,
    win: Canvas,
    temp: Color,
    speed: int,
    rain: bool,
)
    requires
        is_overcast(a, m, win, temp, speed, rain),
        is_overcast(b, m, win, temp, speed, rain),
    ensures
        same_shapes(a, b),
{
    let cut = overcast_head(m, win, temp, speed, rain).len() as int;
    lemma_clouds_agree(a.skip(cut), b.skip(cut), count(speed), win, cloud_color(rain));
    lemma_join(a, b, cut);
}

/// Two rain passes of one intensity agree in shape.
proof fn lemma_rain_agree(
    a: Seq<DrawOpView>,
    b: Seq<DrawOpView>,
    m: ModelView,
    win: Canvas,
    temp: Color,
    speed: int,
)
    requires
        is_rain(a, m, win, temp, speed),
        is_rain(b, m, win, temp, speed),
    ensures
        same_shapes(a, b),
{
    let cut = 2 + overcast_len(speed, true) as int;
    lemma_overcast_agree(a.subrange(2, cut), b.subrange(2, cut), m, win, temp, speed, true);
    lemma_dots_agree(a.skip(cut), b.skip(cut), count(speed), fall_area(win), 10, Color::Blue);
    lemma_join3(a, b, 2, cut);
}

/// Two passes of one effect agree in shape.
proof fn lemma_effects_agree(
    a: Seq<DrawOpView>,
    b: Seq<DrawOpView>,
    m: ModelView,
    win: Canvas,
    temp: Color,
    effect: EffectVariant,
)
    requires
        is_effect_pass(a, m, win, temp, effect),
        is_effect_pass(b, m, win, temp, effect),
    ensures
        same_shapes(a, b),
{
    match effect {
        EffectVariant::Thunderstorm { intensity } => {
            let speed = intensity as int;
            let cut = 2 + overcast_len(speed, true) as int;
            let end = cut + rain_len(speed) as int;
            lemma_overcast_agree(a.subrange(2, cut), b.subrange(2, cut), m, win, temp, speed, true);
            lemma_rain_agree(a.subrange(cut, end), b.subrange(cut, end), m, win, temp, speed);
            lemma_bolts_agree(a.skip(end), b.skip(end), 10, sky_area(win));
            assert(a.take(end).take(2) =~= a.take(2));
            assert(b.take(end).take(2) =~= b.take(2));
            assert(a.take(end).subrange(2, cut) =~= a.subrange(2, cut));
            assert(b.take(end).subrange(2, cut) =~= b.subrange(2, cut));
            assert(a.take(end).skip(cut) =~= a.subrange(cut, end));
            assert(b.take(end).skip(cut) =~= b.subrange(cut, end));
            lemma_join3(a.take(end), b.take(end), 2, cut);
            lemma_join(a, b, end);
        },
        EffectVariant::Rain { intensity } => {
            lemma_rain_agree(a, b, m, win, temp, intensity as int);
        },
        EffectVariant::Snow => {
            lemma_dots_agree(a.skip(6), b.skip(6), 5, fall_area(win), 10, Color::White);
            lemma_join(a, b, 6);
        },
        EffectVariant::Sleet => {
            let end = 2 + rain_len(10) as int;
            lemma_rain_agree(a.subrange(2, end), b.subrange(2, end), m, win, temp, 10);
            lemma_dots_agree(a.skip(end), b.skip(end), 100, fall_area(win), 10, Color::White);
            lemma_join3(a, b, 2, end);
        },
        EffectVariant::AtmosphericParticles { tint } => {
            lemma_dots_agree(a.skip(6), b.skip(6), 2000, sky_area(win), 1, tint.shade());
            lemma_join(a, b, 6);
        },
        EffectVariant::Squalls => {
            lemma_squalls_agree(a, b, m, win, temp);
        },
        EffectVariant::Tornado => {
            lemma_squalls_agree(a.subrange(2, 58), b.subrange(2, 58), m, win, temp);
            lemma_join3(a, b, 2, 58);
        },
        EffectVariant::ClearSky => {},
        EffectVariant::Overcast { coverage, rain_layer } => {
            lemma_overcast_agree(a, b, m, win, temp, coverage as int, rain_layer);
        },
        EffectVariant::NoEffect => {},
    }
}

/// Two passes of squalls agree in shape.
proof fn lemma_squalls_agree(
    a: Seq<DrawOpView>,
    b: Seq<DrawOpView>,
    m: ModelView,
    win: Canvas,
    temp: Color,
)
    requires
        is_squalls(a, m, win, temp),
        is_squalls(b, m, win, temp),
    ensures
        same_shapes(a, b),
{
    lemma_gusts_agree(a.skip(6), b.skip(6), 50, sky_area(win));
    lemma_join(a, b, 6);
}

// ---------------------------------------------------------------------------
// The sun

/// The square of the distance of a point from the origin.
pub open spec fn square_distance(offset: (int, int)) -> int {
    offset.0 * offset.0 + offset.1 * offset.1
}

/// The two shadows of a ray on the axes fit its length: their squares add up
/// to the square of 50, or of 150 at the far end, within a pixel.
proof fn lemma_reach_fits(step: int, far: bool)
    requires
        0 <= step < 5,
    ensures
        !far ==> 49 * 49 <= square_distance((ray_reach(step, far), ray_reach(5 - step, far)))
            <= 51 * 51,
        far ==> 149 * 149 <= square_distance((ray_reach(step, far), ray_reach(5 - step, far)))
            <= 151 * 151,
{
    if step == 0 {
        assert(50 * 50 + 0 * 0 == 2500 && 150 * 150 + 0 * 0 == 22500);
    } else if step == 1 {
        assert(48 * 48 + 15 * 15 == 2529 && 143 * 143 + 46 * 46 == 22565);
    } else if step == 2 {
        assert(40 * 40 + 29 * 29 == 2441 && 121 * 121 + 88 * 88 == 22385);
    } else if step == 3 {
        assert(29 * 29 + 40 * 40 == 2441 && 88 * 88 + 121 * 121 == 22385);
    } else {
        assert(15 * 15 + 48 * 48 == 2529 && 46 * 46 + 143 * 143 == 22565);
    }
}

/// Every ray of the sun starts within a pixel of the rim of the disc, which
/// lies 50 from its centre, and ends within a pixel of 150 from the centre.
/// Opposite rays mirror each other.
pub proof fn lemma_rays_reach_the_rim(i: int)
    requires
        0 <= i < 20,
    ensures
        49 * 49 <= square_distance(ray_offset(i, false)) <= 51 * 51,
        149 * 149 <= square_distance(ray_offset(i, true)) <= 151 * 151,
        i < 10 ==> ray_offset(i + 10, false).0 == -ray_offset(i, false).0,
        i < 10 ==> ray_offset(i + 10, false).1 == -ray_offset(i, false).1,
        i < 10 ==> ray_offset(i + 10, true).0 == -ray_offset(i, true).0,
        i < 10 ==> ray_offset(i + 10, true).1 == -ray_offset(i, true).1,
{
    let quarter = i / 5;
    let step = i % 5;
    lemma_reach_fits(step, false);
    lemma_reach_fits(step, true);
    lemma_square_ignores_signs(ray_reach(step, false), ray_reach(5 - step, false));
    lemma_square_ignores_signs(ray_reach(step, true), ray_reach(5 - step, true));
    if i < 10 {
        assert((i + 10) / 5 == quarter + 2 && (i + 10) % 5 == step);
    }
}

/// The distance of a point from the origin does not change when the point is
/// mirrored or its coordinates are swapped.
proof fn lemma_square_ignores_signs(x: int, y: int)
    ensures
        square_distance((-y, x)) == square_distance((x, y)),
        square_distance((-x, -y)) == square_distance((x, y)),
        square_distance((y, -x)) == square_distance((x, y)),
{
    assert((-y) * (-y) == y * y) by (nonlinear_arith);
    assert((-x) * (-x) == x * x) by (nonlinear_arith);
}

// ---------------------------------------------------------------------------
// Counts

/// The count of a list is the sum of the counts of three parts of it.
proof fn lemma_count_cut3(ops: Seq<DrawOpView>, first: int, second: int, primitive: Primitive)
    requires
        0 <= first <= second <= ops.len(),
    ensures
        count_of(ops, primitive) == count_of(ops.take(first), primitive) + count_of(
            ops.subrange(first, second),
            primitive,
        ) + count_of(ops.skip(second), primitive),
{
    lemma_count_cut(ops, second, primitive);
    lemma_count_cut(ops.take(second), first, primitive);
    assert(ops.take(second).take(first) =~= ops.take(first));
    assert(ops.take(second).skip(first) =~= ops.subrange(first, second));
}

/// The base layer and the label hold neither ellipses nor lines.
proof fn lemma_plain_counts(m: ModelView, win: Canvas, temp: Color, primitive: Primitive)
    ensures
        count_of(base(m, temp), primitive) == 0,
        count_of(label(m, win, temp), primitive) == 0,
        count_of(base(m, temp) + label(m, win, temp), primitive) == 0,
{
    lemma_count_none(base(m, temp), primitive);
    lemma_count_none(label(m, win, temp), primitive);
    lemma_count_add(base(m, temp), label(m, win, temp), primitive);
}

/// A clear sky holds one ellipse, the sun, and twenty lines, its rays.
pub proof fn lemma_clear_sky_count(m: ModelView, win: Canvas, temp: Color, primitive: Primitive)
    ensures
        count_of(clear_sky(m, win, temp), primitive) == effect_count(
            EffectVariant::ClearSky,
            primitive,
        ),
{
    let front = base(m, temp) + label(m, win, temp);
    lemma_plain_counts(m, win, temp, primitive);
    lemma_count_add(front, seq![sun(win)], primitive);
    lemma_count_add(front + seq![sun(win)], rays(win), primitive);
    match primitive {
        Primitive::Ellipse => {
            lemma_count_all(seq![sun(win)], primitive);
            lemma_count_none(rays(win), primitive);
        },
        Primitive::Line => {
            lemma_count_none(seq![sun(win)], primitive);
            lemma_count_all(rays(win), primitive);
        },
    }
}

/// An overcast pass holds five ellipses for each cloud and, where the sun
/// shows, the sun and its rays.
pub proof fn lemma_overcast_count(
    ops: Seq<DrawOpView>,
    m: ModelView,
    win: Canvas,
    temp: Color,
    speed: int,
    rain: bool,
    primitive: Primitive,
)
    requires
        is_overcast(ops, m, win, temp, speed, rain),
    ensures
        count_of(ops, primitive) == overcast_count(speed, rain, primitive),
{
    let head = overcast_head(m, win, temp, speed, rain);
    let cut = head.len() as int;
    lemma_count_cut(ops, cut, primitive);
    lemma_clouds_count(ops.skip(cut), count(speed), win, cloud_color(rain));
    lemma_plain_counts(m, win, temp, primitive);
    if sun_shows(speed, rain) {
        lemma_clear_sky_count(m, win, temp, primitive);
        lemma_count_add(base(m, temp) + label(m, win, temp), clear_sky(m, win, temp), primitive);
    } else {
        assert(head =~= base(m, temp) + label(m, win, temp));
    }
}

/// A rain pass holds six ellipses for each unit of its intensity, five for
/// the cloud and one for the drop, and no line.
pub proof fn lemma_rain_count(
    ops: Seq<DrawOpView>,
    m: ModelView,
    win: Canvas,
    temp: Color,
    speed: int,
)
    requires
        is_rain(ops, m, win, temp, speed),
    ensures
        count_of(ops, Primitive::Ellipse) == 6 * count(speed),
        count_of(ops, Primitive::Line) == 0,
{
    let cut = 2 + overcast_len(speed, true) as int;
    lemma_count_cut3(ops, 2, cut, Primitive::Ellipse);
    lemma_count_cut3(ops, 2, cut, Primitive::Line);
    lemma_plain_counts(m, win, temp, Primitive::Ellipse);
    lemma_plain_counts(m, win, temp, Primitive::Line);
    lemma_overcast_count(ops.subrange(2, cut), m, win, temp, speed, true, Primitive::Ellipse);
    lemma_overcast_count(ops.subrange(2, cut), m, win, temp, speed, true, Primitive::Line);
    lemma_dots_count(ops.skip(cut), count(speed), fall_area(win), 10, Color::Blue);
}

/// A pass of squalls holds fifty lines and no ellipse.
proof fn lemma_squalls_count(ops: Seq<DrawOpView>, m: ModelView, win: Canvas, temp: Color)
    requires
        is_squalls(ops, m, win, temp),
    ensures
        count_of(ops, Primitive::Ellipse) == 0,
        count_of(ops, Primitive::Line) == 50,
{
    lemma_count_cut(ops, 6, Primitive::Ellipse);
    lemma_count_cut(ops, 6, Primitive::Line);
    lemma_plain_counts(m, win, temp, Primitive::Ellipse);
    lemma_plain_counts(m, win, temp, Primitive::Line);
    assert forall|i: int| 0 <= i < ops.skip(6).len() implies draws(
        #[trigger] ops.skip(6)[i],
        Primitive::Line,
    ) && !draws(ops.skip(6)[i], Primitive::Ellipse) by {
        assert(is_gust(ops.skip(6)[i], sky_area(win)));
    }
    lemma_count_none(ops.skip(6), Primitive::Ellipse);
    lemma_count_all(ops.skip(6), Primitive::Line);
}

/// The pass of an effect holds as many ellipses and as many lines as the
/// effect fixes, wherever they were placed.
pub proof fn lemma_effect_count(
    ops: Seq<DrawOpView>,
    m: ModelView,
    win: Canvas,
    temp: Color,
    effect: EffectVariant,
    primitive: Primitive,
)
    requires
        is_effect_pass(ops, m, win, temp, effect),
    ensures
        count_of(ops, primitive) == effect_count(effect, primitive),
{
    lemma_plain_counts(m, win, temp, Primitive::Ellipse);
    lemma_plain_counts(m, win, temp, Primitive::Line);
    match effect {
        EffectVariant::Thunderstorm { intensity } => {
            let speed = intensity as int;
            let cut = 2 + overcast_len(speed, true) as int;
            let end = cut + rain_len(speed) as int;
            lemma_count_cut(ops, end, primitive);
            lemma_count_cut3(ops.take(end), 2, cut, primitive);
            assert(ops.take(end).take(2) =~= ops.take(2));
            assert(ops.take(end).subrange(2, cut) =~= ops.subrange(2, cut));
            assert(ops.take(end).skip(cut) =~= ops.subrange(cut, end));
            lemma_overcast_count(ops.subrange(2, cut), m, win, temp, speed, true, primitive);
            lemma_rain_count(ops.subrange(cut, end), m, win, temp, speed);
            lemma_bolts_count(ops.skip(end), 10, sky_area(win));
        },
        EffectVariant::Rain { intensity } => {
            lemma_rain_count(ops, m, win, temp, intensity as int);
        },
        EffectVariant::Snow => {
            lemma_count_cut(ops, 6, primitive);
            lemma_dots_count(ops.skip(6), 5, fall_area(win), 10, Color::White);
        },
        EffectVariant::Sleet => {
            let end = 2 + rain_len(10) as int;
            lemma_count_cut3(ops, 2, end, primitive);
            lemma_rain_count(ops.subrange(2, end), m, win, temp, 10);
            lemma_dots_count(ops.skip(end), 100, fall_area(win), 10, Color::White);
        },
        EffectVariant::AtmosphericParticles { tint } => {
            lemma_count_cut(ops, 6, primitive);
            lemma_dots_count(ops.skip(6), 2000, sky_area(win), 1, tint.shade());
        },
        EffectVariant::Squalls => {
            lemma_squalls_count(ops, m, win, temp);
        },
        EffectVariant::Tornado => {
            lemma_count_cut3(ops, 2, 58, primitive);
            lemma_squalls_count(ops.subrange(2, 58), m, win, temp);
            match primitive {
                Primitive::Ellipse => lemma_count_all(funnel(win), primitive),
                Primitive::Line => lemma_count_none(funnel(win), primitive),
            }
        },
        EffectVariant::ClearSky => {
            lemma_clear_sky_count(m, win, temp, primitive);
        },
        EffectVariant::Overcast { coverage, rain_layer } => {
            lemma_overcast_count(ops, m, win, temp, coverage as int, rain_layer, primitive);
        },
        EffectVariant::NoEffect => {},
    }
}

/// An overcast pass has the length that its coverage and its rain layer fix.
pub proof fn lemma_overcast_len(
    ops: Seq<DrawOpView>,
    m: ModelView,
    win: Canvas,
    temp: Color,
    speed: int,
    rain: bool,
)
    requires
        is_overcast(ops, m, win, temp, speed, rain),
    ensures
        ops.len() == overcast_len(speed, rain),
{
}

/// The pass of an effect is as long as the effect fixes.
pub proof fn lemma_effect_len(
    ops: Seq<DrawOpView>,
    m: ModelView,
    win: Canvas,
    temp: Color,
    effect: EffectVariant,
)
    requires
        is_effect_pass(ops, m, win, temp, effect),
    ensures
        ops.len() == effect_len(effect),
{
}

/// A scene is as long, and holds as many ellipses and as many lines, as the
/// effect of its condition code fixes: the two instructions of the base layer
/// and the pass of the effect.
pub proof fn lemma_scene_count(
    ops: Seq<DrawOpView>,
    m: ModelView,
    win: Canvas,
    primitive: Primitive,
)
    requires
        is_scene(ops, m, win),
    ensures
        ops.len() == 2 + effect_len(effect_of(m.city.condition_code as int)),
        count_of(ops, primitive) == effect_count(
            effect_of(m.city.condition_code as int),
            primitive,
        ),
{
    let effect = effect_of(m.city.condition_code as int);
    lemma_effect_len(ops.skip(2), m, win, backdrop(m), effect);
    lemma_effect_count(ops.skip(2), m, win, backdrop(m), effect, primitive);
    lemma_count_cut(ops, 2, primitive);
    lemma_plain_counts(m, win, backdrop(m), primitive);
}

/// A scene of a thunderstorm holds, one after the other behind its first four
/// instructions, all that an overcast pass of the same intensity with the
/// rain layer draws, all that a rain pass of the same intensity draws, and
/// ten flashes of lightning; and these ten are all the lines it holds.
pub proof fn lemma_thunderstorm_parts(
    ops: Seq<DrawOpView>,
    m: ModelView,
    win: Canvas,
    intensity: i32,
)
    requires
        is_scene(ops, m, win),
        effect_of(m.city.condition_code as int) == (EffectVariant::Thunderstorm { intensity }),
    ensures
        ({
            let clouds_end = 4 + overcast_len(intensity as int, true) as int;
            let rain_end = clouds_end + rain_len(intensity as int) as int;
            &&& ops.len() == rain_end + 10
            &&& starts_with(ops, base(m, backdrop(m)) + base(m, backdrop(m)))
            &&& is_overcast(
                ops.subrange(4, clouds_end),
                m,
                win,
                backdrop(m),
                intensity as int,
                true,
            )
            &&& is_rain(ops.subrange(clouds_end, rain_end), m, win, backdrop(m), intensity as int)
            &&& is_bolts(ops.skip(rain_end), 10, sky_area(win))
        }),
        count_of(ops, Primitive::Line) == 10,
{
    let speed = intensity as int;
    let pass = ops.skip(2);
    let cut = 2 + overcast_len(speed, true) as int;
    let end = cut + rain_len(speed) as int;
    assert(pass.subrange(2, cut) =~= ops.subrange(4, 2 + cut));
    assert(pass.subrange(cut, end) =~= ops.subrange(2 + cut, 2 + end));
    assert(pass.skip(end) =~= ops.skip(2 + end));
    assert(ops.take(4) =~= ops.take(2) + pass.take(2));
    lemma_scene_count(ops, m, win, Primitive::Line);
}

/// Composing twice gives the same scene but for the places picked at random:
/// two scenes of one sample on one canvas are equally long and draw, at each
/// position, the same primitive in the same size and colour or the same
/// text. So they hold the same number of ellipses and of lines, layer by
/// layer.
pub proof fn lemma_scenes_agree(
    a: Seq<DrawOpView>,
    b: Seq<DrawOpView>,
    m: ModelView,
    win: Canvas,
    primitive: Primitive,
)
    requires
        is_scene(a, m, win),
        is_scene(b, m, win),
    ensures
        same_shapes(a, b),
        count_of(a, primitive) == count_of(b, primitive),
{
    lemma_effects_agree(
        a.skip(2),
        b.skip(2),
        m,
        win,
        backdrop(m),
        effect_of(m.city.condition_code as int),
    );
    lemma_join(a, b, 2);
    lemma_shapes_fix_counts(a, b, primitive);
}

} // verus!
