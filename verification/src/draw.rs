//! Drawing directives and the canvas they are laid out on.

use vstd::prelude::*;
use crate::city::CityImage;
use crate::color::Color;

verus! {

/// A position in pixels. The origin is the centre of the canvas, `x` grows to
/// the right and `y` grows upwards.
#[derive(Clone, Copy, Debug, PartialEq, Eq, Structural)]
pub struct Point {
    pub x: i64,
    pub y: i64,
}

/// The visible rectangle: its four edges in pixels.
#[derive(Clone, Copy, Debug, PartialEq, Eq, Structural)]
pub struct Canvas {
    pub left: i32,
    pub right: i32,
    pub bottom: i32,
    pub top: i32,
}

impl Canvas {
    /// A canvas of the given width and height around the origin.
    pub fn centered(width: u16, height: u16) -> (canvas: Canvas)
        ensures
            canvas.left == -(width / 2),
            canvas.right == width - width / 2,
            canvas.bottom == -(height / 2),
            canvas.top == height - height / 2,
    {
        let half_width: i32 = (width / 2) as i32;
        let half_height: i32 = (height / 2) as i32;
        Canvas {
            left: -half_width,
            right: width as i32 - half_width,
            bottom: -half_height,
            top: height as i32 - half_height,
        }
    }
}

/// The outline of an ellipse.
#[derive(Clone, Copy, Debug, PartialEq, Eq, Structural)]
pub struct Stroke {
    pub color: Color,
    pub weight: i64,
}

/// One instruction for the renderer. A renderer carries the instructions out
/// in order; a later background or texture covers what was drawn before it.
#[derive(Clone, Debug, PartialEq, Eq)]
pub enum DrawOp {
    SetBackground { color: Color },
    DrawTexture { image: CityImage },
    DrawText { content: String, position: Point, size: u32, color: Color },
    DrawEllipse { center: Point, radius_x: i64, radius_y: i64, color: Color, stroke: Option<Stroke> },
    DrawLine { start: Point, end: Point, weight: i64, color: Color },
}

/// What a drawing instruction says, with its text as a sequence of characters.
pub enum DrawOpView {
    SetBackground { color: Color },
    DrawTexture { image: CityImage },
    DrawText { content: Seq<char>, position: Point, size: u32, color: Color },
    DrawEllipse { center: Point, radius_x: i64, radius_y: i64, color: Color, stroke: Option<Stroke> },
    DrawLine { start: Point, end: Point, weight: i64, color: Color },
}

impl View for DrawOp {
    type V = DrawOpView;

    open spec fn view(&self) -> DrawOpView {
        match *self {
            DrawOp::SetBackground { color } => DrawOpView::SetBackground { color },
            DrawOp::DrawTexture { image } => DrawOpView::DrawTexture { image },
            DrawOp::DrawText { content, position, size, color } => DrawOpView::DrawText {
                content: content@,
                position,
                size,
                color,
            },
            DrawOp::DrawEllipse { center, radius_x, radius_y, color, stroke } => {
                DrawOpView::DrawEllipse { center, radius_x, radius_y, color, stroke }
            },
            DrawOp::DrawLine { start, end, weight, color } => DrawOpView::DrawLine {
                start,
                end,
                weight,
                color,
            },
        }
    }
}

/// What a list of drawing instructions says, one after the other.
pub open spec fn views(ops: Seq<DrawOp>) -> Seq<DrawOpView> {
    ops.map_values(|op: DrawOp| op@)
}

/// The views of a list that grew by one instruction.
pub proof fn lemma_views_push(ops: Seq<DrawOp>, op: DrawOp)
    ensures
        views(ops.push(op)) == views(ops).push(op@),
{
    assert(views(ops.push(op)) =~= views(ops).push(op@));
}

/// The views of two lists put together.
pub proof fn lemma_views_add(front: Seq<DrawOp>, back: Seq<DrawOp>)
    ensures
        views(front + back) == views(front) + views(back),
{
    assert(views(front + back) =~= views(front) + views(back));
}

/// The point at the given coordinates.
pub open spec fn at(x: int, y: int) -> Point {
    Point { x: x as i64, y: y as i64 }
}

/// A filled ellipse without an outline.
pub open spec fn plain_ellipse(center: Point, radius_x: int, radius_y: int, color: Color)
    -> DrawOpView {
    DrawOpView::DrawEllipse {
        center,
        radius_x: radius_x as i64,
        radius_y: radius_y as i64,
        color,
        stroke: None,
    }
}

/// The instruction with every position moved to the origin: what is drawn,
/// how large and in which colour, but not where.
pub open spec fn shape(op: DrawOpView) -> DrawOpView {
    match op {
        DrawOpView::SetBackground { color } => op,
        DrawOpView::DrawTexture { image } => op,
        DrawOpView::DrawText { content, position, size, color } => DrawOpView::DrawText {
            content,
            position: at(0, 0),
            size,
            color,
        },
        DrawOpView::DrawEllipse { center, radius_x, radius_y, color, stroke } => {
            DrawOpView::DrawEllipse { center: at(0, 0), radius_x, radius_y, color, stroke }
        },
        DrawOpView::DrawLine { start, end, weight, color } => DrawOpView::DrawLine {
            start: at(0, 0),
            end: at(0, 0),
            weight,
            color,
        },
    }
}

/// Two lists draw the same things in the same order, though not necessarily
/// at the same places.
pub open spec fn same_shapes(a: Seq<DrawOpView>, b: Seq<DrawOpView>) -> bool {
    &&& a.len() == b.len()
    &&& forall|i: int| 0 <= i < a.len() ==> shape(#[trigger] a[i]) == shape(b[i])
}

/// Where the visible part of a list begins. A background covers the whole
/// canvas, so nothing that was drawn before the last background can be seen:
/// the visible part begins at the last background, or at the start of a list
/// that has none.
pub open spec fn visible_from(ops: Seq<DrawOpView>) -> int
    decreases ops.len(),
{
    if ops.len() == 0 {
        0
    } else if ops.last() is SetBackground {
        ops.len() - 1
    } else {
        visible_from(ops.drop_last())
    }
}

/// The visible part of a list begins within the list, at a background if the
/// list has one, and no background follows where it begins.
pub proof fn lemma_visible_from(ops: Seq<DrawOpView>)
    ensures
        0 <= visible_from(ops) <= ops.len(),
        ops.len() > 0 ==> visible_from(ops) < ops.len(),
        forall|i: int| visible_from(ops) < i < ops.len() ==> !(#[trigger] ops[i] is SetBackground),
        (exists|i: int| 0 <= i < ops.len() && #[trigger] ops[i] is SetBackground) ==> ops[visible_from(
            ops,
        )] is SetBackground,
        (forall|i: int| 0 <= i < ops.len() ==> !(#[trigger] ops[i] is SetBackground))
            ==> visible_from(ops) == 0,
    decreases ops.len(),
{
    if ops.len() > 0 && !(ops.last() is SetBackground) {
        let front = ops.drop_last();
        lemma_visible_from(front);
        assert(forall|i: int| 0 <= i < front.len() ==> front[i] == #[trigger] ops[i]);
        if exists|i: int| 0 <= i < ops.len() && #[trigger] ops[i] is SetBackground {
            let i = choose|i: int| 0 <= i < ops.len() && #[trigger] ops[i] is SetBackground;
            assert(front[i] is SetBackground);
        }
    }
}

/// Finds where the visible part of a list begins: a renderer may start there
/// and leave out what the last background covers.
pub fn first_visible(ops: &Vec<DrawOp>) -> (start: usize)
    ensures
        start == visible_from(views(ops@)),
{
    let mut i: usize = ops.len();
    assert(views(ops@).take(i as int) =~= views(ops@));
    while i > 0
        invariant
            0 <= i <= ops.len(),
            visible_from(views(ops@)) == visible_from(views(ops@).take(i as int)),
        decreases i,
    {
        let ghost front = views(ops@).take(i as int);
        assert(front.last() == ops@[i - 1]@);
        assert(front.drop_last() =~= views(ops@).take(i - 1));
        match &ops[i - 1] {
            DrawOp::SetBackground { .. } => {
                return i - 1;
            },
            _ => {},
        }
        i -= 1;
    }
    0
}

/// The geometric primitives that a scene is made of.
#[derive(Clone, Copy, Debug, PartialEq, Eq, Structural)]
pub enum Primitive {
    Ellipse,
    Line,
}

/// Whether an instruction draws the given primitive.
pub open spec fn draws(op: DrawOpView, primitive: Primitive) -> bool {
    match primitive {
        Primitive::Ellipse => op is DrawEllipse,
        Primitive::Line => op is DrawLine,
    }
}

/// How many instructions of a list draw the given primitive.
pub open spec fn count_of(ops: Seq<DrawOpView>, primitive: Primitive) -> nat
    decreases ops.len(),
{
    if ops.len() == 0 {
        0
    } else {
        count_of(ops.drop_last(), primitive) + if draws(ops.last(), primitive) {
            1nat
        } else {
            0nat
        }
    }
}

/// Counts the instructions of a list that draw the given primitive.
pub fn count_primitives(ops: &Vec<DrawOp>, primitive: Primitive) -> (n: usize)
    ensures
        n == count_of(views(ops@), primitive),
{
    let mut n: usize = 0;
    let mut i: usize = 0;
    assert(views(ops@).take(0) =~= Seq::empty());
    while i < ops.len()
        invariant
            0 <= i <= ops.len(),
            n <= i,
            n == count_of(views(ops@).take(i as int), primitive),
        decreases ops.len() - i,
    {
        let hit = match (&ops[i], primitive) {
            (DrawOp::DrawEllipse { .. }, Primitive::Ellipse) => true,
            (DrawOp::DrawLine { .. }, Primitive::Line) => true,
            _ => false,
        };
        proof {
            let grown = views(ops@).take(i + 1);
            assert(grown.drop_last() =~= views(ops@).take(i as int));
            assert(grown.last() == ops@[i as int]@);
            assert(hit == draws(grown.last(), primitive));
        }
        if hit {
            n += 1;
        }
        i += 1;
    }
    assert(views(ops@).take(ops@.len() as int) =~= views(ops@));
    n
}

} // verus!
