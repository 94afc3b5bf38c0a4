//! Turtles: cursors that record the line segments they trace while their pen is down.
use vstd::prelude::*;

pub use crate::turtle_system::{Distribution, TurtleAction, TurtleLSystemBuilder, TurtleLSystemState, Uniform};

use crate::angle::{cosine, cosine_micro, normal_degrees, normalize_degrees, round_micro, scale_micro, sine, sine_micro};

verus! {

/// `v` clamped to the range of `i64`.
pub open spec fn clamp_i64(v: int) -> i64 {
    if v > i64::MAX {
        i64::MAX
    } else if v < i64::MIN {
        i64::MIN
    } else {
        v as i64
    }
}

pub open spec fn min_i64(a: i64, b: i64) -> i64 {
    if a <= b {
        a
    } else {
        b
    }
}

pub open spec fn max_i64(a: i64, b: i64) -> i64 {
    if a >= b {
        a
    } else {
        b
    }
}

/// What a [`BaseTurtle`] holds: its position, the segments `(x1, y1, x2, y2)` it
/// recorded, the extremes of every position it took (the origin included), and its pen.
pub struct TurtleModel {
    pub x: i64,
    pub y: i64,
    pub lines: Seq<(i64, i64, i64, i64)>,
    pub min_x: i64,
    pub max_x: i64,
    pub min_y: i64,
    pub max_y: i64,
    pub pen_down: bool,
}

impl TurtleModel {
    /// At the origin, pen down, nothing drawn.
    pub open spec fn origin() -> TurtleModel {
        TurtleModel {
            x: 0,
            y: 0,
            lines: Seq::empty(),
            min_x: 0,
            max_x: 0,
            min_y: 0,
            max_y: 0,
            pen_down: true,
        }
    }

    /// The turtle at `(x, y)` with its extremes widened to take that position in.
    pub open spec fn placed(self, x: i64, y: i64) -> TurtleModel {
        TurtleModel {
            x,
            y,
            min_x: min_i64(self.min_x, x),
            max_x: max_i64(self.max_x, x),
            min_y: min_i64(self.min_y, y),
            max_y: max_i64(self.max_y, y),
            ..self
        }
    }

    /// The turtle moved by `(dx, dy)` (each coordinate clamped to `i64`), with one
    /// more segment from the old to the new position when the pen is down.
    pub open spec fn moved(self, dx: int, dy: int) -> TurtleModel {
        let x2 = clamp_i64(self.x + dx);
        let y2 = clamp_i64(self.y + dy);
        let lines = if self.pen_down {
            self.lines.push((self.x, self.y, x2, y2))
        } else {
            self.lines
        };
        TurtleModel { lines, ..self.placed(x2, y2) }
    }

    /// The extremes enclose the origin and the current position.
    pub open spec fn wf(self) -> bool {
        &&& self.min_x <= 0 <= self.max_x
        &&& self.min_y <= 0 <= self.max_y
        &&& self.min_x <= self.x <= self.max_x
        &&& self.min_y <= self.y <= self.max_y
    }
}

/// The basic turtle: keeps its position, the segments it drew, the extremes of
/// where it has been, and whether its pen is down. It starts at the origin.
#[derive(Debug)]
pub struct BaseTurtle {
    x: i64,
    y: i64,
    lines: Vec<(i64, i64, i64, i64)>,
    max_x: i64,
    max_y: i64,
    min_x: i64,
    min_y: i64,
    pen_down: bool,
}

impl View for BaseTurtle {
    type V = TurtleModel;

    closed spec fn view(&self) -> TurtleModel {
        TurtleModel {
            x: self.x,
            y: self.y,
            lines: self.lines@,
            min_x: self.min_x,
            max_x: self.max_x,
            min_y: self.min_y,
            max_y: self.max_y,
            pen_down: self.pen_down,
        }
    }
}

impl BaseTurtle {
    #[verifier::type_invariant]
    closed spec fn inv(self) -> bool {
        self@.wf()
    }

    /// A turtle at the origin with its pen down and nothing drawn.
    pub fn new() -> (r: Self)
        ensures
            r@ == TurtleModel::origin(),
    {
        BaseTurtle {
            x: 0,
            y: 0,
            lines: Vec::new(),
            max_x: 0,
            max_y: 0,
            min_x: 0,
            min_y: 0,
            pen_down: true,
        }
    }

    /// The current `x` coordinate.
    pub fn x(&self) -> (r: i64)
        ensures
            r == self@.x,
    {
        self.x
    }

    /// The current `y` coordinate.
    pub fn y(&self) -> (r: i64)
        ensures
            r == self@.y,
    {
        self.y
    }

    /// The segments `(x1, y1, x2, y2)` drawn so far, in order.
    pub fn lines(&self) -> (r: &[(i64, i64, i64, i64)])
        ensures
            r@ == self@.lines,
    {
        self.lines.as_slice()
    }

    /// Moves to `(x, y)` without drawing; the extremes take the new position in.
    pub fn set_position(&mut self, x: i64, y: i64)
        ensures
            final(self)@ == old(self)@.placed(x, y),
    {
        self.place(x, y, false);
    }

    /// Moves to `(x, y)`, first recording the segment to it when `draw` holds.
    fn place(&mut self, x: i64, y: i64, draw: bool)
        ensures
            final(self)@ == (TurtleModel {
                lines: if draw {
                    old(self)@.lines.push((old(self)@.x, old(self)@.y, x, y))
                } else {
                    old(self)@.lines
                },
                ..old(self)@.placed(x, y)
            }),
    {
        proof {
            use_type_invariant(&*self);
        }
        let mut lines: Vec<(i64, i64, i64, i64)> = Vec::new();
        std::mem::swap(&mut lines, &mut self.lines);
        if draw {
            lines.push((self.x, self.y, x, y));
        }
        let min_x = if x < self.min_x { x } else { self.min_x };
        let max_x = if x > self.max_x { x } else { self.max_x };
        let min_y = if y < self.min_y { y } else { self.min_y };
        let max_y = if y > self.max_y { y } else { self.max_y };
        *self = BaseTurtle { x, y, lines, min_x, max_x, min_y, max_y, pen_down: self.pen_down };
    }

    /// Moves by `(dx, dy)`, each coordinate clamped to `i64`. With the pen down this
    /// records the segment from the old to the new position; the extremes take the
    /// new position in either way.
    pub fn delta_move(&mut self, dx: i64, dy: i64)
        ensures
            final(self)@ == old(self)@.moved(dx as int, dy as int),
    {
        let x2 = clamped_sum(self.x, dx);
        let y2 = clamped_sum(self.y, dy);
        let draw = self.pen_down;
        self.place(x2, y2, draw);
    }

    /// `(width, height, min_x, min_y)` of the region the turtle visited, measured
    /// from the origin: `width = max_x + |min_x|` and `height = max_y + |min_y|`.
    pub fn bounds(&self) -> (r: (u64, u64, i64, i64))
        ensures
            r.0 == self@.max_x - self@.min_x,
            r.1 == self@.max_y - self@.min_y,
            r.2 == self@.min_x,
            r.3 == self@.min_y,
    {
        proof {
            use_type_invariant(self);
        }
        let w = (self.max_x as i128 - self.min_x as i128) as u64;
        let h = (self.max_y as i128 - self.min_y as i128) as u64;
        (w, h, self.min_x, self.min_y)
    }

    /// Puts the pen down: later moves draw.
    pub fn pen_down(&mut self)
        ensures
            final(self)@ == (TurtleModel { pen_down: true, ..old(self)@ }),
    {
        proof {
            use_type_invariant(&*self);
        }
        self.pen_down = true;
    }

    /// Lifts the pen: later moves do not draw.
    pub fn pen_up(&mut self)
        ensures
            final(self)@ == (TurtleModel { pen_down: false, ..old(self)@ }),
    {
        proof {
            use_type_invariant(&*self);
        }
        self.pen_down = false;
    }
}

impl Default for BaseTurtle {
    fn default() -> (r: Self)
        ensures
            r@ == TurtleModel::origin(),
    {
        BaseTurtle::new()
    }
}

/// `a + b`, clamped to the range of `i64`.
fn clamped_sum(a: i64, b: i64) -> (r: i64)
    ensures
        r == clamp_i64(a + b),
{
    let s = a as i128 + b as i128;
    if s > i64::MAX as i128 {
        i64::MAX
    } else if s < i64::MIN as i128 {
        i64::MIN
    } else {
        s as i64
    }
}

/// A turtle that moves by a length of its own kind (`Item`) and wraps a
/// [`BaseTurtle`] that records where it went.
pub trait MovingTurtle {
    type Item;

    /// What the wrapped [`BaseTurtle`] holds.
    spec fn base_view(&self) -> TurtleModel;

    /// The wrapped [`BaseTurtle`].
    fn inner(&self) -> (r: &BaseTurtle)
        ensures
            r@ == self.base_view(),
    ;

    /// The wrapped [`BaseTurtle`], to be changed in place.
    fn inner_mut(&mut self) -> (r: &mut BaseTurtle)
        ensures
            r@ == old(self).base_view(),
            final(self).base_view() == final(r)@,
    ;

    /// Moves the turtle forward by `distance` along its heading.
    fn forward(&mut self, distance: Self::Item);
}

/// A turtle that can save its position and heading and restore them later.
pub trait Stack: MovingTurtle {
    /// Saves the current position and heading.
    fn push(&mut self);

    /// Restores the last saved position and heading and forgets them; does nothing
    /// when nothing is saved.
    fn pop(&mut self);
}

/// A value that holds a turtle, whose drawing a renderer reads.
pub trait TurtleContainer: View {
    /// What the held turtle's [`BaseTurtle`] holds, read off the container's view.
    spec fn turtle_of(v: Self::V) -> TurtleModel;

    /// The [`BaseTurtle`] of the held turtle.
    fn inner(&self) -> (r: &BaseTurtle)
        ensures
            r@ == Self::turtle_of(self@),
    ;
}

/// The four cardinal directions.
#[derive(Debug, Copy, Clone, PartialEq, Eq, Structural)]
pub enum Heading {
    North,
    South,
    East,
    West,
}

impl Heading {
    /// The direction a quarter turn to the left.
    pub open spec fn turned_left(self) -> Heading {
        match self {
            Heading::North => Heading::West,
            Heading::West => Heading::South,
            Heading::South => Heading::East,
            Heading::East => Heading::North,
        }
    }

    /// The direction a quarter turn to the right.
    pub open spec fn turned_right(self) -> Heading {
        match self {
            Heading::North => Heading::East,
            Heading::East => Heading::South,
            Heading::South => Heading::West,
            Heading::West => Heading::North,
        }
    }

    /// The horizontal step: 1 east, -1 west, 0 otherwise.
    pub open spec fn step_x(self) -> int {
        match self {
            Heading::East => 1,
            Heading::West => -1,
            _ => 0,
        }
    }

    /// The vertical step: 1 north, -1 south, 0 otherwise.
    pub open spec fn step_y(self) -> int {
        match self {
            Heading::North => 1,
            Heading::South => -1,
            _ => 0,
        }
    }

    /// The direction 90 degrees left of this one.
    pub fn left(self) -> (r: Self)
        ensures
            r == self.turned_left(),
    {
        match self {
            Heading::North => Heading::West,
            Heading::West => Heading::South,
            Heading::South => Heading::East,
            Heading::East => Heading::North,
        }
    }

    /// The direction 90 degrees right of this one: three left turns.
    pub fn right(self) -> (r: Self)
        ensures
            r == self.turned_right(),
    {
        self.left().left().left()
    }

    /// The horizontal step (-1, 0 or 1) of this heading.
    pub fn dx(self) -> (r: i32)
        ensures
            r == self.step_x(),
    {
        match self {
            Heading::West => -1,
            Heading::East => 1,
            _ => 0,
        }
    }

    /// The vertical step (-1, 0 or 1) of this heading.
    pub fn dy(self) -> (r: i32)
        ensures
            r == self.step_y(),
    {
        match self {
            Heading::North => 1,
            Heading::South => -1,
            _ => 0,
        }
    }
}

/// What a [`SimpleTurtle`] holds: its base turtle, its heading in degrees, and
/// the saved `(x, y, heading)` triples, last saved last.
pub struct SimpleModel {
    pub base: TurtleModel,
    pub heading: i32,
    pub stack: Seq<(i64, i64, i32)>,
}

impl SimpleModel {
    /// The model after a save.
    pub open spec fn pushed(self) -> SimpleModel {
        SimpleModel { stack: self.stack.push((self.base.x, self.base.y, self.heading)), ..self }
    }

    /// The model after a restore: the last saved position (taken in by the
    /// extremes) and heading, or no change when nothing is saved.
    pub open spec fn popped(self) -> SimpleModel {
        if self.stack.len() == 0 {
            self
        } else {
            let (x, y, h) = self.stack.last();
            SimpleModel { base: self.base.placed(x, y), heading: h, stack: self.stack.drop_last() }
        }
    }

    /// The model facing `heading` degrees, reduced to `0..360`.
    pub open spec fn with_heading(self, heading: int) -> SimpleModel {
        SimpleModel { heading: normal_degrees(heading) as i32, ..self }
    }

    /// The model after a forward move of `distance` units along the heading.
    pub open spec fn forwarded(self, distance: int) -> SimpleModel {
        SimpleModel {
            base: self.base.moved(self.forward_delta(distance).0, self.forward_delta(distance).1),
            ..self
        }
    }

    /// The displacement of a forward move of `distance` units along the heading,
    /// each coordinate rounded to the nearest integer.
    pub open spec fn forward_delta(self, distance: int) -> (int, int) {
        let h = normal_degrees(self.heading as int);
        (round_micro(cosine_micro(h) * distance), round_micro(sine_micro(h) * distance))
    }
}

/// A turtle with a free heading in whole degrees (0 is east, 90 is north) and a
/// stack of saved positions and headings. Moves are rounded to whole units.
#[derive(Debug)]
pub struct SimpleTurtle {
    turtle: BaseTurtle,
    heading: i32,
    stack: Vec<(i64, i64, i32)>,
}

impl View for SimpleTurtle {
    type V = SimpleModel;

    closed spec fn view(&self) -> SimpleModel {
        SimpleModel { base: self.turtle@, heading: self.heading, stack: self.stack@ }
    }
}

impl SimpleTurtle {
    /// A turtle at the origin, facing north (90 degrees), with nothing saved.
    pub fn new() -> (r: Self)
        ensures
            r@ == (SimpleModel { base: TurtleModel::origin(), heading: 90, stack: Seq::empty() }),
    {
        SimpleTurtle { turtle: BaseTurtle::new(), heading: 90, stack: Vec::new() }
    }

    /// Turns left (counterclockwise) by `angle` degrees.
    pub fn left(&mut self, angle: i32)
        ensures
            final(self)@ == old(self)@.with_heading(old(self)@.heading + angle),
    {
        self.heading = normalize_degrees(self.heading as i64 + angle as i64);
    }

    /// Turns right (clockwise) by `angle` degrees.
    pub fn right(&mut self, angle: i32)
        ensures
            final(self)@ == old(self)@.with_heading(old(self)@.heading - angle),
    {
        self.heading = normalize_degrees(self.heading as i64 - angle as i64);
    }

    /// Sets the heading to `heading` degrees, reduced to `0..360`.
    pub fn set_heading(&mut self, heading: i32)
        ensures
            final(self)@ == old(self)@.with_heading(heading as int),
    {
        self.heading = normalize_degrees(heading as i64);
    }
}

impl MovingTurtle for SimpleTurtle {
    type Item = i32;

    open spec fn base_view(&self) -> TurtleModel {
        self@.base
    }

    fn inner(&self) -> (r: &BaseTurtle) {
        &self.turtle
    }

    fn inner_mut(&mut self) -> (r: &mut BaseTurtle)
        ensures
            final(self)@ == (SimpleModel { base: final(r)@, ..old(self)@ }),
    {
        &mut self.turtle
    }

    /// Moves `distance` units along the heading, rounded to whole units.
    fn forward(&mut self, distance: i32)
        ensures
            final(self)@ == old(self)@.forwarded(distance as int),
    {
        let h = normalize_degrees(self.heading as i64);
        let dx = scale_micro(cosine(h), distance);
        let dy = scale_micro(sine(h), distance);
        self.turtle.delta_move(dx, dy);
    }
}

impl Stack for SimpleTurtle {
    /// Saves the current position and heading.
    fn push(&mut self)
        ensures
            final(self)@ == old(self)@.pushed(),
    {
        let saved = (self.turtle.x(), self.turtle.y(), self.heading);
        self.stack.push(saved);
    }

    /// Restores the last saved position and heading; does nothing when nothing is saved.
    fn pop(&mut self)
        ensures
            final(self)@ == old(self)@.popped(),
    {
        match self.stack.pop() {
            Some((x, y, heading)) => {
                self.turtle.set_position(x, y);
                self.heading = heading;
            },
            None => {},
        }
    }
}

impl Default for SimpleTurtle {
    fn default() -> (r: Self)
        ensures
            r@ == (SimpleModel { base: TurtleModel::origin(), heading: 90, stack: Seq::empty() }),
    {
        SimpleTurtle::new()
    }
}

/// Stack symmetry: a save, then any moves and turns that leave the saved entries
/// alone, then a restore, give back the position and heading of the save and the
/// stack as it was before it.
pub proof fn lemma_simple_push_pop(before: SimpleModel, during: SimpleModel)
    requires
        during.stack == before.pushed().stack,
    ensures
        during.popped().base.x == before.base.x,
        during.popped().base.y == before.base.y,
        during.popped().heading == before.heading,
        during.popped().stack == before.stack,
{
    assert(during.stack.drop_last() =~= before.stack);
}

/// Straight line: a fresh turtle turned to heading 0 (east) and moved forward by
/// `d` records the one segment `(0, 0, d, 0)`, and its bounds are `d` wide, 0 high,
/// with minimum corner at the origin.
pub proof fn lemma_straight_line(start: SimpleModel, d: i32)
    requires
        start.base == TurtleModel::origin(),
        d >= 0,
    ensures
        start.with_heading(0).forwarded(d as int).base.lines == seq![(0i64, 0i64, d as i64, 0i64)],
        start.with_heading(0).forwarded(d as int).base.max_x - start.with_heading(0).forwarded(
            d as int,
        ).base.min_x == d,
        start.with_heading(0).forwarded(d as int).base.max_y - start.with_heading(0).forwarded(
            d as int,
        ).base.min_y == 0,
        start.with_heading(0).forwarded(d as int).base.min_x == 0,
        start.with_heading(0).forwarded(d as int).base.min_y == 0,
{
    reveal(crate::angle::quarter_sine);
    let m = start.with_heading(0);
    assert(normal_degrees(0) == 0);
    assert(cosine_micro(0) == 1000000);
    assert(sine_micro(0) == 0);
    let p = 1000000 * (d as int);
    assert((p + 500000) / 1000000 == d as int) by (nonlinear_arith)
        requires
            p == 1000000 * (d as int),
            d >= 0,
    ;
    assert(m.forward_delta(d as int) == (d as int, 0int));
}

/// Pen up: a move with the pen up draws nothing, yet the position and the
/// extremes follow the move.
pub proof fn lemma_pen_up_move(m: TurtleModel, dx: int, dy: int)
    requires
        !m.pen_down,
    ensures
        m.moved(dx, dy).lines == m.lines,
        m.moved(dx, dy).x == clamp_i64(m.x + dx),
        m.moved(dx, dy).y == clamp_i64(m.y + dy),
        m.moved(dx, dy).min_x == min_i64(m.min_x, clamp_i64(m.x + dx)),
        m.moved(dx, dy).max_x == max_i64(m.max_x, clamp_i64(m.x + dx)),
        m.moved(dx, dy).min_y == min_i64(m.min_y, clamp_i64(m.y + dy)),
        m.moved(dx, dy).max_y == max_i64(m.max_y, clamp_i64(m.y + dy)),
{
}

/// A turtle that moves along the four cardinal directions only.
#[derive(Debug)]
pub struct TaxiTurtle {
    turtle: BaseTurtle,
    heading: Heading,
}

impl TaxiTurtle {
    /// What the wrapped [`BaseTurtle`] holds.
    pub closed spec fn base(&self) -> TurtleModel {
        self.turtle@
    }

    /// The current direction.
    pub closed spec fn facing(&self) -> Heading {
        self.heading
    }

    /// A turtle at the origin facing east.
    pub fn new() -> (r: Self)
        ensures
            r.base() == TurtleModel::origin(),
            r.facing() == Heading::East,
    {
        TaxiTurtle { turtle: BaseTurtle::new(), heading: Heading::East }
    }

    /// Turns 90 degrees left.
    pub fn left(&mut self)
        ensures
            final(self).base() == old(self).base(),
            final(self).facing() == old(self).facing().turned_left(),
    {
        self.heading = self.heading.left();
    }

    /// Turns 90 degrees right.
    pub fn right(&mut self)
        ensures
            final(self).base() == old(self).base(),
            final(self).facing() == old(self).facing().turned_right(),
    {
        self.heading = self.heading.right();
    }

    /// Faces `heading`.
    pub fn set_heading(&mut self, heading: Heading)
        ensures
            final(self).base() == old(self).base(),
            final(self).facing() == heading,
    {
        self.heading = heading;
    }
}

impl MovingTurtle for TaxiTurtle {
    type Item = i32;

    open spec fn base_view(&self) -> TurtleModel {
        self.base()
    }

    fn inner(&self) -> (r: &BaseTurtle) {
        &self.turtle
    }

    fn inner_mut(&mut self) -> (r: &mut BaseTurtle)
        ensures
            final(self).facing() == old(self).facing(),
    {
        &mut self.turtle
    }

    /// Moves `distance` units along the current direction.
    fn forward(&mut self, distance: i32)
        ensures
            final(self).facing() == old(self).facing(),
            final(self).base() == old(self).base().moved(
                old(self).facing().step_x() * distance,
                old(self).facing().step_y() * distance,
            ),
    {
        let dx = self.heading.dx() as i64 * distance as i64;
        let dy = self.heading.dy() as i64 * distance as i64;
        self.turtle.delta_move(dx, dy);
    }
}

impl Default for TaxiTurtle {
    fn default() -> (r: Self)
        ensures
            r.base() == TurtleModel::origin(),
            r.facing() == Heading::East,
    {
        TaxiTurtle::new()
    }
}

} // verus!
