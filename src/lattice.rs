//! A turtle that walks the points of a lattice spanned by two basis vectors.
use vstd::prelude::*;

use crate::angle::{cosine, normalize_degrees, round_micro, sine, MICRO};
use crate::turtle::{clamp_i64, BaseTurtle, MovingTurtle, Stack, TurtleModel};

verus! {

/// `v` clamped to the range of `i32`.
pub open spec fn clamp_i32(v: int) -> i32 {
    if v > i32::MAX {
        i32::MAX
    } else if v < i32::MIN {
        i32::MIN
    } else {
        v as i32
    }
}

/// The point `x * e1 + y * e2` for basis vectors given in millionths, rounded to
/// whole units and clamped to `i64`.
pub open spec fn lattice_point(e1: (i64, i64), e2: (i64, i64), x: int, y: int) -> (i64, i64) {
    (clamp_i64(round_micro(e1.0 * x + e2.0 * y)), clamp_i64(round_micro(e1.1 * x + e2.1 * y)))
}

/// Two basis vectors, each coordinate in millionths of a unit.
#[derive(Debug, Clone, Copy)]
pub struct Lattice {
    x_direction: (i64, i64),
    y_direction: (i64, i64),
}

impl View for Lattice {
    type V = ((i64, i64), (i64, i64));

    closed spec fn view(&self) -> ((i64, i64), (i64, i64)) {
        (self.x_direction, self.y_direction)
    }
}

/// `p / MICRO` rounded to nearest, halves away from zero, clamped to `i64`.
fn round_clamped(p: i128) -> (r: i64)
    requires
        -0x1_0000_0000_0000_0000_0000_0000 <= p <= 0x1_0000_0000_0000_0000_0000_0000,
    ensures
        r == clamp_i64(round_micro(p as int)),
{
    let m = MICRO as i128;
    let q: i128 = if p >= 0 {
        (p + m / 2) / m
    } else {
        -((-p + m / 2) / m)
    };
    if q > i64::MAX as i128 {
        i64::MAX
    } else if q < i64::MIN as i128 {
        i64::MIN
    } else {
        q as i64
    }
}

/// `a * x + b * y`, exactly.
fn combine(a: i64, x: i32, b: i64, y: i32) -> (r: i128)
    ensures
        r == a * x + b * y,
        -0x1_0000_0000_0000_0000_0000_0000 <= r <= 0x1_0000_0000_0000_0000_0000_0000,
{
    let a2 = a as i128;
    let x2 = x as i128;
    let b2 = b as i128;
    let y2 = y as i128;
    assert(-0x8000_0000_0000_0000_0000_0000 <= a2 * x2 <= 0x8000_0000_0000_0000_0000_0000) by (nonlinear_arith)
        requires
            -0x8000_0000_0000_0000 <= a2 < 0x8000_0000_0000_0000,
            -0x8000_0000 <= x2 < 0x8000_0000,
    ;
    assert(-0x8000_0000_0000_0000_0000_0000 <= b2 * y2 <= 0x8000_0000_0000_0000_0000_0000) by (nonlinear_arith)
        requires
            -0x8000_0000_0000_0000 <= b2 < 0x8000_0000_0000_0000,
            -0x8000_0000 <= y2 < 0x8000_0000,
    ;
    let ax = a2 * x2;
    let by = b2 * y2;
    ax + by
}

impl Lattice {
    /// The lattice spanned by `x_direction` and `y_direction`, in millionths of a unit.
    pub fn new(x_direction: (i64, i64), y_direction: (i64, i64)) -> (r: Self)
        ensures
            r@ == (x_direction, y_direction),
    {
        Lattice { x_direction, y_direction }
    }

    /// The point with lattice coordinates `(x, y)`, rounded to whole units.
    pub fn point(&self, x: i32, y: i32) -> (r: (i64, i64))
        ensures
            r == lattice_point(self@.0, self@.1, x as int, y as int),
    {
        let px = combine(self.x_direction.0, x, self.y_direction.0, y);
        let py = combine(self.x_direction.1, x, self.y_direction.1, y);
        (round_clamped(px), round_clamped(py))
    }
}

/// What a [`LatticeTurtle`] holds: its base turtle, its lattice, its lattice
/// coordinates, and the saved coordinates, last saved last.
pub struct LatticeModel {
    pub base: TurtleModel,
    pub lattice: ((i64, i64), (i64, i64)),
    pub x: i32,
    pub y: i32,
    pub stack: Seq<(i32, i32)>,
}

impl LatticeModel {
    /// The model after a save.
    pub open spec fn pushed(self) -> LatticeModel {
        LatticeModel { stack: self.stack.push((self.x, self.y)), ..self }
    }

    /// The model after a restore: the last saved coordinates, or no change when
    /// nothing is saved.
    pub open spec fn popped(self) -> LatticeModel {
        if self.stack.len() == 0 {
            self
        } else {
            LatticeModel {
                x: self.stack.last().0,
                y: self.stack.last().1,
                stack: self.stack.drop_last(),
                ..self
            }
        }
    }

    /// The model after a move by `(dx, dy)` lattice steps: the base turtle is put on
    /// the current lattice point, then moved by the image of `(dx, dy)`.
    pub open spec fn stepped(self, dx: i32, dy: i32) -> LatticeModel {
        let here = lattice_point(self.lattice.0, self.lattice.1, self.x as int, self.y as int);
        let delta = lattice_point(self.lattice.0, self.lattice.1, dx as int, dy as int);
        LatticeModel {
            base: self.base.placed(here.0, here.1).moved(delta.0 as int, delta.1 as int),
            x: clamp_i32(self.x + dx),
            y: clamp_i32(self.y + dy),
            ..self
        }
    }
}

/// A turtle that keeps integer lattice coordinates and draws their images, so
/// that long walks do not drift.
#[derive(Debug)]
pub struct LatticeTurtle {
    inner: BaseTurtle,
    lattice: Lattice,
    x: i32,
    y: i32,
    stack: Vec<(i32, i32)>,
}

impl View for LatticeTurtle {
    type V = LatticeModel;

    closed spec fn view(&self) -> LatticeModel {
        LatticeModel {
            base: self.inner@,
            lattice: self.lattice@,
            x: self.x,
            y: self.y,
            stack: self.stack@,
        }
    }
}

impl LatticeTurtle {
    /// A turtle at the lattice origin.
    pub fn new(lattice: Lattice) -> (r: Self)
        ensures
            r@ == (LatticeModel {
                base: TurtleModel::origin(),
                lattice: lattice@,
                x: 0,
                y: 0,
                stack: Seq::empty(),
            }),
    {
        LatticeTurtle { inner: BaseTurtle::new(), lattice, x: 0, y: 0, stack: Vec::new() }
    }

    /// A turtle on the unit square grid.
    pub fn grid() -> (r: Self)
        ensures
            r@ == (LatticeModel {
                base: TurtleModel::origin(),
                lattice: ((MICRO, 0), (0, MICRO)),
                x: 0,
                y: 0,
                stack: Seq::empty(),
            }),
    {
        LatticeTurtle::new(Lattice::new((MICRO, 0), (0, MICRO)))
    }

    /// A turtle on the lattice of unit vectors 60 degrees apart.
    pub fn equiangular() -> (r: Self)
        ensures
            r@ == (LatticeModel {
                base: TurtleModel::origin(),
                lattice: ((MICRO, 0i64), (500000i64, 866025i64)),
                x: 0,
                y: 0,
                stack: Seq::empty(),
            }),
    {
        let r = LatticeTurtle::by_angle(60);
        assert(r@.lattice == ((MICRO, 0i64), (500000i64, 866025i64))) by {
            reveal(crate::angle::quarter_sine);
        }
        r
    }

    /// A turtle on the lattice of unit vectors `angle` degrees apart.
    pub fn by_angle(angle: i32) -> (r: Self)
        ensures
            r@ == (LatticeModel {
                base: TurtleModel::origin(),
                lattice: (
                    (MICRO, 0),
                    (
                        crate::angle::cosine_micro(crate::angle::normal_degrees(angle as int)) as i64,
                        crate::angle::sine_micro(crate::angle::normal_degrees(angle as int)) as i64,
                    ),
                ),
                x: 0,
                y: 0,
                stack: Seq::empty(),
            }),
    {
        let a = normalize_degrees(angle as i64);
        LatticeTurtle::new(Lattice::new((MICRO, 0), (cosine(a), sine(a))))
    }
}

/// `a + b` clamped to the range of `i32`.
fn clamped_sum_i32(a: i32, b: i32) -> (r: i32)
    ensures
        r == clamp_i32(a + b),
{
    let s = a as i64 + b as i64;
    if s > i32::MAX as i64 {
        i32::MAX
    } else if s < i32::MIN as i64 {
        i32::MIN
    } else {
        s as i32
    }
}

impl MovingTurtle for LatticeTurtle {
    type Item = (i32, i32);

    open spec fn base_view(&self) -> TurtleModel {
        self@.base
    }

    fn inner(&self) -> (r: &BaseTurtle) {
        &self.inner
    }

    fn inner_mut(&mut self) -> (r: &mut BaseTurtle)
        ensures
            final(self)@ == (LatticeModel { base: final(r)@, ..old(self)@ }),
    {
        &mut self.inner
    }

    /// Moves by `distance` lattice steps along the two basis vectors.
    fn forward(&mut self, distance: (i32, i32))
        ensures
            final(self)@ == old(self)@.stepped(distance.0, distance.1),
    {
        let (rx, ry) = self.lattice.point(self.x, self.y);
        self.inner.set_position(rx, ry);
        let (dx, dy) = distance;
        let (rdx, rdy) = self.lattice.point(dx, dy);
        self.inner.delta_move(rdx, rdy);
        self.x = clamped_sum_i32(self.x, dx);
        self.y = clamped_sum_i32(self.y, dy);
    }
}

impl Stack for LatticeTurtle {
    /// Saves the lattice coordinates.
    fn push(&mut self)
        ensures
            final(self)@ == old(self)@.pushed(),
    {
        self.stack.push((self.x, self.y));
    }

    /// Restores the last saved lattice coordinates; does nothing when nothing is saved.
    fn pop(&mut self)
        ensures
            final(self)@ == old(self)@.popped(),
    {
        match self.stack.pop() {
            Some((x, y)) => {
                self.x = x;
                self.y = y;
            },
            None => {},
        }
    }
}

/// Stack symmetry: a save, then any moves that leave the saved entries alone,
/// then a restore, give back the lattice coordinates of the save and the stack as
/// it was before it.
pub proof fn lemma_lattice_push_pop(before: LatticeModel, during: LatticeModel)
    requires
        during.stack == before.pushed().stack,
    ensures
        during.popped().x == before.x,
        during.popped().y == before.y,
        during.popped().stack == before.stack,
{
    assert(during.stack.drop_last() =~= before.stack);
}

} // verus!
