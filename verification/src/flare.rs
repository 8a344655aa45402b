//! A transient hazard: a flare erupts at the tunnel origin at a random
//! angular position, drifts outward at a constant radial velocity with
//! fixed angular position and size, and is culled once its radial position
//! leaves the valid band.

use vstd::prelude::*;
use crate::enemy::Enemy;
use crate::object::{Color, Object, Part, Point, RAD_CAP};
use crate::player::Player;
use crate::{ANG_FULL, DT_MAX, UNIT, VEL_CAP};

verus! {

/// The colour flares are rendered with.
pub open spec fn flare_color() -> Color {
    Color { red: 1_000_000, green: 600_000, blue: 100_000, alpha: 1_000_000 }
}

/// A radially drifting hazard.
#[derive(Clone, Copy, PartialEq, Eq, Structural, Debug)]
pub struct Flare {
    pub position: Point,
    pub size: Point,
    pub velocity: i64,
}

impl Flare {
    /// The single part the flare occupies: a polar box of its size whose
    /// corner sits at its position.
    pub open spec fn flare_part(self) -> Part {
        Part {
            radial_min: self.position.x,
            radial_max: (self.position.x + self.size.x) as i64,
            angular_min: self.position.y,
            angular_max: (self.position.y + self.size.y) as i64,
            color: flare_color(),
        }
    }

    /// A new flare of the given size, erupting at the tunnel origin at
    /// angular position `start_angle` with the given outward velocity.
    pub fn new(size: Point, start_angle: i64, velocity: i64) -> (f: Flare)
        requires
            0 < size.x <= UNIT,
            0 < size.y <= UNIT,
            0 <= start_angle < ANG_FULL,
            0 < velocity <= VEL_CAP,
        ensures
            f == (Flare {
                position: Point { x: 0, y: start_angle },
                size: size,
                velocity: velocity,
            }),
    {
        Flare { position: Point { x: 0, y: start_angle }, size: size, velocity: velocity }
    }

    /// True once the flare's radial position has left the closed band
    /// `[bound.x, bound.y]`: the signal the orchestrator culls on. A flare
    /// sitting exactly on either bound is still inside.
    pub fn terminate_flag(&self, bound: Point) -> (r: bool)
        ensures
            r == (self.position.x < bound.x || self.position.x > bound.y),
    {
        self.position.x < bound.x || self.position.x > bound.y
    }
}

impl Enemy for Flare {
    /// One tick of motion stays in range while the flare sits inside the
    /// admissible radial band, its velocity is bounded, and the tick is.
    open spec fn can_step(&self, dt: int) -> bool {
        &&& -RAD_CAP <= self.position.x <= RAD_CAP
        &&& 0 <= self.velocity <= VEL_CAP
        &&& 0 <= dt <= DT_MAX
    }

    /// After `dt` milliseconds the radial position has advanced by exactly
    /// `velocity * dt`; the angular position and the size are fixed for the
    /// flare's lifetime.
    open spec fn stepped(&self, dt: int) -> Flare {
        Flare {
            position: Point { x: (self.position.x + self.velocity * dt) as i64, y: self.position.y },
            ..*self
        }
    }

    fn update_position(&mut self, game_time: i64, player: &Player) {
        proof {
            assert(0 <= self.velocity * game_time <= 10_000_000_000) by (nonlinear_arith)
                requires
                    0 <= self.velocity <= VEL_CAP,
                    0 <= game_time <= DT_MAX,
            ;
        }
        self.position.x = self.position.x + self.velocity * game_time;
    }
}

impl Object for Flare {
    /// The flare's geometry is meaningful while it sits inside the
    /// admissible radial band with a positive bounded size and a normalized
    /// angular position.
    open spec fn obj_wf(&self) -> bool {
        &&& -RAD_CAP <= self.position.x <= RAD_CAP - UNIT
        &&& 0 <= self.position.y < ANG_FULL
        &&& 0 < self.size.x <= UNIT
        &&& 0 < self.size.y <= UNIT
    }

    open spec fn parts_view(&self) -> Seq<Part> {
        seq![self.flare_part()]
    }

    open spec fn position_view(&self) -> Point {
        self.position
    }

    proof fn lemma_parts_wf(&self) {
        assert(self.parts_view()[0] == self.flare_part());
        assert(self.flare_part().wf());
    }

    fn get_position(&self) -> (p: Point) {
        self.position
    }

    fn get_render_parts(&self) -> (v: Vec<Part>) {
        let part = Part {
            radial_min: self.position.x,
            radial_max: self.position.x + self.size.x,
            angular_min: self.position.y,
            angular_max: self.position.y + self.size.y,
            color: Color { red: 1_000_000, green: 600_000, blue: 100_000, alpha: 1_000_000 },
        };
        let mut v: Vec<Part> = Vec::new();
        v.push(part);
        proof {
            assert(v@ =~= self.parts_view());
        }
        v
    }
}

/// The flare after `n` equal ticks of `dt` milliseconds each.
pub open spec fn flare_stepped_n(f: Flare, dt: int, n: nat) -> Flare
    decreases n,
{
    if n == 0 {
        f
    } else {
        flare_stepped_n(f, dt, (n - 1) as nat).stepped(dt)
    }
}

/// Motion is additive in time: advancing a flare by `dt1` and then by `dt2`
/// lands exactly where a single step of `dt1 + dt2` does.
pub proof fn lemma_flare_motion_additive(f: Flare, dt1: int, dt2: int)
    requires
        f.can_step(dt1),
        f.can_step(dt1 + dt2),
        0 <= dt2,
    ensures
        f.stepped(dt1).stepped(dt2) == f.stepped(dt1 + dt2),
{
    assert(f.velocity * dt1 + f.velocity * dt2 == f.velocity * (dt1 + dt2)) by (nonlinear_arith);
    assert(0 <= f.velocity * dt1 <= 10_000_000_000) by (nonlinear_arith)
        requires
            0 <= f.velocity <= VEL_CAP,
            0 <= dt1 <= DT_MAX,
    ;
    assert(0 <= f.velocity * (dt1 + dt2) <= 10_000_000_000) by (nonlinear_arith)
        requires
            0 <= f.velocity <= VEL_CAP,
            0 <= dt1 + dt2 <= DT_MAX,
    ;
}

/// Frame-rate independence: `n` equal steps of `dt` milliseconds land the
/// flare exactly at `r0 + velocity * (n * dt)`, the position continuous
/// integration over the same total time gives, with angular position, size
/// and velocity untouched.
pub proof fn lemma_flare_steps_exact(f: Flare, dt: int, n: nat)
    requires
        -RAD_CAP <= f.position.x <= RAD_CAP,
        0 <= f.velocity <= VEL_CAP,
        0 <= dt,
        n * dt <= DT_MAX,
    ensures
        flare_stepped_n(f, dt, n) == (Flare {
            position: Point { x: (f.position.x + f.velocity * (n * dt)) as i64, y: f.position.y },
            ..f
        }),
    decreases n,
{
    if n == 0 {
        assert(f.velocity * (0 * dt) == 0) by (nonlinear_arith);
        assert(flare_stepped_n(f, dt, 0) == f);
        assert((f.position.x + f.velocity * (n * dt)) as i64 == f.position.x);
    } else {
        let m = (n - 1) as nat;
        assert(m * dt <= n * dt) by (nonlinear_arith)
            requires
                0 <= dt,
                0 <= m < n,
        ;
        lemma_flare_steps_exact(f, dt, m);
        let g = flare_stepped_n(f, dt, m);
        assert(0 <= f.velocity * (m * dt) <= f.velocity * (n * dt)) by (nonlinear_arith)
            requires
                0 <= f.velocity,
                0 <= m * dt <= n * dt,
        ;
        assert(0 <= f.velocity * (n * dt) <= 10_000_000_000) by (nonlinear_arith)
            requires
                0 <= f.velocity <= VEL_CAP,
                0 <= n * dt <= DT_MAX,
        ;
        assert(g.position.x == f.position.x + f.velocity * (m * dt));
        assert(f.velocity * (m * dt) + f.velocity * dt == f.velocity * (n * dt)) by (nonlinear_arith)
            requires
                m == n - 1,
        ;
        assert(flare_stepped_n(f, dt, n) == g.stepped(dt));
    }
}

} // verus!
