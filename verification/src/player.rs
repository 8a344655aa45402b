//! The user-controlled craft: integrates input-derived motion into its polar
//! position, clamping at the tunnel's radial bounds and wrapping the angular
//! axis, and carries the destroyed flag set by collision.

use vstd::prelude::*;
use crate::game::GameSetup;
use crate::object::{clamp, emod, emod_i64, half_nonneg, Color, Object, Part, Point};
use crate::{ANG_FULL, DT_MAX, RADIAL_MAX_CAP, UNIT, VEL_CAP};

verus! {

broadcast use vstd::arithmetic::div_mod::lemma_mod_division_less_than_divisor;

/// The player craft.
#[derive(Clone, Copy, PartialEq, Eq, Structural, Debug)]
pub struct Player {
    pub position: Point,
    pub width: Point,
    pub destroyed: bool,
}

/// The colour the player is rendered with.
pub open spec fn player_color() -> Color {
    Color { red: 200_000, green: 900_000, blue: 1_000_000, alpha: 1_000_000 }
}

impl Player {
    /// The single part the player occupies: a polar box of its width,
    /// centered on its position, with the angular interval normalized.
    pub open spec fn player_part(self) -> Part {
        let amin = emod(self.position.y - self.width.y / 2);
        Part {
            radial_min: (self.position.x - self.width.x / 2) as i64,
            radial_max: (self.position.x + self.width.x / 2) as i64,
            angular_min: amin as i64,
            angular_max: (amin + self.width.y) as i64,
            color: player_color(),
        }
    }

    /// The player after one tick of motion: the radial position advances by
    /// `shift.x * dt` and is clamped into `[0, radial_max]`; the angular
    /// position advances by `shift.y * dt` and wraps modulo one revolution.
    pub open spec fn stepped(self, shift: Point, dt: int, setup: GameSetup) -> Player {
        Player {
            position: Point {
                x: clamp(self.position.x + shift.x * dt, 0, setup.radial_max as int) as i64,
                y: emod(self.position.y + shift.y * dt) as i64,
            },
            ..self
        }
    }

    /// A new, alive player at the given position and width.
    pub fn new(start: Point, width: Point) -> (p: Player)
        ensures
            p == (Player { position: start, width: width, destroyed: false }),
    {
        Player { position: start, width: width, destroyed: false }
    }

    /// Integrates one tick of input-derived motion, scaled by the tick's
    /// duration: deterministic, frame-rate independent, and unable to escape
    /// the tunnel.
    pub fn update_position(&mut self, shift: Point, dt: i64, setup: GameSetup)
        requires
            old(self).obj_wf(),
            setup.wf(),
            -VEL_CAP <= shift.x <= VEL_CAP,
            -VEL_CAP <= shift.y <= VEL_CAP,
            0 <= dt <= DT_MAX,
        ensures
            *final(self) == old(self).stepped(shift, dt as int, setup),
    {
        proof {
            assert(-10_000_000_000 <= shift.x * dt <= 10_000_000_000) by (nonlinear_arith)
                requires
                    -VEL_CAP <= shift.x <= VEL_CAP,
                    0 <= dt <= DT_MAX,
            ;
            assert(-10_000_000_000 <= shift.y * dt <= 10_000_000_000) by (nonlinear_arith)
                requires
                    -VEL_CAP <= shift.y <= VEL_CAP,
                    0 <= dt <= DT_MAX,
            ;
        }
        let dx: i64 = shift.x * dt;
        let nx0: i64 = self.position.x + dx;
        let nx: i64 = if nx0 < 0 {
            0
        } else if nx0 > setup.radial_max {
            setup.radial_max
        } else {
            nx0
        };
        let dy: i64 = shift.y * dt;
        let ny: i64 = emod_i64(self.position.y + dy);
        self.position = Point { x: nx, y: ny };
    }

    /// Marks the player destroyed. Idempotent: a second collision changes
    /// nothing further.
    pub fn collide(&mut self)
        ensures
            *final(self) == (Player { destroyed: true, ..*old(self) }),
    {
        self.destroyed = true;
    }

    /// Returns the player's (radial-width, angular-width) size.
    pub fn get_width(&self) -> (w: Point)
        ensures
            w == self.width,
    {
        self.width
    }
}

impl Object for Player {
    /// The player's geometry is meaningful while it sits inside the largest
    /// admissible tunnel with a positive width of at most one unit per axis.
    open spec fn obj_wf(&self) -> bool {
        &&& 0 <= self.position.x <= RADIAL_MAX_CAP
        &&& 0 <= self.position.y < ANG_FULL
        &&& 0 < self.width.x <= UNIT
        &&& 0 < self.width.y <= UNIT
    }

    open spec fn parts_view(&self) -> Seq<Part> {
        seq![self.player_part()]
    }

    open spec fn position_view(&self) -> Point {
        self.position
    }

    proof fn lemma_parts_wf(&self) {
        assert(self.parts_view()[0] == self.player_part());
        assert(self.player_part().wf());
    }

    fn get_position(&self) -> (p: Point) {
        self.position
    }

    fn get_render_parts(&self) -> (v: Vec<Part>) {
        let half_r: i64 = half_nonneg(self.width.x);
        let half_a: i64 = half_nonneg(self.width.y);
        let amin: i64 = emod_i64(self.position.y - half_a);
        let part = Part {
            radial_min: self.position.x - half_r,
            radial_max: self.position.x + half_r,
            angular_min: amin,
            angular_max: amin + self.width.y,
            color: Color { red: 200_000, green: 900_000, blue: 1_000_000, alpha: 1_000_000 },
        };
        let mut v: Vec<Part> = Vec::new();
        v.push(part);
        proof {
            assert(v@ =~= self.parts_view());
        }
        v
    }
}

} // verus!
