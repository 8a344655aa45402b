//! The central hazard: a ring fixed at the tunnel origin, occupying the
//! full angular range out to its radius. It never moves, and participates
//! in collision like any other polar object.

use vstd::prelude::*;
use crate::enemy::Enemy;
use crate::object::{Color, Object, Part, Point};
use crate::player::Player;
use crate::{ANG_FULL, RADIAL_MAX_CAP};

verus! {

/// The colour the sun is rendered with.
pub open spec fn sun_color() -> Color {
    Color { red: 1_000_000, green: 900_000, blue: 300_000, alpha: 1_000_000 }
}

/// The static central hazard.
#[derive(Clone, Copy, PartialEq, Eq, Structural, Debug)]
pub struct Sun {
    pub radius: i64,
}

impl Sun {
    /// The single part the sun occupies: the radial band `[0, radius)`
    /// across the full angular range.
    pub open spec fn sun_part(self) -> Part {
        Part {
            radial_min: 0,
            radial_max: self.radius,
            angular_min: 0,
            angular_max: ANG_FULL,
            color: sun_color(),
        }
    }

    /// A new sun reaching out to the given radius.
    pub fn new(radius: i64) -> (s: Sun)
        requires
            0 < radius <= RADIAL_MAX_CAP,
        ensures
            s.radius == radius,
    {
        Sun { radius: radius }
    }
}

impl Enemy for Sun {
    /// The sun never moves, so any tick is admissible.
    open spec fn can_step(&self, dt: int) -> bool {
        true
    }

    /// The sun is unchanged by any tick.
    open spec fn stepped(&self, dt: int) -> Sun {
        *self
    }

    fn update_position(&mut self, game_time: i64, player: &Player) {
    }
}

impl Object for Sun {
    open spec fn obj_wf(&self) -> bool {
        0 < self.radius <= RADIAL_MAX_CAP
    }

    open spec fn parts_view(&self) -> Seq<Part> {
        seq![self.sun_part()]
    }

    /// The sun sits at the tunnel origin.
    open spec fn position_view(&self) -> Point {
        Point { x: 0, y: 0 }
    }

    proof fn lemma_parts_wf(&self) {
        assert(self.parts_view()[0] == self.sun_part());
        assert(self.sun_part().wf());
    }

    fn get_position(&self) -> (p: Point) {
        Point { x: 0, y: 0 }
    }

    fn get_render_parts(&self) -> (v: Vec<Part>) {
        let part = Part {
            radial_min: 0,
            radial_max: self.radius,
            angular_min: 0,
            angular_max: ANG_FULL,
            color: Color { red: 1_000_000, green: 900_000, blue: 300_000, alpha: 1_000_000 },
        };
        let mut v: Vec<Part> = Vec::new();
        v.push(part);
        proof {
            assert(v@ =~= self.parts_view());
        }
        v
    }
}

} // verus!
