//! Static tunnel-wall geometry, derived once from configuration and emitted
//! each tick purely for rendering. The frame never participates in
//! collision: the tunnel boundary is enforced by the player's own clamping.

use vstd::prelude::*;
use crate::object::{Color, Object, Part, Point};
use crate::{ANG_FULL, RADIAL_MAX_CAP, UNIT};

verus! {

/// The colour the tunnel walls are rendered with.
pub open spec fn frame_color() -> Color {
    Color { red: 500_000, green: 500_000, blue: 550_000, alpha: 1_000_000 }
}

/// The tunnel frame: two full-circle walls just outside the playable radial
/// band, and a corner marker on each wall at the angular seam.
#[derive(Clone, Copy, PartialEq, Eq, Structural, Debug)]
pub struct PolarFrame {
    pub wall_thickness: i64,
    pub margin: i64,
    pub corner_size: Point,
    pub radial_max: i64,
}

impl PolarFrame {
    /// The wall below the tunnel origin.
    pub open spec fn inner_wall(self) -> Part {
        Part {
            radial_min: (-self.margin - self.wall_thickness) as i64,
            radial_max: (-self.margin) as i64,
            angular_min: 0,
            angular_max: ANG_FULL,
            color: frame_color(),
        }
    }

    /// The wall beyond the far end of the tunnel.
    pub open spec fn outer_wall(self) -> Part {
        Part {
            radial_min: (self.radial_max + self.margin) as i64,
            radial_max: (self.radial_max + self.margin + self.wall_thickness) as i64,
            angular_min: 0,
            angular_max: ANG_FULL,
            color: frame_color(),
        }
    }

    /// The corner marker on the inner wall, at the angular seam.
    pub open spec fn inner_corner(self) -> Part {
        Part {
            radial_min: (-self.margin - self.wall_thickness) as i64,
            radial_max: (-self.margin - self.wall_thickness + self.corner_size.x) as i64,
            angular_min: 0,
            angular_max: self.corner_size.y,
            color: frame_color(),
        }
    }

    /// The corner marker on the outer wall, at the angular seam.
    pub open spec fn outer_corner(self) -> Part {
        Part {
            radial_min: (self.radial_max + self.margin + self.wall_thickness
                - self.corner_size.x) as i64,
            radial_max: (self.radial_max + self.margin + self.wall_thickness) as i64,
            angular_min: 0,
            angular_max: self.corner_size.y,
            color: frame_color(),
        }
    }

    /// Frame geometry is well-formed when the walls have positive bounded
    /// thickness, the corner markers fit inside them, and the tunnel length
    /// is bounded.
    pub open spec fn wf(self) -> bool {
        &&& 0 < self.wall_thickness <= UNIT
        &&& 0 <= self.margin <= UNIT
        &&& 0 < self.corner_size.x <= self.wall_thickness
        &&& 0 < self.corner_size.y <= ANG_FULL
        &&& 0 < self.radial_max <= RADIAL_MAX_CAP
    }

    /// Builds the frame for a tunnel of the given length.
    pub fn new(wall_thickness: i64, margin: i64, corner_size: Point, radial_max: i64) -> (f:
        PolarFrame)
        requires
            0 < wall_thickness <= UNIT,
            0 <= margin <= UNIT,
            0 < corner_size.x <= wall_thickness,
            0 < corner_size.y <= ANG_FULL,
            0 < radial_max <= RADIAL_MAX_CAP,
        ensures
            f == (PolarFrame {
                wall_thickness: wall_thickness,
                margin: margin,
                corner_size: corner_size,
                radial_max: radial_max,
            }),
            f.wf(),
    {
        PolarFrame {
            wall_thickness: wall_thickness,
            margin: margin,
            corner_size: corner_size,
            radial_max: radial_max,
        }
    }
}

impl Object for PolarFrame {
    open spec fn obj_wf(&self) -> bool {
        self.wf()
    }

    /// The frame emits its two walls followed by its two corner markers.
    open spec fn parts_view(&self) -> Seq<Part> {
        seq![self.inner_wall(), self.outer_wall(), self.inner_corner(), self.outer_corner()]
    }

    /// The frame is anchored at the tunnel origin.
    open spec fn position_view(&self) -> Point {
        Point { x: 0, y: 0 }
    }

    proof fn lemma_parts_wf(&self) {
        assert(self.parts_view()[0] == self.inner_wall());
        assert(self.parts_view()[1] == self.outer_wall());
        assert(self.parts_view()[2] == self.inner_corner());
        assert(self.parts_view()[3] == self.outer_corner());
        assert(self.inner_wall().wf());
        assert(self.outer_wall().wf());
        assert(self.inner_corner().wf());
        assert(self.outer_corner().wf());
    }

    fn get_position(&self) -> (p: Point) {
        Point { x: 0, y: 0 }
    }

    fn get_render_parts(&self) -> (v: Vec<Part>) {
        let color = Color { red: 500_000, green: 500_000, blue: 550_000, alpha: 1_000_000 };
        let inner_lo: i64 = -self.margin - self.wall_thickness;
        let outer_hi: i64 = self.radial_max + self.margin + self.wall_thickness;
        let mut v: Vec<Part> = Vec::new();
        v.push(Part {
            radial_min: inner_lo,
            radial_max: -self.margin,
            angular_min: 0,
            angular_max: ANG_FULL,
            color: color,
        });
        v.push(Part {
            radial_min: self.radial_max + self.margin,
            radial_max: outer_hi,
            angular_min: 0,
            angular_max: ANG_FULL,
            color: color,
        });
        v.push(Part {
            radial_min: inner_lo,
            radial_max: inner_lo + self.corner_size.x,
            angular_min: 0,
            angular_max: self.corner_size.y,
            color: color,
        });
        v.push(Part {
            radial_min: outer_hi - self.corner_size.x,
            radial_max: outer_hi,
            angular_min: 0,
            angular_max: self.corner_size.y,
            color: color,
        });
        proof {
            assert(v@ =~= self.parts_view());
        }
        v
    }
}

} // verus!
