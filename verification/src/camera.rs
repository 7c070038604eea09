use vstd::prelude::*;

use crate::fixed::fix_mul;
use crate::fixed::spec_mul;
use crate::fixed::tdiv;
use crate::fixed::FIX_ONE;
use crate::screen::ScreenIterator;
use crate::trig::spec_tan;
use crate::trig::tan_fix;
use crate::vector::Vector;

verus! {

/// The aspect ratio of a terminal cell (two thirds) at the fixed-point scale.
pub const ASPECT_RATIO: i64 = 43691;

/// The default movement speed (0.15) at the fixed-point scale.
pub const CAMERA_SPEED: i64 = 9830;

/// The default turn rate (90) at the fixed-point scale.
pub const CAMERA_TURN_RATE: i64 = 5898240;

/// The physical screen that the camera projects onto.
#[derive(Debug, Copy, Clone)]
pub struct Screen {
    pub width: i64,
    pub height: i64,
}

/// A camera pose: position, viewing basis, and the projection screen held at
/// the focal distance.
#[derive(Debug, Copy, Clone)]
pub struct Camera {
    pub position: Vector,
    pub direction: Vector,
    pub up: Vector,
    pub distance: i64,
    pub speed: i64,
    pub turn_rate: i64,
    pub screen: Screen,
}

impl Camera {
    /// The screen's world width for a field-of-view angle:
    /// `distance * 2 * tan(angle / 2)`.
    pub open spec fn spec_screen_width(distance: int, angle: int) -> int {
        spec_mul(spec_mul(distance, 2 * (FIX_ONE as int)), spec_tan(tdiv(angle, 2)))
    }

    /// Poses a camera at `position` looking toward `look_at`, with the given
    /// field-of-view angle (fixed-point radians) and focal distance.
    pub fn new(position: Vector, look_at: Vector, angle: i64, distance: i64) -> (r: Camera)
        ensures
            r.position == position,
            r.direction == look_at.spec_sub(position).spec_normalized(),
            r.up == (Vector { x: 0i64, y: 0i64, z: FIX_ONE }),
            r.distance == distance,
            r.screen.width == Camera::spec_screen_width(distance as int, angle as int),
            r.screen.height == spec_mul(r.screen.width as int, ASPECT_RATIO as int),
            r.speed == CAMERA_SPEED,
            r.turn_rate == CAMERA_TURN_RATE,
    {
        let width: i64 = fix_mul(fix_mul(distance, 2 * FIX_ONE), tan_fix(angle / 2));
        let height: i64 = fix_mul(width, ASPECT_RATIO);

        Camera {
            position,
            direction: look_at.sub(position).normalized(),
            up: Vector { x: 0, y: 0, z: FIX_ONE },
            distance,
            screen: Screen { width, height },
            speed: CAMERA_SPEED,
            turn_rate: CAMERA_TURN_RATE,
        }
    }

    /// The screen-space basis: the column toward the screen's center, and the
    /// columns along its horizontal and vertical edges.
    pub open spec fn spec_col_center(self) -> Vector {
        self.direction.spec_scale(self.distance as int)
    }

    pub open spec fn spec_col_horizontal(self) -> Vector {
        self.direction.spec_cross(self.up).spec_scale(self.screen.width as int)
    }

    pub open spec fn spec_col_vertical(self) -> Vector {
        self.up.spec_neg().spec_scale(self.screen.height as int)
    }

    /// The direction through the screen's top-left corner: the center column
    /// pulled back by half of each edge.
    pub open spec fn spec_corner(self) -> Vector {
        self.spec_col_center().spec_add(
            self.spec_col_horizontal().spec_scale(-(FIX_ONE as int) / 2),
        ).spec_add(self.spec_col_vertical().spec_scale(-(FIX_ONE as int) / 2))
    }

    /// Projects the camera pose into a screen walk: the linear operator that
    /// maps screen coordinates to world directions, applied to the corner and
    /// to the two screen axes.
    pub fn get_screen_iterator(self) -> (r: ScreenIterator)
        ensures
            r.corner_position == self.spec_corner(),
            r.vertical_edge == self.spec_col_vertical(),
            r.horizontal_edge == self.spec_col_horizontal(),
            r.horizontal_step == (Vector { x: 0i64, y: 0i64, z: 0i64 }),
            r.vertical_step == (Vector { x: 0i64, y: 0i64, z: 0i64 }),
            r.buffer_width == 0,
            r.buffer_height == 0,
            r.current_index == 0,
    {
        let col_center: Vector = self.direction.scale(self.distance);
        let col_horizontal: Vector = self.direction.cross(self.up).scale(self.screen.width);
        let col_vertical: Vector = self.up.neg().scale(self.screen.height);

        let half: i64 = -(FIX_ONE / 2);
        let corner: Vector = col_center.add(col_horizontal.scale(half)).add(
            col_vertical.scale(half),
        );

        ScreenIterator::from_screen_position(corner, col_vertical, col_horizontal)
    }
}

} // verus!
