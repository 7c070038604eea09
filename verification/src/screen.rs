use vstd::prelude::*;

use crate::buffer::Buffer;
use crate::fixed::clip;
use crate::fixed::fix_from_usize;
use crate::fixed::fix_to_px;
use crate::fixed::spec_fix_to_px;
use crate::fixed::FIX_ONE;
use crate::vector::Vector;

verus! {

/// Walks the screen's pixel grid in row-major order and yields one ray
/// direction per pixel, derived from the screen's corner and edge vectors.
#[derive(Debug, Clone, Copy)]
pub struct ScreenIterator {
    pub corner_position: Vector,
    pub vertical_edge: Vector,
    pub horizontal_edge: Vector,
    pub horizontal_step: Vector,
    pub vertical_step: Vector,
    pub buffer_width: usize,
    pub buffer_height: usize,
    pub current_index: usize,
}

impl ScreenIterator {
    /// The ray direction of the pixel at a row-major index: the corner
    /// direction advanced by the column and row steps.
    pub open spec fn spec_ray_dir(self, idx: int) -> Vector {
        self.corner_position.spec_add(
            self.horizontal_step.spec_scale(
                clip((idx % (self.buffer_width as int)) * (FIX_ONE as int)),
            ),
        ).spec_add(
            self.vertical_step.spec_scale(
                clip((idx / (self.buffer_width as int)) * (FIX_ONE as int)),
            ),
        )
    }

    /// Starts a walk from the screen's corner direction and edge vectors;
    /// the pixel grid is set afterwards from a buffer.
    pub fn from_screen_position(
        corner_position: Vector,
        vertical_edge: Vector,
        horizontal_edge: Vector,
    ) -> (r: ScreenIterator)
        ensures
            r.corner_position == corner_position,
            r.vertical_edge == vertical_edge,
            r.horizontal_edge == horizontal_edge,
            r.horizontal_step == (Vector { x: 0i64, y: 0i64, z: 0i64 }),
            r.vertical_step == (Vector { x: 0i64, y: 0i64, z: 0i64 }),
            r.buffer_width == 0,
            r.buffer_height == 0,
            r.current_index == 0,
    {
        ScreenIterator {
            corner_position,
            vertical_edge,
            horizontal_edge,
            vertical_step: Vector::zero(),
            horizontal_step: Vector::zero(),
            current_index: 0,
            buffer_width: 0,
            buffer_height: 0,
        }
    }

    /// Adopts a buffer's pixel grid: the edge vectors divided by the grid
    /// dimensions become the per-pixel steps.
    pub fn set_buffer_size(&mut self, buffer: &Buffer)
        ensures
            final(self).buffer_width == spec_fix_to_px(buffer.width as int),
            final(self).buffer_height == spec_fix_to_px(buffer.height as int),
            final(self).horizontal_step == old(self).horizontal_edge.spec_div_by(
                buffer.width as int,
            ),
            final(self).vertical_step == old(self).vertical_edge.spec_div_by(buffer.height as int),
            final(self).corner_position == old(self).corner_position,
            final(self).vertical_edge == old(self).vertical_edge,
            final(self).horizontal_edge == old(self).horizontal_edge,
            final(self).current_index == old(self).current_index,
    {
        self.buffer_width = fix_to_px(buffer.width);
        self.buffer_height = fix_to_px(buffer.height);

        self.horizontal_step = self.horizontal_edge.div_by(buffer.width);
        self.vertical_step = self.vertical_edge.div_by(buffer.height);
    }

    /// Yields the next pixel's ray direction, row by row, and `None` once
    /// every pixel of the grid has been produced. The walk needs a pixel
    /// grid at least one column wide, as `set_buffer_size` provides.
    pub fn next(&mut self) -> (r: Option<Vector>)
        requires
            old(self).buffer_width > 0,
            old(self).buffer_width * old(self).buffer_height <= usize::MAX,
        ensures
            old(self).current_index < old(self).buffer_width * old(self).buffer_height ==> {
                &&& r == Some(old(self).spec_ray_dir(old(self).current_index as int))
                &&& final(self).current_index == old(self).current_index + 1
            },
            !(old(self).current_index < old(self).buffer_width * old(self).buffer_height) ==> {
                &&& r == None::<Vector>
                &&& final(self).current_index == old(self).current_index
            },
            final(self).corner_position == old(self).corner_position,
            final(self).vertical_edge == old(self).vertical_edge,
            final(self).horizontal_edge == old(self).horizontal_edge,
            final(self).horizontal_step == old(self).horizontal_step,
            final(self).vertical_step == old(self).vertical_step,
            final(self).buffer_width == old(self).buffer_width,
            final(self).buffer_height == old(self).buffer_height,
    {
        if self.current_index < self.buffer_width * self.buffer_height {
            let pixel_x: usize = self.current_index % self.buffer_width;
            let pixel_y: usize = self.current_index / self.buffer_width;

            self.current_index = self.current_index + 1;
            Some(
                self.corner_position.add(
                    self.horizontal_step.scale(fix_from_usize(pixel_x)),
                ).add(self.vertical_step.scale(fix_from_usize(pixel_y))),
            )
        } else {
            None
        }
    }
}

} // verus!
