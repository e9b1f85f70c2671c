//! The pixel grid.

use vstd::prelude::*;
use embedded_graphics::draw_target::DrawTarget;
use embedded_graphics::geometry::Point;
use embedded_graphics::pixelcolor::Rgb565;
use embedded_graphics_framebuf::FrameBuf;
use vstd::arithmetic::div_mod::{
    lemma_div_is_ordered, lemma_div_pos_is_pos, lemma_fundamental_div_mod,
    lemma_fundamental_div_mod_converse, lemma_mod_pos_bound,
};
use crate::pixel::PixelWrite;

verus! {

/// Number of pixels of the panel's grid.
pub const PIXEL_COUNT: usize = 57600;

/// The grid as `embedded_graphics_framebuf::FrameBuf` keeps it, over an array
/// that it owns. Verus sees nothing inside: what a grid holds is named by
/// `grid_pixels` and `grid_width`, and only the functions below, one for each
/// method of `FrameBuf` that the library calls, say anything of them.
#[verifier::external_body]
pub struct PixelGrid {
    inner: FrameBuf<Rgb565, [Rgb565; PIXEL_COUNT]>,
}

/// The colours that a grid holds, by index into its backing array.
pub uninterp spec fn grid_pixels(grid: PixelGrid) -> Seq<Rgb565>;

/// The width that a grid was made with.
pub uninterp spec fn grid_width(grid: PixelGrid) -> nat;

/// The transfer sequence of a grid of the given width: one entry for each
/// colour, in index order, at column `i % width` of row `i / width`.
pub open spec fn row_major(pixels: Seq<Rgb565>, width: nat) -> Seq<PixelWrite> {
    Seq::new(
        pixels.len(),
        |i: int| PixelWrite { x: (i % width as int) as i32, y: (i / width as int) as i32, color: pixels[i] },
    )
}

/// `FrameBuf::new` on an owned array: the grid holds the array's colours in
/// the array's order and keeps the width it was given. The outside function
/// panics unless the array has `width * height` elements, which `requires`
/// demands.
#[verifier::external_body]
fn grid_new(data: [Rgb565; PIXEL_COUNT], width: usize, height: usize) -> (grid: PixelGrid)
    requires
        width * height == PIXEL_COUNT,
    ensures
        grid_pixels(grid) == data@,
        grid_width(grid) == width,
{
    PixelGrid { inner: FrameBuf::new(data, width, height) }
}

/// `DrawTarget::clear` of `FrameBuf`: it walks every row and column and sets
/// each colour, so afterwards every index holds `color`; the number of
/// colours and the width stay. Every index that it writes lies inside the
/// array, so it does not panic, and its error type has no values.
#[verifier::external_body]
fn grid_clear(grid: &mut PixelGrid, color: Rgb565)
    ensures
        grid_pixels(*final(grid)) == Seq::new(grid_pixels(*old(grid)).len(), |i: int| color),
        grid_width(*final(grid)) == grid_width(*old(grid)),
    no_unwind
{
    let _ = grid.inner.clear(color);
}

/// `FrameBuf::get_color_at`: the colour at index `width * y + x` of the
/// backing array. The outside function panics on an index past the array,
/// which `requires` leaves out.
#[verifier::external_body]
fn grid_get(grid: &PixelGrid, x: i32, y: i32) -> (color: Rgb565)
    requires
        0 <= x,
        0 <= y,
        grid_width(*grid) * y + x < grid_pixels(*grid).len(),
    ensures
        color == grid_pixels(*grid)[grid_width(*grid) * y + x],
{
    grid.inner.get_color_at(Point::new(x, y))
}

/// The iterator of `&FrameBuf`, walked to its end. It counts an index up from
/// zero through every colour and hands out, for each, the position
/// (`index % width`, `index / width`) and the colour at that index. It divides
/// by the width, so `requires` leaves out a width of zero; positions are
/// 32-bit, so the count is kept within their range.
#[verifier::external_body]
fn grid_collect(grid: &PixelGrid) -> (pixels: Vec<PixelWrite>)
    requires
        grid_width(*grid) > 0,
        grid_pixels(*grid).len() <= i32::MAX,
    ensures
        pixels@ == row_major(grid_pixels(*grid), grid_width(*grid)),
{
    let mut pixels = Vec::new();
    for embedded_graphics::Pixel(at, color) in (&grid.inner).into_iter() {
        pixels.push(PixelWrite { x: at.x, y: at.y, color });
    }
    pixels
}

/// A fixed-size, row-major grid of colours in memory.
///
/// Its model is the sequence of its colours, row after row (`@`), together
/// with its width and height. The number of colours never changes.
pub struct Framebuffer {
    grid: PixelGrid,
    width: usize,
    height: usize,
}

impl Framebuffer {
    /// What holds of every grid: it has `PIXEL_COUNT` colours, one for each
    /// cell of its `width * height`, and the width it was made with.
    #[verifier::type_invariant]
    pub closed spec fn wf(&self) -> bool {
        &&& self.width * self.height == PIXEL_COUNT
        &&& grid_width(self.grid) == self.width
        &&& grid_pixels(self.grid).len() == PIXEL_COUNT
    }

    /// The colours of the grid, row after row.
    pub closed spec fn view(&self) -> Seq<Rgb565> {
        grid_pixels(self.grid)
    }

    /// Number of columns.
    pub closed spec fn spec_width(&self) -> usize {
        self.width
    }

    /// Number of rows.
    pub closed spec fn spec_height(&self) -> usize {
        self.height
    }

    /// The colour at column `x` of row `y`.
    pub open spec fn pixel_at(&self, x: int, y: int) -> Rgb565 {
        self@[y * self.spec_width() + x]
    }

    /// What one transfer of the grid consists of: every position with its
    /// colour, row zero from left to right, then row one, and so on.
    pub open spec fn pixel_sequence(&self) -> Seq<PixelWrite> {
        row_major(self@, self.spec_width() as nat)
    }

    /// A grid has one colour for each cell, and so has its transfer sequence.
    pub proof fn lemma_size(self)
        requires
            self.wf(),
        ensures
            self@.len() == self.spec_width() * self.spec_height(),
            self@.len() == PIXEL_COUNT,
            self.pixel_sequence().len() == self@.len(),
    {
    }

    /// Binds a grid of `width` columns and `height` rows to `data`, which
    /// holds the rows one after another. Every position then reads the colour
    /// that `data` held for it.
    pub fn new(data: [Rgb565; PIXEL_COUNT], width: usize, height: usize) -> (fb: Framebuffer)
        requires
            width * height == PIXEL_COUNT,
        ensures
            fb.wf(),
            fb@ == data@,
            fb@.len() == width * height,
            fb.spec_width() == width,
            fb.spec_height() == height,
            forall|x: int, y: int|
                0 <= x < width && 0 <= y < height ==> #[trigger] fb.pixel_at(x, y) == data@[y
                    * width + x],
    {
        let grid = grid_new(data, width, height);
        Framebuffer { grid, width, height }
    }

    /// Number of columns.
    #[verifier::when_used_as_spec(spec_width)]
    pub fn width(&self) -> (w: usize)
        ensures
            w == self.spec_width(),
    {
        self.width
    }

    /// Number of rows.
    #[verifier::when_used_as_spec(spec_height)]
    pub fn height(&self) -> (h: usize)
        ensures
            h == self.spec_height(),
    {
        self.height
    }

    /// Sets every pixel to `color`. The dimensions stay.
    pub fn clear(&mut self, color: Rgb565)
        ensures
            final(self).wf(),
            final(self)@ == Seq::new(old(self)@.len(), |i: int| color),
            final(self).spec_width() == old(self).spec_width(),
            final(self).spec_height() == old(self).spec_height(),
            forall|x: int, y: int|
                0 <= x < old(self).spec_width() && 0 <= y < old(self).spec_height()
                    ==> #[trigger] final(self).pixel_at(x, y) == color,
    {
        proof {
            use_type_invariant(&*self);
        }
        grid_clear(&mut self.grid, color);
        proof {
            assert forall|x: int, y: int|
                0 <= x < self.width && 0 <= y < self.height implies #[trigger] self.pixel_at(x, y)
                == color by {
                lemma_index_in_grid(self.width as int, self.height as int, x, y);
            }
        }
    }

    /// The colour at column `x` of row `y`, or `None` for a position outside
    /// the grid.
    pub fn get(&self, x: usize, y: usize) -> (color: Option<Rgb565>)
        ensures
            color == if x < self.spec_width() && y < self.spec_height() {
                Some(self.pixel_at(x as int, y as int))
            } else {
                None
            },
    {
        proof {
            use_type_invariant(self);
        }
        if x < self.width && y < self.height {
            proof {
                lemma_index_in_grid(self.width as int, self.height as int, x as int, y as int);
                lemma_side_in_grid(self.width as int, self.height as int);
            }
            Some(grid_get(&self.grid, x as i32, y as i32))
        } else {
            None
        }
    }

    /// The transfer sequence of the grid as it is now: `width * height`
    /// entries in row-major order, from the top left corner to the bottom
    /// right one. The grid is only read, so a second call gives the same
    /// sequence as the first.
    pub fn produce_pixel_sequence(&self) -> (pixels: Vec<PixelWrite>)
        ensures
            pixels@ == self.pixel_sequence(),
            pixels@.len() == self.spec_width() * self.spec_height(),
            pixels@.len() > 0,
            pixels@.first().x == 0 && pixels@.first().y == 0,
            pixels@.last().x == self.spec_width() - 1 && pixels@.last().y == self.spec_height() - 1,
            forall|i: int|
                0 <= i < pixels@.len() ==> {
                    let p = #[trigger] pixels@[i];
                    &&& 0 <= p.x < self.spec_width()
                    &&& 0 <= p.y < self.spec_height()
                    &&& p.y * self.spec_width() + p.x == i
                    &&& p.color == self.pixel_at(p.x as int, p.y as int)
                },
            forall|i: int, j: int|
                0 <= i < j < pixels@.len() ==> precedes(#[trigger] pixels@[i], #[trigger] pixels@[j]),
    {
        proof {
            use_type_invariant(self);
            lemma_side_in_grid(self.width as int, self.height as int);
            lemma_row_major_order(self@, self.width as int, self.height as int);
        }
        grid_collect(&self.grid)
    }

    /// The entry at place `index` of the transfer sequence, or `None` past
    /// its end. It is worked out from the grid on the spot, so the sequence
    /// can be read entry by entry without being laid out in memory.
    pub fn sequence_entry(&self, index: usize) -> (entry: Option<PixelWrite>)
        ensures
            entry == if index < self.pixel_sequence().len() {
                Some(self.pixel_sequence()[index as int])
            } else {
                None
            },
    {
        proof {
            use_type_invariant(self);
            lemma_side_in_grid(self.width as int, self.height as int);
        }
        if index < PIXEL_COUNT {
            let x = index % self.width;
            let y = index / self.width;
            proof {
                lemma_cell_of_index(self.width as int, self.height as int, index as int);
            }
            let color = grid_get(&self.grid, x as i32, y as i32);
            Some(PixelWrite { x: x as i32, y: y as i32, color })
        } else {
            None
        }
    }
}

/// The transfer sequence depends on the colours and the width alone: grids
/// that agree on both have the same sequence, so reading it again from a grid
/// that was not changed in between gives the same sequence again.
pub proof fn lemma_sequence_restartable(first: Framebuffer, second: Framebuffer)
    requires
        first@ == second@,
        first.spec_width() == second.spec_width(),
    ensures
        first.pixel_sequence() == second.pixel_sequence(),
{
}

/// A grid that holds one colour everywhere hands out that colour in every
/// entry of its transfer sequence: after a clear, a flush sends nothing of
/// what the grid held before.
pub proof fn lemma_uniform_grid_uniform_sequence(fbuf: Framebuffer, color: Rgb565)
    requires
        fbuf@ == Seq::new(fbuf@.len(), |i: int| color),
    ensures
        forall|i: int|
            0 <= i < fbuf.pixel_sequence().len() ==> (#[trigger] fbuf.pixel_sequence()[i]).color
                == color,
{
}

/// Whether `a` comes before `b` in row-major order: in a row above, or in the
/// same row and further left.
pub open spec fn precedes(a: PixelWrite, b: PixelWrite) -> bool {
    a.y < b.y || (a.y == b.y && a.x < b.x)
}

/// The transfer sequence of a non-empty grid has one entry for each cell,
/// begins at the top left corner, ends at the bottom right one, keeps every
/// entry inside the grid at the position whose row-major index is the entry's
/// place in the sequence, and runs in strict row-major order.
pub proof fn lemma_row_major_order(pixels: Seq<Rgb565>, width: int, height: int)
    requires
        0 <= width,
        0 <= height,
        0 < pixels.len() <= i32::MAX,
        pixels.len() == width * height,
    ensures
        row_major(pixels, width as nat).len() == width * height,
        row_major(pixels, width as nat).first().x == 0,
        row_major(pixels, width as nat).first().y == 0,
        row_major(pixels, width as nat).last().x == width - 1,
        row_major(pixels, width as nat).last().y == height - 1,
        forall|i: int|
            0 <= i < pixels.len() ==> {
                let p = #[trigger] row_major(pixels, width as nat)[i];
                &&& 0 <= p.x < width
                &&& 0 <= p.y < height
                &&& p.y * width + p.x == i
                &&& p.color == pixels[p.y * width + p.x]
            },
        forall|i: int, j: int|
            0 <= i < j < pixels.len() ==> precedes(
                #[trigger] row_major(pixels, width as nat)[i],
                #[trigger] row_major(pixels, width as nat)[j],
            ),
{
    let seq = row_major(pixels, width as nat);
    let n = pixels.len() as int;
    lemma_side_in_grid(width, height);
    assert forall|i: int| 0 <= i < n implies {
        let p = #[trigger] seq[i];
        &&& p.x == i % width
        &&& p.y == i / width
        &&& 0 <= p.x < width
        &&& 0 <= p.y < height
        &&& p.y * width + p.x == i
        &&& p.color == pixels[p.y * width + p.x]
    } by {
        lemma_cell_of_index(width, height, i);
    }
    assert((height - 1) * width + (width - 1) == width * height - 1) by (nonlinear_arith);
    lemma_fundamental_div_mod_converse(n - 1, width, height - 1, width - 1);
    assert(seq.first() == seq[0]);
    assert(seq.last() == seq[n - 1]);
    assert forall|i: int, j: int| 0 <= i < j < n implies precedes(
        #[trigger] seq[i],
        #[trigger] seq[j],
    ) by {
        lemma_cell_of_index(width, height, i);
        lemma_cell_of_index(width, height, j);
        lemma_div_is_ordered(i, j, width);
        if i / width == j / width {
            lemma_fundamental_div_mod(i, width);
            lemma_fundamental_div_mod(j, width);
        }
    }
}

/// The row and the column of the cell with row-major index `i` lie inside
/// the grid, and give `i` back.
pub proof fn lemma_cell_of_index(width: int, height: int, i: int)
    requires
        0 < width,
        0 <= i < width * height,
    ensures
        0 <= i % width < width,
        0 <= i / width < height,
        (i / width) * width + i % width == i,
        width * (i / width) + i % width == i,
{
    lemma_fundamental_div_mod(i, width);
    lemma_mod_pos_bound(i, width);
    lemma_div_pos_is_pos(i, width);
    let q = i / width;
    let r = i % width;
    assert(q * width == width * q) by (nonlinear_arith);
    assert(q < height) by (nonlinear_arith)
        requires
            0 < width,
            q * width + r < width * height,
            0 <= r,
    ;
}

/// In a grid of `width * height` cells, the row-major index of a position
/// inside the grid is itself inside the grid.
pub proof fn lemma_index_in_grid(width: int, height: int, x: int, y: int)
    requires
        0 <= x < width,
        0 <= y < height,
    ensures
        0 <= y * width + x < width * height,
        width * y + x == y * width + x,
{
    assert(y * width + x < width * height) by (nonlinear_arith)
        requires
            0 <= x < width,
            0 <= y < height,
    ;
    assert(0 <= y * width) by (nonlinear_arith)
        requires
            0 <= width,
            0 <= y,
    ;
    assert(width * y == y * width) by (nonlinear_arith);
}

/// Neither side of a non-empty grid is zero, and neither is longer than the
/// number of cells.
pub proof fn lemma_side_in_grid(width: int, height: int)
    requires
        0 <= width,
        0 <= height,
        width * height > 0,
    ensures
        0 < width <= width * height,
        0 < height <= width * height,
{
    assert(0 < width && 0 < height && width <= width * height && height <= width * height)
        by (nonlinear_arith)
        requires
            0 <= width,
            0 <= height,
            width * height > 0,
    ;
}

} // verus!
