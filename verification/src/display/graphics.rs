//! The framebuffer mirror and the two ways of painting into it.

use super::geometry::{intersect, min_int, Pixel, Point, Rectangle, Size};
use super::{Orientation, ST7789};
use vstd::prelude::*;

verus! {

/// Number of cells in one row of the mirror.
pub const WIDTH: usize = 240;

/// Number of rows of the mirror.
pub const HEIGHT: usize = 320;

/// An in-memory shadow of the controller's RAM grid: `WIDTH * HEIGHT` cells,
/// row after row, each holding one pixel in the byte order of the wire.
pub struct Framebuffer {
    cells: Vec<u16>,
}

impl View for Framebuffer {
    type V = Seq<u16>;

    closed spec fn view(&self) -> Seq<u16> {
        self.cells@
    }
}

/// A mirror in which every cell is zero.
pub open spec fn blank() -> Seq<u16> {
    Seq::new((WIDTH * HEIGHT) as nat, |i: int| 0u16)
}

impl Framebuffer {
    /// The mirror has one cell for each pixel of the RAM grid.
    pub open spec fn wf(&self) -> bool {
        self@.len() == WIDTH * HEIGHT
    }

    /// A mirror in which every cell is zero.
    pub fn new() -> (fb: Framebuffer)
        ensures
            fb.wf(),
            fb@ == blank(),
    {
        let mut cells: Vec<u16> = Vec::new();
        let mut n: usize = 0;
        while n < WIDTH * HEIGHT
            invariant
                n <= WIDTH * HEIGHT,
                cells@.len() == n,
                forall|i: int| 0 <= i < n ==> cells@[i] == 0,
            decreases WIDTH * HEIGHT - n,
        {
            cells.push(0);
            n = n + 1;
        }
        Framebuffer { cells }
    }

    /// Number of cells, which is `WIDTH * HEIGHT`.
    pub fn len(&self) -> (n: usize)
        ensures
            n == self@.len(),
    {
        self.cells.len()
    }

    /// The value of one cell.
    pub fn get(&self, index: usize) -> (value: u16)
        requires
            index < self@.len(),
        ensures
            value == self@[index as int],
    {
        self.cells[index]
    }

    /// All cells, row after row.
    pub fn as_slice(&self) -> (cells: &[u16])
        ensures
            cells@ == self@,
    {
        self.cells.as_slice()
    }

    /// Combines `value` into one cell by exclusive or.
    fn toggle(&mut self, index: usize, value: u16)
        requires
            old(self).wf(),
            index < WIDTH * HEIGHT,
        ensures
            final(self).wf(),
            final(self)@ == old(self)@.update(index as int, old(self)@[index as int] ^ value),
    {
        let held = self.cells[index];
        self.cells.set(index, held ^ value);
    }

    /// Stores `count` pixels of `colors`, taken from index `from` on and each
    /// with its bytes exchanged, in the cells from `start` on.
    fn write_row(&mut self, start: usize, colors: &[u16], from: usize, count: usize)
        requires
            old(self).wf(),
            start + count <= WIDTH * HEIGHT,
            from + count <= colors@.len(),
        ensures
            final(self).wf(),
            final(self)@ == row_written(old(self)@, start as int, colors@, from as int, count as int),
    {
        let available = colors.len();
        let mut done: usize = 0;
        while done < count
            invariant
                done <= count,
                start + count <= WIDTH * HEIGHT,
                from + count <= available,
                available == colors@.len(),
                self.cells@.len() == WIDTH * HEIGHT,
                self@ == row_written(old(self)@, start as int, colors@, from as int, done as int),
            decreases count - done,
        {
            let color = swap_bytes(colors[from + done]);
            self.cells.set(start + done, color);
            done = done + 1;
        }
    }
}

/// A pixel value with its two bytes exchanged: the form in which the mirror
/// holds it and the wire carries it.
pub open spec fn swapped(color: u16) -> u16 {
    ((color % 256) * 256 + color / 256) as u16
}

/// A pixel value with its two bytes exchanged.
#[verifier::when_used_as_spec(swapped)]
pub fn swap_bytes(color: u16) -> (s: u16)
    ensures
        s == swapped(color),
{
    (color % 256) * 256 + color / 256
}

/// The addressable grid for an orientation: 240 by 320 pixels for the two
/// portrait orientations, 320 by 240 for the two landscape ones.
pub open spec fn bounding_box(orientation: Orientation) -> Rectangle {
    if orientation.is_portrait() {
        Rectangle { top_left: Point { x: 0, y: 0 }, size: Size { width: 240, height: 320 } }
    } else {
        Rectangle { top_left: Point { x: 0, y: 0 }, size: Size { width: 320, height: 240 } }
    }
}

/// The mirror `m` with `count` cells from `start` on replaced by the pixels
/// of `colors` from index `from` on, each with its bytes exchanged.
pub open spec fn row_written(m: Seq<u16>, start: int, colors: Seq<u16>, from: int, count: int) -> Seq<
    u16,
> {
    Seq::new(
        m.len(),
        |i: int|
            if start <= i < start + count {
                swapped(colors[from + (i - start)])
            } else {
                m[i]
            },
    )
}

/// How a fill request meets the addressable grid.
#[derive(Copy, Clone, Debug, PartialEq, Eq, Structural)]
pub struct Clip {
    /// The part of the requested rectangle that lies on the grid.
    pub area: Rectangle,
    /// Columns (`x`) and rows (`y`) of the request cut off at the left and
    /// at the top.
    pub skip_top_left: Point,
    /// Columns (`x`) and rows (`y`) of the request cut off at the right and
    /// at the bottom.
    pub skip_bottom_right: Point,
}

/// The clipping of `area` against `bounds`, or `None` where the two have no
/// pixel in common.
pub open spec fn spec_clip(bounds: Rectangle, area: Rectangle) -> Option<Clip> {
    if area.overlaps(bounds) {
        let kept = area.spec_intersection(&bounds);
        Some(
            Clip {
                area: kept,
                skip_top_left: Point {
                    x: (kept.left() - area.left()) as i32,
                    y: (kept.top() - area.top()) as i32,
                },
                skip_bottom_right: Point {
                    x: (area.right() - kept.right()) as i32,
                    y: (area.bottom() - kept.bottom()) as i32,
                },
            },
        )
    } else {
        None
    }
}

/// Index, in the pixel sequence of a fill of `area`, of the first pixel of
/// row `y`.
pub open spec fn row_base(area: Rectangle, y: int) -> int {
    (y - area.top()) * area.size.width
}

/// Index, in the pixel sequence of a fill of `area`, of the pixel for
/// column `x`, row `y`: the sequence runs through `area` row by row.
pub open spec fn source_index(area: Rectangle, x: int, y: int) -> int {
    row_base(area, y) + (x - area.left())
}

/// The mirror cell that holds the pixel at column `x`, row `y`.
pub open spec fn cell_index(x: int, y: int) -> int {
    x + y * WIDTH
}

/// What cell `i` holds after the pixels of `kept` were stored, given that it
/// held `m[i]` before.
///
/// A row of the mirror has `WIDTH` cells whatever the orientation, so a
/// pixel in column `WIDTH + x` of row `y - 1` shares its cell with the one
/// in column `x` of row `y`. Rows are stored from the top down: where both
/// are painted, the lower one stays.
pub open spec fn cell_after_fill(
    m: Seq<u16>,
    kept: Rectangle,
    area: Rectangle,
    colors: Seq<u16>,
    i: int,
) -> u16 {
    let x = i % (WIDTH as int);
    let y = i / (WIDTH as int);
    if kept.covers(x, y) {
        swapped(colors[source_index(area, x, y)])
    } else if kept.covers(x + WIDTH, y - 1) {
        swapped(colors[source_index(area, x + WIDTH, y - 1)])
    } else {
        m[i]
    }
}

/// The mirror `m` after the pixels of `kept` were stored in it, out of a
/// pixel sequence `colors` that runs through `area`.
pub open spec fn painted(m: Seq<u16>, kept: Rectangle, area: Rectangle, colors: Seq<u16>) -> Seq<
    u16,
> {
    Seq::new(m.len(), |i: int| cell_after_fill(m, kept, area, colors, i))
}

/// The mirror `m` after `area` was filled from `colors` on a grid of
/// `bounds`.
pub open spec fn mirror_after_fill(
    m: Seq<u16>,
    bounds: Rectangle,
    area: Rectangle,
    colors: Seq<u16>,
) -> Seq<u16> {
    match spec_clip(bounds, area) {
        None => m,
        Some(clip) => painted(m, clip.area, area, colors),
    }
}

/// How many pixels a fill of `area` reads at least: those up to the last
/// one that is stored.
pub open spec fn pixels_needed(bounds: Rectangle, area: Rectangle) -> int {
    match spec_clip(bounds, area) {
        None => 0,
        Some(clip) => source_index(area, clip.area.right() - 1, clip.area.bottom() - 1) + 1,
    }
}

/// How many pixels a fill of `area` takes from a sequence of `available`
/// ones: none where nothing is visible; otherwise every row of `area` down
/// to the last visible one in full, as far as the sequence reaches.
pub open spec fn pixels_consumed(bounds: Rectangle, area: Rectangle, available: int) -> int {
    match spec_clip(bounds, area) {
        None => 0,
        Some(clip) => min_int(available, row_base(area, clip.area.bottom())),
    }
}

/// The mirror `m` after one pixel was painted: where both of its coordinates
/// lie in `0..WIDTH`, its cell is combined with the pixel's value, bytes
/// exchanged, by exclusive or; any other pixel leaves the mirror as it is.
pub open spec fn paint_pixel(m: Seq<u16>, pixel: Pixel) -> Seq<u16> {
    if 0 <= pixel.0.x < WIDTH && 0 <= pixel.0.y < WIDTH {
        let i = cell_index(pixel.0.x as int, pixel.0.y as int);
        m.update(i, m[i] ^ swapped(pixel.1))
    } else {
        m
    }
}

/// The mirror `m` after the pixels were painted one after the other.
pub open spec fn paint_pixels(m: Seq<u16>, pixels: Seq<Pixel>) -> Seq<u16>
    decreases pixels.len(),
{
    if pixels.len() == 0 {
        m
    } else {
        paint_pixel(paint_pixels(m, pixels.drop_last()), pixels.last())
    }
}

/// A mirror in which every cell is zero.
pub fn framebuffer() -> (fb: Framebuffer)
    ensures
        fb.wf(),
        fb@ == blank(),
{
    Framebuffer::new()
}

} // verus!

verus! {

/// The first `rows` rows of `kept`.
pub open spec fn first_rows(kept: Rectangle, rows: int) -> Rectangle {
    Rectangle {
        top_left: kept.top_left,
        size: Size { width: kept.size.width, height: rows as u32 },
    }
}

/// Storing row `row` of `kept` turns the mirror with the rows above it
/// painted into the mirror with that row painted too.
proof fn lemma_row_painted(
    m: Seq<u16>,
    kept: Rectangle,
    area: Rectangle,
    colors: Seq<u16>,
    row: int,
)
    requires
        m.len() == WIDTH * HEIGHT,
        0 <= kept.left(),
        0 <= kept.top(),
        kept.right() <= 320,
        kept.bottom() <= 320,
        0 <= row < kept.size.height,
    ensures
        row_written(
            painted(m, first_rows(kept, row), area, colors),
            cell_index(kept.left(), kept.top() + row),
            colors,
            source_index(area, kept.left(), kept.top() + row),
            kept.size.width as int,
        ) == painted(m, first_rows(kept, row + 1), area, colors),
{
    let before = painted(m, first_rows(kept, row), area, colors);
    let start = cell_index(kept.left(), kept.top() + row);
    let from = source_index(area, kept.left(), kept.top() + row);
    let after = row_written(before, start, colors, from, kept.size.width as int);
    let goal = painted(m, first_rows(kept, row + 1), area, colors);
    assert(after.len() == goal.len());
    assert forall|i: int| 0 <= i < after.len() implies after[i] == goal[i] by {
        let x = i % (WIDTH as int);
        let y = i / (WIDTH as int);
        assert(i == x + y * 240);
        assert(0 <= x < 240);
    }
    assert(after =~= goal);
}

/// Where the sequence reaches the last stored pixel, it holds every visible
/// row up to its last stored pixel, and every row above the last visible one
/// in full.
proof fn lemma_rows_within(area: Rectangle, kept: Rectangle, available: int, row: int)
    requires
        area.left() <= kept.left(),
        area.top() <= kept.top(),
        kept.right() <= area.right(),
        0 <= row < kept.size.height,
        available >= source_index(area, kept.right() - 1, kept.bottom() - 1) + 1,
    ensures
        0 <= row_base(area, kept.top()) <= row_base(area, kept.top() + row),
        row_base(area, kept.top() + row + 1) == row_base(area, kept.top() + row)
            + area.size.width,
        source_index(area, kept.right() - 1, kept.top() + row) < available,
        row + 1 < kept.size.height ==> row_base(area, kept.top() + row + 1) <= available,
{
    let w = area.size.width as int;
    let a = kept.top() - area.top();
    let h = kept.size.height as int;
    assert(0 <= a * w <= (a + row) * w) by (nonlinear_arith)
        requires
            0 <= a,
            0 <= row,
            0 <= w,
    ;
    assert((a + row + 1) * w == (a + row) * w + w) by (nonlinear_arith);
    if row + 1 < h {
        assert((a + row + 1) * w <= (a + h - 1) * w) by (nonlinear_arith)
            requires
                row + 1 <= h - 1,
                0 <= w,
                0 <= a,
        ;
    }
    assert((a + row) * w <= (a + h - 1) * w) by (nonlinear_arith)
        requires
            row <= h - 1,
            0 <= w,
            0 <= a,
    ;
}

impl<DI, RST> ST7789<DI, RST> {
    /// Returns the bounding box for the entire framebuffer.
    pub fn framebuffer_bounding_box(&self) -> (bounds: Rectangle)
        ensures
            bounds == bounding_box(self.spec_orientation()),
    {
        let size = match self.orientation() {
            Orientation::Portrait | Orientation::PortraitSwapped => Size::new(240, 320),
            Orientation::Landscape | Orientation::LandscapeSwapped => Size::new(320, 240),
        };
        Rectangle::new(Point::zero(), size)
    }

    /// Clips a fill request against the addressable grid.
    ///
    /// Returns `None` where no pixel of `area` is on the grid, which is no
    /// error: there is nothing to paint then.
    pub fn clip(&self, area: &Rectangle) -> (clip: Option<Clip>)
        requires
            area.corner_fits(),
        ensures
            clip == spec_clip(bounding_box(self.spec_orientation()), *area),
    {
        let bounds = self.framebuffer_bounding_box();
        let clipped_area = intersect(area, &intersect(&bounds, area));
        match (area.bottom_right(), clipped_area.bottom_right()) {
            (Some(area_corner), Some(clipped_corner)) => Some(
                Clip {
                    area: clipped_area,
                    skip_top_left: clipped_area.top_left.offset_from(area.top_left),
                    skip_bottom_right: area_corner.offset_from(clipped_corner),
                },
            ),
            _ => None,
        }
    }

    /// Tells whether `area` can be filled from a sequence of `available`
    /// pixels: its bottom right corner can be computed, and the sequence
    /// reaches the last pixel that is stored.
    pub fn can_fill(&self, area: &Rectangle, available: usize) -> (ok: bool)
        ensures
            ok == (area.corner_fits() && available >= pixels_needed(
                bounding_box(self.spec_orientation()),
                *area,
            )),
    {
        if !area.corner_in_range() {
            return false;
        }
        match self.clip(area) {
            None => true,
            Some(clip) => {
                let rows_before = (clip.skip_top_left.y as u64) + (clip.area.size.height as u64) - 1;
                let in_last_row = (clip.skip_top_left.x as u64) + (clip.area.size.width as u64);
                let width = area.size.width as u64;
                assert(rows_before * width <= 0x1_0000_0000 * 0x8000_0000) by (nonlinear_arith)
                    requires
                        rows_before <= 0x1_0000_0000,
                        width <= 0x8000_0000,
                ;
                assert(row_base(*area, clip.area.bottom() - 1) == rows_before * width);
                (available as u64) >= rows_before * width + in_last_row
            },
        }
    }

    /// Fills `area` of the mirror from `colors`, which holds one pixel for
    /// each position of `area`, row by row.
    ///
    /// Only the part of `area` on the addressable grid is stored; the pixels
    /// for the rest are passed over: whole rows above the grid, then in each
    /// visible row those to the left and to the right of it. The rows below
    /// the grid are not looked at. Returns the number of pixels taken from
    /// the front of `colors`.
    pub fn fill_contiguous(&self, fb: &mut Framebuffer, area: &Rectangle, colors: &[u16]) -> (consumed:
        usize)
        requires
            old(fb).wf(),
            area.corner_fits(),
            colors@.len() >= pixels_needed(bounding_box(self.spec_orientation()), *area),
        ensures
            final(fb).wf(),
            final(fb)@ == mirror_after_fill(
                old(fb)@,
                bounding_box(self.spec_orientation()),
                *area,
                colors@,
            ),
            consumed == pixels_consumed(
                bounding_box(self.spec_orientation()),
                *area,
                colors@.len() as int,
            ),
    {
        let clip = match self.clip(area) {
            None => {
                return 0;
            },
            Some(clip) => clip,
        };
        let kept = clip.area;
        let available = colors.len();
        let width = area.size.width as usize;
        let kept_width = kept.size.width as usize;
        let kept_height = kept.size.height as usize;
        let skip_left = clip.skip_top_left.x as usize;
        let skip_top = clip.skip_top_left.y as usize;
        let skip_right = clip.skip_bottom_right.x as usize;
        proof {
            lemma_rows_within(*area, kept, available as int, 0);
            assert(painted(fb@, first_rows(kept, 0), *area, colors@) =~= fb@);
        }
        // whole rows above the grid
        let mut next: usize = skip_top * width;
        let mut start: usize = kept.top_left.x as usize + kept.top_left.y as usize * WIDTH;
        let mut row: usize = 0;
        while row < kept_height
            invariant
                fb.wf(),
                old(fb).wf(),
                spec_clip(bounding_box(self.spec_orientation()), *area) == Some(clip),
                kept == clip.area,
                available == colors@.len(),
                available >= pixels_needed(bounding_box(self.spec_orientation()), *area),
                width == area.size.width,
                kept_width == kept.size.width,
                kept_height == kept.size.height,
                skip_left == kept.left() - area.left(),
                skip_right == area.right() - kept.right(),
                row <= kept_height,
                start == cell_index(kept.left(), kept.top() + row),
                next == min_int(available as int, row_base(*area, kept.top() + row)),
                fb@ == painted(old(fb)@, first_rows(kept, row as int), *area, colors@),
            decreases kept_height - row,
        {
            proof {
                lemma_rows_within(*area, kept, available as int, row as int);
                lemma_row_painted(old(fb)@, kept, *area, colors@, row as int);
            }
            // pixels to the left of the grid
            next = next + skip_left;
            fb.write_row(start, colors, next, kept_width);
            next = next + kept_width;
            // pixels to the right of the grid, as far as there are any
            next = if available - next >= skip_right {
                next + skip_right
            } else {
                available
            };
            start = start + WIDTH;
            row = row + 1;
        }
        assert(first_rows(kept, kept_height as int) == kept);
        next
    }

    /// Paints single pixels into the mirror, in the order given.
    ///
    /// A pixel toggles its cell: its value is combined with the one the cell
    /// holds by exclusive or. Pixels off the square `0..WIDTH` by `0..WIDTH`
    /// are dropped.
    pub fn draw_iter(&self, fb: &mut Framebuffer, pixels: &[Pixel])
        requires
            old(fb).wf(),
        ensures
            final(fb).wf(),
            final(fb)@ == paint_pixels(old(fb)@, pixels@),
    {
        let count = pixels.len();
        let mut n: usize = 0;
        while n < count
            invariant
                fb.wf(),
                count == pixels@.len(),
                n <= count,
                fb@ == paint_pixels(old(fb)@, pixels@.take(n as int)),
            decreases count - n,
        {
            let Pixel(coord, color) = pixels[n];
            if 0 <= coord.x && coord.x < 240 && 0 <= coord.y && coord.y < 240 {
                let index = coord.x as usize + coord.y as usize * WIDTH;
                fb.toggle(index, swap_bytes(color));
            }
            proof {
                let next = pixels@.take(n + 1);
                assert(next.drop_last() == pixels@.take(n as int));
                assert(next.last() == pixels@[n as int]);
            }
            n = n + 1;
        }
        assert(pixels@.take(count as int) == pixels@);
    }

    /// The size of the visible area, which may be smaller than the
    /// addressable grid.
    pub fn size(&self) -> (size: Size)
        ensures
            size.width == self.visible_size().0,
            size.height == self.visible_size().1,
    {
        Size::new(self.size_x as u32, self.size_y as u32)
    }
}

} // verus!

verus! {

/// No two pixels of `kept` share a mirror cell: it is at most one row of
/// cells wide, or it has a single row.
pub open spec fn cells_distinct(kept: Rectangle) -> bool {
    kept.size.width <= WIDTH || kept.size.height <= 1
}

/// A rectangle on the grid of one of the four orientations.
pub open spec fn on_grid(kept: Rectangle) -> bool {
    0 <= kept.left() && 0 <= kept.top() && kept.right() <= 320 && kept.bottom() <= 320
}

/// What painting a rectangle does to the mirror, cell by cell.
///
/// Every pixel of `kept` ends up in its own cell, `x + y * WIDTH`, as the
/// value that the sequence holds for it with the two bytes exchanged; every
/// cell that belongs to no pixel of `kept` keeps what it held.
pub proof fn lemma_painted_cells(m: Seq<u16>, kept: Rectangle, area: Rectangle, colors: Seq<u16>)
    requires
        m.len() == WIDTH * HEIGHT,
        on_grid(kept),
        cells_distinct(kept),
        cell_index(kept.right() - 1, kept.bottom() - 1) < m.len(),
    ensures
        painted(m, kept, area, colors).len() == m.len(),
        forall|x: int, y: int| #[trigger]
            kept.covers(x, y) ==> painted(m, kept, area, colors)[cell_index(x, y)] == swapped(
                colors[source_index(area, x, y)],
            ),
        forall|i: int|
            0 <= i < m.len() && (forall|x: int, y: int| #[trigger]
                kept.covers(x, y) ==> cell_index(x, y) != i) ==> #[trigger] painted(
                m,
                kept,
                area,
                colors,
            )[i] == m[i],
{
    let after = painted(m, kept, area, colors);
    assert forall|x: int, y: int| #[trigger] kept.covers(x, y) implies after[cell_index(x, y)]
        == swapped(colors[source_index(area, x, y)]) by {
        let i = cell_index(x, y);
        assert(0 <= i < m.len());
        if x < 240 {
            assert(i % 240 == x && i / 240 == y);
        } else {
            assert(i % 240 == x - 240 && i / 240 == y + 1);
        }
    }
    assert forall|i: int|
        0 <= i < m.len() && (forall|x: int, y: int| #[trigger]
            kept.covers(x, y) ==> cell_index(x, y) != i) implies #[trigger] after[i] == m[i] by {
        let x = i % 240;
        let y = i / 240;
        if kept.covers(x, y) {
            assert(cell_index(x, y) == i);
        }
        if kept.covers(x + 240, y - 1) {
            assert(cell_index(x + 240, y - 1) == i);
        }
    }
}

/// A fill that shows no pixel on the grid takes nothing from the pixel
/// sequence, asks for no pixel in it, and leaves the mirror as it is.
pub proof fn lemma_fill_off_grid(m: Seq<u16>, bounds: Rectangle, area: Rectangle, colors: Seq<u16>)
    requires
        !area.overlaps(bounds),
    ensures
        spec_clip(bounds, area) is None,
        pixels_needed(bounds, area) == 0,
        pixels_consumed(bounds, area, colors.len() as int) == 0,
        mirror_after_fill(m, bounds, area, colors) == m,
{
}

/// A fill that lies on the grid as a whole passes over no pixel of its
/// sequence: nothing is cut off on any side, the sequence is read to its
/// end, and pixel `(x, y)` of the rectangle, the one at index
/// `(y - top) * width + (x - left)` of the sequence, is stored with its
/// bytes exchanged in cell `x + y * WIDTH`. No other cell changes.
///
/// The cells are stated for rectangles of which no two pixels share one.
pub proof fn lemma_fill_inside(
    m: Seq<u16>,
    orientation: Orientation,
    area: Rectangle,
    colors: Seq<u16>,
)
    requires
        m.len() == WIDTH * HEIGHT,
        !area.is_zero_sized(),
        bounding_box(orientation).left() <= area.left(),
        bounding_box(orientation).top() <= area.top(),
        area.right() <= bounding_box(orientation).right(),
        area.bottom() <= bounding_box(orientation).bottom(),
        colors.len() == area.size.width * area.size.height,
        cells_distinct(area),
    ensures
        spec_clip(bounding_box(orientation), area) == Some(
            Clip {
                area,
                skip_top_left: Point { x: 0, y: 0 },
                skip_bottom_right: Point { x: 0, y: 0 },
            },
        ),
        pixels_needed(bounding_box(orientation), area) == colors.len(),
        pixels_consumed(bounding_box(orientation), area, colors.len() as int) == colors.len(),
        forall|x: int, y: int| #[trigger]
            area.covers(x, y) ==> mirror_after_fill(m, bounding_box(orientation), area, colors)[cell_index(
                x,
                y,
            )] == swapped(colors[(y - area.top()) * area.size.width + (x - area.left())]),
        forall|i: int|
            0 <= i < m.len() && (forall|x: int, y: int| #[trigger]
                area.covers(x, y) ==> cell_index(x, y) != i) ==> #[trigger] mirror_after_fill(
                m,
                bounding_box(orientation),
                area,
                colors,
            )[i] == m[i],
{
    let bounds = bounding_box(orientation);
    let w = area.size.width as int;
    let h = area.size.height as int;
    assert(area.overlaps(bounds));
    assert(area.spec_intersection(&bounds) == area);
    assert((h - 1) * w + w == h * w && h * w == w * h) by (nonlinear_arith);
    assert(row_base(area, area.bottom() - 1) == (h - 1) * w);
    assert(row_base(area, area.bottom()) == h * w);
    lemma_painted_cells(m, area, area, colors);
}

/// A fill that lies partly on the grid stores exactly the pixels that the
/// rectangle and the grid have in common, and passes over the others in
/// step with the geometry.
///
/// The kept rectangle covers a position just when both the request and the
/// grid do. Above the first kept row the sequence holds one full row of the
/// request for each row cut off at the top. In each kept row `y` the stored
/// pixels are preceded by as many passed over ones as columns are cut off
/// at the left, and followed by as many as are cut off at the right. Each
/// kept pixel is stored, bytes exchanged, in its cell, and no other cell
/// changes.
///
/// The cells are stated for kept rectangles of which no two pixels share
/// one.
pub proof fn lemma_fill_clipped(
    m: Seq<u16>,
    orientation: Orientation,
    area: Rectangle,
    colors: Seq<u16>,
)
    requires
        m.len() == WIDTH * HEIGHT,
        area.corner_fits(),
        area.overlaps(bounding_box(orientation)),
        colors.len() >= pixels_needed(bounding_box(orientation), area),
        cells_distinct(area.spec_intersection(&bounding_box(orientation))),
    ensures
        ({
            let bounds = bounding_box(orientation);
            let clip = spec_clip(bounds, area)->0;
            let kept = clip.area;
            let after = mirror_after_fill(m, bounds, area, colors);
            &&& spec_clip(bounds, area) is Some
            &&& forall|x: int, y: int|
                kept.covers(x, y) <==> #[trigger] area.covers(x, y) && bounds.covers(x, y)
            &&& clip.skip_top_left.x == kept.left() - area.left()
            &&& clip.skip_top_left.y == kept.top() - area.top()
            &&& clip.skip_bottom_right.x == area.right() - kept.right()
            &&& clip.skip_bottom_right.y == area.bottom() - kept.bottom()
            &&& clip.skip_top_left.x >= 0 && clip.skip_top_left.y >= 0
            &&& clip.skip_bottom_right.x >= 0 && clip.skip_bottom_right.y >= 0
            &&& row_base(area, kept.top()) == clip.skip_top_left.y * area.size.width
            &&& forall|y: int|
                kept.top() <= y < kept.bottom() ==> #[trigger] source_index(area, kept.left(), y)
                    == row_base(area, y) + clip.skip_top_left.x
            &&& forall|y: int|
                kept.top() <= y < kept.bottom() ==> #[trigger] row_base(area, y + 1)
                    == source_index(area, kept.right() - 1, y) + 1 + clip.skip_bottom_right.x
            &&& forall|x: int, y: int| #[trigger]
                kept.covers(x, y) ==> after[cell_index(x, y)] == swapped(
                    colors[source_index(area, x, y)],
                )
            &&& forall|i: int|
                0 <= i < m.len() && (forall|x: int, y: int| #[trigger]
                    kept.covers(x, y) ==> cell_index(x, y) != i) ==> #[trigger] after[i] == m[i]
        }),
{
    let bounds = bounding_box(orientation);
    let clip = spec_clip(bounds, area)->0;
    let kept = clip.area;
    let w = area.size.width as int;
    lemma_painted_cells(m, kept, area, colors);
    assert forall|y: int| kept.top() <= y < kept.bottom() implies #[trigger] row_base(area, y + 1)
        == source_index(area, kept.right() - 1, y) + 1 + clip.skip_bottom_right.x by {
        let a = y - area.top();
        assert((a + 1) * w == a * w + w) by (nonlinear_arith);
        assert(row_base(area, y + 1) == (a + 1) * w);
        assert(row_base(area, y) == a * w);
    }
}

/// Painting a single pixel whose coordinates both lie in `0..WIDTH` combines
/// the cell `x + y * WIDTH` with the pixel's value, bytes exchanged, by
/// exclusive or and changes no other cell; painting any other pixel changes
/// nothing.
pub proof fn lemma_paint_single(m: Seq<u16>, pixel: Pixel)
    requires
        m.len() == WIDTH * HEIGHT,
    ensures
        paint_pixels(m, seq![pixel]) == paint_pixel(m, pixel),
        paint_pixel(m, pixel).len() == m.len(),
        0 <= pixel.0.x < WIDTH && 0 <= pixel.0.y < WIDTH ==> {
            let i = pixel.0.x + pixel.0.y * WIDTH;
            &&& 0 <= i < m.len()
            &&& paint_pixel(m, pixel)[i] == m[i] ^ swapped(pixel.1)
            &&& forall|j: int| 0 <= j < m.len() && j != i ==> paint_pixel(m, pixel)[j] == m[j]
        },
        !(0 <= pixel.0.x < WIDTH && 0 <= pixel.0.y < WIDTH) ==> paint_pixel(m, pixel) == m,
{
    let one = seq![pixel];
    assert(one.drop_last() =~= Seq::<Pixel>::empty());
    assert(paint_pixels(m, one.drop_last()) == m);
    assert(one.last() == pixel);
}

} // verus!

verus! {

/// Filling the whole grid of a portrait orientation with one colour leaves
/// every cell of the mirror holding that colour with its bytes exchanged;
/// nothing is cut off and the whole sequence is read.
pub proof fn lemma_fill_whole_portrait_grid(
    m: Seq<u16>,
    orientation: Orientation,
    colors: Seq<u16>,
    color: u16,
)
    requires
        m.len() == WIDTH * HEIGHT,
        orientation.is_portrait(),
        colors.len() == WIDTH * HEIGHT,
        forall|i: int| 0 <= i < colors.len() ==> colors[i] == color,
    ensures
        pixels_consumed(
            bounding_box(orientation),
            bounding_box(orientation),
            colors.len() as int,
        ) == colors.len(),
        mirror_after_fill(m, bounding_box(orientation), bounding_box(orientation), colors)
            == Seq::new(m.len(), |i: int| swapped(color)),
{
    let bounds = bounding_box(orientation);
    let after = mirror_after_fill(m, bounds, bounds, colors);
    assert(bounds.spec_intersection(&bounds) == bounds);
    assert forall|i: int| 0 <= i < m.len() implies after[i] == swapped(color) by {
        let x = i % 240;
        let y = i / 240;
        assert(bounds.covers(x, y));
        assert(source_index(bounds, x, y) == i);
    }
    assert(after =~= Seq::new(m.len(), |i: int| swapped(color)));
}

} // verus!
