//! The two framebuffer representations that feed the command protocol.
//!
//! Both buffers are stored rotated 90 degrees (column-major) because the
//! staging commands upload one display column at a time: the cell `(x, y)`
//! lives at index `x * DISPLAY_HEIGHT + y`.

use vstd::arithmetic::div_mod::lemma_fundamental_div_mod;
use vstd::math::max;
use vstd::math::min;
use vstd::prelude::*;

use crate::DISPLAY_HEIGHT;
use crate::DISPLAY_WIDTH;
use crate::DRAW_COMMAND_LENGTH;
use crate::GREYSCALE_BUFFER_LENGTH;

verus! {

/// Column-major position of the cell `(x, y)` inside a framebuffer.
pub open spec fn cell_index(x: int, y: int) -> int {
    x * (DISPLAY_HEIGHT as int) + y
}

/// A column-major cell index decomposes back into its coordinates.
proof fn lemma_cell_coords(x: int, y: int)
    by (nonlinear_arith)
    requires
        0 <= x,
        0 <= y < DISPLAY_HEIGHT as int,
    ensures
        cell_index(x, y) / (DISPLAY_HEIGHT as int) == x,
        cell_index(x, y) % (DISPLAY_HEIGHT as int) == y,
{
}

/// Greyscale framebuffer: one intensity byte per pixel of the matrix,
/// stored column-major.
#[derive(Clone)]
pub struct Bitmap8 {
    pub(crate) data: [u8; GREYSCALE_BUFFER_LENGTH],
}

impl View for Bitmap8 {
    type V = Seq<u8>;

    closed spec fn view(&self) -> Seq<u8> {
        self.data@
    }
}

impl Bitmap8 {
    /// An all-dark buffer.
    pub fn new() -> (r: Self)
        ensures
            r@.len() == GREYSCALE_BUFFER_LENGTH,
            forall|i: int| 0 <= i < GREYSCALE_BUFFER_LENGTH ==> r@[i] == 0u8,
    {
        Self { data: [0u8; GREYSCALE_BUFFER_LENGTH] }
    }

    /// Read-only view of the raw column-major buffer, for staging.
    pub fn data(&self) -> (r: &[u8])
        ensures
            r@ == self@,
            r@.len() == GREYSCALE_BUFFER_LENGTH,
    {
        self.data.as_slice()
    }

    /// Overwrite every pixel with the same intensity.
    pub fn fill(&mut self, value: u8)
        ensures
            final(self)@.len() == old(self)@.len(),
            forall|i: int| 0 <= i < final(self)@.len() ==> final(self)@[i] == value,
    {
        self.data = [value; GREYSCALE_BUFFER_LENGTH];
    }

    /// Set one pixel. Coordinates outside the matrix are reported as an
    /// error and leave the buffer untouched.
    pub fn draw_point(&mut self, x: usize, y: usize, value: u8) -> (r: Result<(), &'static str>)
        ensures
            match r {
                Ok(()) => x < DISPLAY_WIDTH && y < DISPLAY_HEIGHT && final(self)@ == old(self)@.update(
                    cell_index(x as int, y as int),
                    value,
                ),
                Err(m) => final(self)@ == old(self)@ && if x >= DISPLAY_WIDTH {
                    m@ == "X was too large"@
                } else {
                    y >= DISPLAY_HEIGHT && m@ == "Y was too large"@
                },
            },
    {
        if x >= DISPLAY_WIDTH {
            return Err("X was too large");
        } else if y >= DISPLAY_HEIGHT {
            return Err("Y was too large");
        }
        let location = x * DISPLAY_HEIGHT + y;
        assert(location == cell_index(x as int, y as int) && location < GREYSCALE_BUFFER_LENGTH);
        self.data[location] = value;
        Ok(())
    }

    /// Fill the inclusive rectangle spanned by the two corners with `value`.
    /// The corner pairs are normalized independently, so any corner ordering
    /// produces the same rectangle. Corners must lie inside the matrix.
    #[verifier::loop_isolation(false)]
    pub fn draw_box(&mut self, x1: usize, y1: usize, x2: usize, y2: usize, value: u8)
        requires
            x1 < DISPLAY_WIDTH,
            x2 < DISPLAY_WIDTH,
            y1 < DISPLAY_HEIGHT,
            y2 < DISPLAY_HEIGHT,
        ensures
            final(self)@ == boxed(old(self)@, x1 as int, y1 as int, x2 as int, y2 as int, value),
    {
        let x_min = if x1 <= x2 { x1 } else { x2 };
        let x_max = if x1 <= x2 { x2 } else { x1 };
        let y_min = if y1 <= y2 { y1 } else { y2 };
        let y_max = if y1 <= y2 { y2 } else { y1 };

        let mut y = y_min;
        while y <= y_max
            invariant
                y_min <= y <= y_max + 1,
                self@.len() == GREYSCALE_BUFFER_LENGTH,
                forall|i: int| 0 <= i < GREYSCALE_BUFFER_LENGTH ==> self@[i] == (if painted_upto(
                    i,
                    x_min as int,
                    x_max as int,
                    y_min as int,
                    y as int,
                    x_min as int,
                ) {
                    value
                } else {
                    old(self)@[i]
                }),
            decreases y_max + 1 - y,
        {
            let mut x = x_min;
            while x <= x_max
                invariant
                    x_min <= x <= x_max + 1,
                    y <= y_max,
                    self@.len() == GREYSCALE_BUFFER_LENGTH,
                    forall|i: int| 0 <= i < GREYSCALE_BUFFER_LENGTH ==> self@[i] == (if painted_upto(
                        i,
                        x_min as int,
                        x_max as int,
                        y_min as int,
                        y as int,
                        x as int,
                    ) {
                        value
                    } else {
                        old(self)@[i]
                    }),
                decreases x_max + 1 - x,
            {
                let index = x * DISPLAY_HEIGHT + y;
                proof {
                    lemma_cell_coords(x as int, y as int);
                }
                self.data[index] = value;
                assert forall|i: int| 0 <= i < GREYSCALE_BUFFER_LENGTH implies self@[i] == (
                if painted_upto(
                    i,
                    x_min as int,
                    x_max as int,
                    y_min as int,
                    y as int,
                    x as int + 1,
                ) {
                    value
                } else {
                    old(self)@[i]
                }) by {
                    lemma_fundamental_div_mod(i, DISPLAY_HEIGHT as int);
                }
                x = x + 1;
            }
            y = y + 1;
        }
        assert(final(self)@ =~= boxed(
            old(self)@,
            x1 as int,
            y1 as int,
            x2 as int,
            y2 as int,
            value,
        ));
    }
}

/// Whether the buffer index `i` addresses a cell inside the inclusive
/// rectangle `[x_min, x_max] x [y_min, y_max]`.
pub open spec fn in_box(i: int, x_min: int, x_max: int, y_min: int, y_max: int) -> bool {
    x_min <= i / (DISPLAY_HEIGHT as int) <= x_max && y_min <= i % (DISPLAY_HEIGHT as int) <= y_max
}

/// The buffer `s` with every cell of the inclusive rectangle spanned by the
/// corners `(x1, y1)` and `(x2, y2)` overwritten with `v`. The corner pairs
/// are normalized independently, so the corner ordering is immaterial.
pub open spec fn boxed(s: Seq<u8>, x1: int, y1: int, x2: int, y2: int, v: u8) -> Seq<u8> {
    Seq::new(
        s.len(),
        |i: int|
            if in_box(i, min(x1, x2), max(x1, x2), min(y1, y2), max(y1, y2)) {
                v
            } else {
                s[i]
            },
    )
}

/// Cells already painted while the rectangle loops run: every full row of the
/// rectangle below `y`, and in row `y` itself the columns left of `x`.
spec fn painted_upto(i: int, x_min: int, x_max: int, y_min: int, y: int, x: int) -> bool {
    let xi = i / (DISPLAY_HEIGHT as int);
    let yi = i % (DISPLAY_HEIGHT as int);
    x_min <= xi <= x_max && y_min <= yi && (yi < y || (yi == y && xi < x))
}

/// Law: after a point is drawn at in-bounds coordinates `(x, y)`, reading the
/// staged data at the derived column-major index yields exactly the written
/// value, and every other cell is unchanged.
pub proof fn lemma_draw_point_readback(s: Seq<u8>, x: int, y: int, v: u8)
    requires
        s.len() == GREYSCALE_BUFFER_LENGTH,
        0 <= x < DISPLAY_WIDTH,
        0 <= y < DISPLAY_HEIGHT,
    ensures
        s.update(cell_index(x, y), v)[cell_index(x, y)] == v,
        forall|i: int|
            0 <= i < s.len() && i != cell_index(x, y) ==> s.update(cell_index(x, y), v)[i] == s[i],
{
    assert(0 <= cell_index(x, y) < GREYSCALE_BUFFER_LENGTH);
}

/// Monochrome framebuffer: one bit per pixel, packed into exactly one draw
/// payload. The bit for the cell `(x, y)` is bit `cell_index(x, y) % 8` of
/// byte `cell_index(x, y) / 8`.
#[derive(Clone)]
pub struct Bitmap {
    pub(crate) data: [u8; DRAW_COMMAND_LENGTH],
}

impl View for Bitmap {
    type V = Seq<u8>;

    closed spec fn view(&self) -> Seq<u8> {
        self.data@
    }
}

/// The mask selecting bit `loc % 8` inside byte `loc / 8`.
pub open spec fn mask_of(loc: int) -> u8 {
    1u8 << ((loc % 8) as u8)
}

/// Whether bit `loc` of the packed buffer `s` is set.
pub open spec fn bit_of(s: Seq<u8>, loc: int) -> bool {
    s[loc / 8] & mask_of(loc) != 0
}

/// The packed buffer `s` with bit `loc` set or cleared; the other bits of the
/// addressed byte, and every other byte, are untouched.
pub open spec fn with_bit(s: Seq<u8>, loc: int, v: bool) -> Seq<u8> {
    s.update(
        loc / 8,
        if v {
            s[loc / 8] | mask_of(loc)
        } else {
            s[loc / 8] & !mask_of(loc)
        },
    )
}

impl Bitmap {
    /// An all-dark buffer.
    pub fn new() -> (r: Self)
        ensures
            r@.len() == DRAW_COMMAND_LENGTH,
            forall|i: int| 0 <= i < DRAW_COMMAND_LENGTH ==> r@[i] == 0u8,
    {
        Self { data: [0u8; DRAW_COMMAND_LENGTH] }
    }

    /// Read-only view of the packed buffer, ready to be sent as one draw
    /// payload.
    pub fn data(&self) -> (r: &[u8])
        ensures
            r@ == self@,
            r@.len() == DRAW_COMMAND_LENGTH,
    {
        self.data.as_slice()
    }

    /// Overwrite every byte of the packed buffer with the same value.
    pub fn fill(&mut self, value: u8)
        ensures
            final(self)@.len() == old(self)@.len(),
            forall|i: int| 0 <= i < final(self)@.len() ==> final(self)@[i] == value,
    {
        self.data = [value; DRAW_COMMAND_LENGTH];
    }

    /// Set or clear one pixel bit, leaving all other bits untouched.
    /// Coordinates outside the matrix are reported as an error and leave the
    /// buffer untouched.
    pub fn draw_point(&mut self, x: usize, y: usize, value: bool) -> (r: Result<(), &'static str>)
        ensures
            match r {
                Ok(()) => x < DISPLAY_WIDTH && y < DISPLAY_HEIGHT && final(self)@ == with_bit(
                    old(self)@,
                    cell_index(x as int, y as int),
                    value,
                ),
                Err(m) => final(self)@ == old(self)@ && if x >= DISPLAY_WIDTH {
                    m@ == "X was too large"@
                } else {
                    y >= DISPLAY_HEIGHT && m@ == "Y was too large"@
                },
            },
    {
        if x >= DISPLAY_WIDTH {
            return Err("X was too large");
        } else if y >= DISPLAY_HEIGHT {
            return Err("Y was too large");
        }
        let location = y + x * DISPLAY_HEIGHT;
        assert(location == cell_index(x as int, y as int) && location < GREYSCALE_BUFFER_LENGTH);
        let byte_index = location / 8;
        let shift = (location % 8) as u8;
        let bitmask: u8 = 1u8 << shift;
        assert(bitmask == mask_of(location as int));
        if value {
            self.data[byte_index] = self.data[byte_index] | bitmask;
        } else {
            self.data[byte_index] = self.data[byte_index] & !bitmask;
        }
        Ok(())
    }
}

/// A greyscale buffer always holds exactly one byte per pixel of the matrix.
pub broadcast proof fn lemma_bitmap8_len(b: Bitmap8)
    ensures
        #[trigger] b@.len() == GREYSCALE_BUFFER_LENGTH,
{
}

/// A monochrome buffer is always exactly one draw payload long.
pub broadcast proof fn lemma_bitmap_len(b: Bitmap)
    ensures
        #[trigger] b@.len() == DRAW_COMMAND_LENGTH,
{
}

/// Law: writing one pixel bit makes that bit read back as the written value
/// and changes no other bit of the packed buffer.
pub proof fn lemma_draw_point_bit_effect(s: Seq<u8>, loc: int, v: bool)
    requires
        s.len() == DRAW_COMMAND_LENGTH,
        0 <= loc < GREYSCALE_BUFFER_LENGTH,
    ensures
        with_bit(s, loc, v).len() == s.len(),
        bit_of(with_bit(s, loc, v), loc) == v,
        forall|l2: int|
            0 <= l2 < 8 * DRAW_COMMAND_LENGTH && l2 != loc ==> bit_of(with_bit(s, loc, v), l2)
                == bit_of(s, l2),
{
    let d = loc / 8;
    let k = (loc % 8) as u8;
    let b = s[d];
    assert(((b | (1u8 << k)) & (1u8 << k) != 0) && ((b & !(1u8 << k)) & (1u8 << k) == 0))
        by (bit_vector)
        requires
            k < 8,
    ;
    assert forall|l2: int|
        0 <= l2 < 8 * DRAW_COMMAND_LENGTH && l2 != loc implies bit_of(with_bit(s, loc, v), l2)
        == bit_of(s, l2) by {
        lemma_fundamental_div_mod(l2, 8);
        lemma_fundamental_div_mod(loc, 8);
        if l2 / 8 == d {
            let j = (l2 % 8) as u8;
            assert(j != k);
            assert((b | (1u8 << k)) & (1u8 << j) == b & (1u8 << j) && (b & !(1u8 << k)) & (1u8
                << j) == b & (1u8 << j))
                by (bit_vector)
                requires
                    j != k && j < 8 && k < 8,
            ;
        }
    }
}

/// Law: setting a pixel bit and then clearing it gives the same buffer as
/// clearing it alone; if the bit was clear to begin with, the buffer is
/// restored exactly.
pub proof fn lemma_draw_point_round_trip(s: Seq<u8>, loc: int)
    requires
        s.len() == DRAW_COMMAND_LENGTH,
        0 <= loc < GREYSCALE_BUFFER_LENGTH,
    ensures
        with_bit(with_bit(s, loc, true), loc, false) == with_bit(s, loc, false),
        !bit_of(s, loc) ==> with_bit(s, loc, false) == s,
{
    let b = s[loc / 8];
    let m = mask_of(loc);
    assert((b | m) & !m == b & !m) by (bit_vector);
    assert(b & m == 0 ==> b & !m == b) by (bit_vector);
    assert(with_bit(with_bit(s, loc, true), loc, false) =~= with_bit(s, loc, false));
    if !bit_of(s, loc) {
        assert(with_bit(s, loc, false) =~= s);
    }
}

/// Law: drawing a box is invariant under swapping `x1` with `x2` and/or `y1`
/// with `y2`: all four corner orderings produce the identical buffer.
pub proof fn lemma_draw_box_corner_order(s: Seq<u8>, x1: int, y1: int, x2: int, y2: int, v: u8)
    ensures
        boxed(s, x1, y1, x2, y2, v) == boxed(s, x2, y1, x1, y2, v),
        boxed(s, x1, y1, x2, y2, v) == boxed(s, x1, y2, x2, y1, v),
        boxed(s, x1, y1, x2, y2, v) == boxed(s, x2, y2, x1, y1, v),
{
    assert(boxed(s, x1, y1, x2, y2, v) =~= boxed(s, x2, y1, x1, y2, v));
    assert(boxed(s, x1, y1, x2, y2, v) =~= boxed(s, x1, y2, x2, y1, v));
    assert(boxed(s, x1, y1, x2, y2, v) =~= boxed(s, x2, y2, x1, y1, v));
}

} // verus!
