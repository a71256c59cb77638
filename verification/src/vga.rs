//! The 320x200 indexed-color framebuffer surface: true-color quantization to
//! the 6x6x6 "safe palette", bounds-checked pixel writes, and batched drawing
//! for arbitrary pixel producers.

use vstd::prelude::*;

verus! {

/// A screen coordinate, in pixels from the top-left corner.
#[derive(Clone, Copy, PartialEq, Eq, Structural, Debug)]
pub struct Point {
    pub x: i32,
    pub y: i32,
}

/// A true color: one 8-bit intensity per channel.
#[derive(Clone, Copy, PartialEq, Eq, Structural, Debug)]
pub struct Rgb {
    pub r: u8,
    pub g: u8,
    pub b: u8,
}

/// One request of an arbitrary pixel producer: set `coord` to `color`.
#[derive(Clone, Copy, PartialEq, Eq, Structural, Debug)]
pub struct Pixel {
    pub coord: Point,
    pub color: Rgb,
}

/// The quantization level of an 8-bit channel intensity: 0 through 5, with
/// the level boundaries of the 6-step "safe palette" ramp (0x00, 0x33, 0x66,
/// 0x99, 0xCC, 0xFF), each intensity rounded to the nearest step.
pub open spec fn quant_level(c: u8) -> u8 {
    (((c as int) + 25) / 51) as u8
}

/// Maps one 8-bit color channel to its palette quantization level in [0, 5].
pub fn color_component_to_safe_color(c: u8) -> (level: u8)
    ensures
        level == quant_level(c),
        level <= 5,
{
    if c < 26 {
        0
    } else if c < 77 {
        1
    } else if c < 128 {
        2
    } else if c < 179 {
        3
    } else if c < 230 {
        4
    } else {
        5
    }
}

/// The quantization of a channel intensity never decreases as the intensity
/// grows.
pub proof fn lemma_quant_monotonic(c1: u8, c2: u8)
    requires
        c1 <= c2,
    ensures
        quant_level(c1) <= quant_level(c2),
{
    vstd::arithmetic::div_mod::lemma_div_is_ordered(c1 as int + 25, c2 as int + 25, 51);
}

/// The palette index of a true color: levels combined as
/// `16 + r + g*6 + b*36`, reserving indices 0 through 15 for system colors.
pub open spec fn palette_index_spec(color: Rgb) -> u8 {
    (16 + quant_level(color.r) + quant_level(color.g) * 6 + quant_level(color.b) * 36) as u8
}

/// Quantizes a true color to its palette index, always in [16, 231].
pub fn palette_index(color: Rgb) -> (idx: u8)
    ensures
        idx == palette_index_spec(color),
        16 <= idx <= 231,
{
    let r = color_component_to_safe_color(color.r);
    let g = color_component_to_safe_color(color.g);
    let b = color_component_to_safe_color(color.b);
    16 + r + g * 6 + b * 36
}

/// Whether a coordinate lies inside the 320x200 surface.
pub open spec fn in_bounds(coord: Point) -> bool {
    0 <= coord.x < 320 && 0 <= coord.y < 200
}

/// The linear byte offset of an in-bounds coordinate: `x + y*320`.
pub open spec fn pixel_offset(coord: Point) -> int {
    coord.x + coord.y * 320
}

/// Computes the single byte write a pixel request asks for: the linear
/// offset and the palette index for an in-bounds coordinate, and no write at
/// all for an out-of-bounds one.
pub fn pixel_write(coord: Point, color: Rgb) -> (r: Option<(usize, u8)>)
    ensures
        in_bounds(coord) ==> r == Some(((pixel_offset(coord) as usize, palette_index_spec(color)))),
        !in_bounds(coord) ==> r is None,
        r matches Some(w) ==> w.0 < 64000,
{
    if coord.x >= 0 && coord.x < 320 && coord.y >= 0 && coord.y < 200 {
        let off: usize = coord.x as usize + coord.y as usize * 320;
        Some((off, palette_index(color)))
    } else {
        None
    }
}

/// The 320x200 indexed-color framebuffer surface. It owns its 64000-byte
/// pixel store exclusively; every write goes through the bounds check of
/// `set_pixel`.
pub struct Mode13Display {
    buf: Vec<u8>,
}

impl View for Mode13Display {
    type V = Seq<u8>;

    closed spec fn view(&self) -> Seq<u8> {
        self.buf@
    }
}

/// The effect of one pixel request on the pixel store: an in-bounds request
/// updates the one byte at its offset, an out-of-bounds one changes nothing.
pub open spec fn apply_pixel(s: Seq<u8>, p: Pixel) -> Seq<u8> {
    if in_bounds(p.coord) {
        s.update(pixel_offset(p.coord), palette_index_spec(p.color))
    } else {
        s
    }
}

/// The pixel store after the first `n` requests of a batch were applied in
/// order.
pub open spec fn draw_upto(s: Seq<u8>, ps: Seq<Pixel>, n: int) -> Seq<u8>
    decreases n,
{
    if n <= 0 {
        s
    } else {
        apply_pixel(draw_upto(s, ps, n - 1), ps[n - 1])
    }
}

/// The pixel store after a whole batch of requests was applied in order.
pub open spec fn draw_all(s: Seq<u8>, ps: Seq<Pixel>) -> Seq<u8> {
    draw_upto(s, ps, ps.len() as int)
}

/// Applying pixel requests never changes the size of the pixel store.
pub proof fn lemma_draw_upto_len(s: Seq<u8>, ps: Seq<Pixel>, n: int)
    requires
        s.len() == 64000,
    ensures
        draw_upto(s, ps, n).len() == 64000,
    decreases n,
{
    if n > 0 {
        lemma_draw_upto_len(s, ps, n - 1);
    }
}

/// Batched drawing writes exactly the in-bounds subset of its requests: a
/// byte whose offset no in-bounds request of the batch names keeps its old
/// value.
pub proof fn lemma_draw_all_untouched(s: Seq<u8>, ps: Seq<Pixel>, j: int)
    requires
        s.len() == 64000,
        0 <= j < 64000,
        forall|i: int|
            0 <= i < ps.len() ==> !(in_bounds(ps[i].coord) && pixel_offset(ps[i].coord) == j),
    ensures
        draw_all(s, ps)[j] == s[j],
{
    lemma_draw_upto_untouched(s, ps, ps.len() as int, j);
}

proof fn lemma_draw_upto_untouched(s: Seq<u8>, ps: Seq<Pixel>, n: int, j: int)
    requires
        s.len() == 64000,
        0 <= j < 64000,
        n <= ps.len(),
        forall|i: int| 0 <= i < n ==> !(in_bounds(ps[i].coord) && pixel_offset(ps[i].coord) == j),
    ensures
        draw_upto(s, ps, n)[j] == s[j],
    decreases n,
{
    if n > 0 {
        lemma_draw_upto_untouched(s, ps, n - 1, j);
        lemma_draw_upto_len(s, ps, n - 1);
    }
}

/// Batched drawing applies its in-bounds requests in order: the byte an
/// in-bounds request names holds, after the batch, the palette index of the
/// last in-bounds request that named it.
pub proof fn lemma_draw_all_last_write(s: Seq<u8>, ps: Seq<Pixel>, i: int)
    requires
        s.len() == 64000,
        0 <= i < ps.len(),
        in_bounds(ps[i].coord),
        forall|m: int|
            i < m < ps.len() ==> !(in_bounds(ps[m].coord) && pixel_offset(ps[m].coord)
                == pixel_offset(ps[i].coord)),
    ensures
        draw_all(s, ps)[pixel_offset(ps[i].coord)] == palette_index_spec(ps[i].color),
{
    lemma_draw_upto_last_write(s, ps, ps.len() as int, i);
}

proof fn lemma_draw_upto_last_write(s: Seq<u8>, ps: Seq<Pixel>, n: int, i: int)
    requires
        s.len() == 64000,
        0 <= i < n <= ps.len(),
        in_bounds(ps[i].coord),
        forall|m: int|
            i < m < n ==> !(in_bounds(ps[m].coord) && pixel_offset(ps[m].coord) == pixel_offset(
                ps[i].coord,
            )),
    ensures
        draw_upto(s, ps, n)[pixel_offset(ps[i].coord)] == palette_index_spec(ps[i].color),
    decreases n,
{
    lemma_draw_upto_len(s, ps, n - 1);
    if n - 1 == i {
    } else {
        lemma_draw_upto_last_write(s, ps, n - 1, i);
    }
}

impl Mode13Display {
    /// The surface is well formed: its pixel store is exactly 320*200 bytes.
    pub open spec fn wf(&self) -> bool {
        self@.len() == 64000
    }

    /// Creates the surface with every pixel set to palette index 0 (black).
    pub fn new() -> (d: Self)
        ensures
            d.wf(),
            forall|j: int| 0 <= j < 64000 ==> d@[j] == 0u8,
    {
        let mut buf: Vec<u8> = Vec::new();
        let mut i: usize = 0;
        while i < 64000
            invariant
                i <= 64000,
                buf@.len() == i,
                forall|j: int| 0 <= j < i ==> buf@[j] == 0u8,
            decreases 64000 - i,
        {
            buf.push(0);
            i += 1;
        }
        Mode13Display { buf }
    }

    /// Writes one pixel. In bounds, exactly the byte at `x + y*320` becomes
    /// the color's palette index and the call succeeds; out of bounds,
    /// nothing is written and the call reports failure.
    pub fn set_pixel(&mut self, coord: Point, color: Rgb) -> (r: Option<()>)
        requires
            old(self).wf(),
        ensures
            final(self).wf(),
            in_bounds(coord) ==> r == Some(()) && final(self)@ == old(self)@.update(
                pixel_offset(coord),
                palette_index_spec(color),
            ),
            !in_bounds(coord) ==> r is None && final(self)@ == old(self)@,
    {
        match pixel_write(coord, color) {
            Some((off, val)) => {
                self.buf.set(off, val);
                Some(())
            },
            None => None,
        }
    }

    /// Applies a finite batch of pixel requests in order. A failing (out of
    /// bounds) request is dropped silently and never aborts the rest: the
    /// batch itself cannot fail.
    pub fn draw_iter(&mut self, pixels: &Vec<Pixel>)
        requires
            old(self).wf(),
        ensures
            final(self).wf(),
            final(self)@ == draw_all(old(self)@, pixels@),
    {
        let ghost s0: Seq<u8> = self@;
        let mut i: usize = 0;
        while i < pixels.len()
            invariant
                i <= pixels@.len(),
                self.wf(),
                self@ == draw_upto(s0, pixels@, i as int),
            decreases pixels@.len() - i,
        {
            let p = pixels[i];
            let _ = self.set_pixel(p.coord, p.color);
            i += 1;
        }
    }

    /// Reads the byte at one linear offset of the pixel store.
    pub fn byte_at(&self, i: usize) -> (r: u8)
        requires
            self.wf(),
            i < 64000,
        ensures
            r == self@[i as int],
    {
        self.buf[i]
    }

    /// The fixed surface dimensions, in pixels: width 320, height 200.
    pub fn size(&self) -> (r: (u32, u32))
        ensures
            r == (320u32, 200u32),
    {
        (320, 200)
    }
}

} // verus!
