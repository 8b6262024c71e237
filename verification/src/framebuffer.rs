//! A z-buffered pixel framebuffer.
//!
//! The color buffer holds packed 0x00RRGGBB pixels, row-major; a parallel
//! depth buffer holds the nearest depth seen at each pixel. A write lands
//! only when its depth is strictly nearer than the stored one.

use vstd::prelude::*;
use vstd::pervasive::VecAdditionalExecFns;

verus! {

/// The "infinitely far" depth sentinel a cleared buffer holds.
pub const DEPTH_FAR: i64 = 0x7fff_ffff_ffff_ffff;

/// A color buffer with a parallel depth buffer, both `width * height`
/// long and row-major, plus the draw and clear colors.
pub struct Framebuffer {
    pub width: usize,
    pub height: usize,
    pub buffer: Vec<u32>,
    pub depth_buffer: Vec<i64>,
    pub current_color: u32,
    pub background_color: u32,
}

/// The depth-tested write: when `depth` is strictly nearer than the stored
/// depth at `idx`, the pixel takes `color` and the depth buffer takes
/// `depth`; otherwise nothing changes (ties keep the existing pixel).
pub open spec fn s_point_update(
    buf: Seq<u32>,
    depths: Seq<i64>,
    idx: int,
    depth: i64,
    color: u32,
) -> (Seq<u32>, Seq<i64>) {
    if depth < depths[idx] {
        (buf.update(idx, color), depths.update(idx, depth))
    } else {
        (buf, depths)
    }
}

impl Framebuffer {
    /// Both buffers cover exactly `width * height` pixels.
    pub open spec fn well_formed(&self) -> bool {
        &&& self.buffer.len() == self.width * self.height
        &&& self.depth_buffer.len() == self.width * self.height
    }

    /// Build a framebuffer with every pixel set to the (black) background
    /// and every depth at the far sentinel.
    pub fn new(width: usize, height: usize) -> (fb: Framebuffer)
        requires
            width * height <= usize::MAX,
        ensures
            fb.well_formed(),
            fb.width == width,
            fb.height == height,
            fb.current_color == 0xffffffu32,
            fb.background_color == 0u32,
            forall|i: int| 0 <= i < fb.buffer.len() ==> fb.buffer[i] == 0u32,
            forall|i: int| 0 <= i < fb.depth_buffer.len() ==> fb.depth_buffer[i] == DEPTH_FAR,
    {
        let n = width * height;
        let mut buffer: Vec<u32> = Vec::new();
        let mut i: usize = 0;
        while i < n
            invariant
                i <= n,
                buffer.len() == i,
                forall|j: int| 0 <= j < i ==> buffer[j] == 0u32,
            decreases n - i,
        {
            buffer.push(0);
            i += 1;
        }
        let mut depth_buffer: Vec<i64> = Vec::new();
        let mut k: usize = 0;
        while k < n
            invariant
                k <= n,
                depth_buffer.len() == k,
                forall|j: int| 0 <= j < k ==> depth_buffer[j] == DEPTH_FAR,
            decreases n - k,
        {
            depth_buffer.push(DEPTH_FAR);
            k += 1;
        }
        Framebuffer {
            width,
            height,
            buffer,
            depth_buffer,
            current_color: 0xffffff,
            background_color: 0,
        }
    }

    /// Set the color that subsequent writes store.
    pub fn set_current_color(&mut self, color: u32)
        ensures
            *final(self) == (Framebuffer { current_color: color, ..*old(self) }),
    {
        self.current_color = color;
    }

    /// Set the color that `clear` fills the buffer with.
    pub fn set_background_color(&mut self, color: u32)
        ensures
            *final(self) == (Framebuffer { background_color: color, ..*old(self) }),
    {
        self.background_color = color;
    }

    /// Fill the whole color buffer with the background color and reset
    /// every depth to the far sentinel.
    pub fn clear(&mut self)
        requires
            old(self).well_formed(),
        ensures
            final(self).well_formed(),
            final(self).width == old(self).width,
            final(self).height == old(self).height,
            final(self).current_color == old(self).current_color,
            final(self).background_color == old(self).background_color,
            forall|i: int|
                0 <= i < final(self).buffer.len() ==> final(self).buffer[i]
                    == old(self).background_color,
            forall|i: int|
                0 <= i < final(self).depth_buffer.len() ==> final(self).depth_buffer[i]
                    == DEPTH_FAR,
    {
        let n = self.buffer.len();
        let mut i: usize = 0;
        while i < n
            invariant
                i <= n,
                self.buffer.len() == n,
                self.depth_buffer.len() == old(self).depth_buffer.len(),
                self.width == old(self).width,
                self.height == old(self).height,
                self.current_color == old(self).current_color,
                self.background_color == old(self).background_color,
                forall|j: int| 0 <= j < i ==> self.buffer[j] == old(self).background_color,
            decreases n - i,
        {
            let c = self.background_color;
            self.buffer.set(i, c);
            i += 1;
        }
        let m = self.depth_buffer.len();
        let mut k: usize = 0;
        while k < m
            invariant
                k <= m,
                self.depth_buffer.len() == m,
                self.buffer.len() == n,
                self.width == old(self).width,
                self.height == old(self).height,
                self.current_color == old(self).current_color,
                self.background_color == old(self).background_color,
                forall|j: int| 0 <= j < n ==> self.buffer[j] == old(self).background_color,
                forall|j: int| 0 <= j < k ==> self.depth_buffer[j] == DEPTH_FAR,
            decreases m - k,
        {
            self.depth_buffer.set(k, DEPTH_FAR);
            k += 1;
        }
    }

    /// Depth-tested write of the current color at `(x, y)`: the pixel and
    /// its stored depth change exactly when `depth` is strictly nearer
    /// than the depth on record; a tie or a farther depth changes nothing.
    pub fn point(&mut self, x: usize, y: usize, depth: i64)
        requires
            old(self).well_formed(),
            x < old(self).width,
            y < old(self).height,
        ensures
            final(self).well_formed(),
            final(self).width == old(self).width,
            final(self).height == old(self).height,
            final(self).current_color == old(self).current_color,
            final(self).background_color == old(self).background_color,
            (final(self).buffer@, final(self).depth_buffer@) == s_point_update(
                old(self).buffer@,
                old(self).depth_buffer@,
                y * old(self).width + x,
                depth,
                old(self).current_color,
            ),
    {
        let w = self.width;
        let h = self.height;
        proof {
            assert((y as int) * (w as int) + (x as int) < (h as int) * (w as int))
                by (nonlinear_arith)
                requires
                    (y as int) < (h as int),
                    (x as int) < (w as int),
            ;
            assert((h as int) * (w as int) == (w as int) * (h as int)) by (nonlinear_arith);
        }
        let idx = y * w + x;
        if depth < self.depth_buffer[idx] {
            let c = self.current_color;
            self.buffer.set(idx, c);
            self.depth_buffer.set(idx, depth);
        }
    }

    /// Read the pixel stored at `(x, y)`.
    pub fn pixel(&self, x: usize, y: usize) -> (c: u32)
        requires
            self.well_formed(),
            x < self.width,
            y < self.height,
        ensures
            c == self.buffer[y * self.width + x],
    {
        let w = self.width;
        let h = self.height;
        proof {
            assert((y as int) * (w as int) + (x as int) < (h as int) * (w as int))
                by (nonlinear_arith)
                requires
                    (y as int) < (h as int),
                    (x as int) < (w as int),
            ;
            assert((h as int) * (w as int) == (w as int) * (h as int)) by (nonlinear_arith);
        }
        self.buffer[y * w + x]
    }

    /// Read the depth stored at `(x, y)`.
    pub fn depth_at(&self, x: usize, y: usize) -> (d: i64)
        requires
            self.well_formed(),
            x < self.width,
            y < self.height,
        ensures
            d == self.depth_buffer[y * self.width + x],
    {
        let w = self.width;
        let h = self.height;
        proof {
            assert((y as int) * (w as int) + (x as int) < (h as int) * (w as int))
                by (nonlinear_arith)
                requires
                    (y as int) < (h as int),
                    (x as int) < (w as int),
            ;
            assert((h as int) * (w as int) == (w as int) * (h as int)) by (nonlinear_arith);
        }
        self.depth_buffer[y * w + x]
    }
}

/// Writing the same `(idx, depth)` twice changes the buffers at most once:
/// after the first depth-tested write has been applied, applying it again
/// leaves both buffers exactly as they were (the depth test is strict).
pub proof fn lemma_point_update_idempotent(
    buf: Seq<u32>,
    depths: Seq<i64>,
    idx: int,
    depth: i64,
    color: u32,
)
    requires
        0 <= idx < depths.len(),
        buf.len() == depths.len(),
    ensures
        ({
            let once = s_point_update(buf, depths, idx, depth, color);
            s_point_update(once.0, once.1, idx, depth, color) == once
        }),
{
    let once = s_point_update(buf, depths, idx, depth, color);
    if depth < depths[idx] {
        assert(once.1[idx] == depth);
    }
}

} // verus!
