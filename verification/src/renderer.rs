//! The integer side of rendering: the two render modes and the layout of
//! the GPU readback buffer, whose rows are padded to the copy alignment and
//! stripped again into a tightly packed RGBA8 image.
use vstd::prelude::*;
use vstd::slice::slice_to_vec;

verus! {

/// How a frame is drawn.
#[derive(Copy, Clone, Debug, PartialEq, Eq, Structural)]
pub enum RenderMode {
    /// Single-pass Lambert shading.
    Plain,
    /// Two passes: normals and depth to offscreen targets, then a full-screen
    /// pass that draws normal and depth discontinuities as black lines on
    /// flat white faces.
    Edges,
}

/// Bytes of one RGBA8 pixel.
pub const BYTES_PER_PIXEL: u32 = 4;

/// `ceil(value / alignment) * alignment`, over the integers.
pub open spec fn align_up_spec(value: int, alignment: int) -> int {
    ((value + alignment - 1) / alignment) * alignment
}

/// Round `value` up to the nearest multiple of `alignment`.
pub fn align_up(value: u32, alignment: u32) -> (r: u32)
    requires
        alignment > 0,
        align_up_spec(value as int, alignment as int) <= u32::MAX,
    ensures
        r == align_up_spec(value as int, alignment as int),
{
    proof {
        lemma_ceil_div(value as int, alignment as int);
        let c = (value + alignment - 1) / (alignment as int);
        assert(c <= c * alignment) by (nonlinear_arith)
            requires
                c >= 0,
                alignment >= 1,
        ;
    }
    let q = value / alignment;
    let q = if value % alignment == 0 {
        q
    } else {
        q + 1
    };
    q * alignment
}

proof fn lemma_ceil_div(value: int, alignment: int)
    requires
        value >= 0,
        alignment > 0,
    ensures
        (value + alignment - 1) / alignment == value / alignment + (if value % alignment == 0 {
            0int
        } else {
            1int
        }),
{
    let q = value / alignment;
    let r = value % alignment;
    vstd::arithmetic::div_mod::lemma_fundamental_div_mod(value, alignment);
    vstd::arithmetic::div_mod::lemma_mod_bound(value, alignment);
    if r == 0 {
        vstd::arithmetic::div_mod::lemma_div_multiples_vanish_fancy(q, alignment - 1, alignment);
    } else {
        assert(alignment * (q + 1) == alignment * q + alignment) by (nonlinear_arith);
        vstd::arithmetic::div_mod::lemma_div_multiples_vanish_fancy(q + 1, r - 1, alignment);
    }
}

/// The result of `align_up` is the least multiple of `alignment` that is at
/// least `value`.
pub proof fn lemma_align_up_least_multiple(value: u32, alignment: u32)
    requires
        alignment > 0,
    ensures
        align_up_spec(value as int, alignment as int) % (alignment as int) == 0,
        value <= align_up_spec(value as int, alignment as int),
        align_up_spec(value as int, alignment as int) < value + alignment,
        value % alignment == 0 ==> align_up_spec(value as int, alignment as int) == value,
{
    let v = value as int;
    let a = alignment as int;
    let q = v / a;
    let r = v % a;
    lemma_ceil_div(v, a);
    vstd::arithmetic::div_mod::lemma_fundamental_div_mod(v, a);
    vstd::arithmetic::div_mod::lemma_mod_bound(v, a);
    vstd::arithmetic::div_mod::lemma_mod_multiples_basic((v + a - 1) / a, a);
    assert((q + 1) * a == a * q + a) by (nonlinear_arith);
    assert(q * a == a * q) by (nonlinear_arith);
}

/// Reads `wgpu::COPY_BYTES_PER_ROW_ALIGNMENT`, the alignment that wgpu
/// demands of `bytes_per_row` in a texture-to-buffer copy. Trusted: the
/// contract claims that its value is 256, as wgpu-types defines it.
#[verifier::external_body]
fn copy_bytes_per_row_alignment() -> (r: u32)
    ensures
        r == 256,
{
    wgpu::COPY_BYTES_PER_ROW_ALIGNMENT
}

/// Row alignment of the readback buffer.
pub open spec fn row_alignment() -> int {
    256
}

/// Whether the readback sizes of a `width` × `height` frame fit the `u32`
/// arithmetic they are computed in.
pub open spec fn layout_fits(width: u32, height: u32) -> bool {
    &&& width * BYTES_PER_PIXEL <= u32::MAX
    &&& align_up_spec(width * BYTES_PER_PIXEL, row_alignment()) <= u32::MAX
    &&& align_up_spec(width * BYTES_PER_PIXEL, row_alignment()) * height <= u32::MAX
}

/// The rows `0..rows` of a padded buffer, each cut to its first `unpadded`
/// bytes and laid end to end.
pub open spec fn tight_rows(buf: Seq<u8>, padded: int, unpadded: int, rows: nat) -> Seq<u8>
    decreases rows,
{
    if rows == 0 {
        Seq::empty()
    } else {
        let start = (rows - 1) * padded;
        tight_rows(buf, padded, unpadded, (rows - 1) as nat) + buf.subrange(start, start + unpadded)
    }
}

/// Layout of the buffer that a rendered frame is copied into: each row of
/// `width * 4` bytes is padded to a multiple of the copy alignment.
pub struct ReadbackLayout {
    pub width: u32,
    pub height: u32,
    pub unpadded_bytes_per_row: u32,
    pub padded_bytes_per_row: u32,
}

impl ReadbackLayout {
    pub open spec fn wf(&self) -> bool {
        &&& layout_fits(self.width, self.height)
        &&& self.unpadded_bytes_per_row == self.width * BYTES_PER_PIXEL
        &&& self.padded_bytes_per_row == align_up_spec(
            self.unpadded_bytes_per_row as int,
            row_alignment(),
        )
    }

    /// What `strip_padding` makes of a mapped buffer: the buffer itself when
    /// rows carry no padding, else its rows with the padding cut off.
    pub open spec fn stripped(&self, buf: Seq<u8>) -> Seq<u8> {
        if self.padded_bytes_per_row == self.unpadded_bytes_per_row {
            buf
        } else {
            tight_rows(
                buf,
                self.padded_bytes_per_row as int,
                self.unpadded_bytes_per_row as int,
                self.height as nat,
            )
        }
    }

    /// Whether every row that `strip_padding` reads lies within `len` bytes.
    pub open spec fn rows_within(&self, len: int) -> bool {
        self.height == 0 || (self.height - 1) * self.padded_bytes_per_row
            + self.unpadded_bytes_per_row <= len
    }

    /// Whether `ReadbackLayout::new(width, height)` can compute its sizes
    /// without overflowing `u32`.
    pub fn fits(width: u32, height: u32) -> (b: bool)
        ensures
            b == layout_fits(width, height),
    {
        let unpadded = width as u64 * 4;
        if unpadded > u32::MAX as u64 {
            return false;
        }
        let padded = (unpadded + 255) / 256 * 256;
        if padded > u32::MAX as u64 {
            return false;
        }
        assert(padded * height <= 0xffff_ffff * 0xffff_ffff) by (nonlinear_arith)
            requires
                padded <= 0xffff_ffff,
                height <= 0xffff_ffff,
        ;
        padded * (height as u64) <= u32::MAX as u64
    }

    /// Row sizes of the readback buffer for a `width` × `height` frame.
    pub fn new(width: u32, height: u32) -> (r: ReadbackLayout)
        requires
            layout_fits(width, height),
        ensures
            r.wf(),
            r.width == width,
            r.height == height,
    {
        let unpadded_bytes_per_row = width * BYTES_PER_PIXEL;
        let padded_bytes_per_row = align_up(unpadded_bytes_per_row, copy_bytes_per_row_alignment());
        ReadbackLayout { width, height, unpadded_bytes_per_row, padded_bytes_per_row }
    }

    /// Size in bytes of the readback buffer.
    pub fn buffer_size(&self) -> (n: u64)
        requires
            self.wf(),
        ensures
            n == self.padded_bytes_per_row * self.height,
    {
        (self.padded_bytes_per_row * self.height) as u64
    }

    /// Turns the mapped readback buffer into a tightly packed RGBA8 image,
    /// dropping the padding at the end of each row; when rows carry no
    /// padding the buffer is copied whole.
    pub fn strip_padding(&self, padded: &[u8]) -> (r: Vec<u8>)
        requires
            self.wf(),
            self.padded_bytes_per_row != self.unpadded_bytes_per_row ==> self.rows_within(
                padded@.len() as int,
            ),
        ensures
            r@ == self.stripped(padded@),
    {
        if self.padded_bytes_per_row == self.unpadded_bytes_per_row {
            return slice_to_vec(padded);
        }
        let p = self.padded_bytes_per_row;
        let u = self.unpadded_bytes_per_row;
        let h = self.height;
        proof {
            lemma_align_up_least_multiple(u, 256);
            assert(u * h <= p * h) by (nonlinear_arith)
                requires
                    u <= p,
            ;
        }
        let mut tight: Vec<u8> = Vec::with_capacity((u * h) as usize);
        let mut row: u32 = 0;
        while row < h
            invariant
                self.wf(),
                p == self.padded_bytes_per_row,
                u == self.unpadded_bytes_per_row,
                h == self.height,
                u <= p,
                0 <= row <= h,
                self.rows_within(padded@.len() as int),
                tight@ == tight_rows(padded@, p as int, u as int, row as nat),
            decreases h - row,
        {
            proof {
                assert(row * p + u <= (h - 1) * p + u) by (nonlinear_arith)
                    requires
                        row < h,
                ;
                assert((h - 1) * p + u <= p * h) by (nonlinear_arith)
                    requires
                        u <= p,
                        h >= 1,
                ;
            }
            let start = row * p;
            let end = start + u;
            let ghost before = tight@;
            tight.extend_from_slice(&padded[start as usize..end as usize]);
            assert(tight@ =~= before + padded@.subrange(start as int, end as int));
            row = row + 1;
        }
        tight
    }
}

/// Length of the rows laid end to end, and where each of their bytes comes
/// from: byte `c` of row `r` is byte `r * padded + c` of the buffer.
pub proof fn lemma_tight_rows_index(buf: Seq<u8>, padded: int, unpadded: int, rows: nat)
    requires
        0 <= unpadded <= padded,
        rows == 0 || (rows - 1) * padded + unpadded <= buf.len(),
    ensures
        tight_rows(buf, padded, unpadded, rows).len() == unpadded * rows,
        forall|r: int, c: int|
            0 <= r < rows && 0 <= c < unpadded ==> #[trigger] tight_rows(
                buf,
                padded,
                unpadded,
                rows,
            )[r * unpadded + c] == buf[r * padded + c],
    decreases rows,
{
    if rows == 0 {
        assert(unpadded * rows == 0) by (nonlinear_arith)
            requires
                rows == 0,
        ;
    } else {
        let n = (rows - 1) as nat;
        assert(0 <= n * padded) by (nonlinear_arith)
            requires
                padded >= 0,
        ;
        if n > 0 {
            assert((n - 1) * padded + unpadded <= n * padded) by (nonlinear_arith)
                requires
                    unpadded <= padded,
                    n >= 1,
            ;
            assert(n * padded <= (rows - 1) * padded + unpadded);
        }
        lemma_tight_rows_index(buf, padded, unpadded, n);
        let t = tight_rows(buf, padded, unpadded, rows);
        let prev = tight_rows(buf, padded, unpadded, n);
        assert(unpadded * rows == unpadded * n + unpadded) by (nonlinear_arith)
            requires
                rows == n + 1,
        ;
        assert forall|r: int, c: int| 0 <= r < rows && 0 <= c < unpadded implies #[trigger] t[r
            * unpadded + c] == buf[r * padded + c] by {
            if r < n {
                assert(r * unpadded + c < unpadded * n) by (nonlinear_arith)
                    requires
                        r < n,
                        c < unpadded,
                        0 <= c,
                ;
                assert(t[r * unpadded + c] == prev[r * unpadded + c]);
            } else {
                assert(r * unpadded == unpadded * n && r * padded == n * padded) by (nonlinear_arith)
                    requires
                        r == n,
                ;
            }
        }
    }
}

/// A readback buffer of exactly the layout's size comes out as a tightly
/// packed RGBA8 image of `width * height * 4` bytes whether or not its rows
/// were padded: the bulk copy taken when they are not gives the same bytes
/// as the row-by-row copy.
pub proof fn lemma_strip_padding_is_tight(layout: ReadbackLayout, buf: Seq<u8>)
    requires
        layout.wf(),
        buf.len() == layout.padded_bytes_per_row * layout.height,
    ensures
        layout.stripped(buf) == tight_rows(
            buf,
            layout.padded_bytes_per_row as int,
            layout.unpadded_bytes_per_row as int,
            layout.height as nat,
        ),
        layout.stripped(buf).len() == layout.width * layout.height * 4,
{
    let p = layout.padded_bytes_per_row as int;
    let u = layout.unpadded_bytes_per_row as int;
    let h = layout.height as nat;
    lemma_align_up_least_multiple(layout.unpadded_bytes_per_row, 256);
    if h > 0 {
        assert((h - 1) * p + u <= p * h) by (nonlinear_arith)
            requires
                u <= p,
                h >= 1,
        ;
    }
    lemma_tight_rows_index(buf, p, u, h);
    assert(u * h == layout.width * layout.height * 4) by (nonlinear_arith)
        requires
            u == layout.width * 4,
            h == layout.height,
    ;
    if p == u {
        let t = tight_rows(buf, p, u, h);
        assert forall|i: int| 0 <= i < buf.len() implies t[i] == buf[i] by {
            let r = i / u;
            let c = i % u;
            vstd::arithmetic::div_mod::lemma_fundamental_div_mod(i, u);
            vstd::arithmetic::div_mod::lemma_mod_bound(i, u);
            assert(r < h) by (nonlinear_arith)
                requires
                    i == u * r + c,
                    0 <= c,
                    i < u * h,
                    u > 0,
            ;
            assert(0 <= r) by (nonlinear_arith)
                requires
                    i == u * r + c,
                    c < u,
                    i >= 0,
                    u > 0,
            ;
            assert(r * u + c == i) by (nonlinear_arith)
                requires
                    i == u * r + c,
            ;
            assert(t[r * u + c] == buf[r * p + c]);
        }
        assert(t =~= buf);
    }
}

/// Rows whose natural width `width * 4` is already a multiple of the copy
/// alignment (e.g. 1024 pixels) carry no padding.
pub proof fn lemma_aligned_rows_unpadded(layout: ReadbackLayout)
    requires
        layout.wf(),
        (layout.width * 4) % 256 == 0,
    ensures
        layout.padded_bytes_per_row == layout.unpadded_bytes_per_row,
{
    lemma_align_up_least_multiple(layout.unpadded_bytes_per_row, 256);
}

/// Two multiples of `m` within `m` of each other are equal.
proof fn lemma_close_multiples_equal(a: int, b: int, m: int)
    requires
        m > 0,
        a % m == 0,
        b % m == 0,
        a - m < b < a + m,
    ensures
        a == b,
{
    vstd::arithmetic::div_mod::lemma_fundamental_div_mod(a, m);
    vstd::arithmetic::div_mod::lemma_fundamental_div_mod(b, m);
    let qa = a / m;
    let qb = b / m;
    assert(qa == qb) by (nonlinear_arith)
        requires
            a == m * qa,
            b == m * qb,
            a - m < b < a + m,
            m > 0,
    ;
}

/// A frame of any size fits exactly when its arithmetic does: with `p` the
/// row width `w * 4` rounded up to the next multiple of 256 (the least
/// multiple of 256 that is at least `w * 4`), the sizes fit when `w * 4`,
/// `p` and the buffer size `p * h` all stay within `u32`, whether or not the
/// rows need padding.
pub proof fn lemma_layout_fits_exactly(width: u32, height: u32, p: int)
    requires
        p % 256 == 0,
        width * 4 <= p < width * 4 + 256,
    ensures
        layout_fits(width, height) <==> (width * 4 <= u32::MAX && p <= u32::MAX && p * height
            <= u32::MAX),
{
    let u = width * 4;
    if u <= u32::MAX {
        lemma_align_up_least_multiple(u as u32, 256);
    } else {
        assert(u / 256 * 256 <= u) by {
            vstd::arithmetic::div_mod::lemma_fundamental_div_mod(u, 256);
            vstd::arithmetic::div_mod::lemma_mod_bound(u, 256);
        }
        vstd::arithmetic::div_mod::lemma_fundamental_div_mod(u, 256);
        vstd::arithmetic::div_mod::lemma_mod_bound(u, 256);
        lemma_ceil_div(u, 256);
        vstd::arithmetic::div_mod::lemma_mod_multiples_basic((u + 255) / 256, 256);
        assert(((u + 255) / 256) * 256 >= u) by (nonlinear_arith)
            requires
                u == 256 * (u / 256) + u % 256,
                (u + 255) / 256 == u / 256 + (if u % 256 == 0 {
                    0int
                } else {
                    1int
                }),
                0 <= u % 256 < 256,
        ;
        assert(((u + 255) / 256) * 256 < u + 256) by (nonlinear_arith)
            requires
                u == 256 * (u / 256) + u % 256,
                (u + 255) / 256 == u / 256 + (if u % 256 == 0 {
                    0int
                } else {
                    1int
                }),
                0 <= u % 256 < 256,
        ;
    }
    lemma_close_multiples_equal(align_up_spec(u, 256), p, 256);
}

/// A well-formed layout has rows of `width * 4` bytes, padded to the least
/// multiple of 256 that holds them, and a buffer size that fits `u32`.
pub proof fn lemma_layout_rows(layout: ReadbackLayout)
    requires
        layout.wf(),
    ensures
        layout.unpadded_bytes_per_row == layout.width * 4,
        layout.padded_bytes_per_row % 256 == 0,
        layout.unpadded_bytes_per_row <= layout.padded_bytes_per_row
            < layout.unpadded_bytes_per_row + 256,
        layout.padded_bytes_per_row * layout.height <= u32::MAX,
{
    lemma_align_up_least_multiple(layout.unpadded_bytes_per_row, 256);
}

} // verus!
