use vstd::prelude::*;
use vstd::arithmetic::div_mod::{
    lemma_fundamental_div_mod, lemma_fundamental_div_mod_converse, lemma_mod_pos_bound,
    lemma_multiply_divide_lt, lemma_div_pos_is_pos,
};
use vstd::arithmetic::mul::{lemma_mul_inequality, lemma_mul_strict_inequality};

verus! {

/// How a decoded frame is turned before it is shown.
#[derive(Debug, Clone, Copy, PartialEq, Eq, Structural)]
pub enum Rotation {
    Deg0,
    Deg90,
    Deg180,
    Deg270,
}

/// Whether a rotation swaps width and height.
pub open spec fn quarter_turn(r: Rotation) -> bool {
    r == Rotation::Deg90 || r == Rotation::Deg270
}

/// Index of the source pixel of a `w` by `h` image that lands at destination column `dx`
/// and row `dy` under rotation `r`.
pub open spec fn source_pixel(w: int, h: int, r: Rotation, dx: int, dy: int) -> int {
    match r {
        Rotation::Deg0 => dy * w + dx,
        Rotation::Deg90 => (h - 1 - dx) * w + dy,
        Rotation::Deg180 => (h - 1 - dy) * w + (w - 1 - dx),
        Rotation::Deg270 => dx * w + (w - 1 - dy),
    }
}

/// Width of a `w` by `h` image after rotation `r`.
pub open spec fn rotated_width(w: int, h: int, r: Rotation) -> int {
    if quarter_turn(r) {
        h
    } else {
        w
    }
}

/// The RGBA bytes of a `w` by `h` image after rotation `r`: the first `w * h` pixels are
/// rearranged and any bytes past them read zero; without rotation the bytes are kept.
pub open spec fn rotated_pixels(w: int, h: int, pixels: Seq<u8>, r: Rotation) -> Seq<u8> {
    if r == Rotation::Deg0 {
        pixels
    } else {
        Seq::new(
            pixels.len(),
            |i: int|
                if i < w * h * 4 {
                    pixels[source_pixel(
                        w,
                        h,
                        r,
                        (i / 4) % rotated_width(w, h, r),
                        (i / 4) / rotated_width(w, h, r),
                    ) * 4 + i % 4]
                } else {
                    0u8
                },
        )
    }
}

proof fn lemma_decompose(k: int, dw: int, dx: int, dy: int, c: int)
    requires
        0 <= dx < dw,
        0 <= dy,
        0 <= c < 4,
        k == (dy * dw + dx) * 4 + c,
    ensures
        k / 4 == dy * dw + dx,
        k % 4 == c,
        (k / 4) % dw == dx,
        (k / 4) / dw == dy,
{
    lemma_fundamental_div_mod_converse(k, 4, dy * dw + dx, c);
    lemma_fundamental_div_mod_converse(dy * dw + dx, dw, dy, dx);
}

proof fn lemma_pixel_in_image(w: int, h: int, x: int, y: int)
    requires
        0 <= x < w,
        0 <= y < h,
    ensures
        0 <= y * w + x < w * h,
        (y * w + x) * 4 + 3 < w * h * 4,
{
    lemma_mul_inequality(y, h - 1, w);
    assert((h - 1) * w == h * w - w) by (nonlinear_arith);
    assert(h * w == w * h) by (nonlinear_arith);
    assert(0 <= y * w) by (nonlinear_arith)
        requires
            0 <= y,
            0 <= w,
    ;
    assert((y * w + x) * 4 == (y * w + x) * 4);
    assert(w * h * 4 == (w * h) * 4);
}

/// Turns a `width` by `height` RGBA image by `rotation`, returning the new width, height
/// and bytes.
pub fn rotate_rgba(width: u32, height: u32, pixels: Vec<u8>, rotation: Rotation) -> (r: (
    u32,
    u32,
    Vec<u8>,
))
    requires
        rotation == Rotation::Deg0 || pixels@.len() >= width * height * 4,
    ensures
        r.0 == rotated_width(width as int, height as int, rotation),
        r.1 == rotated_width(height as int, width as int, rotation),
        r.2@ == rotated_pixels(width as int, height as int, pixels@, rotation),
{
    if rotation == Rotation::Deg0 {
        return (width, height, pixels);
    }
    let src_w = width as usize;
    let src_h = height as usize;
    let quarter = rotation == Rotation::Deg90 || rotation == Rotation::Deg270;
    let dst_w: usize = if quarter { src_h } else { src_w };
    let dst_h: usize = if quarter { src_w } else { src_h };
    let ghost w = width as int;
    let ghost h = height as int;
    let ghost target = rotated_pixels(w, h, pixels@, rotation);
    let total = pixels.len();
    proof {
        assert(dst_w * dst_h == w * h) by (nonlinear_arith)
            requires
                (dst_w == w && dst_h == h) || (dst_w == h && dst_h == w),
        ;
    }
    let mut out: Vec<u8> = Vec::new();
    let mut dy: usize = 0;
    while dy < dst_h
        invariant
            w == width,
            h == height,
            src_w == w,
            src_h == h,
            rotation != Rotation::Deg0,
            quarter == quarter_turn(rotation),
            dst_w == rotated_width(w, h, rotation),
            dst_h == rotated_width(h, w, rotation),
            dst_w * dst_h == w * h,
            pixels@.len() >= w * h * 4,
            total == pixels@.len(),
            target == rotated_pixels(w, h, pixels@, rotation),
            dy <= dst_h,
            out@.len() == dy * dst_w * 4,
            forall|k: int| 0 <= k < out@.len() ==> #[trigger] out@[k] == target[k],
        decreases dst_h - dy,
    {
        let mut dx: usize = 0;
        proof {
            lemma_mul_inequality(dy as int, dst_h as int, dst_w as int);
            assert(dst_h * dst_w == dst_w * dst_h) by (nonlinear_arith);
        }
        while dx < dst_w
            invariant
                w == width,
                h == height,
                src_w == w,
                src_h == h,
                rotation != Rotation::Deg0,
                quarter == quarter_turn(rotation),
                dst_w == rotated_width(w, h, rotation),
                dst_h == rotated_width(h, w, rotation),
                dst_w * dst_h == w * h,
                pixels@.len() >= w * h * 4,
                total == pixels@.len(),
                target == rotated_pixels(w, h, pixels@, rotation),
                dy < dst_h,
                dx <= dst_w,
                dy * dst_w <= w * h,
                out@.len() == (dy * dst_w + dx) * 4,
                forall|k: int| 0 <= k < out@.len() ==> #[trigger] out@[k] == target[k],
            decreases dst_w - dx,
        {
            let ghost sx: int;
            let ghost sy: int;
            let s: usize = match rotation {
                Rotation::Deg90 => {
                    proof {
                        sx = dy as int;
                        sy = h - 1 - dx;
                        lemma_pixel_in_image(w, h, sx, sy);
                        assert((src_h - 1 - dx) * src_w == sy * w);
                    }
                    (src_h - 1 - dx) * src_w + dy
                },
                Rotation::Deg180 => {
                    proof {
                        sx = w - 1 - dx;
                        sy = h - 1 - dy;
                        lemma_pixel_in_image(w, h, sx, sy);
                        assert((src_h - 1 - dy) * src_w == sy * w);
                    }
                    (src_h - 1 - dy) * src_w + (src_w - 1 - dx)
                },
                _ => {
                    proof {
                        sx = w - 1 - dy;
                        sy = dx as int;
                        lemma_pixel_in_image(w, h, sx, sy);
                        assert(dx * src_w == sy * w);
                    }
                    dx * src_w + (src_w - 1 - dy)
                },
            };
            assert(s == source_pixel(w, h, rotation, dx as int, dy as int));
            let base = s * 4;
            let ghost start = out@.len() as int;
            let mut c: usize = 0;
            while c < 4
                invariant
                    w == width,
                    h == height,
                    rotation != Rotation::Deg0,
                    dst_w == rotated_width(w, h, rotation),
                    pixels@.len() >= w * h * 4,
                    total == pixels@.len(),
                    target == rotated_pixels(w, h, pixels@, rotation),
                    dx < dst_w,
                    dy * dst_w <= w * h,
                    dy < dst_h,
                    dst_w * dst_h == w * h,
                    s == source_pixel(w, h, rotation, dx as int, dy as int),
                    base == s * 4,
                    base + 3 < w * h * 4,
                    start == (dy * dst_w + dx) * 4,
                    c <= 4,
                    out@.len() == start + c,
                    forall|k: int| 0 <= k < out@.len() ==> #[trigger] out@[k] == target[k],
                decreases 4 - c,
            {
                proof {
                    let k = start + c;
                    lemma_decompose(k, dst_w as int, dx as int, dy as int, c as int);
                    lemma_pixel_in_image(dst_w as int, dst_h as int, dx as int, dy as int);
                }
                out.push(pixels[base + c]);
                c = c + 1;
            }
            dx = dx + 1;
        }
        proof {
            assert((dy * dst_w + dst_w) * 4 == (dy + 1) * dst_w * 4) by (nonlinear_arith);
        }
        dy = dy + 1;
    }
    proof {
        assert(dst_h * dst_w * 4 == w * h * 4) by (nonlinear_arith)
            requires
                dst_w * dst_h == w * h,
        ;
    }
    while out.len() < pixels.len()
        invariant
            target == rotated_pixels(w, h, pixels@, rotation),
            rotation != Rotation::Deg0,
            w * h * 4 <= out@.len() <= pixels@.len(),
            forall|k: int| 0 <= k < out@.len() ==> #[trigger] out@[k] == target[k],
        decreases pixels@.len() - out@.len(),
    {
        out.push(0u8);
    }
    assert(out@ =~= target);
    if quarter {
        (height, width, out)
    } else {
        (width, height, out)
    }
}

proof fn lemma_split_index(i: int, w: int, h: int)
    requires
        0 <= i < w * h * 4,
        w >= 0,
        h >= 0,
    ensures
        w > 0,
        h > 0,
        0 <= i % 4 < 4,
        0 <= (i / 4) % w < w,
        0 <= (i / 4) / w < h,
        i == (((i / 4) / w) * w + (i / 4) % w) * 4 + i % 4,
{
    assert(w > 0 && h > 0) by (nonlinear_arith)
        requires
            0 <= i < w * h * 4,
            w >= 0,
            h >= 0,
    ;
    lemma_fundamental_div_mod(i, 4);
    lemma_mod_pos_bound(i, 4);
    lemma_div_pos_is_pos(i, 4);
    assert(w * h * 4 == 4 * (w * h)) by (nonlinear_arith);
    lemma_multiply_divide_lt(i, 4, w * h);
    let q = i / 4;
    lemma_fundamental_div_mod(q, w);
    lemma_mod_pos_bound(q, w);
    lemma_div_pos_is_pos(q, w);
    lemma_multiply_divide_lt(q, w, h);
    assert(w * (q / w) == (q / w) * w) by (nonlinear_arith);
}

/// Turning an image a quarter one way and then a quarter the other way gives back the
/// image.
pub proof fn law_quarter_turns_cancel(w: int, h: int, p: Seq<u8>)
    requires
        w >= 0,
        h >= 0,
        p.len() == w * h * 4,
    ensures
        rotated_pixels(h, w, rotated_pixels(w, h, p, Rotation::Deg90), Rotation::Deg270) == p,
        rotated_pixels(w, h, rotated_pixels(h, w, p, Rotation::Deg270), Rotation::Deg90) == p,
{
    let a = rotated_pixels(w, h, p, Rotation::Deg90);
    let b = rotated_pixels(h, w, a, Rotation::Deg270);
    assert(h * w * 4 == w * h * 4) by (nonlinear_arith);
    assert forall|i: int| 0 <= i < p.len() implies b[i] == p[i] by {
        lemma_split_index(i, w, h);
        let c = i % 4;
        let dx = (i / 4) % w;
        let dy = (i / 4) / w;
        let idx = dx * h + (h - 1 - dy);
        lemma_pixel_in_image(h, w, h - 1 - dy, dx);
        let j = idx * 4 + c;
        lemma_decompose(j, h, h - 1 - dy, dx, c);
        assert(source_pixel(w, h, Rotation::Deg90, h - 1 - dy, dx) == dy * w + dx);
    }
    assert(b =~= p);
    let a2 = rotated_pixels(h, w, p, Rotation::Deg270);
    let b2 = rotated_pixels(w, h, a2, Rotation::Deg90);
    assert forall|i: int| 0 <= i < p.len() implies b2[i] == p[i] by {
        assert(p.len() == h * w * 4);
        lemma_split_index(i, h, w);
        let c = i % 4;
        let dx = (i / 4) % h;
        let dy = (i / 4) / h;
        let idx = (h - 1 - dx) * w + dy;
        lemma_pixel_in_image(w, h, dy, h - 1 - dx);
        let j = idx * 4 + c;
        lemma_decompose(j, w, dy, h - 1 - dx, c);
        assert(source_pixel(h, w, Rotation::Deg270, dy, h - 1 - dx) == dy * h + dx);
    }
    assert(b2 =~= p);
}

/// Turning an image half way twice gives back the image.
pub proof fn law_half_turns_cancel(w: int, h: int, p: Seq<u8>)
    requires
        w >= 0,
        h >= 0,
        p.len() == w * h * 4,
    ensures
        rotated_pixels(w, h, rotated_pixels(w, h, p, Rotation::Deg180), Rotation::Deg180) == p,
{
    let a = rotated_pixels(w, h, p, Rotation::Deg180);
    let b = rotated_pixels(w, h, a, Rotation::Deg180);
    assert forall|i: int| 0 <= i < p.len() implies b[i] == p[i] by {
        lemma_split_index(i, w, h);
        let c = i % 4;
        let dx = (i / 4) % w;
        let dy = (i / 4) / w;
        let idx = (h - 1 - dy) * w + (w - 1 - dx);
        lemma_pixel_in_image(w, h, w - 1 - dx, h - 1 - dy);
        let j = idx * 4 + c;
        lemma_decompose(j, w, w - 1 - dx, h - 1 - dy, c);
    }
    assert(b =~= p);
}

/// Index of the source pixel that lands at destination pixel `d` (pixels counted row by
/// row) when a `w` by `h` image is turned by `r`.
pub open spec fn pixel_source(w: int, h: int, r: Rotation, d: int) -> int {
    source_pixel(w, h, r, d % rotated_width(w, h, r), d / rotated_width(w, h, r))
}

/// Whether source pixel `s` lands somewhere in the turned image.
pub open spec fn shown_pixel(w: int, h: int, r: Rotation, s: int) -> bool {
    exists|d: int| 0 <= d < w * h && #[trigger] pixel_source(w, h, r, d) == s
}

proof fn lemma_split_pixel(d: int, w: int, h: int)
    requires
        0 <= d < w * h,
        w >= 0,
        h >= 0,
    ensures
        w > 0,
        h > 0,
        0 <= d % w < w,
        0 <= d / w < h,
        d == (d / w) * w + d % w,
{
    assert(w > 0 && h > 0) by (nonlinear_arith)
        requires
            0 <= d < w * h,
            w >= 0,
            h >= 0,
    ;
    lemma_fundamental_div_mod(d, w);
    lemma_mod_pos_bound(d, w);
    lemma_div_pos_is_pos(d, w);
    lemma_multiply_divide_lt(d, w, h);
    assert(w * (d / w) == (d / w) * w) by (nonlinear_arith);
}

/// Where destination pixel `d` comes from: a pixel of the source image, and the bytes
/// of the turned image at `d` are that pixel's bytes.
proof fn lemma_pixel_source_in_image(w: int, h: int, r: Rotation, p: Seq<u8>, d: int)
    requires
        w >= 0,
        h >= 0,
        p.len() == w * h * 4,
        0 <= d < w * h,
    ensures
        0 <= pixel_source(w, h, r, d) < w * h,
        forall|c: int|
            0 <= c < 4 ==> #[trigger] rotated_pixels(w, h, p, r)[d * 4 + c] == p[pixel_source(
                w,
                h,
                r,
                d,
            ) * 4 + c],
{
    let rw = rotated_width(w, h, r);
    let rh = rotated_width(h, w, r);
    assert(rw * rh == w * h) by (nonlinear_arith)
        requires
            (rw == w && rh == h) || (rw == h && rh == w),
    ;
    lemma_split_pixel(d, rw, rh);
    let dx = d % rw;
    let dy = d / rw;
    let (sx, sy) = match r {
        Rotation::Deg0 => (dx, dy),
        Rotation::Deg90 => (dy, h - 1 - dx),
        Rotation::Deg180 => (w - 1 - dx, h - 1 - dy),
        Rotation::Deg270 => (w - 1 - dy, dx),
    };
    assert(pixel_source(w, h, r, d) == sy * w + sx);
    lemma_pixel_in_image(w, h, sx, sy);
    assert forall|c: int| 0 <= c < 4 implies #[trigger] rotated_pixels(w, h, p, r)[d * 4 + c]
        == p[pixel_source(w, h, r, d) * 4 + c] by {
        lemma_pixel_in_image(rw, rh, dx, dy);
        lemma_decompose(d * 4 + c, rw, dx, dy, c);
        if r == Rotation::Deg0 {
            assert(pixel_source(w, h, r, d) == d);
        }
    }
}

/// Turning an image only rearranges its pixels: every pixel of the turned image is a
/// pixel of the source, no two of them come from the same source pixel, and every source
/// pixel appears in the turned image. So the turned image is a permutation of the
/// source's 4-byte pixels.
pub proof fn law_rotation_permutes_pixels(w: int, h: int, r: Rotation, p: Seq<u8>)
    requires
        w >= 0,
        h >= 0,
        p.len() == w * h * 4,
    ensures
        rotated_pixels(w, h, p, r).len() == p.len(),
        forall|d: int| 0 <= d < w * h ==> 0 <= #[trigger] pixel_source(w, h, r, d) < w * h,
        forall|d: int, c: int|
            0 <= d < w * h && 0 <= c < 4 ==> #[trigger] rotated_pixels(w, h, p, r)[d * 4 + c]
                == p[pixel_source(w, h, r, d) * 4 + c],
        forall|d1: int, d2: int|
            0 <= d1 < w * h && 0 <= d2 < w * h && #[trigger] pixel_source(w, h, r, d1)
                == #[trigger] pixel_source(w, h, r, d2) ==> d1 == d2,
        forall|s: int| 0 <= s < w * h ==> #[trigger] shown_pixel(w, h, r, s),
{
    let rw = rotated_width(w, h, r);
    let rh = rotated_width(h, w, r);
    assert(rw * rh == w * h) by (nonlinear_arith)
        requires
            (rw == w && rh == h) || (rw == h && rh == w),
    ;
    assert forall|d: int| 0 <= d < w * h implies 0 <= #[trigger] pixel_source(w, h, r, d) < w * h by {
        lemma_pixel_source_in_image(w, h, r, p, d);
    }
    assert forall|d: int, c: int| 0 <= d < w * h && 0 <= c < 4 implies #[trigger] rotated_pixels(
        w,
        h,
        p,
        r,
    )[d * 4 + c] == p[pixel_source(w, h, r, d) * 4 + c] by {
        lemma_pixel_source_in_image(w, h, r, p, d);
    }
    assert forall|d1: int, d2: int|
        0 <= d1 < w * h && 0 <= d2 < w * h && #[trigger] pixel_source(w, h, r, d1)
            == #[trigger] pixel_source(w, h, r, d2) implies d1 == d2 by {
        lemma_split_pixel(d1, rw, rh);
        lemma_split_pixel(d2, rw, rh);
        let (dx1, dy1, dx2, dy2) = (d1 % rw, d1 / rw, d2 % rw, d2 / rw);
        let (sx1, sy1) = match r {
            Rotation::Deg0 => (dx1, dy1),
            Rotation::Deg90 => (dy1, h - 1 - dx1),
            Rotation::Deg180 => (w - 1 - dx1, h - 1 - dy1),
            Rotation::Deg270 => (w - 1 - dy1, dx1),
        };
        let (sx2, sy2) = match r {
            Rotation::Deg0 => (dx2, dy2),
            Rotation::Deg90 => (dy2, h - 1 - dx2),
            Rotation::Deg180 => (w - 1 - dx2, h - 1 - dy2),
            Rotation::Deg270 => (w - 1 - dy2, dx2),
        };
        let s = pixel_source(w, h, r, d1);
        assert(s == sy1 * w + sx1);
        assert(s == sy2 * w + sx2);
        lemma_fundamental_div_mod_converse(s, w, sy1, sx1);
        lemma_fundamental_div_mod_converse(s, w, sy2, sx2);
    }
    assert forall|s: int| 0 <= s < w * h implies #[trigger] shown_pixel(w, h, r, s) by {
        lemma_split_pixel(s, w, h);
        let sx = s % w;
        let sy = s / w;
        let (dx, dy) = match r {
            Rotation::Deg0 => (sx, sy),
            Rotation::Deg90 => (h - 1 - sy, sx),
            Rotation::Deg180 => (w - 1 - sx, h - 1 - sy),
            Rotation::Deg270 => (sy, w - 1 - sx),
        };
        let d = dy * rw + dx;
        lemma_pixel_in_image(rw, rh, dx, dy);
        lemma_fundamental_div_mod_converse(d, rw, dy, dx);
        assert(pixel_source(w, h, r, d) == s);
    }
}

/// Why the rows of a decoded frame could not be gathered.
#[derive(Debug, Clone, Copy, PartialEq, Eq, Structural)]
pub enum FrameError {
    /// A row would reach past the end of the decoded data.
    RowOutOfBounds,
}

/// Whether every row of a `w` by `h` RGBA frame, `stride` bytes apart, lies within
/// `len` bytes of data.
pub open spec fn rows_fit(len: int, stride: int, w: int, h: int) -> bool {
    h == 0 || (h - 1) * stride + w * 4 <= len
}

/// The packed bytes of a `w` by `h` RGBA frame whose rows start `stride` bytes apart in
/// `data`, every alpha byte set to opaque.
pub open spec fn packed_rows(data: Seq<u8>, stride: int, w: int, h: int) -> Seq<u8> {
    Seq::new(
        (w * 4 * h) as nat,
        |k: int|
            if k % 4 == 3 {
                255u8
            } else {
                data[(k / (w * 4)) * stride + k % (w * 4)]
            },
    )
}

/// Gathers the rows of a decoded `width` by `height` RGBA frame, laid out `stride` bytes
/// apart in `data`, into tightly packed bytes with every pixel made opaque.
pub fn pack_frame_rows(data: &[u8], stride: usize, width: u32, height: u32) -> (r: Result<
    Vec<u8>,
    FrameError,
>)
    requires
        width * 4 <= usize::MAX,
        width * 4 * height <= usize::MAX,
    ensures
        match r {
            Ok(v) => rows_fit(data@.len() as int, stride as int, width as int, height as int)
                && v@ == packed_rows(data@, stride as int, width as int, height as int),
            Err(e) => !rows_fit(data@.len() as int, stride as int, width as int, height as int)
                && e == FrameError::RowOutOfBounds,
        },
{
    let row_len: usize = width as usize * 4;
    let rows: usize = height as usize;
    let ghost target = packed_rows(data@, stride as int, width as int, height as int);
    let total = data.len();
    proof {
        assert(row_len * rows == width * 4 * height);
    }
    let mut out: Vec<u8> = Vec::new();
    let mut y: usize = 0;
    while y < rows
        invariant
            total == data@.len(),
            y > 0 ==> (y - 1) * stride + row_len <= data@.len(),
            row_len == width * 4,
            rows == height,
            row_len * rows <= usize::MAX,
            target == packed_rows(data@, stride as int, width as int, height as int),
            y <= rows,
            out@.len() == y * row_len,
            forall|k: int| 0 <= k < out@.len() ==> #[trigger] out@[k] == target[k],
        decreases rows - y,
    {
        let src_offset = match y.checked_mul(stride) {
            Some(o) => o,
            None => {
                proof {
                    lemma_mul_inequality(y as int, rows - 1, stride as int);
                }
                return Err(FrameError::RowOutOfBounds);
            },
        };
        let src_end = match src_offset.checked_add(row_len) {
            Some(e) => e,
            None => {
                proof {
                    lemma_mul_inequality(y as int, rows - 1, stride as int);
                }
                return Err(FrameError::RowOutOfBounds);
            },
        };
        if src_end > data.len() {
            proof {
                lemma_mul_inequality(y as int, rows - 1, stride as int);
            }
            return Err(FrameError::RowOutOfBounds);
        }
        proof {
            lemma_mul_inequality(y as int + 1, rows as int, row_len as int);
            assert((y + 1) * row_len == y * row_len + row_len) by (nonlinear_arith);
            assert(rows * row_len == row_len * rows) by (nonlinear_arith);
        }
        let mut x: usize = 0;
        while x < row_len
            invariant
                row_len == width * 4,
                rows == height,
                target == packed_rows(data@, stride as int, width as int, height as int),
                y < rows,
                src_offset == y * stride,
                src_end == src_offset + row_len,
                src_end <= data@.len(),
                (y + 1) * row_len <= row_len * rows,
                x <= row_len,
                out@.len() == y * row_len + x,
                forall|k: int| 0 <= k < out@.len() ==> #[trigger] out@[k] == target[k],
            decreases row_len - x,
        {
            assert(x < row_len);
            let b: u8 = if x % 4 == 3 {
                255u8
            } else {
                data[src_offset + x]
            };
            proof {
                let k = y * row_len + x;
                lemma_fundamental_div_mod_converse(k, row_len as int, y as int, x as int);
                lemma_fundamental_div_mod(x as int, 4);
                lemma_mod_pos_bound(x as int, 4);
                assert(k == (y * width + x / 4) * 4 + x % 4) by (nonlinear_arith)
                    requires
                        k == y * row_len + x,
                        row_len == width * 4,
                        x == 4 * (x / 4) + x % 4,
                ;
                lemma_fundamental_div_mod_converse(
                    k,
                    4,
                    y * width + x / 4,
                    (x % 4) as int,
                );
                assert(k < row_len * rows) by (nonlinear_arith)
                    requires
                        k == y * row_len + x,
                        x < row_len,
                        (y + 1) * row_len <= row_len * rows,
                ;
            }
            out.push(b);
            x = x + 1;
        }
        y = y + 1;
    }
    proof {
        assert(y * row_len == row_len * rows) by (nonlinear_arith)
            requires
                y == rows,
        ;
    }
    assert(out@ =~= target);
    Ok(out)
}

/// Packing copies every row in order and every pixel in place: byte `x` of row `y` of
/// the packed frame is byte `x` of the row that starts `y * stride` bytes into the data,
/// except that alpha bytes are made opaque.
pub proof fn law_packing_keeps_pixels_in_place(data: Seq<u8>, stride: int, w: int, h: int, y: int, x: int)
    requires
        w > 0,
        h >= 0,
        stride >= 0,
        0 <= y < h,
        0 <= x < w * 4,
    ensures
        0 <= y * (w * 4) + x < packed_rows(data, stride, w, h).len(),
        packed_rows(data, stride, w, h)[y * (w * 4) + x] == if x % 4 == 3 {
            255u8
        } else {
            data[y * stride + x]
        },
        (y * (w * 4) + x) % 4 == x % 4,
{
    let k = y * (w * 4) + x;
    lemma_fundamental_div_mod_converse(k, w * 4, y, x);
    assert(0 <= y * (w * 4)) by (nonlinear_arith)
        requires
            0 <= y,
            w > 0,
    ;
    assert(y * (w * 4) + x < w * 4 * h) by (nonlinear_arith)
        requires
            0 <= y < h,
            0 <= x < w * 4,
    ;
    lemma_fundamental_div_mod(x, 4);
    lemma_mod_pos_bound(x, 4);
    assert(y * (w * 4) == 4 * (y * w)) by (nonlinear_arith);
    assert(k == 4 * (y * w + x / 4) + x % 4);
    lemma_fundamental_div_mod_converse(k, 4, y * w + x / 4, x % 4);
    assert(k % (w * 4) == x);
    assert(k / (w * 4) == y);
    assert(k % 4 == x % 4);
}

/// Order of the bytes of a 32-bit word.
#[derive(Debug, Clone, Copy, PartialEq, Eq, Structural)]
pub enum ByteOrder {
    Little,
    Big,
}

/// The unsigned value of four bytes read in the given order.
pub open spec fn word_bits(b0: u8, b1: u8, b2: u8, b3: u8, order: ByteOrder) -> int {
    match order {
        ByteOrder::Little => b0 + 256 * b1 + 65536 * b2 + 16777216 * b3,
        ByteOrder::Big => b3 + 256 * b2 + 65536 * b1 + 16777216 * b0,
    }
}

/// The signed 32-bit word stored at `data[at..at + 4]` in the given byte order.
pub open spec fn word_at(data: Seq<u8>, at: int, order: ByteOrder) -> i32 {
    (word_bits(data[at], data[at + 1], data[at + 2], data[at + 3], order) as u32) as i32
}

/// The signed 32-bit word held by four bytes in the given order.
pub fn parse_word(b0: u8, b1: u8, b2: u8, b3: u8, order: ByteOrder) -> (r: i32)
    ensures
        r == (word_bits(b0, b1, b2, b3, order) as u32) as i32,
{
    let bits: u32 = match order {
        ByteOrder::Little => (b0 as u32) + (b1 as u32) * 256 + (b2 as u32) * 65536 + (b3 as u32)
            * 16777216,
        ByteOrder::Big => (b3 as u32) + (b2 as u32) * 256 + (b1 as u32) * 65536 + (b0 as u32)
            * 16777216,
    };
    bits as i32
}

/// Reads the nine 32-bit words of a display matrix from the start of `data`; `None` when
/// `data` is shorter than nine words.
pub fn read_display_matrix(data: &[u8], order: ByteOrder) -> (r: Option<[i32; 9]>)
    ensures
        match r {
            Some(m) => data@.len() >= 36 && forall|k: int|
                0 <= k < 9 ==> #[trigger] m@[k] == word_at(data@, 4 * k, order),
            None => data@.len() < 36,
        },
{
    if data.len() < 9 * 4 {
        return None;
    }
    let mut matrix = [0i32; 9];
    let mut index: usize = 0;
    while index < 9
        invariant
            data@.len() >= 36,
            index <= 9,
            forall|k: int| 0 <= k < index ==> #[trigger] matrix@[k] == word_at(data@, 4 * k, order),
        decreases 9 - index,
    {
        let at = index * 4;
        let word = parse_word(data[at], data[at + 1], data[at + 2], data[at + 3], order);
        matrix[index] = word;
        index = index + 1;
    }
    Some(matrix)
}

} // verus!
