//! Fire signature detection on infra-red frames.
//!
//! A frame is thresholded on its red channel; the pixels above the threshold
//! form the fire signature. The signature is split in two halves by row order,
//! and a median centroid is located in each half. The upper half is narrowed
//! a configurable number of times before its centroid is taken, which homes in
//! on the base of the fire.
use vstd::prelude::*;

verus! {

/// A pixel position in an image: column, then row.
pub type PixelPos = (u32, u32);

/// An RGB image with three bytes per pixel, stored row after row.
#[derive(Clone, Debug)]
pub struct RgbImage {
    pub width: u32,
    pub height: u32,
    pub data: Vec<u8>,
}

impl RgbImage {
    /// The buffer holds exactly three bytes for every pixel.
    pub open spec fn wf(&self) -> bool {
        self.data@.len() == self.width as int * self.height as int * 3
    }

    /// The red channel of the pixel in column `x` and row `y`.
    pub open spec fn red(&self, x: int, y: int) -> u8 {
        self.data@[3 * (y * self.width + x)]
    }

    /// An all-black image of the given size.
    pub fn black(width: u32, height: u32) -> (img: RgbImage)
        requires
            width as int * height as int * 3 <= usize::MAX,
        ensures
            img.wf(),
            img.width == width,
            img.height == height,
            forall|j: int| 0 <= j < img.data@.len() ==> img.data@[j] == 0,
    {
        let total: usize = (width as usize) * (height as usize) * 3;
        let mut data: Vec<u8> = Vec::new();
        while data.len() < total
            invariant
                data.len() <= total,
                forall|j: int| 0 <= j < data@.len() ==> data@[j] == 0,
            decreases total - data.len(),
        {
            data.push(0);
        }
        RgbImage { width, height, data }
    }
}

/// The signature pixels of the first `cols` columns of row `y`, left to right.
pub open spec fn row_signature(img: RgbImage, level: u8, y: int, cols: nat) -> Seq<PixelPos>
    decreases cols,
{
    if cols == 0 {
        seq![]
    } else {
        let x = cols - 1;
        let rest = row_signature(img, level, y, (cols - 1) as nat);
        if img.red(x, y) > level {
            rest.push((x as u32, y as u32))
        } else {
            rest
        }
    }
}

/// The signature pixels of the first `rows` rows, in row-major order.
pub open spec fn signature_rows(img: RgbImage, level: u8, rows: nat) -> Seq<PixelPos>
    decreases rows,
{
    if rows == 0 {
        seq![]
    } else {
        signature_rows(img, level, (rows - 1) as nat) + row_signature(
            img,
            level,
            rows - 1,
            img.width as nat,
        )
    }
}

/// The pixels whose red channel exceeds `level`, in row-major order.
pub open spec fn signature_pixels(img: RgbImage, level: u8) -> Seq<PixelPos> {
    signature_rows(img, level, img.height as nat)
}

/// How many elements of `s` are below `v`.
pub open spec fn count_lt(s: Seq<u32>, v: int) -> nat
    decreases s.len(),
{
    if s.len() == 0 {
        0
    } else {
        count_lt(s.drop_last(), v) + (if s.last() < v {
            1nat
        } else {
            0nat
        })
    }
}

/// How many elements of `s` equal `v`.
pub open spec fn count_eq(s: Seq<u32>, v: int) -> nat
    decreases s.len(),
{
    if s.len() == 0 {
        0
    } else {
        count_eq(s.drop_last(), v) + (if s.last() == v {
            1nat
        } else {
            0nat
        })
    }
}

/// `v` is the `k`-th smallest element of `s` (counting from zero): fewer than
/// `k + 1` elements lie below it and more than `k` lie at or below it.
pub open spec fn is_order_statistic(s: Seq<u32>, k: int, v: u32) -> bool {
    count_lt(s, v as int) <= k < count_lt(s, v as int) + count_eq(s, v as int)
}

/// The columns of a sequence of pixels.
pub open spec fn columns_of(p: Seq<PixelPos>) -> Seq<u32> {
    p.map_values(|q: PixelPos| q.0)
}

/// Where the upper half starts after `i` narrowings of the `n` signature
/// pixels: each narrowing keeps the later half of what is left.
pub open spec fn upper_start(n: int, first: int, i: nat) -> int
    decreases i,
{
    if i == 0 {
        first
    } else {
        let prev = upper_start(n, first, (i - 1) as nat);
        prev + (n - prev) / 2
    }
}

/// The median centroid of a run of signature pixels: the middle row of the
/// run, taken in its row-major order, and the median of its columns.
pub open spec fn is_median_centroid(run: Seq<PixelPos>, c: PixelPos) -> bool {
    &&& c.1 == run[run.len() as int / 2].1
    &&& is_order_statistic(columns_of(run), run.len() as int / 2, c.0)
}

/// The two centroids of a fire signature. `lower` lies in the first half of
/// the signature in row order (the top of the image), `upper` in the second.
#[derive(Clone, Copy, Debug)]
pub struct Centroids {
    pub lower: PixelPos,
    pub upper: PixelPos,
}

/// What the analysis promises for a signature `p` narrowed `iterations` times.
pub open spec fn centroids_of(p: Seq<PixelPos>, iterations: u32, c: Centroids) -> bool {
    let n = p.len() as int;
    &&& is_median_centroid(p.take(n / 2), c.lower)
    &&& iterations == 0 ==> c.upper == (0u32, 0u32)
    &&& iterations > 0 ==> is_median_centroid(
        p.subrange(upper_start(n, n / 2, (iterations - 1) as nat), n),
        c.upper,
    )
}

/// A signature of at most this many pixels is too weak to analyse.
pub const MIN_SIGNATURE_PIXELS: usize = 10;

proof fn lemma_count_le_split(s: Seq<u32>, v: int)
    ensures
        count_lt(s, v + 1) == count_lt(s, v) + count_eq(s, v),
    decreases s.len(),
{
    if s.len() > 0 {
        lemma_count_le_split(s.drop_last(), v);
    }
}

proof fn lemma_count_lt_zero(s: Seq<u32>)
    ensures
        count_lt(s, 0) == 0,
    decreases s.len(),
{
    if s.len() > 0 {
        lemma_count_lt_zero(s.drop_last());
    }
}

proof fn lemma_count_bounded(s: Seq<u32>, v: int)
    ensures
        count_lt(s, v) + count_eq(s, v) <= s.len(),
    decreases s.len(),
{
    if s.len() > 0 {
        lemma_count_bounded(s.drop_last(), v);
    }
}

proof fn lemma_count_lt_all(s: Seq<u32>, w: int)
    requires
        forall|i: int| 0 <= i < s.len() ==> s[i] < w,
    ensures
        count_lt(s, w) == s.len(),
    decreases s.len(),
{
    if s.len() > 0 {
        lemma_count_lt_all(s.drop_last(), w);
    }
}

proof fn lemma_count_lt_monotone(s: Seq<u32>, v: int, u: int)
    requires
        v <= u,
    ensures
        count_lt(s, v) <= count_lt(s, u),
    decreases s.len(),
{
    if s.len() > 0 {
        lemma_count_lt_monotone(s.drop_last(), v, u);
    }
}

/// The `k`-th smallest element of a sequence is unique.
pub proof fn lemma_order_statistic_unique(s: Seq<u32>, k: int, v: u32, u: u32)
    requires
        is_order_statistic(s, k, v),
        is_order_statistic(s, k, u),
    ensures
        v == u,
{
    if v < u {
        lemma_count_le_split(s, v as int);
        lemma_count_lt_monotone(s, v + 1, u as int);
    } else if u < v {
        lemma_count_le_split(s, u as int);
        lemma_count_lt_monotone(s, u + 1, v as int);
    }
}

/// The `k`-th smallest column among `p[start..end]`.
fn kth_column(p: &Vec<PixelPos>, start: usize, end: usize, width: u32, k: usize) -> (v: u32)
    requires
        start < end <= p.len(),
        k < end - start,
        forall|i: int| 0 <= i < p.len() ==> (#[trigger] p@[i]).0 < width,
    ensures
        is_order_statistic(columns_of(p@.subrange(start as int, end as int)), k as int, v),
{
    let ghost s = columns_of(p@.subrange(start as int, end as int));
    let mut hist: Vec<usize> = Vec::new();
    while hist.len() < width as usize
        invariant
            hist.len() <= width,
            forall|b: int| 0 <= b < hist.len() ==> hist@[b] == 0,
        decreases width - hist.len(),
    {
        hist.push(0);
    }
    let mut j: usize = start;
    while j < end
        invariant
            start <= j <= end,
            end <= p.len(),
            hist.len() == width,
            forall|i: int| 0 <= i < p.len() ==> (#[trigger] p@[i]).0 < width,
            forall|b: int|
                0 <= b < width ==> hist@[b] == count_eq(
                    columns_of(p@.subrange(start as int, j as int)),
                    b,
                ),
            forall|b: int| 0 <= b < width ==> hist@[b] <= j - start,
        decreases end - j,
    {
        let col = p[j].0;
        let ghost before = columns_of(p@.subrange(start as int, j as int));
        assert(columns_of(p@.subrange(start as int, j + 1)) =~= before.push(col));
        assert(columns_of(p@.subrange(start as int, j + 1)).drop_last() =~= before);
        let c = hist[col as usize];
        hist.set(col as usize, c + 1);
        j += 1;
    }
    assert(p@.subrange(start as int, j as int) == p@.subrange(start as int, end as int));
    let mut b: u32 = 0;
    let mut below: usize = 0;
    proof {
        lemma_count_lt_zero(s);
    }
    while b < width
        invariant
            hist.len() == width,
            b <= width,
            below == count_lt(s, b as int),
            below <= k,
            k < s.len(),
            s.len() == end - start,
            s == columns_of(p@.subrange(start as int, end as int)),
            forall|i: int| 0 <= i < p.len() ==> (#[trigger] p@[i]).0 < width,
            forall|bb: int| 0 <= bb < width ==> hist@[bb] == count_eq(s, bb),
        decreases width - b,
    {
        let h = hist[b as usize];
        proof {
            lemma_count_le_split(s, b as int);
            lemma_count_bounded(s, b as int);
        }
        if below + h > k {
            return b;
        }
        below = below + h;
        b += 1;
    }
    proof {
        assert forall|i: int| 0 <= i < s.len() implies s[i] < width by {
            assert(s[i] == p@[start + i].0);
        }
        lemma_count_lt_all(s, width as int);
    }
    0
}

/// Locate the two centroids of a fire signature `pixels`, listed in row-major
/// order, narrowing the upper half `iterations` times. A signature of at most
/// ten pixels yields nothing.
pub fn locate_centroids(pixels: &Vec<PixelPos>, width: u32, iterations: u32) -> (r: Option<
    Centroids,
>)
    requires
        forall|i: int| 0 <= i < pixels.len() ==> (#[trigger] pixels@[i]).0 < width,
    ensures
        r is None <==> pixels.len() <= MIN_SIGNATURE_PIXELS,
        r matches Some(c) ==> centroids_of(pixels@, iterations, c),
{
    let n = pixels.len();
    if n <= MIN_SIGNATURE_PIXELS {
        return None;
    }
    let half = n / 2;
    let lower_x = kth_column(pixels, 0, half, width, half / 2);
    let lower_y = pixels[half / 2].1;
    assert(pixels@.take(half as int) == pixels@.subrange(0, half as int));
    let upper = if iterations == 0 {
        (0u32, 0u32)
    } else {
        let mut s: usize = half;
        let mut i: u32 = 0;
        while i < iterations - 1
            invariant
                i <= iterations - 1,
                half <= s < n,
                n == pixels.len(),
                s == upper_start(n as int, half as int, i as nat),
            decreases iterations - 1 - i,
        {
            s = s + (n - s) / 2;
            i += 1;
        }
        let m = n - s;
        let ux = kth_column(pixels, s, n, width, m / 2);
        (ux, pixels[s + m / 2].1)
    };
    Some(Centroids { lower: (lower_x, lower_y), upper })
}

/// Threshold `img` on its red channel: return the signature pixels in
/// row-major order, and a copy of the image in which every pixel whose red
/// channel does not exceed `level` is black.
pub fn threshold(img: &RgbImage, level: u8) -> (r: (Vec<PixelPos>, RgbImage))
    requires
        img.wf(),
    ensures
        r.0@ == signature_pixels(*img, level),
        r.1.wf(),
        r.1.width == img.width,
        r.1.height == img.height,
        forall|j: int|
            0 <= j < r.1.data@.len() ==> r.1.data@[j] == (if img.data@[j - j % 3] > level {
                img.data@[j]
            } else {
                0u8
            }),
{
    let w = img.width;
    let h = img.height;
    let mut pixels: Vec<PixelPos> = Vec::new();
    let mut out: Vec<u8> = Vec::new();
    let mut y: u32 = 0;
    let mut idx: usize = 0;
    assert(img.data@.len() == 3 * (h * w)) by (nonlinear_arith)
        requires
            img.data@.len() == w as int * h as int * 3,
    ;
    while y < h
        invariant
            img.wf(),
            img.data@.len() == 3 * (h * w),
            w == img.width,
            h == img.height,
            y <= h,
            idx == 3 * (y * w),
            out.len() == idx,
            pixels@ == signature_rows(*img, level, y as nat),
            forall|j: int|
                0 <= j < out@.len() ==> out@[j] == (if img.data@[j - j % 3] > level {
                    img.data@[j]
                } else {
                    0u8
                }),
        decreases h - y,
    {
        let mut x: u32 = 0;
        proof {
            assert(y * w + w <= h * w) by (nonlinear_arith)
                requires
                    y < h,
            ;
            assert((y + 1) * w == y * w + w) by (nonlinear_arith);
        }
        while x < w
            invariant
                img.wf(),
                img.data@.len() == 3 * (h * w),
                w == img.width,
                h == img.height,
                y < h,
                x <= w,
                y * w + w <= h * w,
                idx == 3 * (y * w + x),
                out.len() == idx,
                pixels@ == signature_rows(*img, level, y as nat) + row_signature(
                    *img,
                    level,
                    y as int,
                    x as nat,
                ),
                forall|j: int|
                    0 <= j < out@.len() ==> out@[j] == (if img.data@[j - j % 3] > level {
                        img.data@[j]
                    } else {
                        0u8
                    }),
            decreases w - x,
        {
            assert(y * w + x + 1 <= h * w);
            assert(idx + 3 <= img.data@.len());
            let dlen = img.data.len();
            assert(idx + 3 <= dlen);
            let red = img.data[idx];
            let ghost old_out = out@;
            let ghost old_pixels = pixels@;
            if red > level {
                out.push(img.data[idx]);
                out.push(img.data[idx + 1]);
                out.push(img.data[idx + 2]);
                pixels.push((x, y));
            } else {
                out.push(0);
                out.push(0);
                out.push(0);
            }
            proof {
                assert forall|j: int| 0 <= j < out@.len() implies out@[j] == (if img.data@[j
                    - j % 3] > level {
                    img.data@[j]
                } else {
                    0u8
                }) by {
                    if j >= idx {
                        assert(j - j % 3 == idx);
                    } else {
                        assert(out@[j] == old_out[j]);
                    }
                }
                assert(img.red(x as int, y as int) == red);
                if red > level {
                    assert(pixels@ =~= old_pixels.push((x, y)));
                }
            }
            x += 1;
            idx += 3;
        }
        y += 1;
    }
    assert(out@.len() == w as int * h as int * 3) by (nonlinear_arith)
        requires
            out@.len() == 3 * (h * w),
    ;
    (pixels, RgbImage { width: w, height: h, data: out })
}

/// The complete analysis of one frame: threshold at `level`, then locate the
/// centroids, narrowing the upper half `iterations` times.
pub fn analyze_frame(img: &RgbImage, level: u8, iterations: u32) -> (r: (
    Option<Centroids>,
    RgbImage,
))
    requires
        img.wf(),
    ensures
        r.0 is None <==> signature_pixels(*img, level).len() <= MIN_SIGNATURE_PIXELS,
        r.0 matches Some(c) ==> centroids_of(signature_pixels(*img, level), iterations, c),
        r.1.wf(),
        r.1.width == img.width,
        r.1.height == img.height,
        forall|j: int|
            0 <= j < r.1.data@.len() ==> r.1.data@[j] == (if img.data@[j - j % 3] > level {
                img.data@[j]
            } else {
                0u8
            }),
{
    let (pixels, filtered) = threshold(img, level);
    proof {
        lemma_signature_in_bounds(*img, level, img.height as nat);
    }
    let c = locate_centroids(&pixels, img.width, iterations);
    (c, filtered)
}

proof fn lemma_row_in_bounds(img: RgbImage, level: u8, y: int, cols: nat)
    requires
        cols <= img.width,
    ensures
        forall|i: int|
            0 <= i < row_signature(img, level, y, cols).len() ==> (#[trigger] row_signature(
                img,
                level,
                y,
                cols,
            )[i]).0 < img.width,
    decreases cols,
{
    if cols > 0 {
        lemma_row_in_bounds(img, level, y, (cols - 1) as nat);
        let rest = row_signature(img, level, y, (cols - 1) as nat);
        let x = cols - 1;
        if img.red(x, y) > level {
            assert forall|i: int| 0 <= i < rest.push((x as u32, y as u32)).len() implies (
            #[trigger] rest.push((x as u32, y as u32))[i]).0 < img.width by {
                if i < rest.len() {
                    assert(rest.push((x as u32, y as u32))[i] == rest[i]);
                }
            }
        }
    }
}

proof fn lemma_signature_in_bounds(img: RgbImage, level: u8, rows: nat)
    ensures
        forall|i: int|
            0 <= i < signature_rows(img, level, rows).len() ==> (#[trigger] signature_rows(
                img,
                level,
                rows,
            )[i]).0 < img.width,
    decreases rows,
{
    if rows > 0 {
        lemma_signature_in_bounds(img, level, (rows - 1) as nat);
        lemma_row_in_bounds(img, level, rows - 1, img.width as nat);
        let a = signature_rows(img, level, (rows - 1) as nat);
        let b = row_signature(img, level, rows - 1, img.width as nat);
        assert forall|i: int| 0 <= i < (a + b).len() implies (#[trigger] (a + b)[i]).0
            < img.width by {
            if i >= a.len() {
                assert((a + b)[i] == b[i - a.len()]);
            }
        }
    }
}

proof fn lemma_row_signature_row(img: RgbImage, level: u8, y: int, cols: nat)
    requires
        0 <= y <= u32::MAX,
    ensures
        forall|i: int|
            0 <= i < row_signature(img, level, y, cols).len() ==> (#[trigger] row_signature(
                img,
                level,
                y,
                cols,
            )[i]).1 == y,
    decreases cols,
{
    if cols > 0 {
        lemma_row_signature_row(img, level, y, (cols - 1) as nat);
        let rest = row_signature(img, level, y, (cols - 1) as nat);
        let x = cols - 1;
        if img.red(x, y) > level {
            assert forall|i: int| 0 <= i < rest.push((x as u32, y as u32)).len() implies (
            #[trigger] rest.push((x as u32, y as u32))[i]).1 == y by {
                if i < rest.len() {
                    assert(rest.push((x as u32, y as u32))[i] == rest[i]);
                }
            }
        }
    }
}

/// The signature of the first `rows` rows lies in those rows, row by row.
proof fn lemma_signature_rows_sorted(img: RgbImage, level: u8, rows: nat)
    requires
        rows <= img.height,
    ensures
        forall|i: int|
            0 <= i < signature_rows(img, level, rows).len() ==> (#[trigger] signature_rows(
                img,
                level,
                rows,
            )[i]).1 < rows,
        forall|i: int, j: int|
            0 <= i <= j < signature_rows(img, level, rows).len() ==> (#[trigger] signature_rows(
                img,
                level,
                rows,
            )[i]).1 <= (#[trigger] signature_rows(img, level, rows)[j]).1,
    decreases rows,
{
    if rows > 0 {
        lemma_signature_rows_sorted(img, level, (rows - 1) as nat);
        lemma_row_signature_row(img, level, rows - 1, img.width as nat);
        let a = signature_rows(img, level, (rows - 1) as nat);
        let b = row_signature(img, level, rows - 1, img.width as nat);
        assert(signature_rows(img, level, rows) == a + b);
        assert forall|i: int| 0 <= i < (a + b).len() implies (#[trigger] (a + b)[i]).1 < rows by {
            if i >= a.len() {
                assert((a + b)[i] == b[i - a.len()]);
            } else {
                assert((a + b)[i] == a[i]);
            }
        }
        assert forall|i: int, j: int| 0 <= i <= j < (a + b).len() implies (#[trigger] (a
            + b)[i]).1 <= (#[trigger] (a + b)[j]).1 by {
            if j < a.len() {
                assert((a + b)[i] == a[i]);
                assert((a + b)[j] == a[j]);
            } else if i >= a.len() {
                assert((a + b)[i] == b[i - a.len()]);
                assert((a + b)[j] == b[j - a.len()]);
            } else {
                assert((a + b)[i] == a[i]);
                assert((a + b)[j] == b[j - a.len()]);
            }
        }
    }
}

proof fn lemma_upper_start_bounds(n: int, first: int, i: nat)
    requires
        0 <= first < n,
    ensures
        first <= upper_start(n, first, i) < n,
    decreases i,
{
    if i > 0 {
        lemma_upper_start_bounds(n, first, (i - 1) as nat);
    }
}

/// In the analysis of a frame, the upper centroid never lies above the
/// lower one in the image: the upper half of the signature, however often
/// it is narrowed, comes from rows at or below those of the lower half.
pub proof fn lemma_centroid_rows_ordered(img: RgbImage, level: u8, iterations: u32, c: Centroids)
    requires
        iterations > 0,
        signature_pixels(img, level).len() > MIN_SIGNATURE_PIXELS,
        centroids_of(signature_pixels(img, level), iterations, c),
    ensures
        c.lower.1 <= c.upper.1,
{
    let p = signature_pixels(img, level);
    let n = p.len() as int;
    lemma_signature_rows_sorted(img, level, img.height as nat);
    lemma_upper_start_bounds(n, n / 2, (iterations - 1) as nat);
    let s = upper_start(n, n / 2, (iterations - 1) as nat);
    assert(p.take(n / 2)[(n / 2) / 2] == p[(n / 2) / 2]);
    assert(p.subrange(s, n)[(n - s) / 2] == p[s + (n - s) / 2]);
    assert(p[(n / 2) / 2].1 <= p[s + (n - s) / 2].1);
}

} // verus!
