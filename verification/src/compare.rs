//! Pixel comparison of two pictures within a threshold of differing pixels.

use vstd::prelude::*;
use vstd::arithmetic::div_mod::lemma_fundamental_div_mod_converse;
use vstd::arithmetic::div_mod::lemma_multiply_divide_lt;
use vstd::arithmetic::div_mod::lemma_div_pos_is_pos;
use vstd::arithmetic::div_mod::lemma_mod_bound;
use crate::failure::Failure;

verus! {

/// A picture as a mathematical value: `width` columns, `height` rows, and the
/// samples of its pixels in row-major order, four to a pixel.
pub struct GridView {
    pub width: nat,
    pub height: nat,
    pub samples: Seq<u8>,
}

impl GridView {
    /// Number of pixels.
    pub open spec fn area(self) -> nat {
        self.width * self.height
    }

    /// Every pixel has its four samples.
    pub open spec fn wf(self) -> bool {
        4 * self.area() <= self.samples.len()
    }

    /// Whether the picture has a pixel at column `x` of row `y`.
    pub open spec fn holds(self, x: int, y: int) -> bool {
        0 <= x < self.width && 0 <= y < self.height
    }

    /// Sample `c` (0 to 3) of the pixel at column `x` of row `y`.
    pub open spec fn sample(self, x: int, y: int, c: int) -> u8 {
        self.samples[4 * (y * self.width + x) + c]
    }

    /// Column of the `i`-th pixel in row-major order.
    pub open spec fn col(self, i: int) -> int {
        i % (self.width as int)
    }

    /// Row of the `i`-th pixel in row-major order.
    pub open spec fn row(self, i: int) -> int {
        i / (self.width as int)
    }
}

/// Both pictures carry the same four samples at column `x` of row `y`.
pub open spec fn same_pixel(a: GridView, b: GridView, x: int, y: int) -> bool {
    &&& a.sample(x, y, 0) == b.sample(x, y, 0)
    &&& a.sample(x, y, 1) == b.sample(x, y, 1)
    &&& a.sample(x, y, 2) == b.sample(x, y, 2)
    &&& a.sample(x, y, 3) == b.sample(x, y, 3)
}

/// `b` has a pixel where the `i`-th pixel of `a` lies.
pub open spec fn readable(a: GridView, b: GridView, i: int) -> bool {
    b.holds(a.col(i), a.row(i))
}

/// The `i`-th pixel of `a` can be looked up in `b` and differs from it there.
pub open spec fn differs(a: GridView, b: GridView, i: int) -> bool {
    readable(a, b, i) && !same_pixel(a, b, a.col(i), a.row(i))
}

/// Number of differing pixels among the first `n` pixels of `a`.
pub open spec fn diff_count(a: GridView, b: GridView, n: nat) -> nat
    decreases n,
{
    if n == 0 {
        0
    } else {
        diff_count(a, b, (n - 1) as nat) + if differs(a, b, n - 1) {
            1nat
        } else {
            0nat
        }
    }
}

/// The scan of `a` comes to a pixel that `b` lacks before more than
/// `threshold` differing pixels were counted.
pub open spec fn runs_out_of_bounds(a: GridView, b: GridView, threshold: nat) -> bool {
    exists|k: int|
        0 <= k < a.area() && !#[trigger] readable(a, b, k) && diff_count(a, b, k as nat)
            <= threshold
}

/// What comparing `a` against `b` gives: a bounds failure where the scan
/// reaches a pixel that `b` lacks, else whether at most `threshold` pixels
/// differ.
pub open spec fn verdict(a: GridView, b: GridView, threshold: nat) -> Result<bool, Failure> {
    if runs_out_of_bounds(a, b, threshold) {
        Err(Failure::Bounds)
    } else {
        Ok(diff_count(a, b, a.area()) <= threshold)
    }
}

/// The count of differing pixels never falls as the scan goes on.
pub proof fn lemma_diff_count_monotone(a: GridView, b: GridView, m: nat, n: nat)
    requires
        m <= n,
    ensures
        diff_count(a, b, m) <= diff_count(a, b, n),
    decreases n,
{
    if m < n {
        lemma_diff_count_monotone(a, b, m, (n - 1) as nat);
    }
}

/// A decoded picture: 8-bit RGBA samples in row-major order.
pub struct PixelGrid {
    width: u32,
    height: u32,
    samples: Vec<u8>,
}

impl View for PixelGrid {
    type V = GridView;

    closed spec fn view(&self) -> GridView {
        GridView {
            width: self.width as nat,
            height: self.height as nat,
            samples: self.samples@,
        }
    }
}

impl PixelGrid {
    #[verifier::type_invariant]
    spec fn inv(self) -> bool {
        self@.wf()
    }

    /// A grid of `width` × `height` pixels over `samples`, or `None` where
    /// `samples` is too short to hold four samples for each pixel.
    pub fn new(width: u32, height: u32, samples: Vec<u8>) -> (r: Option<PixelGrid>)
        ensures
            match r {
                Some(g) => g@ == (GridView {
                    width: width as nat,
                    height: height as nat,
                    samples: samples@,
                }) && g@.wf(),
                None => 4 * (width * height) > samples@.len(),
            },
    {
        assert(width as int * height as int <= 0xffff_ffff * 0xffff_ffff) by (nonlinear_arith)
            requires
                0 <= width <= 0xffff_ffff,
                0 <= height <= 0xffff_ffff,
        ;
        let area: u64 = (width as u64) * (height as u64);
        let pixels: usize = samples.len() / 4;
        if area <= pixels as u64 {
            Some(PixelGrid { width, height, samples })
        } else {
            None
        }
    }

    /// Number of columns.
    pub fn width(&self) -> (r: u32)
        ensures
            r == self@.width,
    {
        self.width
    }

    /// Number of rows.
    pub fn height(&self) -> (r: u32)
        ensures
            r == self@.height,
    {
        self.height
    }

    /// The four samples of the pixel at column `x` of row `y`, or `None`
    /// where the grid has no such pixel.
    pub fn get_pixel(&self, x: u32, y: u32) -> (r: Option<[u8; 4]>)
        ensures
            r.is_some() == self@.holds(x as int, y as int),
            match r {
                Some(p) => forall|c: int| 0 <= c < 4 ==> p[c] == self@.sample(x as int, y as int, c),
                None => true,
            },
    {
        if x >= self.width || y >= self.height {
            return None;
        }
        let length: usize = self.samples.len();
        proof {
            use_type_invariant(self);
            lemma_index_in_range(self@, x as int, y as int);
        }
        let base: usize = 4 * ((y as usize) * (self.width as usize) + (x as usize));
        assert(base + 3 < length);
        Some(
            [
                self.samples[base],
                self.samples[base + 1],
                self.samples[base + 2],
                self.samples[base + 3],
            ],
        )
    }
}

/// The samples of a pixel that the grid holds lie inside its sample sequence.
proof fn lemma_index_in_range(g: GridView, x: int, y: int)
    requires
        g.wf(),
        g.holds(x, y),
    ensures
        0 <= y * g.width + x < g.area(),
        4 * (y * g.width + x) + 3 < g.samples.len(),
{
    let w = g.width as int;
    let h = g.height as int;
    assert(0 <= y * w && y * w + w <= w * h) by (nonlinear_arith)
        requires
            0 <= y < h,
            0 < w,
    ;
}

/// Column and row of the pixel that stands `x` places into row `y`.
proof fn lemma_position(g: GridView, x: int, y: int)
    requires
        0 <= x < g.width,
    ensures
        g.col(y * g.width + x) == x,
        g.row(y * g.width + x) == y,
{
    lemma_fundamental_div_mod_converse(y * g.width + x, g.width as int, y, x);
}

/// Every pixel of a picture can be looked up in a picture at least as wide
/// and as high.
pub proof fn lemma_covered_is_readable(a: GridView, b: GridView, k: int)
    requires
        a.width <= b.width,
        a.height <= b.height,
        0 <= k < a.area(),
    ensures
        readable(a, b, k),
{
    let w = a.width as int;
    assert(w > 0) by (nonlinear_arith)
        requires
            0 <= k < w * a.height,
            0 <= w,
    ;
    lemma_mod_bound(k, w);
    lemma_div_pos_is_pos(k, w);
    lemma_multiply_divide_lt(k, w, a.height as int);
}

/// A picture differs from itself nowhere.
pub proof fn lemma_no_difference_with_itself(a: GridView, n: nat)
    ensures
        diff_count(a, a, n) == 0,
    decreases n,
{
    if n > 0 {
        lemma_no_difference_with_itself(a, (n - 1) as nat);
    }
}

/// Two pictures of the same dimensions match exactly when the number of
/// their differing pixels is at most the threshold, whatever the threshold.
pub proof fn law_same_dimensions(a: GridView, b: GridView, threshold: nat)
    requires
        a.width == b.width,
        a.height == b.height,
    ensures
        verdict(a, b, threshold) == Ok::<bool, Failure>(
            diff_count(a, b, a.area()) <= threshold,
        ),
        forall|k: int| 0 <= k < a.area() ==> #[trigger] differs(a, b, k) == !same_pixel(
            a,
            b,
            a.col(k),
            a.row(k),
        ),
{
    assert forall|k: int| 0 <= k < a.area() implies #[trigger] readable(a, b, k) by {
        lemma_covered_is_readable(a, b, k);
    }
}

/// A picture matches itself at every threshold, zero included.
pub proof fn law_matches_itself(a: GridView, threshold: nat)
    ensures
        verdict(a, a, threshold) == Ok::<bool, Failure>(true),
{
    law_same_dimensions(a, a, threshold);
    lemma_no_difference_with_itself(a, a.area());
}

/// Early exit: once more than `threshold` differing pixels stand among the
/// first `n` pixels, all of which the second picture holds, the pictures do
/// not match, whatever follows those pixels, be it pixels that the second
/// picture lacks.
pub proof fn law_short_circuit(a: GridView, b: GridView, threshold: nat, n: nat)
    requires
        n <= a.area(),
        forall|k: int| 0 <= k < n ==> #[trigger] readable(a, b, k),
        diff_count(a, b, n) > threshold,
    ensures
        verdict(a, b, threshold) == Ok::<bool, Failure>(false),
{
    lemma_diff_count_monotone(a, b, n, a.area());
    assert forall|k: int| 0 <= k < a.area() && !#[trigger] readable(a, b, k) implies diff_count(
        a,
        b,
        k as nat,
    ) > threshold by {
        lemma_diff_count_monotone(a, b, n, k as nat);
    }
}

/// A second picture that is narrower or lower than a first picture with at
/// least one pixel never matches it: the comparison ends in the bounds
/// failure, unless more than `threshold` differing pixels were counted
/// before the scan left the second picture.
pub proof fn law_smaller_never_matches(a: GridView, b: GridView, threshold: nat)
    requires
        a.area() > 0,
        b.width < a.width || b.height < a.height,
    ensures
        verdict(a, b, threshold) != Ok::<bool, Failure>(true),
        verdict(a, b, threshold) == Err::<bool, Failure>(Failure::Bounds) || verdict(
            a,
            b,
            threshold,
        ) == Ok::<bool, Failure>(false),
        diff_count(a, b, a.area()) <= threshold ==> verdict(a, b, threshold) == Err::<
            bool,
            Failure,
        >(Failure::Bounds),
{
    let w = a.width as int;
    let h = a.height as int;
    assert(w > 0 && h > 0 && w <= w * h) by (nonlinear_arith)
        requires
            w * h > 0,
            w >= 0,
            h >= 0,
    ;
    let x: int = if b.width < a.width {
        b.width as int
    } else {
        0
    };
    let y: int = if b.width < a.width {
        0
    } else {
        b.height as int
    };
    let k = y * w + x;
    assert(0 <= k < w * h) by (nonlinear_arith)
        requires
            0 <= x < w,
            0 <= y < h,
            k == y * w + x,
    ;
    lemma_position(a, x, y);
    assert(!readable(a, b, k));
    lemma_diff_count_monotone(a, b, k as nat, a.area());
}

/// The scan has passed the first `n` pixels of `a` without an end: `b` holds
/// them all, and `count`, no more than the threshold, is the number of those
/// that differ.
#[verifier::opaque]
spec fn scanned(a: GridView, b: GridView, threshold: nat, n: int, count: int) -> bool {
    &&& 0 <= n <= a.area()
    &&& 0 <= count <= n
    &&& count <= threshold
    &&& count == diff_count(a, b, n as nat)
    &&& forall|k: int| 0 <= k < n ==> #[trigger] readable(a, b, k)
}

proof fn lemma_scan_begins(a: GridView, b: GridView, threshold: nat)
    ensures
        scanned(a, b, threshold, 0, 0),
{
    reveal(scanned);
}

proof fn lemma_scan_ends(a: GridView, b: GridView, threshold: nat, count: int)
    requires
        scanned(a, b, threshold, a.area() as int, count),
    ensures
        verdict(a, b, threshold) == Ok::<bool, Failure>(true),
{
    reveal(scanned);
}

/// One step of the scan, at column `x` of row `y` of `a`.
proof fn lemma_scan_step(a: GridView, b: GridView, threshold: nat, x: int, y: int, count: int)
    requires
        a.wf(),
        a.holds(x, y),
        scanned(a, b, threshold, y * a.width + x, count),
    ensures
        y * a.width + x < a.area(),
        !b.holds(x, y) ==> verdict(a, b, threshold) == Err::<bool, Failure>(Failure::Bounds),
        b.holds(x, y) && same_pixel(a, b, x, y) ==> scanned(
            a,
            b,
            threshold,
            y * a.width + x + 1,
            count,
        ),
        b.holds(x, y) && !same_pixel(a, b, x, y) && count < threshold ==> scanned(
            a,
            b,
            threshold,
            y * a.width + x + 1,
            count + 1,
        ),
        b.holds(x, y) && !same_pixel(a, b, x, y) && count >= threshold ==> verdict(a, b, threshold)
            == Ok::<bool, Failure>(false),
{
    reveal(scanned);
    let i = y * a.width + x;
    lemma_index_in_range(a, x, y);
    lemma_position(a, x, y);
    assert(readable(a, b, i) == b.holds(x, y));
    assert(differs(a, b, i) == (b.holds(x, y) && !same_pixel(a, b, x, y)));
    assert(diff_count(a, b, (i + 1) as nat) == diff_count(a, b, i as nat) + if differs(a, b, i) {
        1nat
    } else {
        0nat
    });
    if b.holds(x, y) && !same_pixel(a, b, x, y) && count >= threshold {
        law_short_circuit(a, b, threshold, (i + 1) as nat);
    }
}

/// Compares `a` against `b` pixel by pixel, in row-major order over `a`.
///
/// The scan stops with `Ok(false)` as soon as more than `threshold` pixels
/// differ, and with a bounds failure as soon as it comes to a pixel that `b`
/// lacks; a scan that reaches the end gives `Ok(true)`.
pub fn grids_match(a: &PixelGrid, b: &PixelGrid, threshold: usize) -> (r: Result<bool, Failure>)
    ensures
        r == verdict(a@, b@, threshold as nat),
{
    proof {
        use_type_invariant(a);
        lemma_scan_begins(a@, b@, threshold as nat);
    }
    let ghost av = a@;
    let ghost bv = b@;
    let width: u32 = a.width;
    let height: u32 = a.height;
    if width == 0 || height == 0 {
        proof {
            assert(av.area() == 0) by (nonlinear_arith)
                requires
                    av.width == 0 || av.height == 0,
                    av.area() == av.width * av.height,
            ;
            lemma_scan_ends(av, bv, threshold as nat, 0);
        }
        return Ok(true);
    }
    let mut count: usize = 0;
    let mut x: u32 = 0;
    let mut y: u32 = 0;
    let ghost mut i: int = 0;
    while y < height
        invariant
            av == a@,
            bv == b@,
            av.wf(),
            width == av.width,
            height == av.height,
            x < width,
            y <= height,
            y == height ==> x == 0,
            i == y * width + x,
            i <= av.area(),
            scanned(av, bv, threshold as nat, i, count as int),
        decreases av.area() - i,
    {
        proof {
            lemma_scan_step(av, bv, threshold as nat, x as int, y as int, count as int);
        }
        let first = a.get_pixel(x, y);
        let second = b.get_pixel(x, y);
        let same = match (first, second) {
            (Some(p), Some(q)) => p[0] == q[0] && p[1] == q[1] && p[2] == q[2] && p[3] == q[3],
            _ => {
                return Err(Failure::Bounds);
            },
        };
        assert(same == same_pixel(av, bv, x as int, y as int));
        if !same {
            if count >= threshold {
                return Ok(false);
            }
            count = count + 1;
        }
        let ghost x0 = x as int;
        let ghost y0 = y as int;
        x = x + 1;
        if x == width {
            x = 0;
            y = y + 1;
        }
        proof {
            i = i + 1;
            assert(i == y * width + x) by (nonlinear_arith)
                requires
                    i == y0 * width + x0 + 1,
                    (x == x0 + 1 && y == y0) || (x == 0 && y == y0 + 1 && x0 + 1 == width),
            ;
            assert(i <= av.area()) by (nonlinear_arith)
                requires
                    i == y * width + x,
                    y == height ==> x == 0,
                    y <= height,
                    x < width,
                    av.area() == width * height,
            ;
        }
    }
    proof {
        assert(i == av.area()) by (nonlinear_arith)
            requires
                i == y * width + x,
                y == height,
                x == 0,
                av.area() == width * height,
        ;
        lemma_scan_ends(av, bv, threshold as nat, count as int);
    }
    Ok(true)
}

/// What the `image` crate decodes from `bytes` read as a PNG file and
/// converted to 8-bit RGBA: width, height and the raw samples; `None` where
/// it reports an error.
pub uninterp spec fn png_rgba8(bytes: Seq<u8>) -> Option<(u32, u32, Seq<u8>)>;

/// The error of the `image` crate, carried through unread.
#[verifier::external_type_specification]
#[verifier::external_body]
pub struct ExImageError(::image::ImageError);

/// Calls `image::load_from_memory_with_format` with the PNG format and
/// converts the picture with `DynamicImage::to_rgba8`. Nothing is proved of
/// the decoder: the contract only gives its result the name `png_rgba8`,
/// which claims that the same bytes always decode to the same picture.
#[verifier::external_body]
fn decode_png(bytes: &[u8]) -> (r: Result<(u32, u32, Vec<u8>), ::image::ImageError>)
    ensures
        match r {
            Ok(d) => png_rgba8(bytes@) == Some((d.0, d.1, d.2@)),
            Err(_) => png_rgba8(bytes@).is_none(),
        },
{
    let picture = ::image::load_from_memory_with_format(bytes, ::image::ImageFormat::Png)?.to_rgba8();
    Ok((picture.width(), picture.height(), picture.into_raw()))
}

/// The grid that a decoder's result stands for, if it is one: a decoded
/// picture whose samples suffice for its dimensions.
pub open spec fn grid_of(decoded: Option<(u32, u32, Seq<u8>)>) -> Option<GridView> {
    match decoded {
        Some((width, height, samples)) => {
            let g = GridView { width: width as nat, height: height as nat, samples };
            if g.wf() {
                Some(g)
            } else {
                None
            }
        },
        None => None,
    }
}

/// What comparing two decoder results gives: a decode failure unless both
/// are grids, else the verdict on the two grids.
pub open spec fn verdict_decoded(
    a: Option<(u32, u32, Seq<u8>)>,
    b: Option<(u32, u32, Seq<u8>)>,
    threshold: nat,
) -> Result<bool, Failure> {
    match (grid_of(a), grid_of(b)) {
        (Some(ga), Some(gb)) => verdict(ga, gb, threshold),
        _ => Err(Failure::Decode),
    }
}

/// A file that decodes to a grid matches itself at every threshold, zero
/// included.
pub proof fn law_decoded_matches_itself(decoded: Option<(u32, u32, Seq<u8>)>, threshold: nat)
    requires
        grid_of(decoded).is_some(),
    ensures
        verdict_decoded(decoded, decoded, threshold) == Ok::<bool, Failure>(true),
{
    law_matches_itself(grid_of(decoded).unwrap(), threshold);
}

/// Two files that decode to grids of the same dimensions match exactly when
/// the number of their differing pixels is at most the threshold.
pub proof fn law_decoded_same_dimensions(
    a: Option<(u32, u32, Seq<u8>)>,
    b: Option<(u32, u32, Seq<u8>)>,
    threshold: nat,
)
    requires
        grid_of(a).is_some(),
        grid_of(b).is_some(),
        grid_of(a).unwrap().width == grid_of(b).unwrap().width,
        grid_of(a).unwrap().height == grid_of(b).unwrap().height,
    ensures
        verdict_decoded(a, b, threshold) == Ok::<bool, Failure>(
            diff_count(grid_of(a).unwrap(), grid_of(b).unwrap(), grid_of(a).unwrap().area())
                <= threshold,
        ),
{
    law_same_dimensions(grid_of(a).unwrap(), grid_of(b).unwrap(), threshold);
}

/// Decodes `bytes` as a PNG file into a grid.
pub fn decode_grid(bytes: &[u8]) -> (r: Result<PixelGrid, Failure>)
    ensures
        match r {
            Ok(g) => grid_of(png_rgba8(bytes@)) == Some(g@),
            Err(f) => f == Failure::Decode && grid_of(png_rgba8(bytes@)).is_none(),
        },
{
    match decode_png(bytes) {
        Ok((width, height, samples)) => match PixelGrid::new(width, height, samples) {
            Some(g) => Ok(g),
            None => Err(Failure::Decode),
        },
        Err(_) => Err(Failure::Decode),
    }
}

/// Decodes two PNG files and compares them with `grids_match`.
///
/// A file that does not decode is a decode failure, whatever the other
/// holds.
pub fn images_match(a: &[u8], b: &[u8], threshold: usize) -> (r: Result<bool, Failure>)
    ensures
        r == verdict_decoded(png_rgba8(a@), png_rgba8(b@), threshold as nat),
{
    let first = match decode_grid(a) {
        Ok(g) => g,
        Err(f) => { return Err(f); },
    };
    let second = match decode_grid(b) {
        Ok(g) => g,
        Err(f) => { return Err(f); },
    };
    grids_match(&first, &second, threshold)
}

} // verus!
