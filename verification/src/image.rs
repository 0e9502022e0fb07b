//! The frame accumulator and the final image: per-pixel running sums over
//! samples, the global channel extrema, and the portable-pixmap text body.
use crate::fbits::{
    f64_gt, f64_lt, f64_of_int, gt_bits, int_to_bits, lt_bits, Float, FMAX_BITS, FMIN_BITS,
    ZERO_BITS,
};
use crate::mathutils::{spec_to_color, to_color};
use crate::vectors::{spec_div_scalar, spec_plus, spec_vec3, Vec3};
use vstd::prelude::*;

verus! {

/// A grid is well formed when it has `height` rows of `width` cells each.
pub open spec fn grid_wf<T>(g: Seq<Vec<T>>, width: nat, height: nat) -> bool {
    g.len() == height && forall|j: int| 0 <= j < height ==> (#[trigger] g[j])@.len() == width
}

pub struct Image {
    pub pixels: Vec<Vec<Vec3>>,
    pub width: usize,
    pub height: usize,
}

pub struct ImageBuilder {
    pub pixels: Vec<Vec<Vec3>>,
    pub passes: Vec<Vec<usize>>,
    pub max_passes: usize,
    pub finished: usize,
    pub width: usize,
    pub height: usize,
}

/// A mutable borrow of one element.
fn at_mut<T>(v: &mut Vec<T>, i: usize) -> (r: &mut T)
    requires
        i < old(v)@.len(),
    ensures
        *r == old(v)@[i as int],
        final(v)@ == old(v)@.update(i as int, *final(r)),
{
    &mut v[i]
}

/// A row of `width` zero vectors.
fn zero_row(width: usize) -> (r: Vec<Vec3>)
    ensures
        r@.len() == width,
        forall|i: int| 0 <= i < width ==> r@[i] == spec_vec3(ZERO_BITS, ZERO_BITS, ZERO_BITS),
{
    let mut row: Vec<Vec3> = Vec::new();
    let mut i: usize = 0;
    while i < width
        invariant
            i <= width,
            row@.len() == i,
            forall|k: int| 0 <= k < i ==> row@[k] == spec_vec3(ZERO_BITS, ZERO_BITS, ZERO_BITS),
        decreases width - i,
    {
        row.push(Vec3::zero());
        i = i + 1;
    }
    row
}

/// A grid of `height` rows of `width` zero vectors.
fn zero_grid(width: usize, height: usize) -> (g: Vec<Vec<Vec3>>)
    ensures
        grid_wf(g@, width as nat, height as nat),
        forall|j: int, i: int|
            0 <= j < height && 0 <= i < width ==> (#[trigger] g@[j]@[i]) == spec_vec3(
                ZERO_BITS,
                ZERO_BITS,
                ZERO_BITS,
            ),
{
    let mut g: Vec<Vec<Vec3>> = Vec::new();
    let mut j: usize = 0;
    while j < height
        invariant
            j <= height,
            g@.len() == j,
            forall|k: int| 0 <= k < j ==> (#[trigger] g@[k])@.len() == width,
            forall|k: int, i: int|
                0 <= k < j && 0 <= i < width ==> (#[trigger] g@[k]@[i]) == spec_vec3(
                    ZERO_BITS,
                    ZERO_BITS,
                    ZERO_BITS,
                ),
        decreases height - j,
    {
        g.push(zero_row(width));
        j = j + 1;
    }
    g
}

/// A grid of `height` rows of `width` zero counters.
fn zero_counts(width: usize, height: usize) -> (g: Vec<Vec<usize>>)
    ensures
        grid_wf(g@, width as nat, height as nat),
        forall|j: int, i: int| 0 <= j < height && 0 <= i < width ==> (#[trigger] g@[j]@[i]) == 0,
{
    let mut g: Vec<Vec<usize>> = Vec::new();
    let mut j: usize = 0;
    while j < height
        invariant
            j <= height,
            g@.len() == j,
            forall|k: int| 0 <= k < j ==> (#[trigger] g@[k])@.len() == width,
            forall|k: int, i: int| 0 <= k < j && 0 <= i < width ==> (#[trigger] g@[k]@[i]) == 0,
        decreases height - j,
    {
        let mut row: Vec<usize> = Vec::new();
        let mut i: usize = 0;
        while i < width
            invariant
                i <= width,
                row@.len() == i,
                forall|k: int| 0 <= k < i ==> (#[trigger] row@[k]) == 0,
            decreases width - i,
        {
            row.push(0);
            i = i + 1;
        }
        g.push(row);
        j = j + 1;
    }
    g
}

impl ImageBuilder {
    pub open spec fn wf(self) -> bool {
        &&& grid_wf(self.pixels@, self.width as nat, self.height as nat)
        &&& grid_wf(self.passes@, self.width as nat, self.height as nat)
    }

    /// An accumulator of `width` by `height` cells, each holding a zero sum
    /// and a zero sample count, aiming for `max_passes` samples per pixel.
    pub fn new(width: usize, height: usize, max_passes: usize) -> (r: ImageBuilder)
        ensures
            r.wf(),
            r.width == width,
            r.height == height,
            r.max_passes == max_passes,
            r.finished == 0,
            forall|j: int, i: int|
                0 <= j < height && 0 <= i < width ==> (#[trigger] r.pixels@[j]@[i]) == spec_vec3(
                    ZERO_BITS,
                    ZERO_BITS,
                    ZERO_BITS,
                ),
            forall|j: int, i: int|
                0 <= j < height && 0 <= i < width ==> (#[trigger] r.passes@[j]@[i]) == 0,
    {
        let data = zero_grid(width, height);
        let passes = zero_counts(width, height);
        ImageBuilder { pixels: data, width, height, finished: 0, passes, max_passes }
    }

    /// Whether every pixel has received its samples: the count of finished
    /// pixels reached the target.
    pub fn is_finished(&self) -> (r: bool)
        ensures
            r == (self.finished >= self.max_passes),
    {
        self.finished >= self.max_passes
    }

    /// Adds one sample to pixel (i, j): the sum grows by the contribution
    /// and the pixel's count by one; a pixel that just reached the target
    /// bumps the finished count.
    pub fn put_pixel(&mut self, pixel: Vec3, j: usize, i: usize)
        requires
            old(self).wf(),
            j < old(self).height,
            i < old(self).width,
            old(self).passes@[j as int]@[i as int] < usize::MAX,
            old(self).finished < usize::MAX,
        ensures
            final(self).wf(),
            final(self).width == old(self).width,
            final(self).height == old(self).height,
            final(self).max_passes == old(self).max_passes,
            final(self).pixels@[j as int]@[i as int] == spec_plus(
                old(self).pixels@[j as int]@[i as int],
                pixel,
            ),
            final(self).passes@[j as int]@[i as int] == old(self).passes@[j as int]@[i as int] + 1,
            forall|j2: int, i2: int|
                0 <= j2 < old(self).height && 0 <= i2 < old(self).width && !(j2 == j && i2 == i)
                    ==> (#[trigger] final(self).pixels@[j2]@[i2]) == old(self).pixels@[j2]@[i2],
            forall|j2: int, i2: int|
                0 <= j2 < old(self).height && 0 <= i2 < old(self).width && !(j2 == j && i2 == i)
                    ==> (#[trigger] final(self).passes@[j2]@[i2]) == old(self).passes@[j2]@[i2],
            final(self).finished == (if old(self).passes@[j as int]@[i as int] + 1 == old(
                self,
            ).max_passes {
                old(self).finished + 1
            } else {
                old(self).finished as int
            }),
    {
        let row = at_mut(&mut self.pixels, j);
        let cell = at_mut(row, i);
        let sum = cell.plus(&pixel);
        *cell = sum;
        let prow = at_mut(&mut self.passes, j);
        let pcell = at_mut(prow, i);
        *pcell = *pcell + 1;
        let count = *pcell;
        if count == self.max_passes {
            self.finished = self.finished + 1;
        }
    }

    /// The image of per-pixel means: each cell divided by its sample count.
    pub fn to_image(&self) -> (img: Image)
        requires
            self.wf(),
        ensures
            img.width == self.width,
            img.height == self.height,
            grid_wf(img.pixels@, self.width as nat, self.height as nat),
            forall|j: int, i: int|
                0 <= j < self.height && 0 <= i < self.width ==> (#[trigger] img.pixels@[j]@[i])
                    == spec_div_scalar(
                    self.pixels@[j]@[i],
                    f64_of_int(self.passes@[j]@[i] as u64),
                ),
    {
        let mut image = Image::new(self.width, self.height);
        let mut i: usize = 0;
        while i < self.width
            invariant
                self.wf(),
                i <= self.width,
                image.width == self.width,
                image.height == self.height,
                grid_wf(image.pixels@, self.width as nat, self.height as nat),
                forall|j2: int, i2: int|
                    0 <= j2 < self.height && 0 <= i2 < i ==> (#[trigger] image.pixels@[j2]@[i2])
                        == spec_div_scalar(
                        self.pixels@[j2]@[i2],
                        f64_of_int(self.passes@[j2]@[i2] as u64),
                    ),
        decreases self.width - i,
        {
            let mut j: usize = 0;
            while j < self.height
                invariant
                    self.wf(),
                    i < self.width,
                    j <= self.height,
                    image.width == self.width,
                    image.height == self.height,
                    grid_wf(image.pixels@, self.width as nat, self.height as nat),
                    forall|j2: int, i2: int|
                        0 <= j2 < self.height && 0 <= i2 < i ==> (#[trigger] image.pixels@[j2]@[i2])
                            == spec_div_scalar(
                            self.pixels@[j2]@[i2],
                            f64_of_int(self.passes@[j2]@[i2] as u64),
                        ),
                    forall|j2: int|
                        0 <= j2 < j ==> (#[trigger] image.pixels@[j2]@[i as int])
                            == spec_div_scalar(
                            self.pixels@[j2]@[i as int],
                            f64_of_int(self.passes@[j2]@[i as int] as u64),
                        ),
                decreases self.height - j,
            {
                let count = self.passes[j][i];
                let denom = int_to_bits(count as u64);
                let value = self.pixels[j][i].div_scalar(denom);
                image.put_pixel(value, j, i);
                j = j + 1;
            }
            i = i + 1;
        }
        image
    }
}

impl Image {
    /// A black image of `width` by `height` pixels.
    pub fn new(width: usize, height: usize) -> (r: Image)
        ensures
            r.width == width,
            r.height == height,
            grid_wf(r.pixels@, width as nat, height as nat),
            forall|j: int, i: int|
                0 <= j < height && 0 <= i < width ==> (#[trigger] r.pixels@[j]@[i]) == spec_vec3(
                    ZERO_BITS,
                    ZERO_BITS,
                    ZERO_BITS,
                ),
    {
        let data = zero_grid(width, height);
        Image { pixels: data, width, height }
    }

    /// Overwrites pixel (x, y).
    pub fn put_pixel(&mut self, color: Vec3, y: usize, x: usize)
        requires
            grid_wf(old(self).pixels@, old(self).width as nat, old(self).height as nat),
            y < old(self).height,
            x < old(self).width,
        ensures
            final(self).width == old(self).width,
            final(self).height == old(self).height,
            grid_wf(final(self).pixels@, old(self).width as nat, old(self).height as nat),
            final(self).pixels@[y as int]@[x as int] == color,
            forall|j2: int, i2: int|
                0 <= j2 < old(self).height && 0 <= i2 < old(self).width && !(j2 == y && i2 == x)
                    ==> (#[trigger] final(self).pixels@[j2]@[i2]) == old(self).pixels@[j2]@[i2],
    {
        let row = at_mut(&mut self.pixels, y);
        let cell = at_mut(row, x);
        *cell = color;
    }

    /// Reads the pixel at row `x`, column `y`.
    pub fn get_pixel(&self, x: usize, y: usize) -> (r: Vec3)
        requires
            grid_wf(self.pixels@, self.width as nat, self.height as nat),
            x < self.height,
            y < self.width,
        ensures
            r == self.pixels@[x as int]@[y as int],
    {
        self.pixels[x][y].clone()
    }
}

/// One channel folded into the running extrema: the value replaces the
/// minimum when strictly below it and the maximum when strictly above.
pub open spec fn mm_one(state: (u64, u64), value: u64) -> (u64, u64) {
    (
        if f64_lt(value, state.0) {
            value
        } else {
            state.0
        },
        if f64_gt(value, state.1) {
            value
        } else {
            state.1
        },
    )
}

/// A pixel's three channels folded into the extrema.
pub open spec fn mm_vec(state: (u64, u64), v: Vec3) -> (u64, u64) {
    mm_one(mm_one(mm_one(state, v.x), v.y), v.z)
}

/// The first `j` rows of column `i` folded into the extrema.
pub open spec fn mm_col(g: Seq<Vec<Vec3>>, i: int, j: nat, state: (u64, u64)) -> (u64, u64)
    decreases j,
{
    if j == 0 {
        state
    } else {
        mm_vec(mm_col(g, i, (j - 1) as nat, state), g[j - 1]@[i])
    }
}

/// The first `i` whole columns folded into the extrema, column by column.
pub open spec fn mm_grid(g: Seq<Vec<Vec3>>, i: nat, height: nat, state: (u64, u64)) -> (u64, u64)
    decreases i,
{
    if i == 0 {
        state
    } else {
        mm_col(g, i - 1, height, mm_grid(g, (i - 1) as nat, height, state))
    }
}

/// The image's channel extrema: every component of every pixel folded into
/// (minimum, maximum), starting from the widest possible pair.
pub open spec fn spec_min_max(img: Image) -> (u64, u64) {
    mm_grid(img.pixels@, img.width as nat, img.height as nat, (FMAX_BITS, FMIN_BITS))
}

impl Image {
    /// The global extrema of every channel value in the image.
    pub fn min_max(&self) -> (r: (Float, Float))
        requires
            grid_wf(self.pixels@, self.width as nat, self.height as nat),
        ensures
            r == spec_min_max(*self),
    {
        let mut a: Float = FMAX_BITS;
        let mut b: Float = FMIN_BITS;
        let mut i: usize = 0;
        while i < self.width
            invariant
                grid_wf(self.pixels@, self.width as nat, self.height as nat),
                i <= self.width,
                (a, b) == mm_grid(self.pixels@, i as nat, self.height as nat, (FMAX_BITS, FMIN_BITS)),
            decreases self.width - i,
        {
            let mut j: usize = 0;
            while j < self.height
                invariant
                    grid_wf(self.pixels@, self.width as nat, self.height as nat),
                    i < self.width,
                    j <= self.height,
                    (a, b) == mm_col(
                        self.pixels@,
                        i as int,
                        j as nat,
                        mm_grid(self.pixels@, i as nat, self.height as nat, (FMAX_BITS, FMIN_BITS)),
                    ),
                decreases self.height - j,
            {
                let pixel = &self.pixels[j][i];
                let x = pixel.get_x();
                if lt_bits(x, a) {
                    a = x;
                }
                if gt_bits(x, b) {
                    b = x;
                }
                let y = pixel.get_y();
                if lt_bits(y, a) {
                    a = y;
                }
                if gt_bits(y, b) {
                    b = y;
                }
                let z = pixel.get_z();
                if lt_bits(z, a) {
                    a = z;
                }
                if gt_bits(z, b) {
                    b = z;
                }
                j = j + 1;
            }
            i = i + 1;
        }
        (a, b)
    }
}

/// The decimal digits of `n`, most significant first, as ASCII bytes.
pub open spec fn spec_digits(n: nat) -> Seq<u8>
    decreases n,
{
    if n < 10 {
        seq![(48 + n) as u8]
    } else {
        spec_digits(n / 10).push((48 + n % 10) as u8)
    }
}

/// The bytes of one pixel: three colour components separated by spaces.
pub open spec fn spec_pixel_bytes(v: Vec3, a: u64, b: u64) -> Seq<u8> {
    spec_digits(spec_to_color(v.x, a, b) as nat) + seq![32u8] + spec_digits(
        spec_to_color(v.y, a, b) as nat,
    ) + seq![32u8] + spec_digits(spec_to_color(v.z, a, b) as nat)
}

/// One pixel folded into the body: its bytes, then a newline after every
/// third pixel and a tab otherwise.
pub open spec fn spec_ppm_cell(state: (Seq<u8>, nat), v: Vec3, a: u64, b: u64) -> (Seq<u8>, nat) {
    let bytes = state.0 + spec_pixel_bytes(v, a, b);
    if state.1 == 2 {
        (bytes.push(10u8), 0)
    } else {
        (bytes.push(9u8), state.1 + 1)
    }
}

/// The first `j` cells of a row folded into the body.
pub open spec fn spec_ppm_row(row: Vec<Vec3>, a: u64, b: u64, j: nat, state: (Seq<u8>, nat)) -> (
    Seq<u8>,
    nat,
)
    decreases j,
{
    if j == 0 {
        state
    } else {
        spec_ppm_cell(spec_ppm_row(row, a, b, (j - 1) as nat, state), row@[j - 1], a, b)
    }
}

/// The first `i` rows folded into the body, row-major.
pub open spec fn spec_ppm_rows(
    g: Seq<Vec<Vec3>>,
    a: u64,
    b: u64,
    i: nat,
    width: nat,
    state: (Seq<u8>, nat),
) -> (Seq<u8>, nat)
    decreases i,
{
    if i == 0 {
        state
    } else {
        spec_ppm_row(g[i - 1], a, b, width, spec_ppm_rows(g, a, b, (i - 1) as nat, width, state))
    }
}

/// The portable-pixmap body of the image: every pixel's components
/// normalized against the image extrema, three pixels to a line.
pub open spec fn spec_image_ppm(img: Image) -> Seq<u8> {
    let mm = spec_min_max(img);
    spec_ppm_rows(
        img.pixels@,
        mm.0,
        mm.1,
        img.height as nat,
        img.width as nat,
        (Seq::empty(), 0),
    ).0
}

/// Relies on String::from_utf8: bytes below 128 decode to exactly one
/// character each, in order.
#[verifier::external_body]
fn ascii_string(v: Vec<u8>) -> (r: String)
    requires
        forall|k: int| 0 <= k < v@.len() ==> v@[k] < 128,
    ensures
        r@ == v@.map_values(|b: u8| b as char),
{
    match String::from_utf8(v) {
        Ok(s) => s,
        Err(_) => String::new(),
    }
}

/// Appends the decimal digits of `n`.
fn push_decimal(out: &mut Vec<u8>, n: u32)
    requires
        n < 1000,
    ensures
        final(out)@ == old(out)@ + spec_digits(n as nat),
        forall|k: int|
            old(out)@.len() <= k < final(out)@.len() ==> #[trigger] final(out)@[k] < 128,
{
    proof {
        vstd::arithmetic::div_mod::lemma_div_denominator(n as int, 10, 10);
        assert(((n as nat) / 10) / 10 == (n as nat) / 100);
        reveal_with_fuel(spec_digits, 4);
    }
    if n >= 100 {
        out.push((48 + n / 100) as u8);
        out.push((48 + (n / 10) % 10) as u8);
        out.push((48 + n % 10) as u8);
        proof {
            assert(spec_digits(n as nat) =~= seq![
                (48 + (n as nat) / 100) as u8,
                (48 + ((n as nat) / 10) % 10) as u8,
                (48 + (n as nat) % 10) as u8,
            ]);
            assert(final(out)@ =~= old(out)@ + spec_digits(n as nat));
        }
    } else if n >= 10 {
        out.push((48 + n / 10) as u8);
        out.push((48 + n % 10) as u8);
        proof {
            assert(spec_digits(n as nat) =~= seq![
                (48 + (n as nat) / 10) as u8,
                (48 + (n as nat) % 10) as u8,
            ]);
            assert(final(out)@ =~= old(out)@ + spec_digits(n as nat));
        }
    } else {
        out.push((48 + n) as u8);
        proof {
            assert(spec_digits(n as nat) =~= seq![(48 + (n as nat)) as u8]);
            assert(final(out)@ =~= old(out)@ + spec_digits(n as nat));
        }
    }
}

/// Appends the bytes of one pixel.
fn push_pixel(out: &mut Vec<u8>, v: &Vec3, a: Float, b: Float)
    ensures
        final(out)@ == old(out)@ + spec_pixel_bytes(*v, a, b),
        forall|k: int|
            old(out)@.len() <= k < final(out)@.len() ==> #[trigger] final(out)@[k] < 128,
{
    let red = to_color(v.get_x(), a, b);
    push_decimal(out, red as u32);
    out.push(32);
    let green = to_color(v.get_y(), a, b);
    push_decimal(out, green as u32);
    out.push(32);
    let blue = to_color(v.get_z(), a, b);
    push_decimal(out, blue as u32);
    proof {
        assert(final(out)@ =~= old(out)@ + spec_pixel_bytes(*v, a, b));
    }
}

impl Vec3 {
    /// The pixel text for this colour over the image range `a..b`: the
    /// three components, space separated.
    pub fn to_pixel_string(&self, a: Float, b: Float) -> (r: String)
        ensures
            r@ == spec_pixel_bytes(*self, a, b).map_values(|byte: u8| byte as char),
    {
        let mut out: Vec<u8> = Vec::new();
        push_pixel(&mut out, self, a, b);
        proof {
            assert(out@ =~= spec_pixel_bytes(*self, a, b));
        }
        ascii_string(out)
    }
}

impl Image {
    /// The portable-pixmap body: every pixel normalized against the global
    /// extrema, three pixels to a line, tab separated within a line.
    pub fn to_string(&self) -> (r: String)
        requires
            grid_wf(self.pixels@, self.width as nat, self.height as nat),
        ensures
            r@ == spec_image_ppm(*self).map_values(|byte: u8| byte as char),
    {
        let mm = self.min_max();
        let a = mm.0;
        let b = mm.1;
        let mut out: Vec<u8> = Vec::new();
        let mut counter: usize = 0;
        let mut i: usize = 0;
        proof {
            assert(out@ =~= Seq::<u8>::empty());
        }
        while i < self.height
            invariant
                grid_wf(self.pixels@, self.width as nat, self.height as nat),
                (a, b) == spec_min_max(*self),
                i <= self.height,
                counter <= 2,
                (out@, counter as nat) == spec_ppm_rows(
                    self.pixels@,
                    a,
                    b,
                    i as nat,
                    self.width as nat,
                    (Seq::empty(), 0),
                ),
                forall|k: int| 0 <= k < out@.len() ==> #[trigger] out@[k] < 128,
            decreases self.height - i,
        {
            let mut j: usize = 0;
            while j < self.width
                invariant
                    grid_wf(self.pixels@, self.width as nat, self.height as nat),
                    i < self.height,
                    j <= self.width,
                    counter <= 2,
                    (out@, counter as nat) == spec_ppm_row(
                        self.pixels@[i as int],
                        a,
                        b,
                        j as nat,
                        spec_ppm_rows(
                            self.pixels@,
                            a,
                            b,
                            i as nat,
                            self.width as nat,
                            (Seq::empty(), 0),
                        ),
                    ),
                    forall|k: int| 0 <= k < out@.len() ==> #[trigger] out@[k] < 128,
                decreases self.width - j,
            {
                let vec = self.pixels[i][j].clone();
                push_pixel(&mut out, &vec, a, b);
                if counter == 2 {
                    counter = 0;
                    out.push(10);
                } else {
                    counter = counter + 1;
                    out.push(9);
                }
                j = j + 1;
            }
            i = i + 1;
        }
        ascii_string(out)
    }
}

} // verus!
