//! The raster side of the renderer: which pixel is drawn when, and how a
//! resolved colour becomes bytes.

use vstd::prelude::*;
use vstd::arithmetic::div_mod::{lemma_fundamental_div_mod, lemma_fundamental_div_mod_converse};
use crate::ray::{nearest_hit, CastHit, CastResult};
use crate::shape::Shape;

verus! {

/// The largest value of an 8-bit channel, which is also the alpha of an
/// opaque pixel.
pub const CHANNEL_MAX: u8 = 0xff;

/// One RGBA8 pixel.
#[derive(Clone, Copy, Debug, PartialEq, Eq, Structural)]
pub struct Pixel {
    pub r: u8,
    pub g: u8,
    pub b: u8,
    pub a: u8,
}

/// A colour component that does not fit an 8-bit channel, with the value that
/// was offered for it.
#[derive(Clone, Copy, Debug, PartialEq, Eq, Structural)]
pub enum EncodingError {
    Red(i32),
    Green(i32),
    Blue(i32),
}

/// `value` can be stored in an 8-bit channel as it is.
pub open spec fn fits_channel(value: int) -> bool {
    0 <= value <= CHANNEL_MAX
}

impl Pixel {
    /// The four bytes of the pixel in buffer order.
    pub open spec fn bytes(self) -> Seq<u8> {
        seq![self.r, self.g, self.b, self.a]
    }

    /// Builds the opaque pixel of three components that have already been
    /// scaled to the channel range and rounded to integers.
    ///
    /// A component outside `0..=255` is an error, never wrapped or clamped;
    /// the error names the first such component in the order red, green,
    /// blue.
    pub fn encode(r: i32, g: i32, b: i32) -> (res: Result<Pixel, EncodingError>)
        ensures
            res is Ok <==> fits_channel(r as int) && fits_channel(g as int) && fits_channel(
                b as int,
            ),
            res matches Ok(p) ==> p.r == r && p.g == g && p.b == b && p.a == CHANNEL_MAX,
            res matches Err(e) ==> e == if !fits_channel(r as int) {
                EncodingError::Red(r)
            } else if !fits_channel(g as int) {
                EncodingError::Green(g)
            } else {
                EncodingError::Blue(b)
            },
    {
        if r < 0 || r > 255 {
            Err(EncodingError::Red(r))
        } else if g < 0 || g > 255 {
            Err(EncodingError::Green(g))
        } else if b < 0 || b > 255 {
            Err(EncodingError::Blue(b))
        } else {
            Ok(Pixel { r: r as u8, g: g as u8, b: b as u8, a: CHANNEL_MAX })
        }
    }
}

/// Something that can be shown as one pixel.
pub trait Drawable {
    fn pixels(&self) -> Pixel;
}

impl Drawable for Pixel {
    fn pixels(&self) -> (p: Pixel)
        ensures
            p == *self,
    {
        *self
    }
}

/// A sequence of pixels as a tightly packed RGBA8 buffer: byte `k` is channel
/// `k % 4` of pixel `k / 4`.
pub open spec fn rgba_bytes(pixels: Seq<Pixel>) -> Seq<u8> {
    Seq::new(4 * pixels.len(), |k: int| pixels[k / 4].bytes()[k % 4])
}

/// The pixel coordinates `(i, j)` with `i < width` and `j < height`, row by
/// row from row 0, each row from column 0.
pub open spec fn row_major(width: usize, height: usize) -> Seq<(usize, usize)> {
    Seq::new(
        (width * height) as nat,
        |k: int| ((k % width as int) as usize, (k / width as int) as usize),
    )
}

/// The order in which pixels are drawn and their bytes are laid out: the
/// row-major enumeration, reversed as a whole.
pub open spec fn pixel_order(width: usize, height: usize) -> Seq<(usize, usize)> {
    row_major(width, height).reverse()
}

/// In the drawing order the pixel `(i, j)` stands at distance `j * width + i`
/// from the end, so every pixel of the grid is drawn exactly once.
pub proof fn lemma_pixel_order_position(width: usize, height: usize, i: usize, j: usize)
    requires
        i < width,
        j < height,
    ensures
        0 <= width * height - 1 - (j * width + i) < pixel_order(width, height).len(),
        pixel_order(width, height)[width * height - 1 - (j * width + i)] == (i, j),
{
    let w = width as int;
    let h = height as int;
    let k = j * w + i;
    assert(0 <= k < w * h) by (nonlinear_arith)
        requires
            0 <= i < w,
            0 <= j < h,
            k == j * w + i,
    ;
    lemma_fundamental_div_mod_converse(k, w, j as int, i as int);
}

/// Each place of the drawing order holds a pixel of the grid, and it is the
/// place that `lemma_pixel_order_position` gives for that pixel: no pixel is
/// drawn twice.
pub proof fn lemma_pixel_order_in_grid(width: usize, height: usize, k: int)
    requires
        0 <= k < pixel_order(width, height).len(),
    ensures
        pixel_order(width, height)[k].0 < width,
        pixel_order(width, height)[k].1 < height,
        k == width * height - 1 - (pixel_order(width, height)[k].1 * width + pixel_order(
            width,
            height,
        )[k].0),
{
    let w = width as int;
    let h = height as int;
    let n = w * h - 1 - k;
    assert(w > 0) by (nonlinear_arith)
        requires
            0 <= w,
            0 <= h,
            0 <= n < w * h,
    ;
    lemma_fundamental_div_mod(n, w);
    let q = n / w;
    let r = n % w;
    assert(0 <= q < h) by (nonlinear_arith)
        requires
            0 <= h,
            0 <= n < w * h,
            n == w * q + r,
            0 <= r < w,
    ;
    assert(w * q == q * w) by (nonlinear_arith);
    assert(pixel_order(width, height)[k] == row_major(width, height)[n]);
}

/// How many jittered samples are added to the sample through the centre of
/// each pixel. Zero switches anti-aliasing off.
#[derive(Clone, Copy, Debug, PartialEq, Eq, Structural)]
pub struct AntiAliasing(pub u8);

impl AntiAliasing {
    /// Anti-aliasing is on: at least one jittered sample is taken.
    pub fn is_enabled(&self) -> (on: bool)
        ensures
            on == (self.0 != 0),
    {
        self.0 != 0
    }

    /// The number of samples that are averaged into one pixel: the one
    /// through its centre and the jittered ones.
    pub fn sample_count(&self) -> (count: u16)
        ensures
            count == self.0 + 1,
    {
        self.0 as u16 + 1
    }
}

/// A rendered image: its RGBA8 buffer and its size in pixels.
pub struct ImageData {
    pub data: Vec<u8>,
    pub height: i32,
    pub width: i32,
}

/// A size in pixels together with the enumeration of its pixels, which never
/// part.
struct Grid {
    width: usize,
    height: usize,
    pixels: Vec<(usize, usize)>,
}

impl Grid {
    #[verifier::type_invariant]
    spec fn pixels_enumerated(self) -> bool {
        self.pixels@ == pixel_order(self.width, self.height)
    }

    fn new(width: usize, height: usize) -> (grid: Grid)
        requires
            width * height <= usize::MAX,
        ensures
            grid.width == width,
            grid.height == height,
            grid.pixels@ == pixel_order(width, height),
    {
        Grid { width, height, pixels: Canvas::pixel_vec(width, height) }
    }
}

/// The surface that a scene is rendered on: its size in pixels, the order in
/// which its pixels are drawn, the shapes in front of it and the
/// anti-aliasing level.
///
/// The pixel coordinates are kept enumerated for the current size at all
/// times.
pub struct Canvas {
    grid: Grid,
    anti_aliasing: AntiAliasing,
    shapes: Vec<Shape>,
}

/// What a canvas holds.
pub struct CanvasView {
    pub width: usize,
    pub height: usize,
    pub anti_aliasing: AntiAliasing,
    pub shapes: Seq<Shape>,
    pub pixels: Seq<(usize, usize)>,
}

impl View for Canvas {
    type V = CanvasView;

    closed spec fn view(&self) -> CanvasView {
        CanvasView {
            width: self.grid.width,
            height: self.grid.height,
            anti_aliasing: self.anti_aliasing,
            shapes: self.shapes@,
            pixels: self.grid.pixels@,
        }
    }
}

impl Canvas {
    /// A canvas of `width` by `height` pixels. The number of its pixels has
    /// to fit a `usize`.
    pub fn new(width: usize, height: usize, shapes: Vec<Shape>, anti_aliasing: AntiAliasing) -> (canvas:
        Canvas)
        requires
            width * height <= usize::MAX,
        ensures
            canvas@ == (CanvasView {
                width,
                height,
                anti_aliasing,
                shapes: shapes@,
                pixels: pixel_order(width, height),
            }),
    {
        Canvas { grid: Grid::new(width, height), anti_aliasing, shapes }
    }

    pub fn width(&self) -> (width: usize)
        ensures
            width == self@.width,
    {
        self.grid.width
    }

    pub fn height(&self) -> (height: usize)
        ensures
            height == self@.height,
    {
        self.grid.height
    }

    pub fn anti_aliasing(&self) -> (level: AntiAliasing)
        ensures
            level == self@.anti_aliasing,
    {
        self.anti_aliasing
    }

    pub fn shapes(&self) -> (shapes: &Vec<Shape>)
        ensures
            shapes@ == self@.shapes,
    {
        &self.shapes
    }

    /// The pixel coordinates in drawing order. There is one for each pixel
    /// of the canvas.
    pub fn pixels(&self) -> (pixels: &Vec<(usize, usize)>)
        ensures
            pixels@ == self@.pixels,
            pixels@ == pixel_order(self@.width, self@.height),
            pixels@.len() == self@.width * self@.height,
    {
        proof {
            use_type_invariant(&self.grid);
        }
        &self.grid.pixels
    }

    /// Sets the number of jittered samples for each pixel.
    pub fn set_aa(&mut self, aa: u8)
        ensures
            final(self)@ == (CanvasView { anti_aliasing: AntiAliasing(aa), ..old(self)@ }),
    {
        self.anti_aliasing = AntiAliasing(aa);
    }

    /// Gives the canvas a new size and enumerates its pixels anew. Shapes
    /// and anti-aliasing level stay as they are. The number of pixels has to
    /// fit a `usize`.
    pub fn resize(&mut self, width: usize, height: usize)
        requires
            width * height <= usize::MAX,
        ensures
            final(self)@ == (CanvasView {
                width,
                height,
                pixels: pixel_order(width, height),
                ..old(self)@
            }),
            final(self)@.pixels.len() == width * height,
    {
        self.grid = Grid::new(width, height);
    }

    /// Enumerates the pixel coordinates of a `width` by `height` grid in
    /// drawing order. The number of pixels has to fit a `usize`.
    pub fn pixel_vec(width: usize, height: usize) -> (pixels: Vec<(usize, usize)>)
        requires
            width * height <= usize::MAX,
        ensures
            pixels@ == pixel_order(width, height),
    {
        let ghost order = pixel_order(width, height);
        let mut pixels: Vec<(usize, usize)> = Vec::new();
        let mut j: usize = height;
        while j > 0
            invariant
                j <= height,
                width * height <= usize::MAX,
                order == pixel_order(width, height),
                pixels.len() == (height - j) * width,
                forall|n: int| 0 <= n < pixels.len() ==> pixels[n] == order[n],
            decreases j,
        {
            j -= 1;
            let mut i: usize = width;
            while i > 0
                invariant
                    i <= width,
                    j < height,
                    width * height <= usize::MAX,
                    order == pixel_order(width, height),
                    pixels.len() == (height - 1 - j) * width + (width - i),
                    forall|n: int| 0 <= n < pixels.len() ==> pixels[n] == order[n],
                decreases i,
            {
                i -= 1;
                proof {
                    lemma_pixel_order_position(width, height, i, j);
                    assert(width * height - 1 - (j * width + i) == (height - 1 - j) * width + (
                    width - 1 - i)) by (nonlinear_arith);
                }
                pixels.push((i, j));
            }
            assert((height - 1 - j) * width + width == (height - j) * width) by (nonlinear_arith);
        }
        assert(pixels.len() == width * height) by (nonlinear_arith)
            requires
                pixels.len() == (height - j) * width,
                j == 0,
        ;
        assert(pixels@ =~= order);
        pixels
    }

    /// Picks the nearest hit among the results of casting one ray at each
    /// shape, if any of them hit.
    pub fn first_collision(results: Vec<CastResult>) -> (first: Option<CastHit>)
        ensures
            first == nearest_hit(results@),
    {
        let ghost all = results@;
        let mut first: Option<CastHit> = None;
        for result in it: results.into_iter()
            invariant
                it.seq() == all,
                first == nearest_hit(all.take(it.index() as int)),
        {
            proof {
                let done = all.take(it.index() + 1);
                assert(done.drop_last() == all.take(it.index() as int));
                assert(done.last() == result);
            }
            first = match result {
                CastResult::Miss => first,
                CastResult::Hit(hit) => match first {
                    None => Some(hit),
                    Some(best) => if hit.time.lt(best.time) {
                        Some(hit)
                    } else {
                        Some(best)
                    },
                },
            };
        }
        assert(all.take(all.len() as int) == all);
        first
    }

    /// Lays pixels out as one RGBA8 buffer, four bytes for each, in the
    /// order given.
    pub fn pack_pixels(pixels: &Vec<Pixel>) -> (data: Vec<u8>)
        ensures
            data@ == rgba_bytes(pixels@),
    {
        let mut data: Vec<u8> = Vec::new();
        let mut n: usize = 0;
        while n < pixels.len()
            invariant
                n <= pixels.len(),
                data.len() == 4 * n,
                forall|k: int| 0 <= k < data.len() ==> data[k] == pixels[k / 4].bytes()[k % 4],
            decreases pixels.len() - n,
        {
            let pixel = pixels[n];
            data.push(pixel.r);
            data.push(pixel.g);
            data.push(pixel.b);
            data.push(pixel.a);
            n += 1;
        }
        assert(data@ =~= rgba_bytes(pixels@));
        data
    }

    /// Asks each drawable for its pixel and lays the pixels out as one RGBA8
    /// buffer, in the order given.
    ///
    /// Which pixel a drawable shows is up to its type: the buffer packs, for
    /// each drawable, a pixel that its `pixels` may return.
    pub fn to_pixel_data<T: Drawable>(drawables: Vec<T>) -> (data: Vec<u8>)
        ensures
            data@.len() == 4 * drawables@.len(),
            exists|shown: Seq<Pixel>| #[trigger]
                shows(drawables@, shown) && data@ == rgba_bytes(shown),
    {
        let mut shown: Vec<Pixel> = Vec::new();
        let mut n: usize = 0;
        while n < drawables.len()
            invariant
                n <= drawables.len(),
                shown.len() == n,
                forall|i: int| 0 <= i < n ==> call_ensures(T::pixels, (&drawables@[i],), #[trigger] shown@[i]),
            decreases drawables.len() - n,
        {
            shown.push(drawables[n].pixels());
            n += 1;
        }
        assert(shows(drawables@, shown@));
        Canvas::pack_pixels(&shown)
    }
}

/// `shown` holds, for each of the drawables in turn, a pixel that its
/// `pixels` may return.
pub open spec fn shows<T: Drawable>(drawables: Seq<T>, shown: Seq<Pixel>) -> bool {
    &&& shown.len() == drawables.len()
    &&& forall|i: int|
        0 <= i < drawables.len() ==> call_ensures(T::pixels, (&drawables[i],), #[trigger] shown[i])
}

/// Pixels show themselves: through `to_pixel_data` they are packed as they
/// are.
pub proof fn lemma_pixels_show_themselves(pixels: Seq<Pixel>, shown: Seq<Pixel>)
    requires
        shows(pixels, shown),
    ensures
        shown == pixels,
{
    assert(shown =~= pixels);
}

/// Rendering one drawable for each pixel of a `width` by `height` canvas
/// gives a buffer of exactly `4 * width * height` bytes.
pub proof fn lemma_buffer_length(width: usize, height: usize, shown: Seq<Pixel>)
    requires
        shown.len() == pixel_order(width, height).len(),
    ensures
        rgba_bytes(shown).len() == 4 * width * height,
{
    assert(4 * (width * height) == 4 * width * height) by (nonlinear_arith);
}

} // verus!
