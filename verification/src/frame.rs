//! The output frame and the sequential write-back that fills it with
//! block-replicated samples.

use vstd::prelude::*;
use crate::color::{pixel, spec_pixel, Shade};
use crate::config::{Config, RenderQuality};
use crate::policy::{get_dimensions, spec_dimensions, MAX_HEIGHT, MAX_WIDTH};

verus! {

/// A full-resolution frame of packed pixels, stored row by row.
pub struct FrameBuffer {
    pixels: Vec<u32>,
}

impl View for FrameBuffer {
    type V = Seq<u32>;

    closed spec fn view(&self) -> Seq<u32> {
        self.pixels@
    }
}

/// Whether pixel `(x, y)` lies inside the frame.
pub open spec fn in_frame(x: int, y: int) -> bool {
    0 <= x < MAX_WIDTH && 0 <= y < MAX_HEIGHT
}

/// Whether the sample grid, replicated `stride` times in both directions, has
/// a sample for pixel `(x, y)`.
pub open spec fn spec_covered(shades: Seq<Vec<Shade>>, stride: int, x: int, y: int) -> bool {
    stride > 0 && y / stride < shades.len() && x / stride < shades[y / stride]@.len()
}

/// The pixel that the replicated sample grid puts at `(x, y)`.
pub open spec fn spec_sample_pixel(shades: Seq<Vec<Shade>>, stride: int, x: int, y: int) -> u32 {
    spec_pixel(shades[y / stride]@[x / stride])
}

/// `after` is `before` with every covered pixel replaced by its sample's
/// colour and every other pixel untouched.
pub open spec fn spec_painted(
    before: FrameBuffer,
    after: FrameBuffer,
    shades: Seq<Vec<Shade>>,
    stride: int,
) -> bool {
    forall|x: int, y: int|
        in_frame(x, y) ==> #[trigger] after.spec_pixel_at(x, y) == if spec_covered(
            shades,
            stride,
            x,
            y,
        ) {
            spec_sample_pixel(shades, stride, x, y)
        } else {
            before.spec_pixel_at(x, y)
        }
}

/// Whether the grid has exactly `height` rows of `width` samples each.
pub open spec fn spec_grid_is(shades: Seq<Vec<Shade>>, width: int, height: int) -> bool {
    &&& shades.len() == height
    &&& forall|i: int| 0 <= i < height ==> (#[trigger] shades[i])@.len() == width
}

/// A value lies in block `k` of size `s` exactly when dividing it by `s`
/// gives `k`.
pub proof fn lemma_block_of(v: int, k: int, s: int)
    by (nonlinear_arith)
    requires
        s > 0,
        0 <= v,
    ensures
        (k * s <= v < k * s + s) <==> v / s == k,
        v < k * s <==> v / s < k,
{
}

impl FrameBuffer {
    /// The buffer holds exactly one word per pixel of the frame.
    pub open spec fn wf(&self) -> bool {
        self@.len() == MAX_WIDTH * MAX_HEIGHT
    }

    /// The pixel at column `x` of row `y`.
    pub open spec fn spec_pixel_at(&self, x: int, y: int) -> u32 {
        self@[y * MAX_WIDTH + x]
    }

    /// A frame with every pixel zero.
    pub fn new() -> (frame: FrameBuffer)
        ensures
            frame.wf(),
            forall|i: int| 0 <= i < frame@.len() ==> frame@[i] == 0,
    {
        let mut pixels: Vec<u32> = Vec::new();
        let mut i: usize = 0;
        while i < MAX_WIDTH * MAX_HEIGHT
            invariant
                i <= MAX_WIDTH * MAX_HEIGHT,
                pixels@.len() == i,
                forall|k: int| 0 <= k < i ==> pixels@[k] == 0,
            decreases MAX_WIDTH * MAX_HEIGHT - i,
        {
            pixels.push(0);
            i += 1;
        }
        FrameBuffer { pixels }
    }

    /// Read-only access to the pixels, row by row.
    pub fn pixels(&self) -> (p: &Vec<u32>)
        ensures
            p@ == self@,
    {
        &self.pixels
    }

    /// The pixel at `(x, y)`, or `None` outside the frame.
    pub fn pixel_at(&self, x: usize, y: usize) -> (p: Option<u32>)
        requires
            self.wf(),
        ensures
            p == if in_frame(x as int, y as int) {
                Some(self.spec_pixel_at(x as int, y as int))
            } else {
                None
            },
    {
        if x < MAX_WIDTH && y < MAX_HEIGHT {
            Some(self.pixels[y * MAX_WIDTH + x])
        } else {
            None
        }
    }

    /// Overwrites one pixel inside the frame.
    fn set_pixel(&mut self, x: usize, y: usize, val: u32)
        requires
            old(self).wf(),
            in_frame(x as int, y as int),
        ensures
            final(self).wf(),
            forall|i: int, j: int|
                in_frame(i, j) ==> #[trigger] final(self).spec_pixel_at(i, j) == if i == x && j
                    == y {
                    val
                } else {
                    old(self).spec_pixel_at(i, j)
                },
    {
        self.pixels.set(y * MAX_WIDTH + x, val);
    }

    /// Copies `row` into the `stride` frame rows that start at `y_start`.
    /// Whatever falls outside the frame is dropped.
    pub fn write_row(&mut self, y_start: usize, stride: usize, row: &Vec<u32>)
        requires
            old(self).wf(),
        ensures
            final(self).wf(),
            forall|x: int, y: int|
                in_frame(x, y) ==> #[trigger] final(self).spec_pixel_at(x, y) == if y_start <= y
                    < y_start + stride && x < row@.len() {
                    row@[x]
                } else {
                    old(self).spec_pixel_at(x, y)
                },
    {
        if y_start >= MAX_HEIGHT {
            return ;
        }
        let room: usize = MAX_HEIGHT - y_start;
        let count: usize = if stride < room { stride } else { room };
        let limit: usize = if row.len() < MAX_WIDTH { row.len() } else { MAX_WIDTH };
        let mut dy: usize = 0;
        while dy < count
            invariant
                self.wf(),
                y_start < MAX_HEIGHT,
                count <= stride,
                count <= MAX_HEIGHT - y_start,
                dy <= count,
                limit <= MAX_WIDTH,
                limit <= row@.len(),
                limit == MAX_WIDTH || limit == row@.len(),
                forall|x: int, y: int|
                    in_frame(x, y) ==> #[trigger] self.spec_pixel_at(x, y) == if y_start <= y
                        < y_start + dy && x < row@.len() {
                        row@[x]
                    } else {
                        old(self).spec_pixel_at(x, y)
                    },
            decreases count - dy,
        {
            let y: usize = y_start + dy;
            let mut x: usize = 0;
            while x < limit
                invariant
                    self.wf(),
                    y == y_start + dy,
                    y < MAX_HEIGHT,
                    x <= limit,
                    limit <= MAX_WIDTH,
                    limit <= row@.len(),
                    forall|i: int, j: int|
                        in_frame(i, j) ==> #[trigger] self.spec_pixel_at(i, j) == if (y_start <= j
                            < y && i < row@.len()) || (j == y && i < x) {
                            row@[i]
                        } else {
                            old(self).spec_pixel_at(i, j)
                        },
                decreases limit - x,
            {
                self.set_pixel(x, y, row[x]);
                x += 1;
            }
            dy += 1;
        }
    }
}

/// One sample row, coloured and replicated `stride` times horizontally, cut
/// off at the frame's width.
pub fn build_row(samples: &Vec<Shade>, stride: usize) -> (row: Vec<u32>)
    ensures
        row@.len() == if samples@.len() * stride < MAX_WIDTH {
            samples@.len() * stride
        } else {
            MAX_WIDTH as int
        },
        forall|k: int|
            0 <= k < row@.len() ==> #[trigger] row@[k] == spec_pixel(
                samples@[k / (stride as int)],
            ),
{
    let mut row: Vec<u32> = Vec::new();
    let mut x: usize = 0;
    proof {
        assert(0 * stride == 0) by (nonlinear_arith);
    }
    while x < samples.len() && row.len() < MAX_WIDTH
        invariant
            x <= samples@.len(),
            row@.len() <= MAX_WIDTH,
            row@.len() == MAX_WIDTH || row@.len() == x * stride,
            row@.len() <= x * stride,
            forall|k: int|
            0 <= k < row@.len() ==> #[trigger] row@[k] == spec_pixel(
                samples@[k / (stride as int)],
            ),
        decreases samples@.len() - x,
    {
        let val: u32 = pixel(samples[x]);
        let mut n: usize = 0;
        while n < stride && row.len() < MAX_WIDTH
            invariant
                x < samples@.len(),
                n <= stride,
                val == spec_pixel(samples@[x as int]),
                row@.len() <= MAX_WIDTH,
                row@.len() == MAX_WIDTH || row@.len() == x * stride + n,
                row@.len() <= x * stride + n,
                forall|k: int|
            0 <= k < row@.len() ==> #[trigger] row@[k] == spec_pixel(
                samples@[k / (stride as int)],
            ),
            decreases stride - n,
        {
            proof {
                lemma_block_of(row@.len() as int, x as int, stride as int);
            }
            row.push(val);
            n += 1;
        }
        proof {
            assert((x + 1) * stride == x * stride + stride) by (nonlinear_arith);
        }
        x += 1;
    }
    proof {
        let len = samples@.len() as int;
        let s = stride as int;
        assert(x <= len ==> x * s <= len * s) by (nonlinear_arith)
            requires
                0 <= s,
                0 <= x,
        ;
    }
    row
}

/// Paints the sample grid into the frame: sample row `y` fills frame rows
/// `y * stride .. y * stride + stride`, and sample `x` of that row fills
/// columns `x * stride .. x * stride + stride`. Pixels that no sample covers
/// keep their colour, and samples that fall outside the frame are dropped.
/// With a stride of zero nothing is written.
pub fn write_back(frame: &mut FrameBuffer, stride: usize, shades: &Vec<Vec<Shade>>)
    requires
        old(frame).wf(),
    ensures
        final(frame).wf(),
        spec_painted(*old(frame), *final(frame), shades@, stride as int),
{
    if stride == 0 {
        return ;
    }
    let mut y: usize = 0;
    let mut y_start: usize = 0;
    proof {
        assert(0 * stride == 0) by (nonlinear_arith);
    }
    while y < shades.len() && y_start < MAX_HEIGHT
        invariant
            frame.wf(),
            stride > 0,
            y <= shades@.len(),
            y_start <= MAX_HEIGHT,
            y_start == y * stride || (y_start == MAX_HEIGHT && y * stride >= MAX_HEIGHT),
            forall|i: int, j: int|
                in_frame(i, j) ==> #[trigger] frame.spec_pixel_at(i, j) == if j / (stride as int)
                    < y && spec_covered(shades@, stride as int, i, j) {
                    spec_sample_pixel(shades@, stride as int, i, j)
                } else {
                    old(frame).spec_pixel_at(i, j)
                },
        decreases shades@.len() - y,
    {
        let row: Vec<u32> = build_row(&shades[y], stride);
        let ghost prev = *frame;
        frame.write_row(y_start, stride, &row);
        proof {
            let s = stride as int;
            let n = shades@[y as int]@.len() as int;
            assert((y + 1) * s == y * s + s) by (nonlinear_arith);
            assert forall|i: int, j: int| in_frame(i, j) implies #[trigger] frame.spec_pixel_at(
                i,
                j,
            ) == if j / s < y + 1 && spec_covered(shades@, s, i, j) {
                spec_sample_pixel(shades@, s, i, j)
            } else {
                old(frame).spec_pixel_at(i, j)
            } by {
                lemma_block_of(j, y as int, s);
                lemma_block_of(i, n, s);
                assert(prev.spec_pixel_at(i, j) == if j / s < y && spec_covered(
                    shades@,
                    s,
                    i,
                    j,
                ) {
                    spec_sample_pixel(shades@, s, i, j)
                } else {
                    old(frame).spec_pixel_at(i, j)
                });
            }
        }
        if stride >= MAX_HEIGHT - y_start {
            y_start = MAX_HEIGHT;
        } else {
            y_start += stride;
        }
        y += 1;
    }
    proof {
        let s = stride as int;
        assert forall|i: int, j: int| in_frame(i, j) && spec_covered(shades@, s, i, j) implies j
            / s < y by {
            lemma_block_of(j, y as int, s);
        }
    }
}

/// Runs the write-back half of a render pass: paints the sample grid into
/// the frame, replicated by the factor that the configured quality asks for.
/// When the grid has the quality's dimensions, every pixel of the frame is
/// rewritten.
pub fn render(frame: &mut FrameBuffer, config: &Config, shades: &Vec<Vec<Shade>>)
    requires
        old(frame).wf(),
    ensures
        final(frame).wf(),
        spec_painted(
            *old(frame),
            *final(frame),
            shades@,
            spec_dimensions(config.quality).2 as int,
        ),
        spec_grid_is(
            shades@,
            spec_dimensions(config.quality).0 as int,
            spec_dimensions(config.quality).1 as int,
        ) ==> forall|x: int, y: int|
            in_frame(x, y) ==> #[trigger] final(frame).spec_pixel_at(x, y) == spec_sample_pixel(
                shades@,
                spec_dimensions(config.quality).2 as int,
                x,
                y,
            ),
{
    let (width, height, stride) = get_dimensions(config.quality);
    write_back(frame, stride, shades);
    proof {
        if spec_grid_is(shades@, width as int, height as int) {
            assert forall|x: int, y: int| in_frame(x, y) implies spec_covered(
                shades@,
                stride as int,
                x,
                y,
            ) by {
                lemma_block_of(x, width as int, stride as int);
                lemma_block_of(y, height as int, stride as int);
                assert(0 <= y / (stride as int));
            }
        }
    }
}

/// Two different sample rows never write to the same frame row, and two
/// different samples of a row never write to the same column.
pub proof fn lemma_blocks_disjoint(first: int, second: int, stride: int, v: int)
    requires
        stride > 0,
        0 <= v,
        first != second,
        first * stride <= v < first * stride + stride,
    ensures
        !(second * stride <= v < second * stride + stride),
{
    lemma_block_of(v, first, stride);
    lemma_block_of(v, second, stride);
}

/// A preview pass is a coarse sampling of what a full pass draws: where the
/// preview grid and the full grid hold the same shade for a preview sample
/// and for the full sample at the top-left corner of its block, the two
/// frames show the same colour at that corner.
pub proof fn lemma_preview_agrees_with_full(
    before_preview: FrameBuffer,
    preview: FrameBuffer,
    coarse: Seq<Vec<Shade>>,
    before_full: FrameBuffer,
    full: FrameBuffer,
    fine: Seq<Vec<Shade>>,
    x: int,
    y: int,
)
    requires
        spec_painted(
            before_preview,
            preview,
            coarse,
            spec_dimensions(RenderQuality::Preview).2 as int,
        ),
        spec_painted(before_full, full, fine, spec_dimensions(RenderQuality::Full).2 as int),
        spec_grid_is(
            coarse,
            spec_dimensions(RenderQuality::Preview).0 as int,
            spec_dimensions(RenderQuality::Preview).1 as int,
        ),
        spec_grid_is(
            fine,
            spec_dimensions(RenderQuality::Full).0 as int,
            spec_dimensions(RenderQuality::Full).1 as int,
        ),
        0 <= x < spec_dimensions(RenderQuality::Preview).0,
        0 <= y < spec_dimensions(RenderQuality::Preview).1,
        coarse[y]@[x] == fine[4 * y]@[4 * x],
    ensures
        in_frame(4 * x, 4 * y),
        preview.spec_pixel_at(4 * x, 4 * y) == spec_pixel(coarse[y]@[x]),
        preview.spec_pixel_at(4 * x, 4 * y) == full.spec_pixel_at(4 * x, 4 * y),
{
    lemma_block_of(4 * x, x, 4);
    lemma_block_of(4 * y, y, 4);
    lemma_block_of(4 * x, 4 * x, 1);
    lemma_block_of(4 * y, 4 * y, 1);
    assert(spec_covered(coarse, 4, 4 * x, 4 * y));
    assert(spec_covered(fine, 1, 4 * x, 4 * y));
}

/// Inside one replication block every pixel has the colour of the block's
/// top-left pixel.
pub proof fn lemma_block_is_uniform(
    before: FrameBuffer,
    after: FrameBuffer,
    shades: Seq<Vec<Shade>>,
    stride: int,
    x: int,
    y: int,
)
    requires
        spec_painted(before, after, shades, stride),
        in_frame(x, y),
        spec_covered(shades, stride, x, y),
    ensures
        in_frame(x - x % stride, y - y % stride),
        after.spec_pixel_at(x, y) == after.spec_pixel_at(x - x % stride, y - y % stride),
{
    let bx = x - x % stride;
    let by = y - y % stride;
    assert(0 <= x % stride <= x && 0 <= y % stride <= y && bx / stride == x / stride && by / stride
        == y / stride) by (nonlinear_arith)
        requires
            stride > 0,
            0 <= x,
            0 <= y,
            bx == x - x % stride,
            by == y - y % stride,
    ;
    assert(spec_covered(shades, stride, bx, by));
}

} // verus!
