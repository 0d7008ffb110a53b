//! Laying the pixels of a fragment out in a row.
//!
//! A fragment of `nx` columns and `ny` rows is computed pixel by pixel and
//! stored row by row: the pixel of column `ix` and row `iy` stands at index
//! `iy * nx + ix`. What a pixel is worth is the caller's business; this
//! module walks the grid, keeps the order, and makes sure that nothing that
//! is not a finite number leaves it.

use crate::fragment_result::all_finite;
use crate::fragment_task::FragmentTask;
use crate::shared_structs::{PixelIntensity, Resolution};
use vstd::prelude::*;

verus! {

/// Where the pixel of column `ix` and row `iy` stands in the row of pixels.
pub open spec fn pixel_index(resolution: Resolution, ix: int, iy: int) -> int {
    iy * (resolution.nx as int) + ix
}

/// `p` is something that `pixel_at` may return for column `ix` and row `iy`,
/// with infinities and NaNs replaced by the degenerate pixel.
pub open spec fn computed_by<F: Fn(u16, u16) -> PixelIntensity>(
    pixel_at: F,
    ix: u16,
    iy: u16,
    p: PixelIntensity,
) -> bool {
    exists|raw: PixelIntensity| call_ensures(pixel_at, (ix, iy), raw) && p == raw.clamped()
}

/// Every pixel of the grid has its own index below the number of pixels.
pub proof fn lemma_pixel_index_bounds(resolution: Resolution, ix: int, iy: int)
    requires
        0 <= ix < resolution.nx,
        0 <= iy < resolution.ny,
    ensures
        0 <= pixel_index(resolution, ix, iy) < resolution.pixels(),
{
    let nx = resolution.nx as int;
    let ny = resolution.ny as int;
    assert(iy * nx + ix < ny * nx) by (nonlinear_arith)
        requires
            0 <= ix < nx,
            0 <= iy < ny,
    ;
    assert(iy * nx >= 0) by (nonlinear_arith)
        requires
            0 <= iy,
            0 <= nx,
    ;
    assert(ny * nx == nx * ny) by (nonlinear_arith);
}

/// Two pixels of the grid with the same index are the same pixel.
pub proof fn lemma_pixel_index_unique(resolution: Resolution, ix: int, iy: int, jx: int, jy: int)
    requires
        0 <= ix < resolution.nx,
        0 <= jx < resolution.nx,
        0 <= iy,
        0 <= jy,
        pixel_index(resolution, ix, iy) == pixel_index(resolution, jx, jy),
    ensures
        ix == jx,
        iy == jy,
{
    let nx = resolution.nx as int;
    assert(iy == jy) by (nonlinear_arith)
        requires
            0 <= ix < nx,
            0 <= jx < nx,
            0 <= iy,
            0 <= jy,
            iy * nx + ix == jy * nx + jx,
    ;
    assert(iy * nx == jy * nx);
}

/// The column and the row of the pixel that stands at `index`.
pub fn pixel_position(resolution: &Resolution, index: u32) -> (r: (u16, u16))
    requires
        index < resolution.pixels(),
    ensures
        r.0 < resolution.nx,
        r.1 < resolution.ny,
        pixel_index(*resolution, r.0 as int, r.1 as int) == index,
{
    let nx: u32 = resolution.nx as u32;
    assert(nx > 0) by (nonlinear_arith)
        requires
            index < (resolution.nx as nat) * (resolution.ny as nat),
            nx == resolution.nx,
    ;
    let ix: u32 = index % nx;
    let iy: u32 = index / nx;
    assert(iy < resolution.ny && iy * nx + ix == index) by (nonlinear_arith)
        requires
            nx > 0,
            ix == index % nx,
            iy == index / nx,
            index < nx * (resolution.ny as nat),
    ;
    (ix as u16, iy as u16)
}

/// Computes a fragment: asks `pixel_at` for the pixel of every column and
/// row, row by row, and stores the answers in that order. An answer that
/// holds an infinity or a NaN is replaced by the degenerate pixel.
///
/// The result has one pixel for every point of the resolution, the pixel of
/// column `ix` and row `iy` stands at index `iy * nx + ix`, and every pixel
/// is finite.
pub fn generate_pixels<F: Fn(u16, u16) -> PixelIntensity>(
    resolution: Resolution,
    pixel_at: F,
) -> (pixels: Vec<PixelIntensity>)
    requires
        forall|ix: u16, iy: u16|
            ix < resolution.nx && iy < resolution.ny ==> call_requires(pixel_at, (ix, iy)),
    ensures
        pixels@.len() == resolution.pixels(),
        forall|ix: u16, iy: u16|
            ix < resolution.nx && iy < resolution.ny ==> computed_by(
                pixel_at,
                ix,
                iy,
                #[trigger] pixels@[pixel_index(resolution, ix as int, iy as int)],
            ),
        all_finite(pixels@),
{
    let nx: u16 = resolution.nx;
    let ny: u16 = resolution.ny;
    let mut pixels: Vec<PixelIntensity> = Vec::with_capacity(resolution.pixel_count() as usize);
    let mut iy: u16 = 0;
    while iy < ny
        invariant
            nx == resolution.nx,
            ny == resolution.ny,
            iy <= ny,
            pixels@.len() == (iy as int) * (nx as int),
            forall|ix: u16, iy: u16|
                ix < resolution.nx && iy < resolution.ny ==> call_requires(pixel_at, (ix, iy)),
            forall|x: u16, y: u16|
                x < nx && y < iy ==> computed_by(
                    pixel_at,
                    x,
                    y,
                    #[trigger] pixels@[pixel_index(resolution, x as int, y as int)],
                ),
            all_finite(pixels@),
        decreases ny - iy,
    {
        let mut ix: u16 = 0;
        while ix < nx
            invariant
                nx == resolution.nx,
                ny == resolution.ny,
                iy < ny,
                ix <= nx,
                pixels@.len() == (iy as int) * (nx as int) + ix,
                forall|ix: u16, iy: u16|
                    ix < resolution.nx && iy < resolution.ny ==> call_requires(pixel_at, (ix, iy)),
                forall|x: u16, y: u16|
                    x < nx && y < iy ==> computed_by(
                        pixel_at,
                        x,
                        y,
                        #[trigger] pixels@[pixel_index(resolution, x as int, y as int)],
                    ),
                forall|x: u16|
                    x < ix ==> computed_by(
                        pixel_at,
                        x,
                        iy,
                        #[trigger] pixels@[pixel_index(resolution, x as int, iy as int)],
                    ),
                all_finite(pixels@),
            decreases nx - ix,
        {
            let raw = pixel_at(ix, iy);
            let p = raw.clamp();
            let ghost before = pixels@;
            pixels.push(p);
            proof {
                assert(pixels@[pixel_index(resolution, ix as int, iy as int)] == p);
                assert(computed_by(pixel_at, ix, iy, p));
                assert forall|x: u16, y: u16| x < nx && y < iy implies computed_by(
                    pixel_at,
                    x,
                    y,
                    #[trigger] pixels@[pixel_index(resolution, x as int, y as int)],
                ) by {
                    lemma_row_below(resolution, x as int, y as int, iy as int);
                    assert(pixels@[pixel_index(resolution, x as int, y as int)]
                        == before[pixel_index(resolution, x as int, y as int)]);
                }
                assert forall|x: u16| x < ix + 1 implies computed_by(
                    pixel_at,
                    x,
                    iy,
                    #[trigger] pixels@[pixel_index(resolution, x as int, iy as int)],
                ) by {
                    if x < ix {
                        assert(pixels@[pixel_index(resolution, x as int, iy as int)]
                            == before[pixel_index(resolution, x as int, iy as int)]);
                    }
                }
                assert forall|k: int| 0 <= k < pixels@.len() implies (
                #[trigger] pixels@[k]).is_finite() by {
                    if k < before.len() {
                        assert(before[k].is_finite());
                    }
                }
            }
            ix += 1;
        }
        proof {
            assert((iy as int + 1) * (nx as int) == (iy as int) * (nx as int) + nx)
                by (nonlinear_arith);
        }
        iy += 1;
    }
    proof {
        assert((ny as int) * (nx as int) == (resolution.nx as nat) * (resolution.ny as nat))
            by (nonlinear_arith)
            requires
                nx == resolution.nx,
                ny == resolution.ny,
        ;
    }
    pixels
}

/// A pixel of an earlier row stands before the first pixel of a later row.
proof fn lemma_row_below(resolution: Resolution, x: int, y: int, iy: int)
    requires
        0 <= x < resolution.nx,
        0 <= y < iy,
    ensures
        0 <= pixel_index(resolution, x, y) < iy * (resolution.nx as int),
{
    let nx = resolution.nx as int;
    assert(y * nx + x < iy * nx) by (nonlinear_arith)
        requires
            0 <= x < nx,
            0 <= y < iy,
    ;
    assert(y * nx >= 0) by (nonlinear_arith)
        requires
            0 <= y,
            0 <= nx,
    ;
}

/// Computes the fragment that a task asks for. See [`generate_pixels`].
pub fn generate<F: Fn(u16, u16) -> PixelIntensity>(
    task: &FragmentTask,
    pixel_at: F,
) -> (pixels: Vec<PixelIntensity>)
    requires
        forall|ix: u16, iy: u16|
            ix < task.resolution.nx && iy < task.resolution.ny ==> call_requires(
                pixel_at,
                (ix, iy),
            ),
    ensures
        pixels@.len() == task.resolution.pixels(),
        forall|ix: u16, iy: u16|
            ix < task.resolution.nx && iy < task.resolution.ny ==> computed_by(
                pixel_at,
                ix,
                iy,
                #[trigger] pixels@[pixel_index(task.resolution, ix as int, iy as int)],
            ),
        all_finite(pixels@),
{
    generate_pixels(task.resolution, pixel_at)
}

} // verus!
