use vstd::prelude::*;

use crate::base::color::Color;
use crate::base::fixed::{
    fx_div, fx_div_spec, fx_mul, fx_mul_spec, FX_HALF, FX_MAX, FX_ONE,
};
use crate::base::quat::quat_rotate_spec;
use crate::base::vec3::Vec3;
use crate::canvas::canvas::Canvas;
use crate::canvas::u8_canvas::{lemma_quantized_idempotent, U8Canvas};
use crate::scene::scene::{Scene, Specs};
use crate::scene::tracer::{trace_ray, trace_spec, RECURSION_DEPTH};
use crate::util::maths::{map_range, map_range_spec};

verus! {

/// The largest output-grid side length the renderer accepts; keeps every
/// cell coordinate representable as a fixed-point scalar with room to spare.
pub const MAX_GRID: usize = 0x10_0000;

/// Mirror of `canvas_to_viewport`: the camera-space ray direction through
/// the viewport point `(x, y)`.
pub open spec fn canvas_to_viewport_spec(x: int, y: int, specs: Specs) -> Vec3 {
    Vec3 {
        x: fx_div_spec(fx_mul_spec(x, specs.viewport_width as int), specs.canvas_width as int)
            as i64,
        y: fx_div_spec(fx_mul_spec(y, specs.viewport_height as int), specs.canvas_height as int)
            as i64,
        z: specs.viewport_distance,
    }
}

/// The camera-space ray direction through the viewport point `(x, y)`:
/// scale by the viewport/canvas ratios and aim at the viewport plane.
pub fn canvas_to_viewport(x: i64, y: i64, specs: &Specs) -> (r: Vec3)
    ensures
        r == canvas_to_viewport_spec(x as int, y as int, *specs),
{
    Vec3 {
        x: fx_div(fx_mul(x, specs.viewport_width), specs.canvas_width),
        y: fx_div(fx_mul(y, specs.viewport_height), specs.canvas_height),
        z: specs.viewport_distance,
    }
}

/// Mirror of the per-cell work in `render_to_canvas_ranged`: the color of
/// output cell `(ix, iy)` in a `num_cols` x `num_rows` grid. The cell is
/// sampled at its center; `y` is flipped (screen-down vs world-up); the
/// viewport width is corrected for the grid's aspect ratio and for the
/// pixel aspect ratio; the direction is rotated by the camera orientation
/// and traced from the camera with one unit of head start.
pub open spec fn pixel_spec(scene: Scene, ix: int, iy: int, num_cols: int, num_rows: int) -> Color {
    let specs = scene.specs;
    let cols_fx = num_cols * (FX_ONE as int);
    let rows_fx = num_rows * (FX_ONE as int);
    let cw_half = fx_mul_spec(specs.canvas_width as int, FX_HALF as int);
    let ch_half = fx_mul_spec(specs.canvas_height as int, FX_HALF as int);
    let vw_adj = fx_mul_spec(
        fx_mul_spec(specs.viewport_width as int, fx_div_spec(cols_fx, rows_fx)),
        specs.pixel_ar as int,
    );
    let y0 = map_range_spec(iy * (FX_ONE as int) + (FX_HALF as int), 0, rows_fx, ch_half, -ch_half);
    let y = fx_mul_spec(y0, fx_div_spec(specs.viewport_height as int, specs.canvas_height as int));
    let x0 = map_range_spec(ix * (FX_ONE as int) + (FX_HALF as int), 0, cols_fx, -cw_half, cw_half);
    let x = fx_mul_spec(x0, fx_div_spec(vw_adj, specs.canvas_width as int));
    let d = quat_rotate_spec(specs.camera_orientation, canvas_to_viewport_spec(x, y, specs));
    trace_spec(
        scene,
        specs.camera_pos,
        d,
        FX_ONE as int,
        FX_MAX as int,
        -1,
        RECURSION_DEPTH as nat,
    )
}

/// The color of one output cell, computed exactly as `pixel_spec` says.
fn render_pixel(scene: &Scene, ix: usize, iy: usize, num_cols: usize, num_rows: usize) -> (c: Color)
    requires
        scene.spheres@.len() <= i32::MAX,
        ix < num_cols <= MAX_GRID,
        iy < num_rows <= MAX_GRID,
    ensures
        c == pixel_spec(*scene, ix as int, iy as int, num_cols as int, num_rows as int),
{
    let specs = &scene.specs;
    let cols_fx: i64 = (num_cols as i64) * FX_ONE;
    let rows_fx: i64 = (num_rows as i64) * FX_ONE;
    let cw_half = fx_mul(specs.canvas_width, FX_HALF);
    let ch_half = fx_mul(specs.canvas_height, FX_HALF);
    let vw_adj = fx_mul(
        fx_mul(specs.viewport_width, fx_div(cols_fx, rows_fx)),
        specs.pixel_ar,
    );
    let iy_fx: i64 = (iy as i64) * FX_ONE + FX_HALF;
    let y0 = map_range(iy_fx, 0, rows_fx, ch_half, -ch_half);
    let y = fx_mul(y0, fx_div(specs.viewport_height, specs.canvas_height));
    let ix_fx: i64 = (ix as i64) * FX_ONE + FX_HALF;
    let x0 = map_range(ix_fx, 0, cols_fx, -cw_half, cw_half);
    let x = fx_mul(x0, fx_div(vw_adj, specs.canvas_width));
    let d0 = canvas_to_viewport(x, y, specs);
    let d = specs.camera_orientation.rotate_vector(&d0);
    trace_ray(&specs.camera_pos, &d, FX_ONE, FX_MAX, scene, -1, RECURSION_DEPTH)
}

/// Render the rows `[full_canvas_row_start, full_canvas_row_end)` of a full
/// frame of height `full_canvas_height` into `sub_canvas`, whose row 0
/// receives full-frame row `full_canvas_row_start`. The sub-canvas width is
/// the full frame's width. Every cell of the sub-canvas is written with the
/// color `pixel_spec` gives for its full-frame coordinates.
pub fn render_to_canvas_ranged<C: Canvas<Color>>(
    scene: &Scene,
    sub_canvas: &mut C,
    full_canvas_row_start: usize,
    full_canvas_row_end: usize,
    full_canvas_height: usize,
)
    requires
        old(sub_canvas).wf(),
        scene.spheres@.len() <= i32::MAX,
        full_canvas_row_start <= full_canvas_row_end <= full_canvas_height,
        old(sub_canvas).height_spec() == full_canvas_row_end - full_canvas_row_start,
        old(sub_canvas).width_spec() <= MAX_GRID as int,
        full_canvas_height <= MAX_GRID,
    ensures
        final(sub_canvas).wf(),
        final(sub_canvas).width_spec() == old(sub_canvas).width_spec(),
        final(sub_canvas).height_spec() == old(sub_canvas).height_spec(),
        forall|x: int, y: int|
            0 <= x < final(sub_canvas).width_spec() && 0 <= y < final(sub_canvas).height_spec()
                ==> final(sub_canvas).value_spec(x, y) == C::stored_spec(
                pixel_spec(
                    *scene,
                    x,
                    y + full_canvas_row_start,
                    final(sub_canvas).width_spec(),
                    full_canvas_height as int,
                ),
            ),
{
    let width = sub_canvas.get_width();
    let mut iy: usize = full_canvas_row_start;
    while iy < full_canvas_row_end
        invariant
            sub_canvas.wf(),
            sub_canvas.width_spec() == old(sub_canvas).width_spec(),
            sub_canvas.height_spec() == old(sub_canvas).height_spec(),
            scene.spheres@.len() <= i32::MAX,
            full_canvas_row_start <= iy <= full_canvas_row_end <= full_canvas_height,
            sub_canvas.height_spec() == full_canvas_row_end - full_canvas_row_start,
            width as int == sub_canvas.width_spec(),
            width <= MAX_GRID,
            full_canvas_height <= MAX_GRID,
            forall|x: int, y: int|
                0 <= x < sub_canvas.width_spec() && 0 <= y < iy - full_canvas_row_start
                    ==> sub_canvas.value_spec(x, y) == C::stored_spec(
                    pixel_spec(
                        *scene,
                        x,
                        y + full_canvas_row_start,
                        sub_canvas.width_spec(),
                        full_canvas_height as int,
                    ),
                ),
        decreases full_canvas_row_end - iy,
    {
        let sub_canvas_iy = iy - full_canvas_row_start;
        let mut ix: usize = 0;
        while ix < width
            invariant
                sub_canvas.wf(),
                sub_canvas.width_spec() == old(sub_canvas).width_spec(),
                sub_canvas.height_spec() == old(sub_canvas).height_spec(),
                scene.spheres@.len() <= i32::MAX,
                full_canvas_row_start <= iy < full_canvas_row_end <= full_canvas_height,
                sub_canvas.height_spec() == full_canvas_row_end - full_canvas_row_start,
                sub_canvas_iy == iy - full_canvas_row_start,
                width as int == sub_canvas.width_spec(),
                width <= MAX_GRID,
                full_canvas_height <= MAX_GRID,
                0 <= ix <= width,
                forall|x: int, y: int|
                    0 <= x < sub_canvas.width_spec() && 0 <= y < iy - full_canvas_row_start
                        ==> sub_canvas.value_spec(x, y) == C::stored_spec(
                        pixel_spec(
                            *scene,
                            x,
                            y + full_canvas_row_start,
                            sub_canvas.width_spec(),
                            full_canvas_height as int,
                        ),
                    ),
                forall|x: int|
                    0 <= x < ix ==> sub_canvas.value_spec(x, sub_canvas_iy as int)
                        == C::stored_spec(
                        pixel_spec(
                            *scene,
                            x,
                            iy as int,
                            sub_canvas.width_spec(),
                            full_canvas_height as int,
                        ),
                    ),
            decreases width - ix,
        {
            let color = render_pixel(scene, ix, iy, width, full_canvas_height);
            sub_canvas.set_value(ix, sub_canvas_iy, &color);
            ix = ix + 1;
        }
        iy = iy + 1;
    }
}

/// Render the whole frame into `canvas`, single-threaded.
pub fn render_to_canvas_all<C: Canvas<Color>>(scene: &Scene, canvas: &mut C)
    requires
        old(canvas).wf(),
        scene.spheres@.len() <= i32::MAX,
        old(canvas).width_spec() <= MAX_GRID as int,
        old(canvas).height_spec() <= MAX_GRID as int,
    ensures
        final(canvas).wf(),
        final(canvas).width_spec() == old(canvas).width_spec(),
        final(canvas).height_spec() == old(canvas).height_spec(),
        forall|x: int, y: int|
            0 <= x < final(canvas).width_spec() && 0 <= y < final(canvas).height_spec()
                ==> final(canvas).value_spec(x, y) == C::stored_spec(
                pixel_spec(
                    *scene,
                    x,
                    y,
                    final(canvas).width_spec(),
                    final(canvas).height_spec(),
                ),
            ),
{
    let height = canvas.get_height();
    render_to_canvas_ranged(scene, canvas, 0, height, height);
}

/// The first row of band `i` when `height` rows are split over
/// `worker_count` bands.
pub open spec fn band_start_spec(i: int, worker_count: int, height: int) -> int {
    i * (height / worker_count)
}

/// One past the last row of band `i`: the last band absorbs the remainder
/// so all rows are covered.
pub open spec fn band_end_spec(i: int, worker_count: int, height: int) -> int {
    if i == worker_count - 1 {
        height
    } else {
        (i + 1) * (height / worker_count)
    }
}

/// The row range `[start, end)` that band `i` of `worker_count` covers in a
/// frame of `height` rows.
pub fn band_bounds(i: usize, worker_count: usize, height: usize) -> (r: (usize, usize))
    requires
        worker_count >= 1,
        i < worker_count,
    ensures
        r.0 as int == band_start_spec(i as int, worker_count as int, height as int),
        r.1 as int == band_end_spec(i as int, worker_count as int, height as int),
        r.0 <= r.1 <= height,
{
    let y_span = height / worker_count;
    proof {
        lemma_band_in_range(i as int, worker_count as int, height as int);
    }
    let y_start = i * y_span;
    let y_end = if i == worker_count - 1 {
        height
    } else {
        (i + 1) * y_span
    };
    (y_start, y_end)
}

/// Band bounds are ordered and stay inside the frame.
proof fn lemma_band_in_range(i: int, worker_count: int, height: int)
    by (nonlinear_arith)
    requires
        worker_count >= 1,
        0 <= i < worker_count,
        height >= 0,
    ensures
        0 <= i * (height / worker_count),
        i * (height / worker_count) <= (i + 1) * (height / worker_count),
        (i + 1) * (height / worker_count) <= worker_count * (height / worker_count),
        worker_count * (height / worker_count) <= height,
{
}

/// The bands partition the row range `[0, height)` exactly: band 0 starts
/// at row 0, each band ends where the next begins, and the last band ends
/// at `height`.
pub proof fn lemma_bands_cover(worker_count: int, height: int)
    requires
        worker_count >= 1,
        height >= 0,
    ensures
        band_start_spec(0, worker_count, height) == 0,
        band_end_spec(worker_count - 1, worker_count, height) == height,
        forall|i: int|
            0 <= i < worker_count - 1 ==> #[trigger] band_end_spec(i, worker_count, height)
                == band_start_spec(i + 1, worker_count, height),
        forall|i: int|
            0 <= i < worker_count ==> #[trigger] band_start_spec(i, worker_count, height)
                <= band_end_spec(i, worker_count, height) <= height,
{
    assert forall|i: int| 0 <= i < worker_count implies #[trigger] band_start_spec(
        i,
        worker_count,
        height,
    ) <= band_end_spec(i, worker_count, height) <= height by {
        lemma_band_in_range(i, worker_count, height);
    }
    assert(band_start_spec(0, worker_count, height) == 0) by (nonlinear_arith);
}

/// Copy a band-rendered sub-surface into rows `[y_start, y_start + sub_h)`
/// of the full surface; the merge step of the parallel renderer. Cells
/// outside those rows are untouched.
pub fn merge_band<C: Canvas<Color>, D: Canvas<Color>>(
    canvas: &mut C,
    sub_canvas: &D,
    y_start: usize,
)
    requires
        old(canvas).wf(),
        sub_canvas.wf(),
        sub_canvas.width_spec() == old(canvas).width_spec(),
        y_start + sub_canvas.height_spec() <= old(canvas).height_spec(),
        old(canvas).height_spec() <= usize::MAX,
    ensures
        final(canvas).wf(),
        final(canvas).width_spec() == old(canvas).width_spec(),
        final(canvas).height_spec() == old(canvas).height_spec(),
        forall|x: int, y: int|
            0 <= x < final(canvas).width_spec() && y_start <= y < y_start
                + sub_canvas.height_spec() ==> final(canvas).value_spec(x, y) == C::stored_spec(
                sub_canvas.value_spec(x, y - y_start),
            ),
        forall|x: int, y: int|
            0 <= x < final(canvas).width_spec() && 0 <= y < final(canvas).height_spec() && !(
            y_start <= y < y_start + sub_canvas.height_spec()) ==> final(canvas).value_spec(x, y)
                == old(canvas).value_spec(x, y),
{
    let width = sub_canvas.get_width();
    let sub_height = sub_canvas.get_height();
    let mut y: usize = 0;
    while y < sub_height
        invariant
            canvas.wf(),
            canvas.width_spec() == old(canvas).width_spec(),
            canvas.height_spec() == old(canvas).height_spec(),
            sub_canvas.wf(),
            width as int == sub_canvas.width_spec(),
            sub_height as int == sub_canvas.height_spec(),
            sub_canvas.width_spec() == canvas.width_spec(),
            y_start + sub_canvas.height_spec() <= canvas.height_spec(),
            canvas.height_spec() <= usize::MAX,
            0 <= y <= sub_height,
            forall|a: int, b: int|
                0 <= a < canvas.width_spec() && y_start <= b < y_start + y ==> canvas.value_spec(
                    a,
                    b,
                ) == C::stored_spec(sub_canvas.value_spec(a, b - y_start)),
            forall|a: int, b: int|
                0 <= a < canvas.width_spec() && 0 <= b < canvas.height_spec() && !(y_start <= b
                    < y_start + y) ==> canvas.value_spec(a, b) == old(canvas).value_spec(a, b),
        decreases sub_height - y,
    {
        let mut x: usize = 0;
        while x < width
            invariant
                canvas.wf(),
                canvas.width_spec() == old(canvas).width_spec(),
                canvas.height_spec() == old(canvas).height_spec(),
                sub_canvas.wf(),
                width as int == sub_canvas.width_spec(),
                sub_height as int == sub_canvas.height_spec(),
                sub_canvas.width_spec() == canvas.width_spec(),
                y_start + sub_canvas.height_spec() <= canvas.height_spec(),
                canvas.height_spec() <= usize::MAX,
                0 <= y < sub_height,
                0 <= x <= width,
                forall|a: int, b: int|
                    0 <= a < canvas.width_spec() && y_start <= b < y_start + y
                        ==> canvas.value_spec(a, b) == C::stored_spec(
                        sub_canvas.value_spec(a, b - y_start),
                    ),
                forall|a: int|
                    0 <= a < x ==> canvas.value_spec(a, y_start + y) == C::stored_spec(
                        sub_canvas.value_spec(a, y as int),
                    ),
                forall|a: int, b: int|
                    0 <= a < canvas.width_spec() && 0 <= b < canvas.height_spec() && !(y_start <= b
                        < y_start + y) && !(b == y_start + y && 0 <= a < x) ==> canvas.value_spec(
                        a,
                        b,
                    ) == old(canvas).value_spec(a, b),
            decreases width - x,
        {
            let color = sub_canvas.get_value(x, y);
            canvas.set_value(x, y_start + y, &color);
            x = x + 1;
        }
        y = y + 1;
    }
}

/// Rendering is deterministic: two equally-sized surfaces of one backing
/// kind whose cells all hold what a band-split render leaves — the full
/// render's value, written once directly or once more through a same-kind
/// sub-surface — are pixel-identical, provided a rewrite of a stored value
/// stores it unchanged. This is why the parallel renderer (bands computed
/// independently and merged) produces exactly the single-threaded output.
pub proof fn lemma_parallel_matches_sequential<C: Canvas<Color>>(
    merged: C,
    direct: C,
    scene: Scene,
    width: int,
    height: int,
)
    requires
        merged.wf(),
        direct.wf(),
        merged.width_spec() == width,
        merged.height_spec() == height,
        direct.width_spec() == width,
        direct.height_spec() == height,
        forall|x: int, y: int|
            0 <= x < width && 0 <= y < height ==> #[trigger] direct.value_spec(x, y)
                == C::stored_spec(pixel_spec(scene, x, y, width, height)),
        forall|x: int, y: int|
            0 <= x < width && 0 <= y < height ==> #[trigger] merged.value_spec(x, y)
                == C::stored_spec(C::stored_spec(pixel_spec(scene, x, y, width, height))),
        forall|c: Color| #[trigger] C::stored_spec(C::stored_spec(c)) == C::stored_spec(c),
    ensures
        forall|x: int, y: int|
            0 <= x < width && 0 <= y < height ==> #[trigger] merged.value_spec(x, y)
                == direct.value_spec(x, y),
{
}

/// The parallel-equals-sequential law for the byte-backed surface that the
/// thread-based renderer actually uses: its quantization is idempotent, so
/// the generic determinism lemma applies with no further hypothesis.
pub proof fn lemma_parallel_matches_sequential_u8(
    merged: U8Canvas,
    direct: U8Canvas,
    scene: Scene,
    width: int,
    height: int,
)
    requires
        merged.wf(),
        direct.wf(),
        merged.width_spec() == width,
        merged.height_spec() == height,
        direct.width_spec() == width,
        direct.height_spec() == height,
        forall|x: int, y: int|
            0 <= x < width && 0 <= y < height ==> #[trigger] direct.value_spec(x, y)
                == U8Canvas::stored_spec(pixel_spec(scene, x, y, width, height)),
        forall|x: int, y: int|
            0 <= x < width && 0 <= y < height ==> #[trigger] merged.value_spec(x, y)
                == U8Canvas::stored_spec(
                U8Canvas::stored_spec(pixel_spec(scene, x, y, width, height)),
            ),
    ensures
        forall|x: int, y: int|
            0 <= x < width && 0 <= y < height ==> #[trigger] merged.value_spec(x, y)
                == direct.value_spec(x, y),
{
    assert forall|c: Color| #[trigger]
        U8Canvas::stored_spec(U8Canvas::stored_spec(c)) == U8Canvas::stored_spec(c) by {
        lemma_quantized_idempotent(c);
    }
    lemma_parallel_matches_sequential(merged, direct, scene, width, height);
}

} // verus!
