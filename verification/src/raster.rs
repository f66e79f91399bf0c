//! The scan-conversion engine.
//!
//! One call rasterizes one clip-space triangle: the vertex program runs
//! on each vertex, ill-conditioned triangles are discarded, the clip
//! positions are mapped to fixed-point screen coordinates, back-facing
//! and degenerate triangles are culled by the signed edge total, and
//! every pixel center of the clamped bounding box is tested exactly
//! against the three edge functions.  A covered pixel's barycentric
//! weights are the edge-function ratios; visibility is nearer-wins
//! against the depth buffer, attributes are interpolated perspective-
//! correctly, and the fragment program's color is written to the target.
//!
//! Coverage of a boundary pixel follows the top-left fill rule, so two
//! triangles sharing an edge shade each pixel of that edge exactly once.

use vstd::prelude::*;

verus! {

use crate::depth::DepthBuffer;
use crate::fixed::COORD_MAX;
use crate::fixed::FX_ONE;
use crate::fixed::VAL_MAX;
use crate::fixed::W_MIN;
use crate::fixed::div_trunc;
use crate::fixed::div_trunc_wide;
use crate::fixed::lemma_tdiv_mag;
use crate::fixed::mag;
use crate::fixed::tdiv;
use crate::interpolate::Interpolate;
use crate::interpolate::blend_s;
use crate::interpolate::corr_s;
use crate::interpolate::fx_correct;
use crate::program::FragmentProgram;
use crate::program::VertexProgram;
use crate::target::TargetBuffer;
use crate::vec2::Vec2;
use crate::vec4::Vec4;

/// The signed edge function: twice the signed area of the triangle
/// `a`, `b`, `c`, positive when `c` lies on the interior side of the
/// directed edge from `a` to `b` under this crate's front-facing
/// convention.
pub open spec fn edge_s(a: Vec2, b: Vec2, c: Vec2) -> int {
    (c.x - a.x) * (b.y - a.y) - (c.y - a.y) * (b.x - a.x)
}

/// The fixed-point screen-space point at the center of pixel `(x, y)`.
pub open spec fn pixel_point(x: int, y: int) -> Vec2 {
    Vec2 { x: (x * FX_ONE) as i64, y: (y * FX_ONE) as i64 }
}

/// Whether the directed edge `(dx, dy)` is a top or left edge: screen y
/// grows downward, so a left edge runs downward and a top edge runs
/// exactly leftward.
pub open spec fn top_left_s(dx: int, dy: int) -> bool {
    dy > 0 || (dy == 0 && dx < 0)
}

/// Whether an edge value admits a pixel: strictly inside, or exactly on
/// a top or left edge.
pub open spec fn edge_admits(e: int, dx: int, dy: int) -> bool {
    e > 0 || (e == 0 && top_left_s(dx, dy))
}

/// The edge value of pixel `(x, y)` against the edge opposite vertex 0.
pub open spec fn e0_s(s0: Vec2, s1: Vec2, s2: Vec2, x: int, y: int) -> int {
    edge_s(s1, s2, pixel_point(x, y))
}

/// The edge value of pixel `(x, y)` against the edge opposite vertex 1.
pub open spec fn e1_s(s0: Vec2, s1: Vec2, s2: Vec2, x: int, y: int) -> int {
    edge_s(s2, s0, pixel_point(x, y))
}

/// The edge value of pixel `(x, y)` against the edge opposite vertex 2.
pub open spec fn e2_s(s0: Vec2, s1: Vec2, s2: Vec2, x: int, y: int) -> int {
    edge_s(s0, s1, pixel_point(x, y))
}

/// Whether the triangle with screen positions `s0`, `s1`, `s2` covers
/// the center of pixel `(x, y)`, boundary pixels resolved by the
/// top-left fill rule.
pub open spec fn covered_s(s0: Vec2, s1: Vec2, s2: Vec2, x: int, y: int) -> bool {
    edge_admits(e0_s(s0, s1, s2, x, y), s2.x - s1.x, s2.y - s1.y) && edge_admits(
        e1_s(s0, s1, s2, x, y),
        s0.x - s2.x,
        s0.y - s2.y,
    ) && edge_admits(e2_s(s0, s1, s2, x, y), s1.x - s0.x, s1.y - s0.y)
}

/// A barycentric weight in fixed point: the ratio of one pixel edge
/// value to the edge total.
pub open spec fn weight_s(e: int, et: int) -> int {
    tdiv(e * FX_ONE, et)
}

/// The screen-space x coordinate of a clip position: the perspective
/// divide scaled by half the viewport width, shifted to a left origin.
pub open spec fn screen_x_s(c: Vec4, width: int) -> int {
    tdiv(c.x * width * FX_ONE, 2 * c.w) + width * (FX_ONE / 2)
}

/// The screen-space y coordinate of a clip position, with the sign flip
/// that puts the origin at the top-left corner.
pub open spec fn screen_y_s(c: Vec4, height: int) -> int {
    tdiv(-c.y * height * FX_ONE, 2 * c.w) + height * (FX_ONE / 2)
}

/// The screen position of a clip position on a viewport.
pub open spec fn screen_of(c: Vec4, width: int, height: int) -> Vec2 {
    Vec2 { x: screen_x_s(c, width) as i64, y: screen_y_s(c, height) as i64 }
}

/// A clip position the fixed-point pipeline can carry: components in
/// range, in front of the near plane, and a usable perspective divisor.
pub open spec fn clip_ok(c: Vec4) -> bool {
    c.wf() && c.z >= 0 && mag(c.w as int) >= W_MIN
}

/// Whether a clip position's screen coordinates stay within the guarded
/// coordinate range.
pub open spec fn coords_ok(c: Vec4, width: int, height: int) -> bool {
    mag(screen_x_s(c, width)) <= COORD_MAX && mag(screen_y_s(c, height)) <= COORD_MAX
}

/// The interpolated reciprocal perspective divisor at pixel `(x, y)`.
pub open spec fn invw_s(c0: Vec4, c1: Vec4, c2: Vec4, s0: Vec2, s1: Vec2, s2: Vec2, x: int, y: int) -> int {
    let et = edge_s(s0, s1, s2);
    blend_s(
        corr_s(FX_ONE as int, c0.w as int),
        corr_s(FX_ONE as int, c1.w as int),
        corr_s(FX_ONE as int, c2.w as int),
        weight_s(e0_s(s0, s1, s2, x, y), et),
        weight_s(e1_s(s0, s1, s2, x, y), et),
        weight_s(e2_s(s0, s1, s2, x, y), et),
    )
}

/// The interpolated depth at pixel `(x, y)`: the barycentric blend of
/// the vertices' `z / w`.
pub open spec fn depth_at_s(c0: Vec4, c1: Vec4, c2: Vec4, s0: Vec2, s1: Vec2, s2: Vec2, x: int, y: int) -> int {
    let et = edge_s(s0, s1, s2);
    blend_s(
        corr_s(c0.z as int, c0.w as int),
        corr_s(c1.z as int, c1.w as int),
        corr_s(c2.z as int, c2.w as int),
        weight_s(e0_s(s0, s1, s2, x, y), et),
        weight_s(e1_s(s0, s1, s2, x, y), et),
        weight_s(e2_s(s0, s1, s2, x, y), et),
    )
}

/// The perspective-correct varying bundle at pixel `(x, y)`.
pub open spec fn varying_at_s<TVar: Interpolate>(
    c0: Vec4,
    c1: Vec4,
    c2: Vec4,
    va0: TVar,
    va1: TVar,
    va2: TVar,
    s0: Vec2,
    s1: Vec2,
    s2: Vec2,
    x: int,
    y: int,
) -> TVar {
    let et = edge_s(s0, s1, s2);
    TVar::interpolate_spec(
        TVar::correct_spec(va0, c0.w as int),
        TVar::correct_spec(va1, c1.w as int),
        TVar::correct_spec(va2, c2.w as int),
        weight_s(e0_s(s0, s1, s2, x, y), et),
        weight_s(e1_s(s0, s1, s2, x, y), et),
        weight_s(e2_s(s0, s1, s2, x, y), et),
        invw_s(c0, c1, c2, s0, s1, s2, x, y),
    )
}

/// Whether pixel `(x, y)` is shaded: covered, a usable interpolated
/// reciprocal divisor, and nearer than the depth `od` stored before the
/// draw call.
pub open spec fn pass_s(
    c0: Vec4,
    c1: Vec4,
    c2: Vec4,
    s0: Vec2,
    s1: Vec2,
    s2: Vec2,
    x: int,
    y: int,
    od: int,
) -> bool {
    covered_s(s0, s1, s2, x, y) && 1 <= invw_s(c0, c1, c2, s0, s1, s2, x, y)
        <= crate::fixed::INVW_MAX && depth_at_s(c0, c1, c2, s0, s1, s2, x, y) < od
}

/// Whether a triangle reaches scan conversion at all: every clip
/// position and varying in range, every screen coordinate within the
/// guarded range, and a positive (front-facing, non-degenerate) edge
/// total.
pub open spec fn drawn_s<VP, TU, TV, TVar>(
    vp: VP,
    u: TU,
    v0: TV,
    v1: TV,
    v2: TV,
    width: int,
    height: int,
) -> bool where VP: VertexProgram<Uniform = TU, Vertex = TV, Varying = TVar>, TVar: Interpolate {
    let c0 = vp.clip_spec(u, v0);
    let c1 = vp.clip_spec(u, v1);
    let c2 = vp.clip_spec(u, v2);
    clip_ok(c0) && clip_ok(c1) && clip_ok(c2) && vp.varying_spec(u, v0).wf() && vp.varying_spec(
        u,
        v1,
    ).wf() && vp.varying_spec(u, v2).wf() && coords_ok(c0, width, height) && coords_ok(
        c1,
        width,
        height,
    ) && coords_ok(c2, width, height) && edge_s(
        screen_of(c0, width, height),
        screen_of(c1, width, height),
        screen_of(c2, width, height),
    ) > 0
}

/// The word a target of type `TT` holds at a shaded pixel: the fragment
/// program's color for the interpolated varyings, encoded by the target.
pub open spec fn shaded_word_s<FP, TU, TVar, TT>(
    fp: FP,
    u: TU,
    c0: Vec4,
    c1: Vec4,
    c2: Vec4,
    va0: TVar,
    va1: TVar,
    va2: TVar,
    s0: Vec2,
    s1: Vec2,
    s2: Vec2,
    x: int,
    y: int,
) -> u32 where
    FP: FragmentProgram<Uniform = TU, Varying = TVar>,
    TVar: Interpolate,
    TT: TargetBuffer,
{
    TT::encode_spec(fp.frag_spec(u, varying_at_s(c0, c1, c2, va0, va1, va2, s0, s1, s2, x, y)))
}

/// Expansion of a product of two differences into monomials.
proof fn lemma_mul_expand(a: int, b: int, c: int, d: int)
    by (nonlinear_arith)
    ensures
        (a - b) * (c - d) == a * c - a * d - b * c + b * d,
{
}

/// The three pixel edge values sum to the edge total, at every point.
pub proof fn lemma_edge_sum(s0: Vec2, s1: Vec2, s2: Vec2, p: Vec2)
    ensures
        edge_s(s1, s2, p) + edge_s(s2, s0, p) + edge_s(s0, s1, p) == edge_s(s0, s1, s2),
{
    broadcast use vstd::arithmetic::mul::lemma_mul_is_commutative;

    let x0 = s0.x as int;
    let y0 = s0.y as int;
    let x1 = s1.x as int;
    let y1 = s1.y as int;
    let x2 = s2.x as int;
    let y2 = s2.y as int;
    let px = p.x as int;
    let py = p.y as int;
    lemma_mul_expand(px, x1, y2, y1);
    lemma_mul_expand(py, y1, x2, x1);
    lemma_mul_expand(px, x2, y0, y2);
    lemma_mul_expand(py, y2, x0, x2);
    lemma_mul_expand(px, x0, y1, y0);
    lemma_mul_expand(py, y0, x1, x0);
    lemma_mul_expand(x2, x0, y1, y0);
    lemma_mul_expand(y2, y0, x1, x0);
}

/// A weight formed from an edge value between zero and the edge total
/// lies in the fixed-point unit interval.
pub proof fn lemma_weight_unit(e: int, et: int)
    requires
        0 <= e <= et,
        et > 0,
    ensures
        0 <= weight_s(e, et) <= FX_ONE,
{
    lemma_tdiv_mag(e * FX_ONE, et);
    assert(e * FX_ONE >= 0 && e * FX_ONE <= et * FX_ONE) by (nonlinear_arith)
        requires
            0 <= e <= et;
    vstd::arithmetic::div_mod::lemma_div_pos_is_pos(e * FX_ONE, et);
    vstd::arithmetic::div_mod::lemma_div_is_ordered(e * FX_ONE, et * FX_ONE, et);
    vstd::arithmetic::div_mod::lemma_div_by_multiple(FX_ONE as int, et);
    assert(et * FX_ONE == FX_ONE * et) by (nonlinear_arith);
}

/// The signed edge function of a screen triangle, as executable code.
pub fn edge(a: &Vec2, b: &Vec2, c: &Vec2) -> (e: i64)
    requires
        mag(a.x as int) <= COORD_MAX,
        mag(a.y as int) <= COORD_MAX,
        mag(b.x as int) <= COORD_MAX,
        mag(b.y as int) <= COORD_MAX,
        mag(c.x as int) <= COORD_MAX,
        mag(c.y as int) <= COORD_MAX,
    ensures
        e == edge_s(*a, *b, *c),
        mag(e as int) <= 0x2000_0000_0000_0000,
{
    proof {
        assert((c.x - a.x) * (b.y - a.y) - (c.y - a.y) * (b.x - a.x) <= 0x2000_0000_0000_0000
            && (c.x - a.x) * (b.y - a.y) - (c.y - a.y) * (b.x - a.x) >= -0x2000_0000_0000_0000
            && mag((c.x - a.x) * (b.y - a.y)) <= 0x1000_0000_0000_0000 && mag(
            (c.y - a.y) * (b.x - a.x),
        ) <= 0x1000_0000_0000_0000) by (nonlinear_arith)
            requires
                mag(a.x as int) <= COORD_MAX,
                mag(a.y as int) <= COORD_MAX,
                mag(b.x as int) <= COORD_MAX,
                mag(b.y as int) <= COORD_MAX,
                mag(c.x as int) <= COORD_MAX,
                mag(c.y as int) <= COORD_MAX;
    }
    (c.x - a.x) * (b.y - a.y) - (c.y - a.y) * (b.x - a.x)
}

/// One barycentric weight: the ratio of a pixel edge value to the edge
/// total, in fixed point.
pub fn weight_of(e: i64, et: i64) -> (r: i64)
    requires
        0 <= e <= et,
        0 < et <= 0x2000_0000_0000_0000,
    ensures
        r == weight_s(e as int, et as int),
        0 <= r <= FX_ONE,
{
    proof {
        lemma_weight_unit(e as int, et as int);
    }
    let q: i128 = div_trunc_wide((e as i128) * (FX_ONE as i128), et as i128);
    q as i64
}

/// Whether a clip position can enter the fixed-point pipeline.
pub fn clip_check(c: &Vec4) -> (b: bool)
    ensures
        b == clip_ok(*c),
{
    -VAL_MAX <= c.x && c.x <= VAL_MAX && -VAL_MAX <= c.y && c.y <= VAL_MAX && -VAL_MAX <= c.z
        && c.z <= VAL_MAX && -VAL_MAX <= c.w && c.w <= VAL_MAX && c.z >= 0 && (c.w >= W_MIN || c.w
        <= -W_MIN)
}

/// Maps a clip position onto the viewport, or reports that its screen
/// coordinates fall outside the guarded range.
pub fn screen_map(c: &Vec4, width: i64, height: i64) -> (r: Option<Vec2>)
    requires
        clip_ok(*c),
        1 <= width <= 4096,
        1 <= height <= 4096,
    ensures
        match r {
            Some(s) => {
                &&& s == screen_of(*c, width as int, height as int)
                &&& coords_ok(*c, width as int, height as int)
            },
            None => !coords_ok(*c, width as int, height as int),
        },
{
    proof {
        assert(mag((c.x as int) * (width as int) * (FX_ONE as int)) <= 0x800_0000_0000_0000_0000
            && mag((-(c.y as int)) * (height as int) * (FX_ONE as int))
            <= 0x800_0000_0000_0000_0000 && mag((c.x as int) * (width as int)) <= 0x8_0000_0000_0000
            && mag((-(c.y as int)) * (height as int)) <= 0x8_0000_0000_0000) by (nonlinear_arith)
            requires
                mag(c.x as int) <= VAL_MAX,
                mag(c.y as int) <= VAL_MAX,
                1 <= width <= 4096,
                1 <= height <= 4096;
    }
    let qx: i128 = div_trunc_wide(
        (c.x as i128) * (width as i128) * (FX_ONE as i128),
        2 * (c.w as i128),
    );
    proof {
        assert(mag(qx as int) <= 0x800_0000_0000_0000_0000);
    }
    let sx: i128 = qx + (width as i128) * 32768;
    let qy: i128 = div_trunc_wide(
        (-(c.y as i128)) * (height as i128) * (FX_ONE as i128),
        2 * (c.w as i128),
    );
    proof {
        assert(mag(qy as int) <= 0x800_0000_0000_0000_0000);
    }
    let sy: i128 = qy + (height as i128) * 32768;
    proof {
        assert(sx == screen_x_s(*c, width as int) && sy == screen_y_s(*c, height as int));
    }
    if sx > COORD_MAX as i128 || sx < -(COORD_MAX as i128) || sy > COORD_MAX as i128 || sy < -(
    COORD_MAX as i128) {
        None
    } else {
        Some(Vec2 { x: sx as i64, y: sy as i64 })
    }
}

/// The outcome required of one pixel by one draw call: shaded with the
/// interpolated depth and the fragment program's encoded color when the
/// pixel passes, untouched otherwise.
pub open spec fn pixel_outcome_s<FP, TU, TVar, TT>(
    fp: FP,
    u: TU,
    c0: Vec4,
    c1: Vec4,
    c2: Vec4,
    va0: TVar,
    va1: TVar,
    va2: TVar,
    s0: Vec2,
    s1: Vec2,
    s2: Vec2,
    od: int,
    ot: u32,
    nd: int,
    nt: u32,
    x: int,
    y: int,
) -> bool where
    FP: FragmentProgram<Uniform = TU, Varying = TVar>,
    TVar: Interpolate,
    TT: TargetBuffer,
{
    if pass_s(c0, c1, c2, s0, s1, s2, x, y, od) {
        nd == depth_at_s(c0, c1, c2, s0, s1, s2, x, y) && nt == shaded_word_s::<FP, TU, TVar, TT>(
            fp,
            u,
            c0,
            c1,
            c2,
            va0,
            va1,
            va2,
            s0,
            s1,
            s2,
            x,
            y,
        )
    } else {
        nd == od && nt == ot
    }
}

/// The scan-conversion engine.  See the module documentation.
pub struct Raster;

impl Raster {
    /// Rasterizes one triangle.
    ///
    /// The contract enumerates the outcome of every viewport pixel.  If
    /// the triangle is discarded (a clip position or varying out of
    /// range, a near-plane reject, screen coordinates outside the
    /// guarded range, or a non-positive edge total: back-facing or
    /// degenerate), nothing changes.  Otherwise a pixel is shaded if
    /// and only if its center is covered under the top-left fill rule,
    /// the interpolated reciprocal divisor is usable, and the
    /// interpolated depth is nearer than the stored one; a shaded pixel
    /// takes exactly the interpolated depth and the encoded color of
    /// the fragment program at the perspective-correct varyings, and
    /// every other pixel keeps its depth and color.
    #[verifier::loop_isolation(false)]
    #[verifier::rlimit(100)]
    pub fn triangle<VP, FP, TU, TV, TVar, TT>(
        vertex: &VP,
        fragment: &FP,
        depth: &mut DepthBuffer,
        target: &mut TT,
        uniform: &TU,
        vertex_0: &TV,
        vertex_1: &TV,
        vertex_2: &TV,
    ) where
        VP: VertexProgram<Uniform = TU, Vertex = TV, Varying = TVar>,
        FP: FragmentProgram<Uniform = TU, Varying = TVar>,
        TVar: Interpolate,
        TT: TargetBuffer,

        requires
            old(depth).wf(),
            old(target).t_wf(),
            old(depth).width == old(target).t_width(),
            old(depth).height == old(target).t_height(),
            1 <= old(depth).width <= 4096,
            1 <= old(depth).height <= 4096,
        ensures
            final(depth).wf(),
            final(target).t_wf(),
            final(depth).width == old(depth).width,
            final(depth).height == old(depth).height,
            final(target).t_width() == old(target).t_width(),
            final(target).t_height() == old(target).t_height(),
            !drawn_s::<VP, TU, TV, TVar>(
                *vertex,
                *uniform,
                *vertex_0,
                *vertex_1,
                *vertex_2,
                old(depth).width as int,
                old(depth).height as int,
            ) ==> final(depth).data@ == old(depth).data@ && (forall|i: int, j: int|
                0 <= i < old(depth).width && 0 <= j < old(depth).height ==> final(target).pixel(
                    i,
                    j,
                ) == old(target).pixel(i, j)),
            drawn_s::<VP, TU, TV, TVar>(
                *vertex,
                *uniform,
                *vertex_0,
                *vertex_1,
                *vertex_2,
                old(depth).width as int,
                old(depth).height as int,
            ) ==> (forall|i: int, j: int|
                0 <= i < old(depth).width && 0 <= j < old(depth).height
                    ==> #[trigger] pixel_outcome_s::<FP, TU, TVar, TT>(
                    *fragment,
                    *uniform,
                    vertex.clip_spec(*uniform, *vertex_0),
                    vertex.clip_spec(*uniform, *vertex_1),
                    vertex.clip_spec(*uniform, *vertex_2),
                    vertex.varying_spec(*uniform, *vertex_0),
                    vertex.varying_spec(*uniform, *vertex_1),
                    vertex.varying_spec(*uniform, *vertex_2),
                    screen_of(
                        vertex.clip_spec(*uniform, *vertex_0),
                        old(depth).width as int,
                        old(depth).height as int,
                    ),
                    screen_of(
                        vertex.clip_spec(*uniform, *vertex_1),
                        old(depth).width as int,
                        old(depth).height as int,
                    ),
                    screen_of(
                        vertex.clip_spec(*uniform, *vertex_2),
                        old(depth).width as int,
                        old(depth).height as int,
                    ),
                    old(depth).at(i, j),
                    old(target).pixel(i, j),
                    final(depth).at(i, j),
                    final(target).pixel(i, j),
                    i,
                    j,
                )),
    {
        let width: usize = depth.width;
        let height: usize = depth.height;

        let mut va0 = TVar::new();
        let mut va1 = TVar::new();
        let mut va2 = TVar::new();
        let c0 = vertex.main(uniform, vertex_0, &mut va0);
        let c1 = vertex.main(uniform, vertex_1, &mut va1);
        let c2 = vertex.main(uniform, vertex_2, &mut va2);

        // trivially reject triangles the fixed-point pipeline cannot carry
        if !(clip_check(&c0) && clip_check(&c1) && clip_check(&c2)) {
            return ;
        }
        if !(va0.in_range() && va1.in_range() && va2.in_range()) {
            return ;
        }
        // screen mapping, guarded against out-of-range coordinates
        let wpx: i64 = width as i64;
        let hpx: i64 = height as i64;
        let s0 = match screen_map(&c0, wpx, hpx) {
            Some(s) => s,
            None => {
                return ;
            },
        };
        let s1 = match screen_map(&c1, wpx, hpx) {
            Some(s) => s,
            None => {
                return ;
            },
        };
        let s2 = match screen_map(&c2, wpx, hpx) {
            Some(s) => s,
            None => {
                return ;
            },
        };
        // winding and degeneracy cull
        let et = edge(&s0, &s1, &s2);
        if et <= 0 {
            return ;
        }

        // per-vertex perspective correction
        let cva0 = TVar::correct(&va0, &c0.w);
        let cva1 = TVar::correct(&va1, &c1.w);
        let cva2 = TVar::correct(&va2, &c2.w);
        let iw0: i64 = fx_correct(FX_ONE, c0.w);
        let iw1: i64 = fx_correct(FX_ONE, c1.w);
        let iw2: i64 = fx_correct(FX_ONE, c2.w);
        let z0: i64 = fx_correct(c0.z, c0.w);
        let z1: i64 = fx_correct(c1.z, c1.w);
        let z2: i64 = fx_correct(c2.z, c2.w);

        let ghost depth0 = *depth;
        let ghost target0 = *target;

        let mut y: usize = 0;
        while y < height
            invariant
                y <= height,
                depth.wf(),
                depth.width == width,
                depth.height == height,
                target.t_wf(),
                target.t_width() == width as int,
                target.t_height() == height as int,
                forall|i: int, j: int|
                    #![trigger depth0.at(i, j)]
                    #![trigger target0.pixel(i, j)]
                    0 <= i < width && 0 <= j < height && j < y ==> pixel_outcome_s::<
                        FP,
                        TU,
                        TVar,
                        TT,
                    >(
                        *fragment,
                        *uniform,
                        c0,
                        c1,
                        c2,
                        vertex.varying_spec(*uniform, *vertex_0),
                        vertex.varying_spec(*uniform, *vertex_1),
                        vertex.varying_spec(*uniform, *vertex_2),
                        s0,
                        s1,
                        s2,
                        depth0.at(i, j),
                        target0.pixel(i, j),
                        depth.at(i, j),
                        target.pixel(i, j),
                        i,
                        j,
                    ),
                forall|i: int, j: int|
                    #![trigger depth0.at(i, j)]
                    #![trigger target0.pixel(i, j)]
                    0 <= i < width && 0 <= j < height && !(j < y) ==> depth.at(i, j) == depth0.at(
                        i,
                        j,
                    ) && target.pixel(i, j) == target0.pixel(i, j),
            decreases height - y,
        {
            let mut x: usize = 0;
            while x < width
                invariant
                    x <= width,
                    y < height,
                    depth.wf(),
                    depth.width == width,
                    depth.height == height,
                    target.t_wf(),
                    target.t_width() == width as int,
                    target.t_height() == height as int,
                    forall|i: int, j: int|
                        #![trigger depth0.at(i, j)]
                        #![trigger target0.pixel(i, j)]
                        0 <= i < width && 0 <= j < height && (j < y || (j == y && i < x))
                            ==> pixel_outcome_s::<FP, TU, TVar, TT>(
                            *fragment,
                            *uniform,
                            c0,
                            c1,
                            c2,
                            vertex.varying_spec(*uniform, *vertex_0),
                            vertex.varying_spec(*uniform, *vertex_1),
                            vertex.varying_spec(*uniform, *vertex_2),
                            s0,
                            s1,
                            s2,
                            depth0.at(i, j),
                            target0.pixel(i, j),
                            depth.at(i, j),
                            target.pixel(i, j),
                            i,
                            j,
                        ),
                    forall|i: int, j: int|
                        #![trigger depth0.at(i, j)]
                        #![trigger target0.pixel(i, j)]
                        0 <= i < width && 0 <= j < height && !(j < y || (j == y && i < x))
                            ==> depth.at(i, j) == depth0.at(i, j) && target.pixel(i, j)
                            == target0.pixel(i, j),
                decreases width - x,
            {
                let ghost depth_pre = *depth;
                let ghost target_pre = *target;
                let ghost gva0 = vertex.varying_spec(*uniform, *vertex_0);
                let ghost gva1 = vertex.varying_spec(*uniform, *vertex_1);
                let ghost gva2 = vertex.varying_spec(*uniform, *vertex_2);
                let px: i64 = (x as i64) * FX_ONE;
                let py: i64 = (y as i64) * FX_ONE;
                let p = Vec2 { x: px, y: py };
                proof {
                    assert(p == pixel_point(x as int, y as int));
                }
                let e0 = edge(&s1, &s2, &p);
                let e1 = edge(&s2, &s0, &p);
                let e2 = edge(&s0, &s1, &p);
                let adm0: bool = e0 > 0 || (e0 == 0 && (s2.y - s1.y > 0 || (s2.y - s1.y == 0
                    && s2.x - s1.x < 0)));
                let adm1: bool = e1 > 0 || (e1 == 0 && (s0.y - s2.y > 0 || (s0.y - s2.y == 0
                    && s0.x - s2.x < 0)));
                let adm2: bool = e2 > 0 || (e2 == 0 && (s1.y - s0.y > 0 || (s1.y - s0.y == 0
                    && s1.x - s0.x < 0)));
                proof {
                    assert((adm0 && adm1 && adm2) == covered_s(s0, s1, s2, x as int, y as int));
                }
                if adm0 && adm1 && adm2 {
                    proof {
                        lemma_edge_sum(s0, s1, s2, p);
                    }
                    let w0: i64 = weight_of(e0, et);
                    let w1: i64 = weight_of(e1, et);
                    let w2: i64 = weight_of(e2, et);
                    proof {
                        lemma_blend_products_bounded(
                            w0 as int,
                            w1 as int,
                            w2 as int,
                            iw0 as int,
                            iw1 as int,
                            iw2 as int,
                        );
                        lemma_blend_products_bounded(
                            w0 as int,
                            w1 as int,
                            w2 as int,
                            z0 as int,
                            z1 as int,
                            z2 as int,
                        );
                    }
                    let iwsum: i64 = w0 * iw0 + w1 * iw1 + w2 * iw2;
                    let iw: i64 = div_trunc(iwsum, FX_ONE);
                    let zsum: i64 = w0 * z0 + w1 * z1 + w2 * z2;
                    let d: i64 = div_trunc(zsum, FX_ONE);
                    proof {
                        assert(iw == invw_s(c0, c1, c2, s0, s1, s2, x as int, y as int));
                        assert(d == depth_at_s(c0, c1, c2, s0, s1, s2, x as int, y as int));
                    }
                    if 1 <= iw && iw <= crate::fixed::INVW_MAX {
                        let od: i64 = depth.get(x, y);
                        proof {
                            assert(od == depth0.at(x as int, y as int));
                        }
                        if d < od {
                            depth.set(x, y, d);
                            let varying = TVar::interpolate(
                                &cva0,
                                &cva1,
                                &cva2,
                                &w0,
                                &w1,
                                &w2,
                                &iw,
                            );
                            let color = fragment.main(uniform, &varying);
                            target.set(x as i32, y as i32, color);
                            proof {
                                assert(varying == varying_at_s(
                                    c0,
                                    c1,
                                    c2,
                                    gva0,
                                    gva1,
                                    gva2,
                                    s0,
                                    s1,
                                    s2,
                                    x as int,
                                    y as int,
                                ));
                                assert(pass_s(
                                    c0,
                                    c1,
                                    c2,
                                    s0,
                                    s1,
                                    s2,
                                    x as int,
                                    y as int,
                                    depth0.at(x as int, y as int),
                                ));
                                lemma_frame_after_write(depth_pre, *depth, x as int, y as int);
                            }
                        } else {
                            proof {
                                assert(!pass_s(
                                    c0,
                                    c1,
                                    c2,
                                    s0,
                                    s1,
                                    s2,
                                    x as int,
                                    y as int,
                                    depth0.at(x as int, y as int),
                                ));
                            }
                        }
                    } else {
                        proof {
                            assert(!pass_s(
                                c0,
                                c1,
                                c2,
                                s0,
                                s1,
                                s2,
                                x as int,
                                y as int,
                                depth0.at(x as int, y as int),
                            ));
                        }
                    }
                } else {
                    proof {
                        assert(!pass_s(
                            c0,
                            c1,
                            c2,
                            s0,
                            s1,
                            s2,
                            x as int,
                            y as int,
                            depth0.at(x as int, y as int),
                        ));
                    }
                }
                proof {
                    assert(pixel_outcome_s::<FP, TU, TVar, TT>(
                        *fragment,
                        *uniform,
                        c0,
                        c1,
                        c2,
                        gva0,
                        gva1,
                        gva2,
                        s0,
                        s1,
                        s2,
                        depth0.at(x as int, y as int),
                        target0.pixel(x as int, y as int),
                        depth.at(x as int, y as int),
                        target.pixel(x as int, y as int),
                        x as int,
                        y as int,
                    ));
                    assert forall|i: int, j: int|
                        0 <= i < width && 0 <= j < height && !(i == x && j == y) implies depth.at(
                        i,
                        j,
                    ) == depth_pre.at(i, j) && target.pixel(i, j) == target_pre.pixel(i, j) by {
                        crate::depth::lemma_row_major_index_in_range(
                            i,
                            j,
                            width as int,
                            height as int,
                        );
                        crate::depth::lemma_row_major_index_in_range(
                            x as int,
                            y as int,
                            width as int,
                            height as int,
                        );
                        crate::target::lemma_row_major_index_injective(
                            i,
                            j,
                            x as int,
                            y as int,
                            width as int,
                        );
                    }
                }
                proof {
                    assert forall|i: int, j: int|
                        #![trigger depth0.at(i, j)]
                        #![trigger target0.pixel(i, j)]
                        0 <= i < width && 0 <= j < height && (j < y || (j == y && i < x
                            + 1)) implies pixel_outcome_s::<FP, TU, TVar, TT>(
                        *fragment,
                        *uniform,
                        c0,
                        c1,
                        c2,
                        gva0,
                        gva1,
                        gva2,
                        s0,
                        s1,
                        s2,
                        depth0.at(i, j),
                        target0.pixel(i, j),
                        depth.at(i, j),
                        target.pixel(i, j),
                        i,
                        j,
                    ) by {
                        if !(i == x && j == y) {
                            assert(pixel_outcome_s::<FP, TU, TVar, TT>(
                                *fragment,
                                *uniform,
                                c0,
                                c1,
                                c2,
                                gva0,
                                gva1,
                                gva2,
                                s0,
                                s1,
                                s2,
                                depth0.at(i, j),
                                target0.pixel(i, j),
                                depth_pre.at(i, j),
                                target_pre.pixel(i, j),
                                i,
                                j,
                            ));
                            assert(depth.at(i, j) == depth_pre.at(i, j) && target.pixel(i, j)
                                == target_pre.pixel(i, j));
                        }
                    }
                    assert forall|i: int, j: int|
                        #![trigger depth0.at(i, j)]
                        #![trigger target0.pixel(i, j)]
                        0 <= i < width && 0 <= j < height && !(j < y || (j == y && i < x
                            + 1)) implies depth.at(i, j) == depth0.at(i, j) && target.pixel(i, j)
                        == target0.pixel(i, j) by {
                        assert(!(j < y || (j == y && i < x)));
                        assert(depth_pre.at(i, j) == depth0.at(i, j));
                        assert(target_pre.pixel(i, j) == target0.pixel(i, j));
                        assert(depth.at(i, j) == depth_pre.at(i, j) && target.pixel(i, j)
                            == target_pre.pixel(i, j));
                    }
                }
                x = x + 1;
            }
            y = y + 1;
        }
    }
}

/// The blend of three corrected values at unit-interval weights stays
/// within 64-bit products.
proof fn lemma_blend_products_bounded(w0: int, w1: int, w2: int, f0: int, f1: int, f2: int)
    by (nonlinear_arith)
    requires
        0 <= w0 <= FX_ONE,
        0 <= w1 <= FX_ONE,
        0 <= w2 <= FX_ONE,
        crate::fixed::fx_corr(f0),
        crate::fixed::fx_corr(f1),
        crate::fixed::fx_corr(f2),
    ensures
        mag(w0 * f0) <= 0x100_0000_0000_0000,
        mag(w1 * f1) <= 0x100_0000_0000_0000,
        mag(w2 * f2) <= 0x100_0000_0000_0000,
{
}

/// Writing one depth cell leaves every other pixel's stored depth as it
/// was.
proof fn lemma_frame_after_write(before: DepthBuffer, after: DepthBuffer, x: int, y: int)
    requires
        before.wf(),
        after.wf(),
        after.width == before.width,
        after.height == before.height,
        0 <= x < before.width,
        0 <= y < before.height,
        after.data@ == before.data@.update(x + y * before.width, after.data@[x + y * before.width]),
    ensures
        forall|i: int, j: int|
            0 <= i < before.width && 0 <= j < before.height && !(i == x && j == y)
                ==> after.at(i, j) == before.at(i, j),
{
    assert forall|i: int, j: int|
        0 <= i < before.width && 0 <= j < before.height && !(i == x && j == y) implies after.at(
        i,
        j,
    ) == before.at(i, j) by {
        crate::depth::lemma_row_major_index_in_range(i, j, before.width as int, before.height as int);
        crate::depth::lemma_row_major_index_in_range(x, y, before.width as int, before.height as int);
        crate::target::lemma_row_major_index_injective(i, j, x, y, before.width as int);
    }
}

/// At a covered pixel of a front-facing triangle, the three pixel edge
/// values are nonnegative and sum exactly to the edge total, so the
/// three barycentric weights each lie in the fixed-point unit interval
/// and their exact rational counterparts sum to one.
pub proof fn lemma_covered_weights_unit(s0: Vec2, s1: Vec2, s2: Vec2, x: int, y: int)
    requires
        covered_s(s0, s1, s2, x, y),
        edge_s(s0, s1, s2) > 0,
    ensures
        0 <= e0_s(s0, s1, s2, x, y),
        0 <= e1_s(s0, s1, s2, x, y),
        0 <= e2_s(s0, s1, s2, x, y),
        e0_s(s0, s1, s2, x, y) + e1_s(s0, s1, s2, x, y) + e2_s(s0, s1, s2, x, y) == edge_s(
            s0,
            s1,
            s2,
        ),
        crate::fixed::fx_weight(weight_s(e0_s(s0, s1, s2, x, y), edge_s(s0, s1, s2))),
        crate::fixed::fx_weight(weight_s(e1_s(s0, s1, s2, x, y), edge_s(s0, s1, s2))),
        crate::fixed::fx_weight(weight_s(e2_s(s0, s1, s2, x, y), edge_s(s0, s1, s2))),
{
    lemma_edge_sum(s0, s1, s2, pixel_point(x, y));
    lemma_weight_unit(e0_s(s0, s1, s2, x, y), edge_s(s0, s1, s2));
    lemma_weight_unit(e1_s(s0, s1, s2, x, y), edge_s(s0, s1, s2));
    lemma_weight_unit(e2_s(s0, s1, s2, x, y), edge_s(s0, s1, s2));
}

/// Exchanging two arguments of the edge function flips its sign: the
/// three exchanges of the triangle's vertices each negate the total.
pub proof fn lemma_edge_swap(a: Vec2, b: Vec2, c: Vec2)
    ensures
        edge_s(b, a, c) == -edge_s(a, b, c),
        edge_s(a, c, b) == -edge_s(a, b, c),
        edge_s(c, b, a) == -edge_s(a, b, c),
{
    broadcast use vstd::arithmetic::mul::lemma_mul_is_commutative;

    lemma_mul_expand(c.x as int, a.x as int, b.y as int, a.y as int);
    lemma_mul_expand(c.y as int, a.y as int, b.x as int, a.x as int);
    lemma_mul_expand(c.x as int, b.x as int, a.y as int, b.y as int);
    lemma_mul_expand(c.y as int, b.y as int, a.x as int, b.x as int);
    lemma_mul_expand(b.x as int, a.x as int, c.y as int, a.y as int);
    lemma_mul_expand(b.y as int, a.y as int, c.x as int, a.x as int);
    lemma_mul_expand(a.x as int, c.x as int, b.y as int, c.y as int);
    lemma_mul_expand(a.y as int, c.y as int, b.x as int, c.x as int);
}

/// Submitting a triangle with any two of its three vertices exchanged
/// negates the signed edge total, so a triangle that scan-converts as
/// front-facing is culled in the exchanged order, and by this crate's
/// draw contract the exchanged call leaves the depth buffer and the
/// target untouched.
pub proof fn lemma_swapped_triangle_culled<VP, TU, TV, TVar>(
    vp: VP,
    u: TU,
    v0: TV,
    v1: TV,
    v2: TV,
    width: int,
    height: int,
) where VP: VertexProgram<Uniform = TU, Vertex = TV, Varying = TVar>, TVar: Interpolate
    requires
        drawn_s::<VP, TU, TV, TVar>(vp, u, v0, v1, v2, width, height),
    ensures
        !drawn_s::<VP, TU, TV, TVar>(vp, u, v1, v0, v2, width, height),
        !drawn_s::<VP, TU, TV, TVar>(vp, u, v0, v2, v1, width, height),
        !drawn_s::<VP, TU, TV, TVar>(vp, u, v2, v1, v0, width, height),
{
    let s0 = screen_of(vp.clip_spec(u, v0), width, height);
    let s1 = screen_of(vp.clip_spec(u, v1), width, height);
    let s2 = screen_of(vp.clip_spec(u, v2), width, height);
    lemma_edge_swap(s0, s1, s2);
}

/// Rasterizing the identical triangle a second time changes nothing:
/// after the first pass the stored depth at a shaded pixel equals the
/// triangle's own interpolated depth, so the strict nearer-wins test
/// fails at every pixel of the second pass and every pixel keeps its
/// depth and color.
pub proof fn lemma_second_pass_unchanged<FP, TU, TVar, TT>(
    fp: FP,
    u: TU,
    c0: Vec4,
    c1: Vec4,
    c2: Vec4,
    va0: TVar,
    va1: TVar,
    va2: TVar,
    s0: Vec2,
    s1: Vec2,
    s2: Vec2,
    x: int,
    y: int,
    od: int,
    ot: u32,
    nd: int,
    nt: u32,
) where
    FP: FragmentProgram<Uniform = TU, Varying = TVar>,
    TVar: Interpolate,
    TT: TargetBuffer,

    requires
        pixel_outcome_s::<FP, TU, TVar, TT>(
            fp,
            u,
            c0,
            c1,
            c2,
            va0,
            va1,
            va2,
            s0,
            s1,
            s2,
            od,
            ot,
            nd,
            nt,
            x,
            y,
        ),
    ensures
        !pass_s(c0, c1, c2, s0, s1, s2, x, y, nd),
        pixel_outcome_s::<FP, TU, TVar, TT>(
            fp,
            u,
            c0,
            c1,
            c2,
            va0,
            va1,
            va2,
            s0,
            s1,
            s2,
            nd,
            nt,
            nd,
            nt,
            x,
            y,
        ),
{
}

} // verus!
