//! The geometry transformer.
//!
//! Each frame, every model-space vertex is rotated about the X axis twice,
//! then about the Z axis, then about the Y axis — the double X application
//! is deliberate; it is part of the figure this library draws — then mapped
//! to the plane by a 2×3 projection matrix, scaled, translated to the
//! display center, and truncated to integer pixel coordinates.

use vstd::prelude::*;
use vstd::math::abs;
use crate::fixed::{FX_ONE, fx_mul_spec, fx_div_trunc, fx_mul, fx_unscale,
    lemma_fx_div_trunc_bound, lemma_abs_mul, lemma_fx_div_trunc_lipschitz,
    lemma_fx_mul_abs_le, lemma_fx_mul_pair_delta, lemma_fx_mul_one, lemma_fx_mul_zero};
use vstd::arithmetic::mul::lemma_mul_inequality;

verus! {

/// Largest magnitude accepted for a model-space coordinate (four units).
pub const COORD_LIMIT: i64 = 262144;

/// Largest magnitude accepted for the uniform screen scale factor.
pub const SCALE_LIMIT: i64 = 1024;

/// Largest magnitude accepted for a centering offset, in pixels.
pub const OFFSET_LIMIT: i64 = 32768;

/// A model-space point, in fixed-point coordinates.
#[derive(Clone, Copy, Debug)]
pub struct Vec3 {
    pub x: i64,
    pub y: i64,
    pub z: i64,
}

/// A rotation magnitude, given by the fixed-point sine and cosine of the
/// angle. The embedding program evaluates the trigonometry; the geometry
/// here is exact in these two numbers.
#[derive(Clone, Copy, Debug)]
pub struct Rotation {
    pub sin: i64,
    pub cos: i64,
}

/// A 2×3 projection matrix in fixed-point entries; row `x` then row `y`.
#[derive(Clone, Copy, Debug)]
pub struct Projection {
    pub xx: i64,
    pub xy: i64,
    pub xz: i64,
    pub yx: i64,
    pub yy: i64,
    pub yz: i64,
}

impl Vec3 {
    /// The mathematical value of the three coordinates.
    pub open spec fn as_ints(self) -> (int, int, int) {
        (self.x as int, self.y as int, self.z as int)
    }

    /// All coordinates within the model-space bound.
    pub open spec fn in_bounds(self) -> bool {
        abs(self.x as int) <= COORD_LIMIT as int
            && abs(self.y as int) <= COORD_LIMIT as int
            && abs(self.z as int) <= COORD_LIMIT as int
    }

    pub fn new(x: i64, y: i64, z: i64) -> (v: Vec3)
        ensures
            v.x == x,
            v.y == y,
            v.z == z,
    {
        Vec3 { x, y, z }
    }
}

impl Rotation {
    /// Sine and cosine are at most one unit in magnitude.
    pub open spec fn wf(self) -> bool {
        abs(self.sin as int) <= FX_ONE as int && abs(self.cos as int) <= FX_ONE as int
    }

    pub fn new(sin: i64, cos: i64) -> (r: Rotation)
        ensures
            r.sin == sin,
            r.cos == cos,
    {
        Rotation { sin, cos }
    }

    /// The rotation by angle zero: sine 0, cosine 1.
    pub fn zero() -> (r: Rotation)
        ensures
            r.sin == 0,
            r.cos == FX_ONE,
            r.wf(),
    {
        Rotation { sin: 0, cos: FX_ONE }
    }
}

impl Projection {
    /// Every entry is at most one unit in magnitude.
    pub open spec fn wf(self) -> bool {
        abs(self.xx as int) <= FX_ONE as int
            && abs(self.xy as int) <= FX_ONE as int
            && abs(self.xz as int) <= FX_ONE as int
            && abs(self.yx as int) <= FX_ONE as int
            && abs(self.yy as int) <= FX_ONE as int
            && abs(self.yz as int) <= FX_ONE as int
    }

    /// The identity submatrix: keep x and y, discard z.
    pub fn identity() -> (m: Projection)
        ensures
            m.xx == FX_ONE,
            m.xy == 0,
            m.xz == 0,
            m.yx == 0,
            m.yy == FX_ONE,
            m.yz == 0,
            m.wf(),
    {
        Projection { xx: FX_ONE, xy: 0, xz: 0, yx: 0, yy: FX_ONE, yz: 0 }
    }
}

/// Rotation about the X axis: x is kept, (y, z) turns.
pub open spec fn rot_x_spec(p: (int, int, int), s: int, c: int) -> (int, int, int) {
    (p.0, fx_mul_spec(p.1, c) - fx_mul_spec(p.2, s), fx_mul_spec(p.1, s) + fx_mul_spec(p.2, c))
}

/// Rotation about the Z axis: z is kept, (x, y) turns.
pub open spec fn rot_z_spec(p: (int, int, int), s: int, c: int) -> (int, int, int) {
    (fx_mul_spec(p.0, c) - fx_mul_spec(p.1, s), fx_mul_spec(p.0, s) + fx_mul_spec(p.1, c), p.2)
}

/// Rotation about the Y axis: y is kept, (z, x) turns.
pub open spec fn rot_y_spec(p: (int, int, int), s: int, c: int) -> (int, int, int) {
    (fx_mul_spec(p.0, c) + fx_mul_spec(p.2, s), p.1, fx_mul_spec(p.2, c) - fx_mul_spec(p.0, s))
}

/// The frame's whole rotation: X applied twice, then Z, then Y, each by the
/// same angle.
pub open spec fn transform_spec(p: (int, int, int), s: int, c: int) -> (int, int, int) {
    rot_y_spec(rot_z_spec(rot_x_spec(rot_x_spec(p, s, c), s, c), s, c), s, c)
}

/// The projection matrix applied to a rotated point.
pub open spec fn project_spec(m: Projection, p: (int, int, int)) -> (int, int) {
    (
        fx_mul_spec(p.0, m.xx as int) + fx_mul_spec(p.1, m.xy as int) + fx_mul_spec(
            p.2,
            m.xz as int,
        ),
        fx_mul_spec(p.0, m.yx as int) + fx_mul_spec(p.1, m.yy as int) + fx_mul_spec(
            p.2,
            m.yz as int,
        ),
    )
}

/// Scale a projected coordinate, translate it by the centering offset, and
/// truncate to a whole pixel.
pub open spec fn screen_map_spec(t: (int, int), scale: int, off: (int, int)) -> (int, int) {
    (
        fx_div_trunc(t.0 * scale + off.0 * (FX_ONE as int)),
        fx_div_trunc(t.1 * scale + off.1 * (FX_ONE as int)),
    )
}

/// The full per-vertex pipeline: rotate, project, scale, center, truncate.
pub open spec fn screen_vertex_spec(
    v: Vec3,
    m: Projection,
    rot: Rotation,
    scale: int,
    off: (int, int),
) -> (int, int) {
    screen_map_spec(
        project_spec(m, transform_spec(v.as_ints(), rot.sin as int, rot.cos as int)),
        scale,
        off,
    )
}

/// One rotation application about the X axis.
fn rotate_x(v: Vec3, rot: Rotation) -> (w: Vec3)
    requires
        rot.wf(),
        abs(v.x as int) <= 0x100_0000,
        abs(v.y as int) <= 0x100_0000,
        abs(v.z as int) <= 0x100_0000,
    ensures
        w.as_ints() == rot_x_spec(v.as_ints(), rot.sin as int, rot.cos as int),
        abs(w.x as int) <= abs(v.x as int),
        abs(w.y as int) <= abs(v.y as int) + abs(v.z as int),
        abs(w.z as int) <= abs(v.y as int) + abs(v.z as int),
{
    let yc = fx_mul(v.y, rot.cos);
    let zs = fx_mul(v.z, rot.sin);
    let ys = fx_mul(v.y, rot.sin);
    let zc = fx_mul(v.z, rot.cos);
    Vec3 { x: v.x, y: yc - zs, z: ys + zc }
}

/// One rotation application about the Z axis.
fn rotate_z(v: Vec3, rot: Rotation) -> (w: Vec3)
    requires
        rot.wf(),
        abs(v.x as int) <= 0x100_0000,
        abs(v.y as int) <= 0x100_0000,
        abs(v.z as int) <= 0x100_0000,
    ensures
        w.as_ints() == rot_z_spec(v.as_ints(), rot.sin as int, rot.cos as int),
        abs(w.x as int) <= abs(v.x as int) + abs(v.y as int),
        abs(w.y as int) <= abs(v.x as int) + abs(v.y as int),
        abs(w.z as int) <= abs(v.z as int),
{
    let xc = fx_mul(v.x, rot.cos);
    let ys = fx_mul(v.y, rot.sin);
    let xs = fx_mul(v.x, rot.sin);
    let yc = fx_mul(v.y, rot.cos);
    Vec3 { x: xc - ys, y: xs + yc, z: v.z }
}

/// One rotation application about the Y axis.
fn rotate_y(v: Vec3, rot: Rotation) -> (w: Vec3)
    requires
        rot.wf(),
        abs(v.x as int) <= 0x100_0000,
        abs(v.y as int) <= 0x100_0000,
        abs(v.z as int) <= 0x100_0000,
    ensures
        w.as_ints() == rot_y_spec(v.as_ints(), rot.sin as int, rot.cos as int),
        abs(w.x as int) <= abs(v.x as int) + abs(v.z as int),
        abs(w.y as int) <= abs(v.y as int),
        abs(w.z as int) <= abs(v.x as int) + abs(v.z as int),
{
    let xc = fx_mul(v.x, rot.cos);
    let zs = fx_mul(v.z, rot.sin);
    let zc = fx_mul(v.z, rot.cos);
    let xs = fx_mul(v.x, rot.sin);
    Vec3 { x: xc + zs, y: v.y, z: zc - xs }
}

/// Map one model-space vertex to its pixel for the frame.
pub fn screen_vertex(
    v: Vec3,
    m: &Projection,
    rot: &Rotation,
    scale: i64,
    off: (i64, i64),
) -> (q: (i32, i32))
    requires
        v.in_bounds(),
        m.wf(),
        rot.wf(),
        0 < scale <= SCALE_LIMIT,
        abs(off.0 as int) <= OFFSET_LIMIT as int,
        abs(off.1 as int) <= OFFSET_LIMIT as int,
    ensures
        (q.0 as int, q.1 as int) == screen_vertex_spec(
            v,
            *m,
            *rot,
            scale as int,
            (off.0 as int, off.1 as int),
        ),
{
    let r1 = rotate_x(v, *rot);
    let r2 = rotate_x(r1, *rot);
    let r3 = rotate_z(r2, *rot);
    let r4 = rotate_y(r3, *rot);
    let tx = fx_mul(r4.x, m.xx) + fx_mul(r4.y, m.xy) + fx_mul(r4.z, m.xz);
    let ty = fx_mul(r4.x, m.yx) + fx_mul(r4.y, m.yy) + fx_mul(r4.z, m.yz);
    proof {
        lemma_abs_mul(tx as int, scale as int);
        lemma_abs_mul(ty as int, scale as int);
        lemma_mul_inequality(abs(tx as int) as int, 0xC0_0000, scale as int);
        lemma_mul_inequality(abs(ty as int) as int, 0xC0_0000, scale as int);
        assert(abs(tx as int) * abs(scale as int) <= 0xC0_0000 * 1024) by (nonlinear_arith)
            requires abs(tx as int) <= 0xC0_0000, 0 < scale <= 1024;
        assert(abs(ty as int) * abs(scale as int) <= 0xC0_0000 * 1024) by (nonlinear_arith)
            requires abs(ty as int) <= 0xC0_0000, 0 < scale <= 1024;
    }
    let sx: i64 = tx * scale + off.0 * FX_ONE;
    let sy: i64 = ty * scale + off.1 * FX_ONE;
    proof {
        lemma_fx_div_trunc_bound(sx as int, 0x10_0000);
        lemma_fx_div_trunc_bound(sy as int, 0x10_0000);
    }
    let px: i64 = fx_unscale(sx);
    let py: i64 = fx_unscale(sy);
    (px as i32, py as i32)
}

/// Map a whole vertex sequence to screen space. The result has the same
/// length as the input, and position `i` of the output is the screen image
/// of position `i` of the input.
pub fn calculate_vertices(
    points: &Vec<Vec3>,
    m: &Projection,
    rot: &Rotation,
    scale: i64,
    off: (i64, i64),
) -> (r: Vec<(i32, i32)>)
    requires
        forall|i: int| 0 <= i < points@.len() ==> points@[i].in_bounds(),
        m.wf(),
        rot.wf(),
        0 < scale <= SCALE_LIMIT,
        abs(off.0 as int) <= OFFSET_LIMIT as int,
        abs(off.1 as int) <= OFFSET_LIMIT as int,
    ensures
        r@.len() == points@.len(),
        forall|i: int|
            0 <= i < points@.len() ==> (#[trigger] r@[i].0 as int, r@[i].1 as int)
                == screen_vertex_spec(
                points@[i],
                *m,
                *rot,
                scale as int,
                (off.0 as int, off.1 as int),
            ),
{
    let mut r: Vec<(i32, i32)> = Vec::new();
    let mut i: usize = 0;
    while i < points.len()
        invariant
            i <= points@.len(),
            r@.len() == i,
            forall|k: int| 0 <= k < points@.len() ==> points@[k].in_bounds(),
            m.wf(),
            rot.wf(),
            0 < scale <= SCALE_LIMIT,
            abs(off.0 as int) <= OFFSET_LIMIT as int,
            abs(off.1 as int) <= OFFSET_LIMIT as int,
            forall|k: int|
                0 <= k < i ==> (#[trigger] r@[k].0 as int, r@[k].1 as int) == screen_vertex_spec(
                    points@[k],
                    *m,
                    *rot,
                    scale as int,
                    (off.0 as int, off.1 as int),
                ),
        decreases points@.len() - i,
    {
        let q = screen_vertex(points[i], m, rot, scale, off);
        r.push(q);
        i = i + 1;
    }
    r
}

/// At the zero angle — sine 0, cosine one unit — with the identity
/// submatrix, every rotation application is the identity and the pipeline
/// only scales, centers and truncates each vertex's x and y.
pub proof fn lemma_zero_rotation_projects_xy(
    v: Vec3,
    m: Projection,
    rot: Rotation,
    scale: int,
    off: (int, int),
)
    requires
        rot.sin == 0,
        rot.cos == FX_ONE,
        m.xx == FX_ONE,
        m.xy == 0,
        m.xz == 0,
        m.yx == 0,
        m.yy == FX_ONE,
        m.yz == 0,
    ensures
        screen_vertex_spec(v, m, rot, scale, off) == (
            fx_div_trunc(v.x * scale + off.0 * (FX_ONE as int)),
            fx_div_trunc(v.y * scale + off.1 * (FX_ONE as int)),
        ),
{
    let f = FX_ONE as int;
    let p = v.as_ints();
    lemma_fx_mul_one(p.0);
    lemma_fx_mul_one(p.1);
    lemma_fx_mul_one(p.2);
    lemma_fx_mul_zero(p.0);
    lemma_fx_mul_zero(p.1);
    lemma_fx_mul_zero(p.2);
    assert(rot_x_spec(p, 0, f) == p);
    assert(rot_z_spec(p, 0, f) == p);
    assert(rot_y_spec(p, 0, f) == p);
    assert(project_spec(m, p) == (p.0, p.1));
}

/// Continuity of the pipeline in the rotation: when the sines and cosines
/// of two rotations are within `d` fixed-point counts of each other, each
/// screen coordinate of a vertex moves by at most `scale * (292*d + 86)`
/// plus two units, everything scaled up by one unit to stay in whole
/// numbers — so the motion shrinks linearly as the angle step shrinks.
/// The constants are conservative worst-case sums over the four rotation
/// applications and the projection.
pub proof fn lemma_screen_continuity(
    v: Vec3,
    m: Projection,
    r1: Rotation,
    r2: Rotation,
    scale: int,
    off: (int, int),
    d: int,
)
    requires
        v.in_bounds(),
        m.wf(),
        r1.wf(),
        r2.wf(),
        0 < scale <= SCALE_LIMIT as int,
        abs(r1.sin - r2.sin) <= d,
        abs(r1.cos - r2.cos) <= d,
    ensures
        (FX_ONE as int) * abs(
            screen_vertex_spec(v, m, r1, scale, off).0 - screen_vertex_spec(
                v,
                m,
                r2,
                scale,
                off,
            ).0,
        ) <= scale * (292 * d + 86) + 2 * (FX_ONE as int),
        (FX_ONE as int) * abs(
            screen_vertex_spec(v, m, r1, scale, off).1 - screen_vertex_spec(
                v,
                m,
                r2,
                scale,
                off,
            ).1,
        ) <= scale * (292 * d + 86) + 2 * (FX_ONE as int),
{
    let f = FX_ONE as int;
    let s1 = r1.sin as int;
    let c1 = r1.cos as int;
    let s2 = r2.sin as int;
    let c2 = r2.cos as int;
    let p = v.as_ints();
    let a1 = rot_x_spec(p, s1, c1);
    let a2 = rot_x_spec(p, s2, c2);
    let b1 = rot_x_spec(a1, s1, c1);
    let b2 = rot_x_spec(a2, s2, c2);
    let g1 = rot_z_spec(b1, s1, c1);
    let g2 = rot_z_spec(b2, s2, c2);
    let h1 = rot_y_spec(g1, s1, c1);
    let h2 = rot_y_spec(g2, s2, c2);
    let t1 = project_spec(m, h1);
    let t2 = project_spec(m, h2);

    let ea: int = 524288 * d + 262144;
    let eb: int = 2097152 * d + 786432;
    let eg: int = 3407872 * d + 1048576;
    let eh: int = 7864320 * d + 2097152;

    // First X application: x is carried, y and z mix two products each.
    assert(abs(a1.1) <= 524288 && abs(a1.2) <= 524288) by {
        lemma_fx_mul_abs_le(p.1, c1);
        lemma_fx_mul_abs_le(p.2, s1);
        lemma_fx_mul_abs_le(p.1, s1);
        lemma_fx_mul_abs_le(p.2, c1);
    }
    assert(f * abs(a1.1 - a2.1) <= ea) by {
        lemma_fx_mul_pair_delta(p.1, c1, p.1, c2, 262144, d, 0);
        lemma_fx_mul_pair_delta(p.2, s1, p.2, s2, 262144, d, 0);
    }
    assert(f * abs(a1.2 - a2.2) <= ea) by {
        lemma_fx_mul_pair_delta(p.1, s1, p.1, s2, 262144, d, 0);
        lemma_fx_mul_pair_delta(p.2, c1, p.2, c2, 262144, d, 0);
    }

    // Second X application.
    assert(abs(b1.1) <= 1048576 && abs(b1.2) <= 1048576) by {
        lemma_fx_mul_abs_le(a1.1, c1);
        lemma_fx_mul_abs_le(a1.2, s1);
        lemma_fx_mul_abs_le(a1.1, s1);
        lemma_fx_mul_abs_le(a1.2, c1);
    }
    assert(f * abs(b1.1 - b2.1) <= eb) by {
        lemma_fx_mul_pair_delta(a1.1, c1, a2.1, c2, 524288, d, ea);
        lemma_fx_mul_pair_delta(a1.2, s1, a2.2, s2, 524288, d, ea);
    }
    assert(f * abs(b1.2 - b2.2) <= eb) by {
        lemma_fx_mul_pair_delta(a1.1, s1, a2.1, s2, 524288, d, ea);
        lemma_fx_mul_pair_delta(a1.2, c1, a2.2, c2, 524288, d, ea);
    }

    // Z application: z is carried, x and y mix the carried x with y.
    assert(abs(g1.0) <= 1310720 && abs(g1.1) <= 1310720) by {
        lemma_fx_mul_abs_le(b1.0, c1);
        lemma_fx_mul_abs_le(b1.1, s1);
        lemma_fx_mul_abs_le(b1.0, s1);
        lemma_fx_mul_abs_le(b1.1, c1);
    }
    assert(f * abs(g1.0 - g2.0) <= eg) by {
        lemma_fx_mul_pair_delta(b1.0, c1, b2.0, c2, 262144, d, 0);
        lemma_fx_mul_pair_delta(b1.1, s1, b2.1, s2, 1048576, d, eb);
    }
    assert(f * abs(g1.1 - g2.1) <= eg) by {
        lemma_fx_mul_pair_delta(b1.0, s1, b2.0, s2, 262144, d, 0);
        lemma_fx_mul_pair_delta(b1.1, c1, b2.1, c2, 1048576, d, eb);
    }

    // Y application: y is carried, x and z mix x with the carried z.
    assert(abs(h1.0) <= 2359296 && abs(h1.2) <= 2359296) by {
        lemma_fx_mul_abs_le(g1.0, c1);
        lemma_fx_mul_abs_le(g1.2, s1);
        lemma_fx_mul_abs_le(g1.2, c1);
        lemma_fx_mul_abs_le(g1.0, s1);
    }
    assert(f * abs(h1.0 - h2.0) <= eh) by {
        lemma_fx_mul_pair_delta(g1.0, c1, g2.0, c2, 1310720, d, eg);
        lemma_fx_mul_pair_delta(g1.2, s1, g2.2, s2, 1048576, d, eb);
    }
    assert(f * abs(h1.2 - h2.2) <= eh) by {
        lemma_fx_mul_pair_delta(g1.2, c1, g2.2, c2, 1048576, d, eb);
        lemma_fx_mul_pair_delta(g1.0, s1, g2.0, s2, 1310720, d, eg);
    }

    // Projection: the matrix is shared, so each of the three products per
    // row moves only as far as its coordinate does.
    assert(f * abs(t1.0 - t2.0) <= f * (292 * d + 86)) by {
        lemma_fx_mul_pair_delta(h1.0, m.xx as int, h2.0, m.xx as int, 2359296, 0, eh);
        lemma_fx_mul_pair_delta(h1.1, m.xy as int, h2.1, m.xy as int, 1310720, 0, eg);
        lemma_fx_mul_pair_delta(h1.2, m.xz as int, h2.2, m.xz as int, 2359296, 0, eh);
    }
    assert(f * abs(t1.1 - t2.1) <= f * (292 * d + 86)) by {
        lemma_fx_mul_pair_delta(h1.0, m.yx as int, h2.0, m.yx as int, 2359296, 0, eh);
        lemma_fx_mul_pair_delta(h1.1, m.yy as int, h2.1, m.yy as int, 1310720, 0, eg);
        lemma_fx_mul_pair_delta(h1.2, m.yz as int, h2.2, m.yz as int, 2359296, 0, eh);
    }

    // Screen mapping: the shared offset cancels, the scale stretches the
    // projected motion, and the final truncation adds two units.
    assert(f * abs(
        fx_div_trunc(t1.0 * scale + off.0 * f) - fx_div_trunc(t2.0 * scale + off.0 * f),
    ) <= scale * (292 * d + 86) + 2 * f) by {
        lemma_fx_div_trunc_lipschitz(t1.0 * scale + off.0 * f, t2.0 * scale + off.0 * f);
        assert(t1.0 * scale - t2.0 * scale == (t1.0 - t2.0) * scale) by (nonlinear_arith);
        lemma_abs_mul(t1.0 - t2.0, scale);
        lemma_mul_inequality(abs(t1.0 - t2.0) as int, 292 * d + 86, scale);
    }
    assert(f * abs(
        fx_div_trunc(t1.1 * scale + off.1 * f) - fx_div_trunc(t2.1 * scale + off.1 * f),
    ) <= scale * (292 * d + 86) + 2 * f) by {
        lemma_fx_div_trunc_lipschitz(t1.1 * scale + off.1 * f, t2.1 * scale + off.1 * f);
        assert(t1.1 * scale - t2.1 * scale == (t1.1 - t2.1) * scale) by (nonlinear_arith);
        lemma_abs_mul(t1.1 - t2.1, scale);
        lemma_mul_inequality(abs(t1.1 - t2.1) as int, 292 * d + 86, scale);
    }
}

/// The transformer is a pure function of its inputs: two screen sequences
/// produced from the same vertices, projection, rotation, scale and offset
/// are identical.
pub proof fn lemma_transformer_deterministic(
    r1: Seq<(i32, i32)>,
    r2: Seq<(i32, i32)>,
    points: Seq<Vec3>,
    m: Projection,
    rot: Rotation,
    scale: int,
    off: (int, int),
)
    requires
        r1.len() == points.len(),
        r2.len() == points.len(),
        forall|i: int|
            0 <= i < points.len() ==> (#[trigger] r1[i].0 as int, r1[i].1 as int)
                == screen_vertex_spec(points[i], m, rot, scale, off),
        forall|i: int|
            0 <= i < points.len() ==> (#[trigger] r2[i].0 as int, r2[i].1 as int)
                == screen_vertex_spec(points[i], m, rot, scale, off),
    ensures
        r1 == r2,
{
    assert forall|i: int| 0 <= i < points.len() implies r1[i] == r2[i] by {
        assert((r1[i].0 as int, r1[i].1 as int) == screen_vertex_spec(points[i], m, rot, scale, off));
        assert((r2[i].0 as int, r2[i].1 as int) == screen_vertex_spec(points[i], m, rot, scale, off));
    }
    assert(r1 =~= r2);
}

} // verus!
