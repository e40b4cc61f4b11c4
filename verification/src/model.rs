//! 3D model generation from binary raster data.
//!
//! Each filled cell of the raster becomes a rectangular box extruded from the
//! base plane to the given depth; each empty cell becomes a flat backing
//! plate at the base plane. The generated triangle sequence is pinned exactly
//! by `model_triangles`, over the binary32 bit-pattern arithmetic named in
//! the `scalar` module.

use vstd::prelude::*;
use crate::geometry::{Triangle, Vector3, NEG_ONE_BITS, ONE_BITS, ZERO_BITS};
use crate::scalar::{
    add_bits, div_bits, is_positive_bits, mul_bits, positive_bits, prod_bits, quot_bits,
    sum_bits, uint_bits, uint_to_bits,
};

verus! {

/// Parameters for generating a 3D model from binary raster data.
///
/// Physical dimensions and the extrusion depth are binary32 bit patterns.
pub struct ModelParameters {
    /// The binary raster data (0 = empty, 1 = filled), row-major.
    pub binary_data: Vec<u8>,
    /// The width of the raster in pixels.
    pub img_width: usize,
    /// The height of the raster in pixels.
    pub img_height: usize,
    /// The physical width of the model in millimeters (binary32 bits).
    pub physical_width: u32,
    /// The physical height of the model in millimeters (binary32 bits).
    pub physical_height: u32,
    /// The depth (thickness) of the model in millimeters (binary32 bits).
    pub depth: u32,
}

/// The error a generation call reports.
#[derive(Debug, Clone, Copy, PartialEq, Eq, Structural)]
pub enum ModelError {
    /// The raster or the physical dimensions are malformed: the raster length
    /// does not equal width times height, a cell is neither 0 nor 1, a pixel
    /// count is zero, or a physical dimension is not strictly positive.
    InvalidInput,
}

/// Every raster cell is 0 or 1.
pub open spec fn cells_ok(data: Seq<u8>) -> bool {
    forall|i: int| 0 <= i < data.len() ==> data[i] == 0 || data[i] == 1
}

/// The inputs on which generation succeeds: nonzero pixel counts, a raster
/// of exactly `w * h` binary cells, and strictly positive physical
/// dimensions. The depth is not validated; a non-positive depth is a
/// documented degenerate case.
pub open spec fn params_valid(data: Seq<u8>, w: usize, h: usize, pw: u32, ph: u32) -> bool {
    &&& w > 0
    &&& h > 0
    &&& data.len() == w * h
    &&& cells_ok(data)
    &&& positive_bits(pw)
    &&& positive_bits(ph)
}

/// The physical size of one pixel along an axis: the physical dimension
/// divided by the pixel count, in binary32 arithmetic.
pub open spec fn pixel_size(physical: u32, pixels: usize) -> u32 {
    quot_bits(physical, uint_bits(pixels))
}

/// The lower physical coordinate of cell `i` along an axis of pixel size `px`.
pub open spec fn coord_lo(px: u32, i: usize) -> u32 {
    prod_bits(uint_bits(i), px)
}

/// The upper physical coordinate of cell `i` along an axis of pixel size `px`.
pub open spec fn coord_hi(px: u32, i: usize) -> u32 {
    sum_bits(coord_lo(px, i), px)
}

/// A triangle from a normal and three vertices, all by component.
pub open spec fn tri(nx: u32, ny: u32, nz: u32, a: Vector3, b: Vector3, c: Vector3) -> Triangle {
    Triangle { normal: Vector3 { x: nx, y: ny, z: nz }, vertices: [a, b, c] }
}

/// A vector from its components.
pub open spec fn vec3(x: u32, y: u32, z: u32) -> Vector3 {
    Vector3 { x, y, z }
}

/// The two base-plane triangles over the footprint `[xa, xb] x [ya, yb]`,
/// with outward normal (0, 0, -1), wound to agree with it under the
/// right-hand rule, and every vertex at height zero.
pub open spec fn base_triangles(xa: u32, xb: u32, ya: u32, yb: u32) -> Seq<Triangle> {
    seq![
        tri(
            ZERO_BITS, ZERO_BITS, NEG_ONE_BITS,
            vec3(xa, ya, ZERO_BITS), vec3(xb, yb, ZERO_BITS), vec3(xb, ya, ZERO_BITS),
        ),
        tri(
            ZERO_BITS, ZERO_BITS, NEG_ONE_BITS,
            vec3(xa, ya, ZERO_BITS), vec3(xa, yb, ZERO_BITS), vec3(xb, yb, ZERO_BITS),
        ),
    ]
}

/// The twelve triangles of the box over the footprint `[xa, xb] x [ya, yb]`,
/// extruded from height zero to `top`: bottom, front, back, left, right and
/// top face, each split into two triangles sharing a diagonal, wound to agree
/// with the stated outward normal under the right-hand rule.
pub open spec fn box_triangles(xa: u32, xb: u32, ya: u32, yb: u32, top: u32) -> Seq<Triangle> {
    seq![
        // Bottom face, outward normal (0, 0, -1)
        tri(
            ZERO_BITS, ZERO_BITS, NEG_ONE_BITS,
            vec3(xa, ya, ZERO_BITS), vec3(xb, yb, ZERO_BITS), vec3(xb, ya, ZERO_BITS),
        ),
        tri(
            ZERO_BITS, ZERO_BITS, NEG_ONE_BITS,
            vec3(xa, ya, ZERO_BITS), vec3(xa, yb, ZERO_BITS), vec3(xb, yb, ZERO_BITS),
        ),
        // Front face, outward normal (0, -1, 0)
        tri(
            ZERO_BITS, NEG_ONE_BITS, ZERO_BITS,
            vec3(xa, ya, ZERO_BITS), vec3(xb, ya, ZERO_BITS), vec3(xb, ya, top),
        ),
        tri(
            ZERO_BITS, NEG_ONE_BITS, ZERO_BITS,
            vec3(xa, ya, ZERO_BITS), vec3(xb, ya, top), vec3(xa, ya, top),
        ),
        // Back face, outward normal (0, 1, 0)
        tri(
            ZERO_BITS, ONE_BITS, ZERO_BITS,
            vec3(xa, yb, ZERO_BITS), vec3(xb, yb, top), vec3(xb, yb, ZERO_BITS),
        ),
        tri(
            ZERO_BITS, ONE_BITS, ZERO_BITS,
            vec3(xa, yb, ZERO_BITS), vec3(xa, yb, top), vec3(xb, yb, top),
        ),
        // Left face, outward normal (-1, 0, 0)
        tri(
            NEG_ONE_BITS, ZERO_BITS, ZERO_BITS,
            vec3(xa, ya, ZERO_BITS), vec3(xa, ya, top), vec3(xa, yb, top),
        ),
        tri(
            NEG_ONE_BITS, ZERO_BITS, ZERO_BITS,
            vec3(xa, ya, ZERO_BITS), vec3(xa, yb, top), vec3(xa, yb, ZERO_BITS),
        ),
        // Right face, outward normal (1, 0, 0)
        tri(
            ONE_BITS, ZERO_BITS, ZERO_BITS,
            vec3(xb, ya, ZERO_BITS), vec3(xb, yb, top), vec3(xb, ya, top),
        ),
        tri(
            ONE_BITS, ZERO_BITS, ZERO_BITS,
            vec3(xb, ya, ZERO_BITS), vec3(xb, yb, ZERO_BITS), vec3(xb, yb, top),
        ),
        // Top face, outward normal (0, 0, 1)
        tri(
            ZERO_BITS, ZERO_BITS, ONE_BITS,
            vec3(xa, ya, top), vec3(xb, ya, top), vec3(xb, yb, top),
        ),
        tri(
            ZERO_BITS, ZERO_BITS, ONE_BITS,
            vec3(xa, ya, top), vec3(xb, yb, top), vec3(xa, yb, top),
        ),
    ]
}

/// The box of the cell at row-major index `idx` in a raster `w` cells wide,
/// with pixel sizes `px`, `py` and extrusion depth `top`.
pub open spec fn cell_box(w: usize, px: u32, py: u32, top: u32, idx: int) -> Seq<Triangle> {
    let x = (idx % (w as int)) as usize;
    let y = (idx / (w as int)) as usize;
    box_triangles(coord_lo(px, x), coord_hi(px, x), coord_lo(py, y), coord_hi(py, y), top)
}

/// The backing plate of the cell at row-major index `idx`.
pub open spec fn cell_base(w: usize, px: u32, py: u32, idx: int) -> Seq<Triangle> {
    let x = (idx % (w as int)) as usize;
    let y = (idx / (w as int)) as usize;
    base_triangles(coord_lo(px, x), coord_hi(px, x), coord_lo(py, y), coord_hi(py, y))
}

/// The triangles of the first generation pass over the first `n` cells:
/// a box for every filled cell, in row-major order.
pub open spec fn filled_pass(
    data: Seq<u8>,
    w: usize,
    px: u32,
    py: u32,
    top: u32,
    n: int,
) -> Seq<Triangle>
    decreases n,
{
    if n <= 0 {
        Seq::empty()
    } else {
        filled_pass(data, w, px, py, top, n - 1) + if data[n - 1] == 1 {
            cell_box(w, px, py, top, n - 1)
        } else {
            Seq::empty()
        }
    }
}

/// The triangles of the second generation pass over the first `n` cells:
/// a backing plate for every cell that is not filled, in row-major order.
pub open spec fn empty_pass(data: Seq<u8>, w: usize, px: u32, py: u32, n: int) -> Seq<Triangle>
    decreases n,
{
    if n <= 0 {
        Seq::empty()
    } else {
        empty_pass(data, w, px, py, n - 1) + if data[n - 1] != 1 {
            cell_base(w, px, py, n - 1)
        } else {
            Seq::empty()
        }
    }
}

/// The complete triangle sequence of the model: the filled pass over the
/// whole raster, then the empty pass over the whole raster.
pub open spec fn model_triangles(
    data: Seq<u8>,
    w: usize,
    h: usize,
    pw: u32,
    ph: u32,
    d: u32,
) -> Seq<Triangle> {
    let px = pixel_size(pw, w);
    let py = pixel_size(ph, h);
    filled_pass(data, w, px, py, d, data.len() as int) + empty_pass(
        data,
        w,
        px,
        py,
        data.len() as int,
    )
}

/// How many of the first `n` raster cells are filled.
pub open spec fn filled_count(data: Seq<u8>, n: int) -> int
    decreases n,
{
    if n <= 0 {
        0
    } else {
        filled_count(data, n - 1) + if data[n - 1] == 1 {
            1int
        } else {
            0int
        }
    }
}

proof fn lemma_filled_count_bounds(data: Seq<u8>, n: int)
    requires
        0 <= n <= data.len(),
    ensures
        0 <= filled_count(data, n) <= n,
    decreases n,
{
    if n > 0 {
        lemma_filled_count_bounds(data, n - 1);
    }
}

proof fn lemma_filled_pass_len(data: Seq<u8>, w: usize, px: u32, py: u32, top: u32, n: int)
    requires
        n <= data.len(),
    ensures
        filled_pass(data, w, px, py, top, n).len() == 12 * filled_count(data, n),
    decreases n,
{
    if n > 0 {
        lemma_filled_pass_len(data, w, px, py, top, n - 1);
    }
}

proof fn lemma_empty_pass_len(data: Seq<u8>, w: usize, px: u32, py: u32, n: int)
    requires
        0 <= n <= data.len(),
    ensures
        empty_pass(data, w, px, py, n).len() == 2 * (n - filled_count(data, n)),
    decreases n,
{
    if n > 0 {
        lemma_empty_pass_len(data, w, px, py, n - 1);
        lemma_filled_count_bounds(data, n - 1);
    }
}

proof fn lemma_filled_count_all_empty(data: Seq<u8>, n: int)
    requires
        0 <= n <= data.len(),
        forall|i: int| 0 <= i < data.len() ==> data[i] == 0,
    ensures
        filled_count(data, n) == 0,
    decreases n,
{
    if n > 0 {
        lemma_filled_count_all_empty(data, n - 1);
    }
}

proof fn lemma_filled_pass_all_empty(data: Seq<u8>, w: usize, px: u32, py: u32, top: u32, n: int)
    requires
        0 <= n <= data.len(),
        forall|i: int| 0 <= i < data.len() ==> data[i] == 0,
    ensures
        filled_pass(data, w, px, py, top, n) == Seq::<Triangle>::empty(),
    decreases n,
{
    if n > 0 {
        lemma_filled_pass_all_empty(data, w, px, py, top, n - 1);
        assert(filled_pass(data, w, px, py, top, n) =~= Seq::<Triangle>::empty());
    }
}

/// Every triangle of the empty pass is a base-plane triangle: its normal is
/// (0, 0, -1) and each of its vertices lies at height zero.
proof fn lemma_empty_pass_base(data: Seq<u8>, w: usize, px: u32, py: u32, n: int)
    requires
        0 <= n <= data.len(),
    ensures
        forall|i: int|
            0 <= i < empty_pass(data, w, px, py, n).len() ==> {
                let t = #[trigger] empty_pass(data, w, px, py, n)[i];
                t.normal == vec3(ZERO_BITS, ZERO_BITS, NEG_ONE_BITS) && forall|j: int|
                    0 <= j < 3 ==> (#[trigger] t.vertices@[j]).z == ZERO_BITS
            },
    decreases n,
{
    if n > 0 {
        lemma_empty_pass_base(data, w, px, py, n - 1);
        let prev = empty_pass(data, w, px, py, n - 1);
        let cur = empty_pass(data, w, px, py, n);
        assert forall|i: int| 0 <= i < cur.len() implies {
            let t = #[trigger] cur[i];
            t.normal == vec3(ZERO_BITS, ZERO_BITS, NEG_ONE_BITS) && forall|j: int|
                0 <= j < 3 ==> (#[trigger] t.vertices@[j]).z == ZERO_BITS
        } by {
            if i < prev.len() {
                assert(cur[i] == prev[i]);
            } else {
                let extra = cell_base(w, px, py, n - 1);
                assert(cur[i] == extra[i - prev.len()]);
            }
        }
    }
}

/// Law: for an all-empty raster the model holds exactly two triangles per
/// cell, every normal is (0, 0, -1), and every vertex lies at height zero.
pub proof fn lemma_all_empty_raster(data: Seq<u8>, w: usize, h: usize, pw: u32, ph: u32, d: u32)
    requires
        params_valid(data, w, h, pw, ph),
        forall|i: int| 0 <= i < data.len() ==> data[i] == 0,
    ensures
        model_triangles(data, w, h, pw, ph, d).len() == 2 * (w * h),
        forall|i: int|
            0 <= i < model_triangles(data, w, h, pw, ph, d).len() ==> {
                let t = #[trigger] model_triangles(data, w, h, pw, ph, d)[i];
                t.normal == vec3(ZERO_BITS, ZERO_BITS, NEG_ONE_BITS) && forall|j: int|
                    0 <= j < 3 ==> (#[trigger] t.vertices@[j]).z == ZERO_BITS
            },
{
    let px = pixel_size(pw, w);
    let py = pixel_size(ph, h);
    let n = data.len() as int;
    lemma_filled_pass_all_empty(data, w, px, py, d, n);
    lemma_filled_count_all_empty(data, n);
    lemma_empty_pass_len(data, w, px, py, n);
    lemma_empty_pass_base(data, w, px, py, n);
    assert(model_triangles(data, w, h, pw, ph, d) =~= empty_pass(data, w, px, py, n));
}

/// Pushes one triangle, given by its normal components and vertices.
fn push_tri(
    tris: &mut Vec<Triangle>,
    nx: u32,
    ny: u32,
    nz: u32,
    a: Vector3,
    b: Vector3,
    c: Vector3,
)
    ensures
        final(tris)@ == old(tris)@.push(tri(nx, ny, nz, a, b, c)),
{
    tris.push(Triangle { normal: Vector3 { x: nx, y: ny, z: nz }, vertices: [a, b, c] });
}

/// Generates the triangles of the 3D model described by `params`.
///
/// Succeeds exactly on valid parameters (see `params_valid`) and then
/// returns precisely the sequence `model_triangles`: twelve box triangles
/// per filled cell in row-major order, then two backing-plate triangles per
/// empty cell in row-major order, so the length is twelve per filled cell
/// plus two per empty cell.
pub fn generate_model_triangles(params: &ModelParameters) -> (r: Result<Vec<Triangle>, ModelError>)
    ensures
        r is Ok <==> params_valid(
            params.binary_data@,
            params.img_width,
            params.img_height,
            params.physical_width,
            params.physical_height,
        ),
        r matches Ok(t) ==> t@ == model_triangles(
            params.binary_data@,
            params.img_width,
            params.img_height,
            params.physical_width,
            params.physical_height,
            params.depth,
        ),
        r matches Ok(t) ==> t@.len() == 12 * filled_count(
            params.binary_data@,
            params.binary_data@.len() as int,
        ) + 2 * (params.binary_data@.len() - filled_count(
            params.binary_data@,
            params.binary_data@.len() as int,
        )),
        r matches Err(e) ==> e == ModelError::InvalidInput,
{
    let w = params.img_width;
    let h = params.img_height;
    if w == 0 || h == 0 {
        return Err(ModelError::InvalidInput);
    }
    let dl = params.binary_data.len();
    let n = match w.checked_mul(h) {
        Some(n) => n,
        None => {
            return Err(ModelError::InvalidInput);
        },
    };
    if dl != n {
        return Err(ModelError::InvalidInput);
    }
    let mut idx: usize = 0;
    while idx < n
        invariant
            idx <= n,
            n == params.binary_data@.len(),
            forall|i: int|
                0 <= i < idx ==> params.binary_data@[i] == 0 || params.binary_data@[i] == 1,
        decreases n - idx,
    {
        let c = params.binary_data[idx];
        if c != 0 && c != 1 {
            proof {
                assert(!cells_ok(params.binary_data@)) by {
                    assert(params.binary_data@[idx as int] != 0);
                }
            }
            return Err(ModelError::InvalidInput);
        }
        idx += 1;
    }
    if !is_positive_bits(params.physical_width) || !is_positive_bits(params.physical_height) {
        return Err(ModelError::InvalidInput);
    }
    proof {
        assert(params_valid(
            params.binary_data@,
            params.img_width,
            params.img_height,
            params.physical_width,
            params.physical_height,
        ));
    }
    let ghost data = params.binary_data@;
    let px = div_bits(params.physical_width, uint_to_bits(w));
    let py = div_bits(params.physical_height, uint_to_bits(h));
    let top = params.depth;
    let mut tris: Vec<Triangle> = Vec::new();

    // First pass: a box for every filled cell.
    let mut idx: usize = 0;
    while idx < n
        invariant
            idx <= n,
            n == data.len(),
            data == params.binary_data@,
            w == params.img_width,
            w > 0,
            px == pixel_size(params.physical_width, params.img_width),
            py == pixel_size(params.physical_height, params.img_height),
            top == params.depth,
            tris@ == filled_pass(data, w, px, py, top, idx as int),
        decreases n - idx,
    {
        let c = params.binary_data[idx];
        if c == 1 {
            let x = idx % w;
            let y = idx / w;
            let xa = mul_bits(uint_to_bits(x), px);
            let xb = add_bits(xa, px);
            let ya = mul_bits(uint_to_bits(y), py);
            let yb = add_bits(ya, py);
            let b = ZERO_BITS;
            // Bottom face
            push_tri(&mut tris, ZERO_BITS, ZERO_BITS, NEG_ONE_BITS,
                Vector3::new(xa, ya, b), Vector3::new(xb, yb, b), Vector3::new(xb, ya, b));
            push_tri(&mut tris, ZERO_BITS, ZERO_BITS, NEG_ONE_BITS,
                Vector3::new(xa, ya, b), Vector3::new(xa, yb, b), Vector3::new(xb, yb, b));
            // Front face
            push_tri(&mut tris, ZERO_BITS, NEG_ONE_BITS, ZERO_BITS,
                Vector3::new(xa, ya, b), Vector3::new(xb, ya, b), Vector3::new(xb, ya, top));
            push_tri(&mut tris, ZERO_BITS, NEG_ONE_BITS, ZERO_BITS,
                Vector3::new(xa, ya, b), Vector3::new(xb, ya, top), Vector3::new(xa, ya, top));
            // Back face
            push_tri(&mut tris, ZERO_BITS, ONE_BITS, ZERO_BITS,
                Vector3::new(xa, yb, b), Vector3::new(xb, yb, top), Vector3::new(xb, yb, b));
            push_tri(&mut tris, ZERO_BITS, ONE_BITS, ZERO_BITS,
                Vector3::new(xa, yb, b), Vector3::new(xa, yb, top), Vector3::new(xb, yb, top));
            // Left face
            push_tri(&mut tris, NEG_ONE_BITS, ZERO_BITS, ZERO_BITS,
                Vector3::new(xa, ya, b), Vector3::new(xa, ya, top), Vector3::new(xa, yb, top));
            push_tri(&mut tris, NEG_ONE_BITS, ZERO_BITS, ZERO_BITS,
                Vector3::new(xa, ya, b), Vector3::new(xa, yb, top), Vector3::new(xa, yb, b));
            // Right face
            push_tri(&mut tris, ONE_BITS, ZERO_BITS, ZERO_BITS,
                Vector3::new(xb, ya, b), Vector3::new(xb, yb, top), Vector3::new(xb, ya, top));
            push_tri(&mut tris, ONE_BITS, ZERO_BITS, ZERO_BITS,
                Vector3::new(xb, ya, b), Vector3::new(xb, yb, b), Vector3::new(xb, yb, top));
            // Top face
            push_tri(&mut tris, ZERO_BITS, ZERO_BITS, ONE_BITS,
                Vector3::new(xa, ya, top), Vector3::new(xb, ya, top), Vector3::new(xb, yb, top));
            push_tri(&mut tris, ZERO_BITS, ZERO_BITS, ONE_BITS,
                Vector3::new(xa, ya, top), Vector3::new(xb, yb, top), Vector3::new(xa, yb, top));
            proof {
                assert(tris@ =~= filled_pass(data, w, px, py, top, idx + 1));
            }
        } else {
            proof {
                assert(tris@ =~= filled_pass(data, w, px, py, top, idx + 1));
            }
        }
        idx += 1;
    }

    // Second pass: a backing plate for every cell that is not filled.
    let mut idx: usize = 0;
    let ghost full = filled_pass(data, w as usize, px, py, top, n as int);
    while idx < n
        invariant
            idx <= n,
            n == data.len(),
            data == params.binary_data@,
            w == params.img_width,
            w > 0,
            px == pixel_size(params.physical_width, params.img_width),
            py == pixel_size(params.physical_height, params.img_height),
            full == filled_pass(data, w, px, py, top, n as int),
            tris@ == full + empty_pass(data, w, px, py, idx as int),
        decreases n - idx,
    {
        let c = params.binary_data[idx];
        if c != 1 {
            let x = idx % w;
            let y = idx / w;
            let xa = mul_bits(uint_to_bits(x), px);
            let xb = add_bits(xa, px);
            let ya = mul_bits(uint_to_bits(y), py);
            let yb = add_bits(ya, py);
            let b = ZERO_BITS;
            push_tri(&mut tris, ZERO_BITS, ZERO_BITS, NEG_ONE_BITS,
                Vector3::new(xa, ya, b), Vector3::new(xb, yb, b), Vector3::new(xb, ya, b));
            push_tri(&mut tris, ZERO_BITS, ZERO_BITS, NEG_ONE_BITS,
                Vector3::new(xa, ya, b), Vector3::new(xa, yb, b), Vector3::new(xb, yb, b));
            proof {
                assert(tris@ =~= full + empty_pass(data, w, px, py, idx + 1));
            }
        } else {
            proof {
                assert(tris@ =~= full + empty_pass(data, w, px, py, idx + 1));
            }
        }
        idx += 1;
    }
    proof {
        assert(tris@ =~= model_triangles(
            data,
            params.img_width,
            params.img_height,
            params.physical_width,
            params.physical_height,
            params.depth,
        ));
        lemma_filled_pass_len(data, w, px, py, top, n as int);
        lemma_empty_pass_len(data, w, px, py, n as int);
        lemma_filled_count_bounds(data, n as int);
    }
    Ok(tris)
}

} // verus!
