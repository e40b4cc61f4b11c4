//! Converts a binary (0/1) raster image into an extruded 3D solid and
//! serializes it as a binary STL mesh.
//!
//! Every filled raster cell becomes a rectangular box from the base plane to
//! the extrusion depth; every empty cell becomes a flat backing plate at the
//! base plane. Scalar coordinates are carried as IEEE 754 binary32 bit
//! patterns in `u32` values (see the `scalar` module), so the contracts pin
//! the generated geometry and the encoded bytes exactly.

use vstd::prelude::*;
use vstd::slice::slice_to_vec;

pub mod geometry;
pub mod model;
pub mod scalar;
pub mod stl;

use model::{generate_model_triangles, model_triangles, params_valid, ModelError, ModelParameters};
use stl::{stl_encoding, StlWriter};

verus! {

/// Generates a binary STL file from binary raster data.
///
/// `physical_width`, `physical_height` and `depth` are binary32 bit
/// patterns, in millimeters. Succeeds exactly when the parameters are valid
/// (see `model::params_valid`) and the triangle count fits the format's
/// 32-bit count field, and then returns precisely the binary STL encoding of
/// the model's triangles.
pub fn generate_stl(
    binary_data: &[u8],
    img_width: usize,
    img_height: usize,
    physical_width: u32,
    physical_height: u32,
    depth: u32,
) -> (r: Result<Vec<u8>, ModelError>)
    ensures
        r is Ok <==> (params_valid(binary_data@, img_width, img_height, physical_width,
        physical_height) && model_triangles(
            binary_data@,
            img_width,
            img_height,
            physical_width,
            physical_height,
            depth,
        ).len() < 0x1_0000_0000),
        r matches Ok(out) ==> out@ == stl_encoding(
            model_triangles(
                binary_data@,
                img_width,
                img_height,
                physical_width,
                physical_height,
                depth,
            ),
        ),
        r matches Err(e) ==> e == ModelError::InvalidInput,
{
    let params = ModelParameters {
        binary_data: slice_to_vec(binary_data),
        img_width,
        img_height,
        physical_width,
        physical_height,
        depth,
    };
    let triangles = match generate_model_triangles(&params) {
        Ok(t) => t,
        Err(e) => {
            return Err(e);
        },
    };
    if triangles.len() as u64 > 0xffff_ffffu64 {
        return Err(ModelError::InvalidInput);
    }
    let mut stl_writer = StlWriter::new();
    proof {
        assert(triangles@.take(0) =~= Seq::<geometry::Triangle>::empty());
    }
    let mut i: usize = 0;
    while i < triangles.len()
        invariant
            i <= triangles@.len(),
            triangles@.len() <= 0xffff_ffff,
            stl_writer.wf(),
            stl_writer.triangle_count == i,
            stl_writer.written@ == triangles@.take(i as int),
        decreases triangles@.len() - i,
    {
        let triangle = triangles[i];
        stl_writer.write_triangle(&triangle);
        proof {
            assert(triangles@.take(i as int).push(triangles@[i as int]) =~= triangles@.take(
                i + 1,
            ));
        }
        i += 1;
    }
    proof {
        assert(triangles@.take(triangles@.len() as int) =~= triangles@);
    }
    Ok(stl_writer.finalize())
}

/// Law: determinism. The encoded output is a function of the input values
/// alone — two buffers that both satisfy the generation contract for the
/// same input values are byte-identical — and the arbitrary 80-byte header
/// region is all zero.
pub proof fn lemma_generate_deterministic(
    data: Seq<u8>,
    w: usize,
    h: usize,
    pw: u32,
    ph: u32,
    d: u32,
    r1: Seq<u8>,
    r2: Seq<u8>,
)
    requires
        r1 == stl_encoding(model_triangles(data, w, h, pw, ph, d)),
        r2 == stl_encoding(model_triangles(data, w, h, pw, ph, d)),
    ensures
        r1 == r2,
        forall|i: int| 0 <= i < 80 ==> r1[i] == 0,
{
}

} // verus!
