//! Host-side scene generation: the test population of spheres, positions
//! drawn uniformly in a cube of side two hundred around the origin, radius
//! one half, material indices cycling through the material table.

use vstd::prelude::*;

use crate::fbits::{nan_free, vec3_scale, vec3_sub, vscale_of, vsub_of};
use crate::layout::{sphere_valid, Sphere};
use crate::{MATERIAL_CAPACITY, SPHERE_CAPACITY};

verus! {

/// Bit pattern of the test spheres' radius, one half.
pub const TEST_SPHERE_RADIUS_BITS: u32 = 0x3F000000;

/// Bit pattern of the position scale, two hundred.
pub const SCENE_SCALE_BITS: u32 = 0x43480000;

/// Bit pattern of the position offset, one hundred.
pub const SCENE_OFFSET_BITS: u32 = 0x42C80000;

/// A coordinate triple placed into the scene cube: a drawn sample scaled
/// by two hundred and shifted by minus one hundred, componentwise.
pub open spec fn scene_position(unit: Seq<u32>) -> Seq<u32> {
    vsub_of(
        vscale_of(unit, SCENE_SCALE_BITS),
        seq![SCENE_OFFSET_BITS, SCENE_OFFSET_BITS, SCENE_OFFSET_BITS],
    )
}

/// The scaling and the shift of a sample stay NaN-free.
pub open spec fn scene_image_defined(unit: Seq<u32>) -> bool {
    &&& nan_free(vscale_of(unit, SCENE_SCALE_BITS))
    &&& nan_free(scene_position(unit))
}

/// Wherever the sample's scaled-and-offset image is NaN-free, `p` is that
/// image (a NaN outcome carries machine-dependent bits and is left
/// unconstrained).
pub open spec fn matches_scene_image(p: Seq<u32>, unit: Seq<u32>) -> bool {
    scene_image_defined(unit) ==> p == scene_position(unit)
}

/// Whether a position comes from some NaN-free drawn sample.
pub open spec fn is_scene_position(p: Seq<u32>) -> bool {
    exists|unit: Seq<u32>| nan_free(unit) && #[trigger] matches_scene_image(p, unit)
}

/// Relies on `rand::random` with the standard uniform distribution on the
/// single-precision float type: each component is drawn from the
/// thread-local generator in the unit interval, so it is never NaN;
/// nothing more is promised of the values drawn.
#[verifier::external_body]
fn random_vec3_bits() -> (r: [u32; 3])
    ensures
        nan_free(r@),
{
    bytemuck::cast(glam::Vec3::new(rand::random(), rand::random(), rand::random()))
}

/// Generates the test population: one sphere per capacity slot, each at a
/// random position scaled into the scene cube, with radius one half and
/// the material index cycling through the table — so every sphere's
/// material reference is valid for the full material capacity.
pub fn create_test_spheres() -> (r: Vec<Sphere>)
    ensures
        r@.len() == SPHERE_CAPACITY,
        forall|i: int|
            0 <= i < r@.len() ==> (#[trigger] r@[i]).radius == TEST_SPHERE_RADIUS_BITS
                && r@[i].material_index == i % 100 && sphere_valid(r@[i], MATERIAL_CAPACITY)
                && is_scene_position(r@[i].position@),
{
    let mut spheres: Vec<Sphere> = Vec::new();
    let mut i: usize = 0;
    while i < 1000000
        invariant
            i <= 1000000,
            spheres@.len() == i,
            forall|j: int|
                0 <= j < i ==> (#[trigger] spheres@[j]).radius == TEST_SPHERE_RADIUS_BITS
                    && spheres@[j].material_index == j % 100 && sphere_valid(
                    spheres@[j],
                    MATERIAL_CAPACITY,
                ) && is_scene_position(spheres@[j].position@),
        decreases 1000000 - i,
    {
        let unit = random_vec3_bits();
        let scaled = vec3_scale(unit, SCENE_SCALE_BITS);
        let offsets = [SCENE_OFFSET_BITS, SCENE_OFFSET_BITS, SCENE_OFFSET_BITS];
        let position = vec3_sub(scaled, offsets);
        proof {
            assert(offsets@ =~= seq![SCENE_OFFSET_BITS, SCENE_OFFSET_BITS, SCENE_OFFSET_BITS]);
            assert(scene_image_defined(unit@) ==> position@ == scene_position(unit@)) by {
                if scene_image_defined(unit@) {
                    assert(scaled@ == vscale_of(unit@, SCENE_SCALE_BITS));
                    assert(position@ == vsub_of(scaled@, offsets@));
                }
            }
            assert(nan_free(unit@));
            assert(matches_scene_image(position@, unit@));
            assert(is_scene_position(position@));
        }
        let sphere = Sphere {
            position,
            radius: TEST_SPHERE_RADIUS_BITS,
            material_index: (i % 100) as u32,
        };
        spheres.push(sphere);
        i = i + 1;
    }
    spheres
}

} // verus!
