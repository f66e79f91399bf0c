//! End-to-end tests of the scan-conversion pipeline.

use black::programs::{PassthroughVertex, SolidColor, VaryingColor};
use black::{Buffer, DepthBuffer, Raster, Vec4};
use black::depth::DEPTH_FAR;
use black::fixed::FX_ONE;

/// The vertex stage used throughout: vertices carry clip positions.
const IDENTITY: PassthroughVertex = PassthroughVertex;

fn white() -> SolidColor {
    SolidColor { color: Vec4 { x: FX_ONE, y: FX_ONE, z: FX_ONE, w: FX_ONE } }
}

const WHITE_WORD: u32 = 0xFFFF_FFFF;

/// Clip positions that map onto a 4x4 viewport as the screen triangle
/// with corners (0,0), (4,0) and (0,4) in pixel units, front-facing.
fn unit_corner_triangle() -> (Vec4, Vec4, Vec4) {
    let v0 = Vec4 { x: -FX_ONE, y: FX_ONE, z: 0, w: FX_ONE };
    let v1 = Vec4 { x: -FX_ONE, y: -FX_ONE, z: 0, w: FX_ONE };
    let v2 = Vec4 { x: FX_ONE, y: FX_ONE, z: 0, w: FX_ONE };
    (v0, v1, v2)
}

fn fresh_buffers(width: usize, height: usize) -> (DepthBuffer, Buffer) {
    let mut depth = DepthBuffer::new(width, height);
    depth.clear();
    let target = Buffer::new(width, height);
    (depth, target)
}

#[test]
fn corner_triangle_shades_lower_left_half() {
    let (mut depth, mut target) = fresh_buffers(4, 4);
    let (v0, v1, v2) = unit_corner_triangle();
    Raster::triangle(&IDENTITY, &white(), &mut depth, &mut target, &(), &v0, &v1, &v2);
    for y in 0..4usize {
        for x in 0..4usize {
            let word = target.data[x + y * 4];
            if x + y < 4 {
                assert_eq!(word, WHITE_WORD, "pixel ({}, {}) should be white", x, y);
            } else {
                assert_eq!(word, 0, "pixel ({}, {}) should be untouched", x, y);
            }
        }
    }
}

#[test]
fn corner_triangle_writes_depth_only_under_coverage() {
    let (mut depth, mut target) = fresh_buffers(4, 4);
    let (v0, v1, v2) = unit_corner_triangle();
    Raster::triangle(&IDENTITY, &white(), &mut depth, &mut target, &(), &v0, &v1, &v2);
    for y in 0..4usize {
        for x in 0..4usize {
            let d = depth.get(x, y);
            if x + y < 4 {
                assert_eq!(d, 0, "covered pixel ({}, {}) takes the interpolated depth", x, y);
            } else {
                assert_eq!(d, DEPTH_FAR, "uncovered pixel ({}, {}) keeps the sentinel", x, y);
            }
        }
    }
}

#[test]
fn second_identical_pass_changes_nothing() {
    let (mut depth, mut target) = fresh_buffers(4, 4);
    let (v0, v1, v2) = unit_corner_triangle();
    Raster::triangle(&IDENTITY, &white(), &mut depth, &mut target, &(), &v0, &v1, &v2);
    let depth_after_one = depth.data.clone();
    let target_after_one = target.data.clone();
    Raster::triangle(&IDENTITY, &white(), &mut depth, &mut target, &(), &v0, &v1, &v2);
    assert_eq!(depth.data, depth_after_one);
    assert_eq!(target.data, target_after_one);
}

#[test]
fn swapped_vertices_are_culled() {
    let (v0, v1, v2) = unit_corner_triangle();
    for (a, b, c) in [(v1, v0, v2), (v0, v2, v1), (v2, v1, v0)] {
        let (mut depth, mut target) = fresh_buffers(4, 4);
        Raster::triangle(&IDENTITY, &white(), &mut depth, &mut target, &(), &a, &b, &c);
        assert!(target.data.iter().all(|&w| w == 0));
        assert!(depth.data.iter().all(|&d| d == DEPTH_FAR));
    }
}

#[test]
fn degenerate_triangle_is_discarded() {
    let (mut depth, mut target) = fresh_buffers(4, 4);
    let v = Vec4 { x: 0, y: 0, z: 0, w: FX_ONE };
    Raster::triangle(&IDENTITY, &white(), &mut depth, &mut target, &(), &v, &v, &v);
    assert!(target.data.iter().all(|&w| w == 0));
}

#[test]
fn negative_z_rejects_whole_triangle() {
    let (mut depth, mut target) = fresh_buffers(4, 4);
    let (v0, v1, mut v2) = unit_corner_triangle();
    v2.z = -1;
    Raster::triangle(&IDENTITY, &white(), &mut depth, &mut target, &(), &v0, &v1, &v2);
    assert!(target.data.iter().all(|&w| w == 0));
}

#[test]
fn tiny_perspective_divisor_rejects_whole_triangle() {
    let (mut depth, mut target) = fresh_buffers(4, 4);
    let (v0, v1, mut v2) = unit_corner_triangle();
    v2.w = 100;
    Raster::triangle(&IDENTITY, &white(), &mut depth, &mut target, &(), &v0, &v1, &v2);
    assert!(target.data.iter().all(|&w| w == 0));
}

#[test]
fn far_offscreen_coordinates_reject_whole_triangle() {
    let (mut depth, mut target) = fresh_buffers(4, 4);
    let (v0, v1, mut v2) = unit_corner_triangle();
    v2.x = 0x8000_0000;
    v2.w = 256;
    Raster::triangle(&IDENTITY, &white(), &mut depth, &mut target, &(), &v0, &v1, &v2);
    assert!(target.data.iter().all(|&w| w == 0));
}

#[test]
fn interpolated_varyings_reach_the_fragment_stage() {
    // at the pixel that coincides with vertex 0 the varying bundle is
    // vertex 0's, so the written color encodes that corner's position
    let (mut depth, mut target) = fresh_buffers(4, 4);
    let (v0, v1, v2) = unit_corner_triangle();
    Raster::triangle(
        &IDENTITY,
        &VaryingColor,
        &mut depth,
        &mut target,
        &(),
        &v0,
        &v1,
        &v2,
    );
    // vertex 0 sits at pixel (0, 0); its varying is (-1, 1, 0, 1):
    // negative channels clamp to zero, unit channels to 255
    assert_eq!(target.data[0], 0xFF00_FF00);
}

#[test]
fn nearer_triangle_wins_the_depth_test() {
    let (mut depth, mut target) = fresh_buffers(4, 4);
    let (v0, v1, v2) = unit_corner_triangle();
    // first pass: a far triangle at z/w = 0.5
    let far = FX_ONE / 2;
    let (mut f0, mut f1, mut f2) = (v0, v1, v2);
    f0.z = far;
    f1.z = far;
    f2.z = far;
    Raster::triangle(&IDENTITY, &white(), &mut depth, &mut target, &(), &f0, &f1, &f2);
    assert_eq!(depth.get(0, 0), far);
    // second pass: the same footprint at z/w = 0 overwrites it
    Raster::triangle(&IDENTITY, &VaryingColor, &mut depth, &mut target, &(), &v0, &v1, &v2);
    assert_eq!(depth.get(0, 0), 0);
    // third pass: farther again, rejected
    Raster::triangle(&IDENTITY, &white(), &mut depth, &mut target, &(), &f0, &f1, &f2);
    assert_eq!(depth.get(0, 0), 0);
}

#[test]
fn one_by_one_viewport_shades_its_single_pixel() {
    let (mut depth, mut target) = fresh_buffers(1, 1);
    let (v0, v1, v2) = unit_corner_triangle();
    Raster::triangle(&IDENTITY, &white(), &mut depth, &mut target, &(), &v0, &v1, &v2);
    assert_eq!(target.data[0], WHITE_WORD);
    assert_eq!(depth.get(0, 0), 0);
}
