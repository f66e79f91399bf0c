//! Tests of the depth buffer and the pixel target.

use black::{Buffer, DepthBuffer, Vec4};
use black::depth::DEPTH_FAR;
use black::fixed::FX_ONE;
use black::target::{channel, pack_color};

#[test]
fn cleared_depth_reads_the_far_sentinel_everywhere() {
    for (w, h) in [(1usize, 1usize), (3, 2), (7, 5)] {
        let mut depth = DepthBuffer::new(w, h);
        depth.clear();
        for y in 0..h {
            for x in 0..w {
                assert_eq!(depth.get(x, y), DEPTH_FAR);
            }
        }
    }
}

#[test]
fn new_depth_buffer_is_zero_filled() {
    let depth = DepthBuffer::new(3, 3);
    assert_eq!(depth.data.len(), 9);
    assert!(depth.data.iter().all(|&d| d == 0));
}

#[test]
fn depth_set_updates_one_cell_only() {
    let mut depth = DepthBuffer::new(4, 3);
    depth.clear();
    depth.set(2, 1, 777);
    for y in 0..3usize {
        for x in 0..4usize {
            let expected = if (x, y) == (2, 1) { 777 } else { DEPTH_FAR };
            assert_eq!(depth.get(x, y), expected);
        }
    }
}

#[test]
fn buffer_set_uses_row_major_order() {
    let mut buffer = Buffer::new(4, 3);
    buffer.set(2, 1, 0xAB);
    assert_eq!(buffer.data[2 + 1 * 4], 0xAB);
    assert_eq!(buffer.data.iter().filter(|&&w| w != 0).count(), 1);
}

#[test]
fn buffer_clear_fills_every_pixel() {
    let mut buffer = Buffer::new(3, 2);
    buffer.clear(0x123456);
    assert!(buffer.data.iter().all(|&w| w == 0x123456));
}

#[test]
fn channel_scales_and_clamps() {
    assert_eq!(channel(0), 0);
    assert_eq!(channel(FX_ONE), 255);
    assert_eq!(channel(FX_ONE / 2), 127);
    assert_eq!(channel(-5 * FX_ONE), 0);
    assert_eq!(channel(9 * FX_ONE), 255);
}

#[test]
fn pack_color_orders_channels_as_argb() {
    let white = Vec4 { x: FX_ONE, y: FX_ONE, z: FX_ONE, w: FX_ONE };
    assert_eq!(pack_color(&white), 0xFFFF_FFFF);
    let red = Vec4 { x: FX_ONE, y: 0, z: 0, w: FX_ONE };
    assert_eq!(pack_color(&red), 0xFFFF_0000);
    let green = Vec4 { x: 0, y: FX_ONE, z: 0, w: FX_ONE };
    assert_eq!(pack_color(&green), 0xFF00_FF00);
    let blue = Vec4 { x: 0, y: 0, z: FX_ONE, w: FX_ONE };
    assert_eq!(pack_color(&blue), 0xFF00_00FF);
}
