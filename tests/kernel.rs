use snowray::color::{pack_rgb, unpack_rgb};
use snowray::framebuffer::Framebuffer;
use snowray::texture::Texture;
use snowray::tracing::{traces_geometry, MAX_DEPTH};

#[test]
fn pack_rgb_places_channels() {
    assert_eq!(pack_rgb(0xFF, 0x00, 0xFF), 0xFF00FF);
    assert_eq!(pack_rgb(177, 182, 250), 0xB1B6FA);
    assert_eq!(pack_rgb(0, 0, 0), 0);
    assert_eq!(pack_rgb(255, 255, 255), 0xFFFFFF);
}

#[test]
fn unpack_rgb_splits_channels() {
    assert_eq!(unpack_rgb(0xB1B6FA), (177, 182, 250));
    assert_eq!(unpack_rgb(0x12_345678), (0x34, 0x56, 0x78));
}

#[test]
fn unpack_inverts_pack() {
    for &(r, g, b) in &[(0u8, 0u8, 0u8), (1, 2, 3), (255, 180, 180), (9, 255, 0)] {
        assert_eq!(unpack_rgb(pack_rgb(r, g, b)), (r, g, b));
    }
}

fn two_by_two() -> Texture {
    // top-left red, top-right green, bottom-left blue, bottom-right white
    let rgb = vec![255, 0, 0, 0, 255, 0, 0, 0, 255, 255, 255, 255];
    Texture::new(2, 2, &rgb)
}

#[test]
fn texture_new_packs_pixels_in_row_order() {
    let t = two_by_two();
    assert_eq!(t.width, 2);
    assert_eq!(t.height, 2);
    assert_eq!(t.colors, vec![0xFF0000, 0x00FF00, 0x0000FF, 0xFFFFFF]);
}

#[test]
fn texture_get_color_reads_cell() {
    let t = two_by_two();
    assert_eq!(t.get_color(0, 0), 0xFF0000);
    assert_eq!(t.get_color(1, 0), 0x00FF00);
    assert_eq!(t.get_color(0, 1), 0x0000FF);
    assert_eq!(t.get_color(1, 1), 0xFFFFFF);
}

#[test]
fn texture_get_color_wraps_coordinates() {
    let t = two_by_two();
    assert_eq!(t.get_color(2, 0), 0xFF0000);
    assert_eq!(t.get_color(3, 2), 0x00FF00);
    assert_eq!(t.get_color(4, 5), 0x0000FF);
    assert_eq!(t.get_color(usize::MAX, usize::MAX), 0xFFFFFF);
}

#[test]
fn texture_single_pixel() {
    let t = Texture::new(1, 1, &vec![10, 20, 30]);
    assert_eq!(t.get_color(7, 9), 0x0A141E);
}

#[test]
fn framebuffer_new_is_black() {
    let fb = Framebuffer::new(4, 3);
    assert_eq!(fb.buffer.len(), 12);
    assert!(fb.buffer.iter().all(|&c| c == 0));
}

#[test]
fn framebuffer_empty() {
    let fb = Framebuffer::new(0, 5);
    assert!(fb.buffer.is_empty());
}

#[test]
fn framebuffer_pixel_position_row_major() {
    let fb = Framebuffer::new(4, 3);
    assert_eq!(fb.pixel_position(0), (0, 0));
    assert_eq!(fb.pixel_position(3), (3, 0));
    assert_eq!(fb.pixel_position(4), (0, 1));
    assert_eq!(fb.pixel_position(11), (3, 2));
}

#[test]
fn framebuffer_store_frame_replaces_cells() {
    let mut fb = Framebuffer::new(2, 2);
    fb.store_frame(vec![1, 2, 3, 0xFFFFFF]);
    assert_eq!(fb.buffer, vec![1, 2, 3, 0xFFFFFF]);
    assert_eq!((fb.width, fb.height), (2, 2));
}

#[test]
fn depth_bound_stops_after_three_bounces() {
    assert_eq!(MAX_DEPTH, 3);
    for depth in 0..=3 {
        assert!(traces_geometry(depth));
    }
    assert!(!traces_geometry(4));
    assert!(!traces_geometry(u32::MAX));
}
