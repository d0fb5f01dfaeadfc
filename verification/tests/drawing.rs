use wayland_protocols::xdg::shell::client::xdg_positioner::ConstraintAdjustment;
use wayland_test_clients::canvas::{fill, put_pixel};
use wayland_test_clients::geometry::{
    buffer_shape, is_drawable, whole_rect, BufferShape, Rect, SurfaceSize,
};
use wayland_test_clients::positioner::{Edge, Positioner, SLIDE_AND_FLIP};
use wayland_test_clients::text::{decimal_text, signed_decimal_text};
use wayland_test_clients::transform::{
    buffer_dims, draw_transformed_gradient, is_gradient_size, map_surface_to_buffer, target_color,
    Transform,
};

const TRANSFORMS: [Transform; 8] = [
    Transform::Normal,
    Transform::_90,
    Transform::_180,
    Transform::_270,
    Transform::Flipped,
    Transform::Flipped90,
    Transform::Flipped180,
    Transform::Flipped270,
];

fn word(data: &[u8], i: usize) -> u32 {
    u32::from_le_bytes([data[4 * i], data[4 * i + 1], data[4 * i + 2], data[4 * i + 3]])
}

#[test]
fn pixels_are_little_endian() {
    let mut canvas = [0u8; 8];
    put_pixel(&mut canvas, 1, 0xFF10_2040);
    assert_eq!(canvas, [0, 0, 0, 0, 0x40, 0x20, 0x10, 0xFF]);
}

#[test]
fn fill_leaves_an_incomplete_pixel_alone() {
    let mut canvas = [7u8; 11];
    fill(&mut canvas, 0x0403_0201);
    assert_eq!(canvas, [1, 2, 3, 4, 1, 2, 3, 4, 7, 7, 7]);
    let mut empty: [u8; 0] = [];
    fill(&mut empty, 1);
    assert_eq!(empty.len(), 0);
}

#[test]
fn rows_must_fit_the_protocol() {
    assert!(is_drawable(0, 0));
    assert!(is_drawable(0x1FFF_FFFF, 0x7FFF_FFFF));
    assert!(!is_drawable(0x2000_0000, 1));
    assert!(!is_drawable(1, 0x8000_0000));
}

#[test]
fn shapes_and_whole_rectangles() {
    assert_eq!(buffer_shape(400, 300), BufferShape { width: 400, height: 300, stride: 1600 });
    assert_eq!(whole_rect(400, 300), Rect { x: 0, y: 0, width: 400, height: 300 });
}

#[test]
fn sizes_redraw_on_the_first_event_and_on_changes() {
    let mut size = SurfaceSize::new(400, 300);
    assert!(size.first_configure);
    assert!(size.configure((None, None), (400, 300)));
    assert!(!size.first_configure);
    assert!(!size.configure((None, None), (400, 300)));
    assert!(size.configure((Some(500), None), (400, 300)));
    assert_eq!((size.width, size.height), (500, 300));
    // A missing suggestion means the client's own size again, not the last one.
    assert!(size.configure((None, Some(300)), (400, 300)));
    assert_eq!((size.width, size.height), (400, 300));
    assert!(!size.settle(400, 300));
    assert!(size.settle(400, 301));
}

#[test]
fn positioners_anchor_at_one_pixel() {
    let positioner = Positioner::at_point(240, 160, 10, -4, Edge::Bottom);
    assert_eq!(positioner.anchor_rect, Rect { x: 10, y: -4, width: 1, height: 1 });
    assert_eq!((positioner.width, positioner.height), (240, 160));
    assert_eq!(positioner.anchor, Edge::Bottom);
    assert_eq!(positioner.gravity, Edge::Bottom);
    assert_eq!(positioner.constraint_adjustment, SLIDE_AND_FLIP);
    // Sliding is 1 and 2, flipping 4 and 8.
    assert_eq!(SLIDE_AND_FLIP, 1 | 2 | 4 | 8);
}

#[test]
fn decimal_notation() {
    assert_eq!(decimal_text(0), "0");
    assert_eq!(decimal_text(10), "10");
    assert_eq!(decimal_text(191), "191");
    assert_eq!(decimal_text(u32::MAX), format!("{}", u32::MAX));
    assert_eq!(signed_decimal_text(-7), "-7");
    assert_eq!(signed_decimal_text(i32::MIN), format!("{}", i32::MIN));
    assert_eq!(signed_decimal_text(i32::MAX), format!("{}", i32::MAX));
}

#[test]
fn target_color_in_the_corners() {
    assert_eq!(target_color(0, 0, 256, 256), 0xFFFF_0000);
    assert_eq!(target_color(255, 0, 256, 256), 0xFF00_FE00);
    assert_eq!(target_color(0, 255, 256, 256), 0xFF00_00FE);
    assert_eq!(target_color(255, 255, 256, 256), 0xFF00_0000);
    assert_eq!(target_color(128, 64, 256, 256), 0xFF7F_7F3F);
    // The far corners are one past the last pixels.
    assert_eq!(target_color(256, 0, 256, 256), 0xFF00_FF00);
    assert_eq!(target_color(0, 7, 30, 7), 0xFF00_00FF);
    assert_eq!(target_color(30, 7, 30, 7), 0xFF00_0000);
}

#[test]
fn quarter_turns_swap_the_sides() {
    assert_eq!(buffer_dims(30, 20, Transform::Normal), (30, 20));
    assert_eq!(buffer_dims(30, 20, Transform::_90), (20, 30));
    assert_eq!(buffer_dims(30, 20, Transform::_180), (30, 20));
    assert_eq!(buffer_dims(30, 20, Transform::_270), (20, 30));
    assert_eq!(buffer_dims(30, 20, Transform::Flipped), (30, 20));
    assert_eq!(buffer_dims(30, 20, Transform::Flipped90), (20, 30));
    assert_eq!(buffer_dims(30, 20, Transform::Flipped180), (30, 20));
    assert_eq!(buffer_dims(30, 20, Transform::Flipped270), (20, 30));
}

#[test]
fn places_of_a_pixel_under_every_transform() {
    let places: Vec<(u32, u32)> =
        TRANSFORMS.iter().map(|t| map_surface_to_buffer(3, 5, 30, 20, *t)).collect();
    assert_eq!(
        places,
        vec![(3, 5), (5, 26), (26, 14), (14, 3), (26, 5), (5, 3), (3, 14), (14, 26)]
    );
}

#[test]
fn every_combination_shows_the_same_picture() {
    let (sw, sh) = (6u32, 4u32);
    for transform in TRANSFORMS {
        for y_inverted in [false, true] {
            let (bw, bh, data) = draw_transformed_gradient(sw, sh, transform, y_inverted);
            assert_eq!((bw, bh), buffer_dims(sw, sh, transform));
            assert_eq!(data.len(), (sw * sh * 4) as usize);
            for sy in 0..sh {
                for sx in 0..sw {
                    let (bx, mut by) = map_surface_to_buffer(sx, sy, sw, sh, transform);
                    if y_inverted {
                        by = bh - 1 - by;
                    }
                    let shown = word(&data, (by * bw + bx) as usize);
                    assert_eq!(shown, target_color(sx, sy, sw, sh));
                }
            }
        }
    }
}

#[test]
fn empty_surfaces_have_empty_gradients() {
    let (bw, bh, data) = draw_transformed_gradient(0, 5, Transform::_90, true);
    assert_eq!((bw, bh, data.len()), (5, 0, 0));
}

#[test]
fn gradients_have_a_largest_size() {
    assert!(is_gradient_size(256, 256, Transform::Normal));
    assert!(!is_gradient_size(0x4000_0000, 1, Transform::Normal));
    assert!(!is_gradient_size(0x8000, 0x8000, Transform::_90));
    assert!(!is_gradient_size(1, 0x1010_1011, Transform::Normal));
    assert!(is_gradient_size(0, 0x1010_1011, Transform::Normal));
}

#[test]
fn adjustments_are_those_of_the_protocol() {
    let all = ConstraintAdjustment::SlideX
        | ConstraintAdjustment::SlideY
        | ConstraintAdjustment::FlipX
        | ConstraintAdjustment::FlipY;
    assert_eq!(all.bits(), SLIDE_AND_FLIP);
}

#[test]
fn transforms_move_pixels_one_to_one() {
    let (sw, sh) = (5u32, 3u32);
    for transform in TRANSFORMS {
        let (bw, bh) = buffer_dims(sw, sh, transform);
        let mut taken = vec![false; (bw * bh) as usize];
        for sy in 0..sh {
            for sx in 0..sw {
                let (bx, by) = map_surface_to_buffer(sx, sy, sw, sh, transform);
                assert!(bx < bw && by < bh);
                let place = &mut taken[(by * bw + bx) as usize];
                assert!(!*place);
                *place = true;
            }
        }
        assert!(taken.iter().all(|place| *place));
    }
}
