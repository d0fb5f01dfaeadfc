use wayland_test_clients::background_layer_frame_callbacks as background;
use wayland_test_clients::background_layer_frame_callbacks::FrameReport;
use wayland_test_clients::fullscreen_on_disabled_output as fullscreen;
use wayland_test_clients::geometry::{BufferShape, Rect};

#[test]
fn the_halves_of_an_odd_width() {
    let mut canvas = vec![0u8; 5 * 2 * 4];
    background::paint_halves(&mut canvas, 5);
    let words: Vec<u32> = canvas
        .chunks_exact(4)
        .map(|c| u32::from_le_bytes([c[0], c[1], c[2], c[3]]))
        .collect();
    let (blue, red) = (0xFF10_2040, 0xFF40_1010);
    assert_eq!(words, vec![blue, blue, red, red, red, blue, blue, red, red, red]);
}

#[test]
fn configure_events_without_a_size_are_ignored() {
    let mut app = background::App::new();
    assert_eq!(app.configure((0, 600)), vec![]);
    assert_eq!(app.configure((800, 0)), vec![]);
    assert!(app.size.first_configure);
}

#[test]
fn a_new_size_shows_the_first_buffer_with_full_damage() {
    let mut app = background::App::new();
    let shape = BufferShape { width: 801, height: 600, stride: 3204 };
    let expected = vec![
        background::Request::DropBuffers,
        background::Request::Paint { buffer: 0, shape },
        background::Request::Paint { buffer: 1, shape },
        background::Request::AnnounceConfigured { width: 801, height: 600 },
        background::Request::Attach { buffer: 0 },
        background::Request::Damage(Rect { x: 0, y: 0, width: 801, height: 600 }),
        background::Request::Frame,
        background::Request::Commit,
    ];
    assert_eq!(app.configure((801, 600)), expected);
    assert_eq!(app.current_buf, 1);
    assert_eq!(app.configure((801, 600)), vec![]);
    app.frame(0);
    app.frame(0);
    app.frame(0);
    assert_eq!(app.current_buf, 0);
    let requests = app.configure((800, 600));
    assert_eq!(requests[4], background::Request::Attach { buffer: 0 });
    assert_eq!(app.current_buf, 1);
}

#[test]
fn frames_damage_the_left_half() {
    let mut app = background::App::new();
    app.configure((801, 600));
    let (report, requests) = app.frame(1_000);
    assert_eq!(report, FrameReport { count: 1, since_last: None });
    assert_eq!(
        requests,
        vec![
            background::Request::Attach { buffer: 1 },
            background::Request::Damage(Rect { x: 0, y: 0, width: 400, height: 600 }),
            background::Request::Frame,
            background::Request::Commit,
        ]
    );
    let (report, requests) = app.frame(17_000);
    assert_eq!(report, FrameReport { count: 2, since_last: Some(16_000) });
    assert_eq!(requests[0], background::Request::Attach { buffer: 0 });
    // A clock that goes backwards counts as standing still.
    let (report, _) = app.frame(16_000);
    assert_eq!(report, FrameReport { count: 3, since_last: Some(0) });
}

#[test]
fn the_background_can_be_closed() {
    let mut app = background::App::new();
    app.closed();
    assert!(app.exit);
}

#[test]
fn a_removed_output_gets_the_window() {
    let mut app = fullscreen::App::new(vec![5, 9]);
    assert_eq!(
        app.runtime_remove_global(9, "wl_output"),
        vec![
            fullscreen::Request::AnnounceRemoved { name: 9 },
            fullscreen::Request::SetFullscreen { index: 1 },
        ]
    );
    // The proxy is kept.
    assert_eq!(app.outputs, vec![5, 9]);
    assert_eq!(app.runtime_remove_global(9, "wl_seat"), vec![]);
    assert_eq!(app.runtime_remove_global(6, "wl_output"), vec![]);
    assert_eq!(
        app.runtime_add_global(6, "wl_output"),
        vec![
            fullscreen::Request::BindOutput { name: 6, lowest_version: 1, highest_version: 4 },
            fullscreen::Request::AnnounceAdded { name: 6 },
        ]
    );
    assert_eq!(
        app.runtime_remove_global(6, "wl_output")[1],
        fullscreen::Request::SetFullscreen { index: 2 }
    );
}

#[test]
fn other_globals_are_not_bound() {
    let mut app = fullscreen::App::new(vec![]);
    assert_eq!(app.runtime_add_global(3, "wl_outputs"), vec![]);
    assert_eq!(app.runtime_add_global(3, ""), vec![]);
    assert!(app.outputs.is_empty());
}

#[test]
fn the_first_of_equal_names_is_found() {
    assert_eq!(fullscreen::position(&[4, 7, 7], 7), Some(1));
    assert_eq!(fullscreen::position(&[4, 7, 7], 8), None);
}

#[test]
fn the_fullscreen_client_draws_its_window() {
    let mut app = fullscreen::App::new(vec![]);
    assert_eq!(
        app.configure((Some(640), None)),
        vec![
            fullscreen::Request::DropWindowBuffer,
            fullscreen::Request::PaintWindow(BufferShape { width: 640, height: 300, stride: 2560 }),
            fullscreen::Request::DamageWindow(Rect { x: 0, y: 0, width: 640, height: 300 }),
            fullscreen::Request::AttachWindow,
            fullscreen::Request::CommitWindow,
        ]
    );
    assert_eq!(app.configure((Some(640), Some(300))), vec![]);
    let mut canvas = [0u8; 4];
    fullscreen::paint_window(&mut canvas);
    assert_eq!(u32::from_le_bytes(canvas), 0xFF40_80C0);
    app.request_close();
    assert!(app.exit);
}
