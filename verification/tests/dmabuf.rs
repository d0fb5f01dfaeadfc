use wayland_protocols::wp::linux_dmabuf::zv1::client::zwp_linux_buffer_params_v1::Flags;
use wayland_test_clients::dmabuf_y_invert::{
    digit_transform, DmabufWindow, Import, Request, Y_INVERT_FLAG,
};
use wayland_test_clients::drm::{
    can_copy_rows, copy_rows, BufferCreation, DeviceSearch, Failure, Probe, Reply, Step, Verdict,
    BITS_PER_PIXEL, DRM_FORMAT_XRGB8888,
    DRM_IOCTL_MODE_CREATE_DUMB, DRM_IOCTL_MODE_DESTROY_DUMB, DRM_IOCTL_MODE_MAP_DUMB,
    DRM_IOCTL_PRIME_HANDLE_TO_FD,
};
use wayland_test_clients::geometry::Rect;
use wayland_test_clients::keys::{KEY_1, KEY_2, KEY_8, KEY_Q, KEY_SPACE};
use wayland_test_clients::seat::{Capability, DeviceRequest, Devices};
use wayland_test_clients::transform::{target_color, Transform};

fn iowr(kind: u8, number: u32, size: u32) -> u32 {
    (3 << 30) | (size << 16) | ((kind as u32) << 8) | number
}

#[test]
fn ioctl_numbers() {
    assert_eq!(DRM_IOCTL_PRIME_HANDLE_TO_FD, iowr(b'd', 0x2D, 12));
    assert_eq!(DRM_IOCTL_MODE_CREATE_DUMB, iowr(b'd', 0xB2, 32));
    assert_eq!(DRM_IOCTL_MODE_MAP_DUMB, iowr(b'd', 0xB3, 16));
    assert_eq!(DRM_IOCTL_MODE_DESTROY_DUMB, iowr(b'd', 0xB4, 4));
}

#[test]
fn format_spells_its_name() {
    assert_eq!(&DRM_FORMAT_XRGB8888.to_le_bytes(), b"XR24");
}

#[test]
fn candidates_in_order() {
    let mut search = DeviceSearch::new();
    let mut paths = Vec::new();
    while let Some(path) = search.path() {
        paths.push(path);
        assert_eq!(search.advance(Probe::Missing), Verdict::Next);
    }
    assert_eq!(paths.len(), 80);
    assert_eq!(paths[0], "/dev/dri/renderD128");
    assert_eq!(paths[63], "/dev/dri/renderD191");
    assert_eq!(paths[64], "/dev/dri/card0");
    assert_eq!(paths[79], "/dev/dri/card15");
}

#[test]
fn a_device_needs_to_answer() {
    let mut search = DeviceSearch::new();
    assert_eq!(search.advance(Probe::Closed), Verdict::Next);
    assert_eq!(search.advance(Probe::Answered(-1)), Verdict::Next);
    assert_eq!(search.advance(Probe::Answered(0)), Verdict::Use);
    assert_eq!(search.path().unwrap(), "/dev/dri/renderD130");
}

#[test]
fn devices_are_probed_with_one_pixel() {
    let search = DeviceSearch::new();
    assert_eq!(
        search.probe_step(),
        Step::Create { request: 0xC020_64B2, width: 1, height: 1, bits_per_pixel: 32 }
    );
    assert_eq!(
        search.clean_up_step(5),
        Step::Destroy { request: 0xC004_64B4, handle: 5 }
    );
}

const CREATED: Reply = Reply::Created { answer: 0, handle: 9, pitch: 64, size: 4096 };

#[test]
fn buffers_are_made_step_by_step() {
    let mut creation = BufferCreation::new(6, 4);
    let replies = [
        CREATED,
        Reply::Mapped { answer: 0, offset: 0x1000 },
        Reply::Mmapped { success: true },
        Reply::Copied,
        Reply::Unmapped,
        Reply::Exported { answer: 0, fd: 7 },
    ];
    let mut steps = vec![creation.step()];
    for reply in replies {
        creation.advance(reply);
        steps.push(creation.step());
    }
    let expected = vec![
        Step::Create {
            request: DRM_IOCTL_MODE_CREATE_DUMB,
            width: 6,
            height: 4,
            bits_per_pixel: BITS_PER_PIXEL,
        },
        Step::MapOffset { request: DRM_IOCTL_MODE_MAP_DUMB, handle: 9 },
        Step::Mmap { length: 4096, offset: 0x1000 },
        Step::CopyRows { width: 6, height: 4, pitch: 64 },
        Step::Unmap { length: 4096 },
        Step::Export {
            request: DRM_IOCTL_PRIME_HANDLE_TO_FD,
            handle: 9,
            read_write: true,
            close_on_exec: true,
        },
        Step::Finish { fd: 7, stride: 64 },
    ];
    assert_eq!(steps, expected);
}

#[test]
fn failed_calls_end_the_creation() {
    let failing = [
        (Reply::Created { answer: -1, handle: 0, pitch: 0, size: 0 }, Failure::Create),
        (Reply::Mapped { answer: -1, offset: 0 }, Failure::MapOffset),
        (Reply::Mmapped { success: false }, Failure::Mmap),
        (Reply::Exported { answer: -1, fd: 0 }, Failure::Export),
    ];
    let names = [
        "DRM_IOCTL_MODE_CREATE_DUMB",
        "DRM_IOCTL_MODE_MAP_DUMB",
        "mmap",
        "DRM_IOCTL_PRIME_HANDLE_TO_FD",
    ];
    let good = [
        vec![],
        vec![CREATED],
        vec![CREATED, Reply::Mapped { answer: 0, offset: 0 }],
        vec![
            CREATED,
            Reply::Mapped { answer: 0, offset: 0 },
            Reply::Mmapped { success: true },
            Reply::Copied,
            Reply::Unmapped,
        ],
    ];
    for i in 0..4 {
        let mut creation = BufferCreation::new(1, 1);
        for reply in &good[i] {
            creation.advance(*reply);
        }
        let (reply, failure) = failing[i];
        creation.advance(reply);
        assert_eq!(creation.step(), Step::Fail(failure));
        assert_eq!(failure.name(), names[i]);
        // Nothing leads on from there.
        creation.advance(CREATED);
        assert_eq!(creation, BufferCreation::Failed(failure));
    }
}

#[test]
fn replies_to_other_steps_change_nothing() {
    let mut creation = BufferCreation::new(2, 2);
    creation.advance(Reply::Unmapped);
    assert_eq!(creation, BufferCreation::Creating { width: 2, height: 2 });
}

#[test]
fn rows_are_copied_to_multiples_of_the_pitch() {
    let pixels: Vec<u8> = (1..=16).collect();
    let mut mapped = [0xEEu8; 27];
    assert!(can_copy_rows(mapped.len(), pixels.len(), 2, 2, 12));
    copy_rows(&mut mapped, &pixels, 2, 2, 12);
    // The padding, and what lies behind the last row, keep their bytes.
    let mut expected = [0xEEu8; 27];
    expected[0..8].copy_from_slice(&pixels[0..8]);
    expected[12..20].copy_from_slice(&pixels[8..16]);
    assert_eq!(mapped, expected);
}

#[test]
fn the_last_row_needs_no_padding() {
    assert!(can_copy_rows(20, 16, 2, 2, 12));
    assert!(!can_copy_rows(19, 16, 2, 2, 12));
    assert!(!can_copy_rows(20, 15, 2, 2, 12));
    assert!(can_copy_rows(0, 0, 2, 0, 12));
}

#[test]
fn the_first_configure_event_draws() {
    let mut window = DmabufWindow::new();
    assert_eq!(window.draw(), vec![]);
    let redraw = window.configure((None, None)).unwrap();
    assert!(!redraw.rebuild.destroy_old);
    assert_eq!((redraw.rebuild.width, redraw.rebuild.height), (256, 256));
    assert_eq!(redraw.rebuild.pixels.len(), 256 * 256 * 4);
    assert!(!redraw.rebuild.y_invert);
    let whole = Rect { x: 0, y: 0, width: 256, height: 256 };
    let expected = vec![
        Request::SetBufferTransform(Transform::Normal),
        Request::Attach { x: 0, y: 0 },
        Request::Damage(whole),
        Request::Commit,
    ];
    assert_eq!(redraw.requests, expected);
    assert!(window.has_buffer);
    assert!(window.configure((None, None)).is_none());
    assert_eq!(window.draw(), expected);
}

#[test]
fn setting_keys_rebuild_the_buffer() {
    let mut window = DmabufWindow::new();
    window.configure((Some(6), Some(4)));
    let redraw = window.press_key(KEY_2).unwrap();
    assert!(redraw.rebuild.destroy_old);
    assert_eq!((redraw.rebuild.width, redraw.rebuild.height), (4, 6));
    assert_eq!(redraw.requests[0], Request::SetBufferTransform(Transform::_90));
    assert_eq!(
        redraw.requests[2],
        Request::Damage(Rect { x: 0, y: 0, width: 4, height: 6 })
    );
    assert!(window.press_key(KEY_Q).is_none());
    let redraw = window.press_key(KEY_1).unwrap();
    assert_eq!((redraw.rebuild.width, redraw.rebuild.height), (6, 4));
}

#[test]
fn space_toggles_the_inversion() {
    let mut window = DmabufWindow::new();
    window.configure((Some(2), Some(2)));
    let upright = window;
    let redraw = window.press_key(KEY_SPACE).unwrap();
    assert!(redraw.rebuild.y_invert);
    // The bottom row of the surface is the first row of the buffer.
    let first = u32::from_le_bytes([
        redraw.rebuild.pixels[0],
        redraw.rebuild.pixels[1],
        redraw.rebuild.pixels[2],
        redraw.rebuild.pixels[3],
    ]);
    assert_eq!(first, target_color(0, 1, 2, 2));
    window.press_key(KEY_SPACE);
    assert_eq!(window, upright);
}

#[test]
fn buffers_are_imported_as_one_linear_plane() {
    let mut window = DmabufWindow::new();
    let upright = window.configure((Some(6), Some(4))).unwrap().rebuild.import(64);
    assert_eq!(
        upright,
        Import {
            plane: 0,
            offset: 0,
            stride: 64,
            modifier: 0,
            width: 6,
            height: 4,
            format: 0x3432_5258,
            flags: 0,
        }
    );
    window.press_key(KEY_2);
    let inverted = window.press_key(KEY_SPACE).unwrap().rebuild.import(32);
    assert_eq!(
        inverted,
        Import { stride: 32, width: 4, height: 6, flags: Y_INVERT_FLAG, ..upright }
    );
    assert_eq!(Y_INVERT_FLAG, Flags::YInvert.bits());
}

#[test]
fn the_first_working_device_is_used() {
    let search = |working: &[u32]| -> Option<String> {
        let mut search = DeviceSearch::new();
        while let Some(path) = search.path() {
            let probe = if working.contains(&search.index) {
                Probe::Answered(0)
            } else if search.index % 2 == 0 {
                Probe::Missing
            } else {
                Probe::Answered(-1)
            };
            if search.advance(probe) == Verdict::Use {
                return Some(path);
            }
        }
        None
    };
    assert_eq!(search(&[]), None);
    assert_eq!(search(&[0, 5]).unwrap(), "/dev/dri/renderD128");
    assert_eq!(search(&[64, 5]).unwrap(), "/dev/dri/renderD133");
    assert_eq!(search(&[79]).unwrap(), "/dev/dri/card15");
}

#[test]
fn digits_select_transforms() {
    assert_eq!(digit_transform(KEY_1), Some(Transform::Normal));
    assert_eq!(digit_transform(KEY_8), Some(Transform::Flipped270));
    assert_eq!(digit_transform(0x30), None);
    assert_eq!(digit_transform(0x39), None);
}

#[test]
fn focus_follows_the_own_surface() {
    let mut window = DmabufWindow::new();
    window.enter(false);
    assert!(!window.keyboard_focus);
    window.enter(true);
    window.leave(false);
    assert!(window.keyboard_focus);
    window.leave(true);
    assert!(!window.keyboard_focus);
    window.request_close();
    assert!(window.exit);
}

#[test]
fn devices_are_got_once_and_released_once() {
    let mut devices = Devices::new();
    assert_eq!(devices.new_capability(Capability::Keyboard), Some(DeviceRequest::GetKeyboard));
    assert_eq!(devices.new_capability(Capability::Keyboard), None);
    assert_eq!(devices.new_capability(Capability::Touch), None);
    assert_eq!(devices.new_capability(Capability::Pointer), Some(DeviceRequest::GetPointer));
    assert_eq!(
        devices.remove_capability(Capability::Keyboard),
        Some(DeviceRequest::ReleaseKeyboard)
    );
    assert_eq!(devices.remove_capability(Capability::Keyboard), None);
    assert_eq!(devices, Devices { keyboard: false, pointer: true });
    assert_eq!(devices.remove_capability(Capability::Pointer), Some(DeviceRequest::ReleasePointer));
}
