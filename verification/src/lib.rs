//! The decisions and the pixels of a set of small Wayland test clients.

pub mod background_layer_frame_callbacks;
pub mod blur_region_switch_half;
pub mod canvas;
pub mod delayed_get_input_devices;
pub mod dmabuf_y_invert;
pub mod drm;
pub mod fullscreen_on_disabled_output;
pub mod geometry;
pub mod keys;
pub mod layer_shell_popups;
pub mod pointer_lock_position_hint;
pub mod popup_desync_subsurface_frame_callbacks;
pub mod positioner;
pub mod seat;
pub mod steps;
pub mod subsurface_no_geometry;
pub mod text;
pub mod transform;
