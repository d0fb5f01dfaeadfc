# wayland_test_clients

Small Wayland clients for trying out a compositor. What each client decides and draws is a library
that Verus verifies; talking to the compositor is left to a thin program around it.

- `dmabuf_y_invert`: Space toggles between a normal and a y-inverted DMA-BUF buffer, the keys 1 to 8
  select a buffer transform, and the window should look the same throughout.
- `subsurface_no_geometry`: a window with background blur and no window geometry; a click creates a
  subsurface that may stick out, and the next click removes it.
- `layer_shell_popups`: a layer surface with popups on left click and a subsurface on right click,
  all with background blur. W/S, E/D, R/F and T/G change the popups, PgUp/PgDn the layer.
- `blur_region_switch_half`: a window with blur on one half; Space switches halves by changing
  nothing but the blur region.
- `background_layer_frame_callbacks`: a background layer surface of two halves, of which the left one
  is damaged on every frame callback.
- `popup_desync_subsurface_frame_callbacks`: a popup of which only the desynchronized subsurface
  animates and commits after the setup.
- `pointer_lock_position_hint`: a dot that follows the relative motion of a locked pointer, with a
  cursor position hint on every update.
- `fullscreen_on_disabled_output`: a window that goes fullscreen on an output whose global was just
  removed.
- `delayed_get_input_devices`: a window that gets its input devices one second after it was rendered
  and warns about events that are out of order.

## Layout

`src/` is the library. Each client is a module with its state, an invariant `wf`, and one function
per event. A function takes plain values and returns the requests to make, in order; its contract
says what the state and the requests are, in terms of specification functions on the state
(`configured`, `key_requests` and the like). The painters' contracts give the color of every pixel.
Functions named `law_...` state what holds of a client as a whole: that every combination of
transform and inversion shows the same picture, that a child popup is destroyed before its parent,
that the subsurface alone is committed after the setup, that a hint goes out with every update.

Shared by the clients are `canvas` (pixels), `geometry` (sizes and rectangles), `transform` (buffer
transforms and the gradient), `drm` (dumb buffers), `positioner` (popups), `seat` (devices and
pointer events), `keys` and `text` (decimal notation).

`tests/` runs the library on concrete events and pictures.

`app/` is the program. It turns events into plain values, performs the requests with
smithay-client-toolkit, and keeps what needs floating-point numbers or system calls. It links to
libxkbcommon. Run it with the name of a client as its argument.
