//! A window that goes fullscreen on an output whose global has just been removed. The outputs stay
//! bound after that, so that the request refers to a valid, but disabled, output.

use vstd::prelude::*;

use crate::canvas::{fill, painted};
use crate::geometry::{
    buffer_shape, shape_of, side_or, whole, whole_rect, BufferShape, Rect, SurfaceSize,
};
use crate::steps::{has_steps, stands_at};

verus! {

pub const WINDOW_W: u32 = 400;

pub const WINDOW_H: u32 = 300;

pub const WINDOW_COLOR: u32 = 0xFF40_80C0;

/// The interface of the globals that the client binds.
pub const OUTPUT_INTERFACE: &'static str = "wl_output";

/// The lowest and the highest version in which the client binds an output.
pub const OUTPUT_VERSIONS: (u32, u32) = (1, 4);

/// Paints the window.
pub fn paint_window(canvas: &mut [u8])
    ensures
        painted(old(canvas)@, final(canvas)@, |i: int| WINDOW_COLOR),
{
    fill(canvas, WINDOW_COLOR);
}

/// What the client asks of the compositor, and of its buffer pool, in order.
#[derive(Clone, Copy, Debug, PartialEq, Eq, Structural)]
pub enum Request {
    /// Forget the window's buffer, whose size is out of date.
    DropWindowBuffer,
    /// Get a canvas of this shape and paint the window on it.
    PaintWindow(BufferShape),
    DamageWindow(Rect),
    AttachWindow,
    CommitWindow,
    /// Bind the output with this name, in one of the client's versions, and keep the proxy as the
    /// last one.
    BindOutput { name: u32, lowest_version: u32, highest_version: u32 },
    /// Tell that an output was added.
    AnnounceAdded { name: u32 },
    /// Tell that an output was removed.
    AnnounceRemoved { name: u32 },
    /// Go fullscreen on the output with this index among the proxies.
    SetFullscreen { index: usize },
}

/// The index of the first output with this name.
pub open spec fn first_index(outputs: Seq<u32>, name: u32, index: int) -> bool {
    &&& 0 <= index < outputs.len()
    &&& outputs[index] == name
    &&& forall|i: int| 0 <= i < index ==> #[trigger] outputs[i] != name
}

/// The index of the first output with this name, if there is one.
pub fn position(outputs: &[u32], name: u32) -> (found: Option<usize>)
    ensures
        found is Some ==> first_index(outputs@, name, found->0 as int),
        found is None <==> !outputs@.contains(name),
{
    let mut i: usize = 0;
    while i < outputs.len()
        invariant
            i <= outputs@.len(),
            forall|k: int| 0 <= k < i ==> #[trigger] outputs@[k] != name,
        decreases outputs@.len() - i,
    {
        if outputs[i] == name {
            assert(outputs@.contains(name));
            return Some(i);
        }
        i += 1;
    }
    None
}

#[derive(Debug)]
pub struct App {
    pub exit: bool,
    pub size: SurfaceSize,
    /// The registry names of the outputs that were bound, in order. Those of removed globals stay.
    pub outputs: Vec<u32>,
}

impl App {
    /// The window's size is one that can be drawn.
    pub open spec fn wf(self) -> bool {
        self.size.is_drawable()
    }

    pub open spec fn draw_requests(size: SurfaceSize) -> Seq<Request> {
        seq![
            Request::PaintWindow(shape_of(size.width, size.height)),
            Request::DamageWindow(whole(size.width, size.height)),
            Request::AttachWindow,
            Request::CommitWindow,
        ]
    }

    /// The size that a configure event leads to.
    pub open spec fn settled_size(suggested: (Option<u32>, Option<u32>)) -> SurfaceSize {
        SurfaceSize::settled(side_or(suggested.0, WINDOW_W), side_or(suggested.1, WINDOW_H))
    }

    pub open spec fn configure_requests(self, suggested: (Option<u32>, Option<u32>)) -> Seq<
        Request,
    > {
        let settled = App::settled_size(suggested);
        if self.size.calls_for_redraw(settled.width, settled.height) {
            seq![Request::DropWindowBuffer] + App::draw_requests(settled)
        } else {
            seq![]
        }
    }

    pub open spec fn bind_request(name: u32) -> Request {
        Request::BindOutput {
            name,
            lowest_version: OUTPUT_VERSIONS.0,
            highest_version: OUTPUT_VERSIONS.1,
        }
    }

    /// The outputs after a global was added.
    pub open spec fn outputs_with(self, name: u32, interface: Seq<char>) -> Seq<u32> {
        if interface == OUTPUT_INTERFACE@ {
            self.outputs@.push(name)
        } else {
            self.outputs@
        }
    }

    pub open spec fn add_requests(name: u32, interface: Seq<char>) -> Seq<Request> {
        if interface == OUTPUT_INTERFACE@ {
            seq![App::bind_request(name), Request::AnnounceAdded { name }]
        } else {
            seq![]
        }
    }

    /// The removed global is an output that was bound.
    pub open spec fn loses_output(self, name: u32, interface: Seq<char>) -> bool {
        interface == OUTPUT_INTERFACE@ && self.outputs@.contains(name)
    }

    /// The client before any event, with these outputs.
    pub open spec fn starts_with(self, output_names: Seq<u32>) -> bool {
        &&& !self.exit
        &&& self.size == SurfaceSize::initial(WINDOW_W, WINDOW_H)
        &&& self.outputs@ == output_names
    }

    /// `after` is the client once it is to end.
    pub open spec fn ends_as(self, after: App) -> bool {
        &&& after.exit
        &&& after.size == self.size
        &&& after.outputs@ == self.outputs@
    }

    /// `requests` are what the removal of a global leads to.
    pub open spec fn is_removal_answer(
        self,
        name: u32,
        interface: Seq<char>,
        requests: Seq<Request>,
    ) -> bool {
        &&& !self.loses_output(name, interface) ==> requests == Seq::<Request>::empty()
        &&& self.loses_output(name, interface) ==> {
            &&& requests.len() == 2
            &&& requests[0] == Request::AnnounceRemoved { name }
            &&& requests[1] matches Request::SetFullscreen { index } && first_index(
                self.outputs@,
                name,
                index as int,
            )
        }
    }

    /// The client before any event, with the outputs that are there at its start.
    pub fn new(output_names: Vec<u32>) -> (app: App)
        ensures
            app.wf(),
            app.starts_with(output_names@),
    {
        App { exit: false, size: SurfaceSize::new(WINDOW_W, WINDOW_H), outputs: output_names }
    }

    /// Paints and shows the whole window.
    pub fn draw_window(&self, requests: &mut Vec<Request>)
        requires
            self.wf(),
        ensures
            final(requests)@ == old(requests)@ + App::draw_requests(self.size),
    {
        let width: u32 = self.size.width;
        let height: u32 = self.size.height;
        requests.push(Request::PaintWindow(buffer_shape(width, height)));
        requests.push(Request::DamageWindow(whole_rect(width, height)));
        requests.push(Request::AttachWindow);
        requests.push(Request::CommitWindow);
    }

    /// The compositor asks the window to close.
    pub fn request_close(&mut self)
        ensures
            old(self).ends_as(*final(self)),
    {
        self.exit = true;
    }

    /// Handles a configure event: the window is drawn again on the first one and on a new size.
    pub fn configure(&mut self, suggested: (Option<u32>, Option<u32>)) -> (requests: Vec<Request>)
        requires
            App::settled_size(suggested).is_drawable(),
        ensures
            final(self).wf(),
            final(self).size == App::settled_size(suggested),
            final(self).exit == old(self).exit,
            final(self).outputs@ == old(self).outputs@,
            requests@ == old(self).configure_requests(suggested),
    {
        let mut requests: Vec<Request> = Vec::new();
        if self.size.configure(suggested, (WINDOW_W, WINDOW_H)) {
            requests.push(Request::DropWindowBuffer);
            self.draw_window(&mut requests);
        }
        requests
    }

    /// Handles a new global: an output is bound.
    pub fn runtime_add_global(&mut self, name: u32, interface: &str) -> (requests: Vec<Request>)
        ensures
            final(self).size == old(self).size,
            final(self).exit == old(self).exit,
            final(self).outputs@ == old(self).outputs_with(name, interface@),
            requests@ == App::add_requests(name, interface@),
    {
        let mut requests: Vec<Request> = Vec::new();
        if interface.to_owned() == OUTPUT_INTERFACE.to_owned() {
            requests.push(
                Request::BindOutput {
                    name,
                    lowest_version: OUTPUT_VERSIONS.0,
                    highest_version: OUTPUT_VERSIONS.1,
                },
            );
            self.outputs.push(name);
            requests.push(Request::AnnounceAdded { name });
        }
        requests
    }

    /// Handles the removal of a global: the window goes fullscreen on an output that was bound. The
    /// proxy is kept, so that the request refers to a valid output.
    pub fn runtime_remove_global(&self, name: u32, interface: &str) -> (requests: Vec<Request>)
        ensures
            self.is_removal_answer(name, interface@, requests@),
    {
        let mut requests: Vec<Request> = Vec::new();
        if interface.to_owned() == OUTPUT_INTERFACE.to_owned() {
            if let Some(index) = position(self.outputs.as_slice(), name) {
                requests.push(Request::AnnounceRemoved { name });
                requests.push(Request::SetFullscreen { index });
            }
        }
        requests
    }
}

/// The first output with a name is unique.
pub proof fn law_first_index_is_unique(outputs: Seq<u32>, name: u32, one: int, other: int)
    requires
        first_index(outputs, name, one),
        first_index(outputs, name, other),
    ensures
        one == other,
{
}

/// An output that was bound is found again when its global goes away, also after other outputs were
/// added, and still under the same index.
pub proof fn law_bound_outputs_are_found(
    app: App,
    name: u32,
    index: int,
    added: u32,
    interface: Seq<char>,
)
    requires
        first_index(app.outputs@, name, index),
    ensures
        first_index(app.outputs_with(added, interface), name, index),
        app.loses_output(name, OUTPUT_INTERFACE@),
{
}

/// A newly bound output is found under the index of the last proxy, if its name is new.
pub proof fn law_new_output_is_last(app: App, name: u32)
    requires
        !app.outputs@.contains(name),
    ensures
        first_index(
            app.outputs_with(name, OUTPUT_INTERFACE@),
            name,
            app.outputs@.len() as int,
        ),
{
}

/// Globals of other interfaces are ignored.
pub proof fn law_other_globals_are_ignored(app: App, name: u32, interface: Seq<char>)
    requires
        interface != OUTPUT_INTERFACE@,
    ensures
        app.outputs_with(name, interface) == app.outputs@,
        App::add_requests(name, interface) == Seq::<Request>::empty(),
        !app.loses_output(name, interface),
{
}

/// When an output goes away, the window goes fullscreen on that very output, which is the earliest
/// of its name, after its removal was told; where nothing was bound under that name, or the global
/// was no output, nothing is asked.
pub proof fn law_window_follows_the_removed_output(
    app: App,
    name: u32,
    interface: Seq<char>,
    requests: Seq<Request>,
    index: usize,
)
    requires
        app.is_removal_answer(name, interface, requests),
    ensures
        requests.contains(Request::SetFullscreen { index }) ==> {
            &&& interface == OUTPUT_INTERFACE@
            &&& index < app.outputs@.len()
            &&& app.outputs@[index as int] == name
            &&& forall|i: int| 0 <= i < index ==> #[trigger] app.outputs@[i] != name
            &&& has_steps(
                requests,
                seq![Request::AnnounceRemoved { name }, Request::SetFullscreen { index }],
            )
        },
        interface == OUTPUT_INTERFACE@ && app.outputs@.contains(name) ==> requests.len() == 2
            && requests[1] is SetFullscreen,
        !(interface == OUTPUT_INTERFACE@ && app.outputs@.contains(name)) ==> requests.len() == 0,
{
    if requests.contains(Request::SetFullscreen { index }) {
        let i = requests.index_of(Request::SetFullscreen { index });
        assert(requests[i] == Request::SetFullscreen { index });
        assert(i == 1);
        assert(stands_at(
            requests,
            seq![Request::AnnounceRemoved { name }, Request::SetFullscreen { index }],
            seq![0, 1],
        ));
    }
}

/// An output is bound in a version from one to four before it is told of, and every output that was
/// bound stays bound, under the same index.
pub proof fn law_outputs_stay_bound(app: App, name: u32, interface: Seq<char>, i: int)
    ensures
        0 <= i < app.outputs@.len() ==> app.outputs_with(name, interface)[i] == app.outputs@[i],
        app.outputs_with(name, interface).len() == app.outputs@.len() + App::add_requests(
            name,
            interface,
        ).len() / 2,
        App::add_requests(name, interface).len() <= 2,
        interface == OUTPUT_INTERFACE@ ==> {
            &&& app.outputs_with(name, interface).len() == app.outputs@.len() + 1
            &&& app.outputs_with(name, interface).last() == name
            &&& has_steps(
                App::add_requests(name, interface),
                seq![
                    Request::BindOutput { name, lowest_version: 1, highest_version: 4 },
                    Request::AnnounceAdded { name },
                ],
            )
        },
{
    if interface == OUTPUT_INTERFACE@ {
        assert(stands_at(
            App::add_requests(name, interface),
            seq![
                Request::BindOutput { name, lowest_version: 1, highest_version: 4 },
                Request::AnnounceAdded { name },
            ],
            seq![0, 1],
        ));
    }
}

/// A configure event settles on the suggested sides, and on the client's own ones where none are
/// suggested. If that changes what is known of the size, the old buffer is dropped, and a buffer of
/// just that size is painted, damaged, attached and committed; otherwise nothing happens.
pub proof fn law_new_sizes_are_shown(app: App, suggested: (Option<u32>, Option<u32>))
    ensures
        ({
            let after = App::settled_size(suggested);
            let requests = app.configure_requests(suggested);
            &&& suggested.0 matches Some(width) ==> after.width == width
            &&& suggested.1 matches Some(height) ==> after.height == height
            &&& suggested.0 is None ==> after.width == WINDOW_W
            &&& suggested.1 is None ==> after.height == WINDOW_H
            &&& !after.first_configure
            &&& requests.len() > 0 <==> app.size != after
            &&& requests.len() > 0 ==> requests.len() == 5 && has_steps(
                requests,
                seq![
                    Request::DropWindowBuffer,
                    Request::PaintWindow(shape_of(after.width, after.height)),
                    Request::DamageWindow(whole(after.width, after.height)),
                    Request::AttachWindow,
                    Request::CommitWindow,
                ],
            )
        }),
{
    let after = App::settled_size(suggested);
    let requests = app.configure_requests(suggested);
    if requests.len() > 0 {
        assert(stands_at(
            requests,
            seq![
                Request::DropWindowBuffer,
                Request::PaintWindow(shape_of(after.width, after.height)),
                Request::DamageWindow(whole(after.width, after.height)),
                Request::AttachWindow,
                Request::CommitWindow,
            ],
            seq![0, 1, 2, 3, 4],
        ));
    }
}

/// The client starts with the outputs that are there, all of which are found when they go away, and
/// draws on its first configure event; it goes on until it is asked to end, and then still knows
/// its outputs.
pub proof fn law_start_and_end(
    start: App,
    names: Seq<u32>,
    name: u32,
    suggested: (Option<u32>, Option<u32>),
    app: App,
    after: App,
)
    requires
        start.starts_with(names),
        app.ends_as(after),
    ensures
        !start.exit,
        start.loses_output(name, OUTPUT_INTERFACE@) <==> names.contains(name),
        start.configure_requests(suggested).contains(Request::CommitWindow),
        after.exit,
        after.loses_output(name, OUTPUT_INTERFACE@) <==> app.loses_output(name, OUTPUT_INTERFACE@),
        after.size == app.size,
{
    assert(start.configure_requests(suggested)[4] == Request::CommitWindow);
}

} // verus!
