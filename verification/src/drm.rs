//! Dumb buffers of DRM devices: which devices to try, which `ioctl` requests to make, and how
//! pixels are laid out in a buffer with padded rows.

use vstd::arithmetic::mul::{lemma_mul_inequality, lemma_mul_is_distributive_add_other_way};
use vstd::prelude::*;
use vstd::string::StringExecFns;

use crate::text::{decimal, decimal_text, law_decimal_notation_is_read_back, number};

verus! {

/// The pixel format of the buffers: 32 bits, the unused byte on top.
pub const DRM_FORMAT_XRGB8888: u32 = 0x3432_5258;

/// The layout of the buffers: row after row.
pub const DRM_FORMAT_MOD_LINEAR: u64 = 0;

/// The bits of a pixel.
pub const BITS_PER_PIXEL: u32 = 32;

/// `_IOWR('d', 0x2d, 12)`
pub const DRM_IOCTL_PRIME_HANDLE_TO_FD: u32 = 0xC00C_642D;

/// `_IOWR('d', 0xB2, 32)`
pub const DRM_IOCTL_MODE_CREATE_DUMB: u32 = 0xC020_64B2;

/// `_IOWR('d', 0xB3, 16)`
pub const DRM_IOCTL_MODE_MAP_DUMB: u32 = 0xC010_64B3;

/// `_IOWR('d', 0xB4, 4)`
pub const DRM_IOCTL_MODE_DESTROY_DUMB: u32 = 0xC004_64B4;

/// The number of an `ioctl` request that reads and writes an argument of `size` bytes.
pub open spec fn iowr(kind: char, number: int, size: int) -> int {
    0xC000_0000 + size * 0x1_0000 + kind as int * 0x100 + number
}

/// The numbers of the requests are those of their kind, their index and the size of their
/// argument.
pub proof fn law_ioctl_numbers()
    ensures
        DRM_IOCTL_PRIME_HANDLE_TO_FD == iowr('d', 0x2D, 12),
        DRM_IOCTL_MODE_CREATE_DUMB == iowr('d', 0xB2, 32),
        DRM_IOCTL_MODE_MAP_DUMB == iowr('d', 0xB3, 16),
        DRM_IOCTL_MODE_DESTROY_DUMB == iowr('d', 0xB4, 4),
{
}

/// What to ask of a device, or of the operating system, on the way to a buffer. The requests are
/// the numbers of `ioctl` calls.
#[derive(Clone, Copy, Debug, PartialEq, Eq, Structural)]
pub enum Step {
    /// Create a dumb buffer.
    Create { request: u32, width: u32, height: u32, bits_per_pixel: u32 },
    /// Ask for the offset under which the buffer can be mapped.
    MapOffset { request: u32, handle: u32 },
    /// Map the buffer, shared, for reading and writing.
    Mmap { length: u64, offset: u64 },
    /// Copy the picture into the mapping.
    CopyRows { width: u32, height: u32, pitch: u32 },
    /// Undo the mapping.
    Unmap { length: u64 },
    /// Export the buffer as a file descriptor.
    Export { request: u32, handle: u32, read_write: bool, close_on_exec: bool },
    /// Destroy the buffer.
    Destroy { request: u32, handle: u32 },
    /// The buffer is ready: its file descriptor, and the bytes between its rows.
    Finish { fd: i32, stride: u32 },
    /// The buffer could not be made.
    Fail(Failure),
}

/// The call that failed.
#[derive(Clone, Copy, Debug, PartialEq, Eq, Structural)]
pub enum Failure {
    Create,
    MapOffset,
    Mmap,
    Export,
}

impl Failure {
    /// The name of the call.
    pub open spec fn spec_name(self) -> Seq<char> {
        match self {
            Failure::Create => "DRM_IOCTL_MODE_CREATE_DUMB"@,
            Failure::MapOffset => "DRM_IOCTL_MODE_MAP_DUMB"@,
            Failure::Mmap => "mmap"@,
            Failure::Export => "DRM_IOCTL_PRIME_HANDLE_TO_FD"@,
        }
    }

    /// The executable form of [`Failure::spec_name`].
    pub fn name(&self) -> (name: &'static str)
        ensures
            name@ == self.spec_name(),
    {
        match self {
            Failure::Create => "DRM_IOCTL_MODE_CREATE_DUMB",
            Failure::MapOffset => "DRM_IOCTL_MODE_MAP_DUMB",
            Failure::Mmap => "mmap",
            Failure::Export => "DRM_IOCTL_PRIME_HANDLE_TO_FD",
        }
    }
}

/// What came of a step. An answer of zero is a success.
#[derive(Clone, Copy, Debug, PartialEq, Eq, Structural)]
pub enum Reply {
    Created { answer: i32, handle: u32, pitch: u32, size: u64 },
    Mapped { answer: i32, offset: u64 },
    Mmapped { success: bool },
    Copied,
    Unmapped,
    Exported { answer: i32, fd: i32 },
}

/// A dumb buffer that the device has created.
#[derive(Clone, Copy, Debug, PartialEq, Eq, Structural)]
pub struct Dumb {
    pub width: u32,
    pub height: u32,
    pub handle: u32,
    /// The bytes between its rows.
    pub pitch: u32,
    /// Its bytes.
    pub size: u64,
}

/// The creation of a dumb buffer with a picture in it, by its state.
#[derive(Clone, Copy, Debug, PartialEq, Eq, Structural)]
pub enum BufferCreation {
    Creating { width: u32, height: u32 },
    Mapping(Dumb),
    Mmapping { dumb: Dumb, offset: u64 },
    Copying(Dumb),
    Unmapping(Dumb),
    Exporting(Dumb),
    Done { fd: i32, stride: u32 },
    Failed(Failure),
}

/// The step that creates a buffer of this size.
pub open spec fn creating(width: u32, height: u32) -> Step {
    Step::Create {
        request: DRM_IOCTL_MODE_CREATE_DUMB,
        width,
        height,
        bits_per_pixel: BITS_PER_PIXEL,
    }
}

/// The step that destroys the buffer of a probe.
pub open spec fn cleaning_up(handle: u32) -> Step {
    Step::Destroy { request: DRM_IOCTL_MODE_DESTROY_DUMB, handle }
}

impl BufferCreation {
    /// The step to take in this state.
    pub open spec fn next_step(self) -> Step {
        match self {
            BufferCreation::Creating { width, height } => creating(width, height),
            BufferCreation::Mapping(dumb) => Step::MapOffset {
                request: DRM_IOCTL_MODE_MAP_DUMB,
                handle: dumb.handle,
            },
            BufferCreation::Mmapping { dumb, offset } => Step::Mmap { length: dumb.size, offset },
            BufferCreation::Copying(dumb) => Step::CopyRows {
                width: dumb.width,
                height: dumb.height,
                pitch: dumb.pitch,
            },
            BufferCreation::Unmapping(dumb) => Step::Unmap { length: dumb.size },
            BufferCreation::Exporting(dumb) => Step::Export {
                request: DRM_IOCTL_PRIME_HANDLE_TO_FD,
                handle: dumb.handle,
                read_write: true,
                close_on_exec: true,
            },
            BufferCreation::Done { fd, stride } => Step::Finish { fd, stride },
            BufferCreation::Failed(failure) => Step::Fail(failure),
        }
    }

    /// The state after a reply. A reply to another step than the present one changes nothing.
    pub open spec fn after(self, reply: Reply) -> BufferCreation {
        match (self, reply) {
            (
                BufferCreation::Creating { width, height },
                Reply::Created { answer, handle, pitch, size },
            ) => if answer == 0 {
                BufferCreation::Mapping(Dumb { width, height, handle, pitch, size })
            } else {
                BufferCreation::Failed(Failure::Create)
            },
            (BufferCreation::Mapping(dumb), Reply::Mapped { answer, offset }) => if answer == 0 {
                BufferCreation::Mmapping { dumb, offset }
            } else {
                BufferCreation::Failed(Failure::MapOffset)
            },
            (BufferCreation::Mmapping { dumb, offset: _ }, Reply::Mmapped { success }) =>
                if success {
                BufferCreation::Copying(dumb)
            } else {
                BufferCreation::Failed(Failure::Mmap)
            },
            (BufferCreation::Copying(dumb), Reply::Copied) => BufferCreation::Unmapping(dumb),
            (BufferCreation::Unmapping(dumb), Reply::Unmapped) => BufferCreation::Exporting(dumb),
            (BufferCreation::Exporting(dumb), Reply::Exported { answer, fd }) => if answer == 0 {
                BufferCreation::Done { fd, stride: dumb.pitch }
            } else {
                BufferCreation::Failed(Failure::Export)
            },
            _ => self,
        }
    }

    /// Begins to make a buffer of this size.
    pub fn new(width: u32, height: u32) -> (creation: BufferCreation)
        ensures
            creation == (BufferCreation::Creating { width, height }),
    {
        BufferCreation::Creating { width, height }
    }

    /// The executable form of [`BufferCreation::next_step`].
    pub fn step(&self) -> (step: Step)
        ensures
            step == self.next_step(),
    {
        match *self {
            BufferCreation::Creating { width, height } => Step::Create {
                request: DRM_IOCTL_MODE_CREATE_DUMB,
                width,
                height,
                bits_per_pixel: BITS_PER_PIXEL,
            },
            BufferCreation::Mapping(dumb) => Step::MapOffset {
                request: DRM_IOCTL_MODE_MAP_DUMB,
                handle: dumb.handle,
            },
            BufferCreation::Mmapping { dumb, offset } => Step::Mmap { length: dumb.size, offset },
            BufferCreation::Copying(dumb) => Step::CopyRows {
                width: dumb.width,
                height: dumb.height,
                pitch: dumb.pitch,
            },
            BufferCreation::Unmapping(dumb) => Step::Unmap { length: dumb.size },
            BufferCreation::Exporting(dumb) => Step::Export {
                request: DRM_IOCTL_PRIME_HANDLE_TO_FD,
                handle: dumb.handle,
                read_write: true,
                close_on_exec: true,
            },
            BufferCreation::Done { fd, stride } => Step::Finish { fd, stride },
            BufferCreation::Failed(failure) => Step::Fail(failure),
        }
    }

    /// Takes the reply to the present step.
    pub fn advance(&mut self, reply: Reply)
        ensures
            *final(self) == old(self).after(reply),
    {
        let next = match (*self, reply) {
            (
                BufferCreation::Creating { width, height },
                Reply::Created { answer, handle, pitch, size },
            ) => {
                if answer == 0 {
                    BufferCreation::Mapping(Dumb { width, height, handle, pitch, size })
                } else {
                    BufferCreation::Failed(Failure::Create)
                }
            },
            (BufferCreation::Mapping(dumb), Reply::Mapped { answer, offset }) => {
                if answer == 0 {
                    BufferCreation::Mmapping { dumb, offset }
                } else {
                    BufferCreation::Failed(Failure::MapOffset)
                }
            },
            (BufferCreation::Mmapping { dumb, offset: _ }, Reply::Mmapped { success }) => {
                if success {
                    BufferCreation::Copying(dumb)
                } else {
                    BufferCreation::Failed(Failure::Mmap)
                }
            },
            (BufferCreation::Copying(dumb), Reply::Copied) => BufferCreation::Unmapping(dumb),
            (BufferCreation::Unmapping(dumb), Reply::Unmapped) => BufferCreation::Exporting(dumb),
            (BufferCreation::Exporting(dumb), Reply::Exported { answer, fd }) => {
                if answer == 0 {
                    BufferCreation::Done { fd, stride: dumb.pitch }
                } else {
                    BufferCreation::Failed(Failure::Export)
                }
            },
            (other, _) => other,
        };
        *self = next;
    }
}

/// Where every call succeeds, the buffer is created in the size of the picture, mapped as a whole,
/// filled by the device's own pitch, unmapped and exported, in this order, and ends up with the
/// exported descriptor and the device's pitch.
pub proof fn law_buffers_are_made_in_order(
    width: u32,
    height: u32,
    handle: u32,
    pitch: u32,
    size: u64,
    offset: u64,
    fd: i32,
)
    ensures
        ({
            let start = BufferCreation::Creating { width, height };
            let created = start.after(Reply::Created { answer: 0, handle, pitch, size });
            let mapped = created.after(Reply::Mapped { answer: 0, offset });
            let filling = mapped.after(Reply::Mmapped { success: true });
            let filled = filling.after(Reply::Copied);
            let unmapped = filled.after(Reply::Unmapped);
            let exported = unmapped.after(Reply::Exported { answer: 0, fd });
            &&& start.next_step() == (Step::Create {
                request: DRM_IOCTL_MODE_CREATE_DUMB,
                width,
                height,
                bits_per_pixel: 32,
            })
            &&& created.next_step() == (Step::MapOffset {
                request: DRM_IOCTL_MODE_MAP_DUMB,
                handle,
            })
            &&& mapped.next_step() == (Step::Mmap { length: size, offset })
            &&& filling.next_step() == (Step::CopyRows { width, height, pitch })
            &&& filled.next_step() == (Step::Unmap { length: size })
            &&& unmapped.next_step() == (Step::Export {
                request: DRM_IOCTL_PRIME_HANDLE_TO_FD,
                handle,
                read_write: true,
                close_on_exec: true,
            })
            &&& exported.next_step() == (Step::Finish { fd, stride: pitch })
        }),
{
}

/// A buffer that is done or has failed stays so, a buffer is exported only once its mapping is
/// undone, and only a failed call makes a buffer fail.
pub proof fn law_creations_end(creation: BufferCreation, reply: Reply)
    ensures
        creation is Done || creation is Failed ==> creation.after(reply) == creation,
        creation.after(reply) is Exporting && !(creation is Exporting) ==> creation is Unmapping
            && reply == Reply::Unmapped,
        creation.after(reply) is Failed && !(creation is Failed) ==> {
            ||| reply matches Reply::Created { answer, .. } && answer != 0
            ||| reply matches Reply::Mapped { answer, .. } && answer != 0
            ||| reply == Reply::Mmapped { success: false }
            ||| reply matches Reply::Exported { answer, .. } && answer != 0
        },
{
}

/// The first render node that is tried.
pub const FIRST_RENDER_NODE: u32 = 128;

/// How many render nodes are tried.
pub const RENDER_NODES: u32 = 64;

/// How many primary nodes are tried, after the render nodes.
pub const PRIMARY_NODES: u32 = 16;

/// The path of the candidate device with this index.
pub open spec fn candidate(index: int) -> Option<Seq<char>> {
    if index < RENDER_NODES {
        Some("/dev/dri/renderD"@ + decimal((FIRST_RENDER_NODE + index) as nat))
    } else if index < RENDER_NODES + PRIMARY_NODES {
        Some("/dev/dri/card"@ + decimal((index - RENDER_NODES) as nat))
    } else {
        None
    }
}

/// What came of trying a device.
#[derive(Clone, Copy, Debug, PartialEq, Eq, Structural)]
pub enum Probe {
    /// There is no such file.
    Missing,
    /// The file cannot be opened for reading and writing.
    Closed,
    /// The device opened, and answered the request for a dumb buffer with this value.
    Answered(i32),
}

/// What to do after a probe.
#[derive(Clone, Copy, Debug, PartialEq, Eq, Structural)]
pub enum Verdict {
    /// Destroy the buffer that the probe created, and use the device.
    Use,
    /// Try the next device.
    Next,
}

/// A search through the candidate devices, in order.
#[derive(Clone, Copy, Debug, PartialEq, Eq, Structural)]
pub struct DeviceSearch {
    /// The index of the candidate to try.
    pub index: u32,
}

/// A device is used if it creates dumb buffers.
pub open spec fn verdict_on(probe: Probe) -> Verdict {
    if probe == Probe::Answered(0) {
        Verdict::Use
    } else {
        Verdict::Next
    }
}

impl DeviceSearch {
    /// The search at its first candidate.
    pub open spec fn initial() -> DeviceSearch {
        DeviceSearch { index: 0 }
    }

    /// The search after the present candidate was tried: it stays at a device that is used, and
    /// goes on otherwise.
    pub open spec fn after(self, probe: Probe) -> DeviceSearch {
        match verdict_on(probe) {
            Verdict::Use => self,
            Verdict::Next => DeviceSearch { index: (self.index + 1) as u32 },
        }
    }

    /// The index of the device that the search ends up with, where trying candidate `i` gives
    /// `probes[i]`.
    pub open spec fn outcome(self, probes: Seq<Probe>) -> Option<int>
        decreases RENDER_NODES + PRIMARY_NODES - self.index,
    {
        if candidate(self.index as int) is None {
            None
        } else {
            match verdict_on(probes[self.index as int]) {
                Verdict::Use => Some(self.index as int),
                Verdict::Next => self.after(probes[self.index as int]).outcome(probes),
            }
        }
    }

    pub fn new() -> (search: DeviceSearch)
        ensures
            search == DeviceSearch::initial(),
    {
        DeviceSearch { index: 0 }
    }

    /// The path of the device to try, until the candidates run out.
    pub fn path(&self) -> (path: Option<String>)
        ensures
            match path {
                Some(text) => candidate(self.index as int) == Some(text@),
                None => candidate(self.index as int) is None,
            },
    {
        if self.index < RENDER_NODES {
            let mut text = "/dev/dri/renderD".to_owned();
            text.append(decimal_text(FIRST_RENDER_NODE + self.index).as_str());
            Some(text)
        } else if self.index < RENDER_NODES + PRIMARY_NODES {
            let mut text = "/dev/dri/card".to_owned();
            text.append(decimal_text(self.index - RENDER_NODES).as_str());
            Some(text)
        } else {
            None
        }
    }

    /// What to ask of a device that opened: a buffer of one pixel.
    pub fn probe_step(&self) -> (step: Step)
        ensures
            step == creating(1, 1),
    {
        BufferCreation::new(1, 1).step()
    }

    /// What to ask of a device that is used: to destroy the buffer of the probe.
    pub fn clean_up_step(&self, handle: u32) -> (step: Step)
        ensures
            step == cleaning_up(handle),
    {
        Step::Destroy { request: DRM_IOCTL_MODE_DESTROY_DUMB, handle }
    }

    /// Takes the outcome of trying the present candidate: a device is used if it creates dumb
    /// buffers, and the search goes on otherwise.
    pub fn advance(&mut self, probe: Probe) -> (verdict: Verdict)
        requires
            candidate(old(self).index as int) is Some,
        ensures
            verdict == verdict_on(probe),
            *final(self) == old(self).after(probe),
    {
        match probe {
            Probe::Answered(0) => Verdict::Use,
            _ => {
                self.index += 1;
                Verdict::Next
            },
        }
    }
}

/// The search ends: every candidate is tried at most once, since the index only grows, and there
/// are as many as render nodes and primary nodes together.
pub proof fn law_candidates_run_out(index: int)
    ensures
        candidate(index) is None <==> index >= RENDER_NODES + PRIMARY_NODES,
{
}

/// Candidate `index` creates dumb buffers, and no candidate from `start` up to it does.
pub open spec fn first_use(probes: Seq<Probe>, start: int, index: int) -> bool {
    &&& start <= index < RENDER_NODES + PRIMARY_NODES
    &&& probes[index] == Probe::Answered(0)
    &&& forall|i: int| start <= i < index ==> #[trigger] probes[i] != Probe::Answered(0)
}

proof fn lemma_outcome(search: DeviceSearch, probes: Seq<Probe>)
    ensures
        search.outcome(probes) matches Some(index) ==> first_use(
            probes,
            search.index as int,
            index,
        ),
        search.outcome(probes) is None ==> forall|i: int|
            search.index <= i < RENDER_NODES + PRIMARY_NODES ==> #[trigger] probes[i]
                != Probe::Answered(0),
    decreases RENDER_NODES + PRIMARY_NODES - search.index,
{
    if search.index < RENDER_NODES + PRIMARY_NODES {
        let here = search.index as int;
        if probes[here] != Probe::Answered(0) {
            lemma_outcome(search.after(probes[here]), probes);
        }
    }
}

/// The search uses the first candidate that creates dumb buffers, and comes back without a device
/// exactly if no candidate does.
pub proof fn law_first_working_device_is_used(probes: Seq<Probe>, index: int)
    requires
        probes.len() == RENDER_NODES + PRIMARY_NODES,
    ensures
        DeviceSearch::initial().outcome(probes) == Some(index) <==> first_use(probes, 0, index),
        DeviceSearch::initial().outcome(probes) is None <==> !probes.contains(Probe::Answered(0)),
{
    lemma_outcome(DeviceSearch::initial(), probes);
    if let Some(found) = DeviceSearch::initial().outcome(probes) {
        assert(probes[found] == Probe::Answered(0));
        if first_use(probes, 0, index) && found != index {
            assert(probes[if found < index {
                found
            } else {
                index
            }] == Probe::Answered(0));
        }
    }
}

/// The bytes of `target` with `piece` written over those from `start` on.
pub open spec fn overwritten(target: Seq<u8>, start: int, piece: Seq<u8>) -> Seq<u8> {
    Seq::new(
        target.len(),
        |j: int|
            if start <= j < start + piece.len() {
                piece[j - start]
            } else {
                target[j]
            },
    )
}

/// Row `y` of a picture whose rows follow each other without padding.
pub open spec fn picture_row(pixels: Seq<u8>, row_bytes: int, y: int) -> Seq<u8> {
    pixels.subrange(y * row_bytes, y * row_bytes + row_bytes)
}

/// The buffer `mapped` after the first `rows` rows of a picture were copied into it, one after the
/// other, each to a multiple of the pitch.
pub open spec fn with_rows(
    mapped: Seq<u8>,
    pixels: Seq<u8>,
    row_bytes: int,
    pitch: int,
    rows: nat,
) -> Seq<u8>
    decreases rows,
{
    if rows == 0 {
        mapped
    } else {
        let y = (rows - 1) as nat;
        overwritten(
            with_rows(mapped, pixels, row_bytes, pitch, y),
            y * pitch,
            picture_row(pixels, row_bytes, y as int),
        )
    }
}

/// All rows lie inside the picture and inside the buffer.
pub open spec fn rows_fit(
    mapped_len: nat,
    pixels_len: nat,
    width: u32,
    height: u32,
    pitch: u32,
) -> bool {
    &&& width * 4 <= usize::MAX
    &&& height > 0 ==> {
        &&& (height - 1) * pitch + width * 4 <= mapped_len
        &&& height * (width * 4) <= pixels_len
    }
}

/// The executable form of [`rows_fit`].
pub fn can_copy_rows(
    mapped_len: usize,
    pixels_len: usize,
    width: u32,
    height: u32,
    pitch: u32,
) -> (fits: bool)
    ensures
        fits == rows_fit(mapped_len as nat, pixels_len as nat, width, height, pitch),
{
    let row_bytes: u128 = width as u128 * 4;
    if row_bytes > usize::MAX as u128 {
        return false;
    }
    if height == 0 {
        return true;
    }
    assert((height - 1) * pitch <= 0xFFFF_FFFF * 0xFFFF_FFFF && height * row_bytes <= 0xFFFF_FFFF
        * 0x3_FFFF_FFFC) by (nonlinear_arith)
        requires
            0 < height <= 0xFFFF_FFFF,
            0 <= pitch <= 0xFFFF_FFFF,
            0 <= row_bytes <= 0x3_FFFF_FFFC,
    ;
    (height - 1) as u128 * pitch as u128 + row_bytes <= mapped_len as u128 && height as u128
        * row_bytes <= pixels_len as u128
}

/// Copies pixel data into a mapped buffer, respecting its pitch.
pub fn copy_rows(mapped: &mut [u8], pixels: &[u8], width: u32, height: u32, pitch: u32)
    requires
        rows_fit(old(mapped)@.len(), pixels@.len(), width, height, pitch),
    ensures
        final(mapped)@ == with_rows(
            old(mapped)@,
            pixels@,
            width * 4,
            pitch as int,
            height as nat,
        ),
{
    let ghost before = mapped@;
    let row_bytes: usize = width as usize * 4;
    let step: usize = pitch as usize;
    let rows: usize = height as usize;
    let mapped_len: usize = mapped.len();
    let pixels_len: usize = pixels.len();
    let mut y: usize = 0;
    while y < rows
        invariant
            y <= rows,
            rows == height,
            row_bytes == width * 4,
            step == pitch,
            before.len() == mapped@.len(),
            mapped_len == mapped@.len(),
            pixels_len == pixels@.len(),
            rows_fit(mapped@.len(), pixels@.len(), width, height, pitch),
            mapped@ == with_rows(before, pixels@, row_bytes as int, step as int, y as nat),
        decreases rows - y,
    {
        proof {
            lemma_mul_inequality(y as int, rows - 1, step as int);
            lemma_mul_inequality(y + 1, rows as int, row_bytes as int);
            lemma_mul_is_distributive_add_other_way(row_bytes as int, y as int, 1);
        }
        let source: usize = y * row_bytes;
        let target: usize = y * step;
        let ghost so_far = mapped@;
        let mut k: usize = 0;
        while k < row_bytes
            invariant
                k <= row_bytes,
                target + row_bytes <= mapped_len,
                source + row_bytes <= pixels_len,
                mapped_len == mapped@.len(),
                pixels_len == pixels@.len(),
                mapped@ == overwritten(
                    so_far,
                    target as int,
                    pixels@.subrange(source as int, source + k),
                ),
                so_far.len() == mapped@.len(),
            decreases row_bytes - k,
        {
            mapped[target + k] = pixels[source + k];
            k += 1;
            assert(mapped@ =~= overwritten(
                so_far,
                target as int,
                pixels@.subrange(source as int, source + k),
            ));
        }
        y += 1;
    }
}

proof fn lemma_rows_keep(
    mapped: Seq<u8>,
    pixels: Seq<u8>,
    row_bytes: int,
    pitch: int,
    rows: nat,
    y: int,
    k: int,
)
    requires
        0 <= row_bytes <= pitch,
        0 <= y < rows,
        0 <= k < pitch,
        y * pitch + k < mapped.len(),
        rows * row_bytes <= pixels.len(),
    ensures
        with_rows(mapped, pixels, row_bytes, pitch, rows).len() == mapped.len(),
        with_rows(mapped, pixels, row_bytes, pitch, rows)[y * pitch + k] == if k < row_bytes {
            pixels[y * row_bytes + k]
        } else {
            mapped[y * pitch + k]
        },
    decreases rows,
{
    let last = (rows - 1) as nat;
    assert(last * row_bytes + row_bytes == rows * row_bytes) by (nonlinear_arith)
        requires
            last == rows - 1,
    ;
    assert(0 <= y * row_bytes) by (nonlinear_arith)
        requires
            0 <= y,
            0 <= row_bytes,
    ;
    assert(0 <= last * row_bytes) by (nonlinear_arith)
        requires
            0 <= last,
            0 <= row_bytes,
    ;
    assert(0 <= y * pitch) by (nonlinear_arith)
        requires
            0 <= y,
            0 <= pitch,
    ;
    if y == last {
        lemma_rows_untouched(mapped, pixels, row_bytes, pitch, last, y * pitch + k);
    } else {
        assert(y * pitch + k < last * pitch) by (nonlinear_arith)
            requires
                y + 1 <= last,
                k < pitch,
                0 <= pitch,
        ;
        lemma_rows_keep(mapped, pixels, row_bytes, pitch, last, y, k);
    }
}

proof fn lemma_rows_untouched(
    mapped: Seq<u8>,
    pixels: Seq<u8>,
    row_bytes: int,
    pitch: int,
    rows: nat,
    j: int,
)
    requires
        0 <= row_bytes <= pitch,
        rows * pitch <= j < mapped.len(),
        rows * row_bytes <= pixels.len(),
    ensures
        with_rows(mapped, pixels, row_bytes, pitch, rows).len() == mapped.len(),
        with_rows(mapped, pixels, row_bytes, pitch, rows)[j] == mapped[j],
    decreases rows,
{
    if rows > 0 {
        let last = (rows - 1) as nat;
        assert(last * row_bytes + row_bytes == rows * row_bytes) by (nonlinear_arith)
            requires
                last == rows - 1,
        ;
        assert(last * pitch + pitch == rows * pitch) by (nonlinear_arith)
            requires
                last == rows - 1,
        ;
        assert(0 <= last * row_bytes && 0 <= last * pitch) by (nonlinear_arith)
            requires
                0 <= last,
                0 <= row_bytes <= pitch,
        ;
        lemma_rows_untouched(mapped, pixels, row_bytes, pitch, last, j);
    }
}

/// Where the pitch leaves room for a whole row, every row of the picture stands at its multiple of
/// the pitch, and everything else keeps its bytes: the padding behind a row, and what lies behind
/// the last row.
pub proof fn law_rows_and_padding(
    mapped: Seq<u8>,
    pixels: Seq<u8>,
    width: u32,
    height: u32,
    pitch: u32,
    y: int,
    k: int,
    j: int,
)
    requires
        rows_fit(mapped.len(), pixels.len(), width, height, pitch),
        width * 4 <= pitch,
    ensures
        with_rows(mapped, pixels, width * 4, pitch as int, height as nat).len() == mapped.len(),
        0 <= y < height && 0 <= k < pitch && y * pitch + k < mapped.len() ==> with_rows(
            mapped,
            pixels,
            width * 4,
            pitch as int,
            height as nat,
        )[y * pitch + k] == if k < width * 4 {
            pixels[y * (width * 4) + k]
        } else {
            mapped[y * pitch + k]
        },
        height * pitch <= j < mapped.len() ==> with_rows(
            mapped,
            pixels,
            width * 4,
            pitch as int,
            height as nat,
        )[j] == mapped[j],
{
    lemma_rows_keep_length(mapped, pixels, width * 4, pitch as int, height as nat);
    if 0 <= y < height && 0 <= k < pitch && y * pitch + k < mapped.len() {
        lemma_rows_keep(mapped, pixels, width * 4, pitch as int, height as nat, y, k);
    }
    if height * pitch <= j < mapped.len() {
        lemma_rows_untouched(mapped, pixels, width * 4, pitch as int, height as nat, j);
    }
}

proof fn lemma_rows_keep_length(
    mapped: Seq<u8>,
    pixels: Seq<u8>,
    row_bytes: int,
    pitch: int,
    rows: nat,
)
    ensures
        with_rows(mapped, pixels, row_bytes, pitch, rows).len() == mapped.len(),
    decreases rows,
{
    if rows > 0 {
        lemma_rows_keep_length(mapped, pixels, row_bytes, pitch, (rows - 1) as nat);
    }
}

/// The candidates are the render nodes from 128 on, 64 of them, and then the cards from 0 on, 16 of
/// them, each by its number.
pub proof fn law_candidates_are_numbered(index: int)
    requires
        0 <= index,
    ensures
        index < 64 ==> {
            &&& candidate(index) matches Some(path) && {
                let prefix = "/dev/dri/renderD"@;
                &&& path.take(prefix.len() as int) == prefix
                &&& number(path.skip(prefix.len() as int)) == 128 + index
            }
        },
        64 <= index < 80 ==> {
            &&& candidate(index) matches Some(path) && {
                let prefix = "/dev/dri/card"@;
                &&& path.take(prefix.len() as int) == prefix
                &&& number(path.skip(prefix.len() as int)) == index - 64
            }
        },
        index >= 80 ==> candidate(index) is None,
{
    if index < 64 {
        let prefix = "/dev/dri/renderD"@;
        let digits = decimal((128 + index) as nat);
        law_decimal_notation_is_read_back((128 + index) as nat);
        assert((prefix + digits).take(prefix.len() as int) =~= prefix);
        assert((prefix + digits).skip(prefix.len() as int) =~= digits);
    } else if index < 80 {
        let prefix = "/dev/dri/card"@;
        let digits = decimal((index - 64) as nat);
        law_decimal_notation_is_read_back((index - 64) as nat);
        assert((prefix + digits).take(prefix.len() as int) =~= prefix);
        assert((prefix + digits).skip(prefix.len() as int) =~= digits);
    }
}

/// Row `y` lies inside the picture and inside the buffer.
pub open spec fn row_fits(
    mapped_len: nat,
    pixels_len: nat,
    width: u32,
    pitch: u32,
    y: int,
) -> bool {
    &&& y * pitch + width * 4 <= mapped_len
    &&& (y + 1) * (width * 4) <= pixels_len
}

/// A picture can be copied exactly if each of its rows lies inside the picture and inside the
/// buffer, and a row has a length that can be counted.
pub proof fn law_pictures_fit_by_their_rows(
    mapped_len: nat,
    pixels_len: nat,
    width: u32,
    height: u32,
    pitch: u32,
)
    requires
        width * 4 <= usize::MAX,
    ensures
        rows_fit(mapped_len, pixels_len, width, height, pitch) <==> forall|y: int|
            0 <= y < height ==> #[trigger] row_fits(mapped_len, pixels_len, width, pitch, y),
{
    if rows_fit(mapped_len, pixels_len, width, height, pitch) {
        assert forall|y: int| 0 <= y < height implies #[trigger] row_fits(
            mapped_len,
            pixels_len,
            width,
            pitch,
            y,
        ) by {
            lemma_mul_inequality(y, height - 1, pitch as int);
            lemma_mul_inequality(y + 1, height as int, width * 4);
        }
    }
    if height > 0 && forall|y: int|
        0 <= y < height ==> #[trigger] row_fits(mapped_len, pixels_len, width, pitch, y) {
        assert(row_fits(mapped_len, pixels_len, width, pitch, height - 1));
    }
}

/// An answer other than zero to a request, or a mapping that fails, ends the creation at once, with
/// the call that failed; an answer of zero never does.
pub proof fn law_failed_calls_end_the_creation(
    dumb: Dumb,
    width: u32,
    height: u32,
    handle: u32,
    pitch: u32,
    size: u64,
    offset: u64,
    fd: i32,
    answer: i32,
)
    ensures
        ({
            let created = BufferCreation::Creating { width, height }.after(
                Reply::Created { answer, handle, pitch, size },
            );
            let mapped = BufferCreation::Mapping(dumb).after(Reply::Mapped { answer, offset });
            let exported = BufferCreation::Exporting(dumb).after(Reply::Exported { answer, fd });
            let unmappable = BufferCreation::Mmapping { dumb, offset }.after(
                Reply::Mmapped { success: false },
            );
            &&& answer != 0 <==> created.next_step() == Step::Fail(Failure::Create)
            &&& answer != 0 <==> mapped.next_step() == Step::Fail(Failure::MapOffset)
            &&& answer != 0 <==> exported.next_step() == Step::Fail(Failure::Export)
            &&& unmappable.next_step() == Step::Fail(Failure::Mmap)
        }),
{
}

/// Whatever is mapped is unmapped over its whole length, and it is the created buffer that is
/// mapped and exported: each step is about the same buffer as the one before it.
pub proof fn law_steps_are_about_one_buffer(dumb: Dumb, offset: u64)
    ensures
        BufferCreation::Mapping(dumb).next_step() == (Step::MapOffset {
            request: DRM_IOCTL_MODE_MAP_DUMB,
            handle: dumb.handle,
        }),
        (BufferCreation::Mmapping { dumb, offset }).next_step() == (Step::Mmap {
            length: dumb.size,
            offset,
        }),
        BufferCreation::Unmapping(dumb).next_step() == (Step::Unmap { length: dumb.size }),
        (BufferCreation::Mmapping { dumb, offset }).after((Reply::Mmapped { success: true })).after(
            Reply::Copied,
        ) == BufferCreation::Unmapping(dumb),
{
}

/// A device is asked for a buffer of exactly the size that is wanted, in 32 bits to the pixel, and
/// the buffer that a probe is cleaned up from is the one it was given.
pub proof fn law_probes_are_cleaned_up(width: u32, height: u32, handle: u32)
    ensures
        creating(width, height) == (Step::Create {
            request: iowr('d', 0xB2, 32) as u32,
            width,
            height,
            bits_per_pixel: 32,
        }),
        cleaning_up(handle) == (Step::Destroy { request: iowr('d', 0xB4, 4) as u32, handle }),
{
}

} // verus!
