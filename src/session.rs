//! The steps of one capture, as a machine that the caller drives: it names
//! the step to perform, the caller performs it and reports whether it
//! succeeded, and the machine tells which resources to release, in the
//! reverse order of their acquisition, once the capture is over.
use vstd::prelude::*;

use crate::capture::{mapped_holds_rows, packed_rows, repack_rows, BYTES_PER_PIXEL};
use crate::window::WindowHandle;

verus! {

/// The two ways of obtaining a window's pixels.
#[derive(Clone, Copy, Debug, PartialEq, Eq, Structural)]
pub enum Strategy {
    /// A compositor capture surface, copied into a CPU-readable staging
    /// texture and mapped.
    Compositor,
    /// A block copy from the window's device context into a memory bitmap.
    BitBlock,
}

/// A scoped operating-system resource that a capture acquires.
#[derive(Clone, Copy, Debug, PartialEq, Eq, Structural)]
pub enum Resource {
    WindowDc,
    MemoryDc,
    Bitmap,
    Device,
    FramePool,
    Session,
    StagingTexture,
    MappedView,
}

/// Why a capture failed.
#[derive(Clone, Copy, Debug, PartialEq, Eq, Structural)]
pub enum CaptureError {
    DeviceContextCreation,
    BufferCreation,
    ResourceBind,
    BlockCopy,
    FrameWait,
    ResourceMap,
}

/// One step of a capture.
#[derive(Clone, Copy, Debug, PartialEq, Eq, Structural)]
pub enum Step {
    GetWindowDc,
    CreateMemoryDc,
    CreateBitmap,
    SelectBitmap,
    BlockCopy,
    CreateDevice,
    CreateFramePool,
    StartSession,
    WaitForFrame,
    CreateStagingTexture,
    CopyToStaging,
    MapStaging,
    ReadPixels,
}

/// The steps of a capture by `strategy`, in order.
pub open spec fn steps_of(strategy: Strategy) -> Seq<Step> {
    match strategy {
        Strategy::BitBlock => seq![
            Step::GetWindowDc,
            Step::CreateMemoryDc,
            Step::CreateBitmap,
            Step::SelectBitmap,
            Step::BlockCopy,
            Step::ReadPixels,
        ],
        Strategy::Compositor => seq![
            Step::CreateDevice,
            Step::CreateFramePool,
            Step::StartSession,
            Step::WaitForFrame,
            Step::CreateStagingTexture,
            Step::CopyToStaging,
            Step::MapStaging,
            Step::ReadPixels,
        ],
    }
}

/// The resource that a step acquires when it succeeds, if any.
pub open spec fn acquires(step: Step) -> Option<Resource> {
    match step {
        Step::GetWindowDc => Some(Resource::WindowDc),
        Step::CreateMemoryDc => Some(Resource::MemoryDc),
        Step::CreateBitmap => Some(Resource::Bitmap),
        Step::CreateDevice => Some(Resource::Device),
        Step::CreateFramePool => Some(Resource::FramePool),
        Step::StartSession => Some(Resource::Session),
        Step::CreateStagingTexture => Some(Resource::StagingTexture),
        Step::MapStaging => Some(Resource::MappedView),
        _ => None,
    }
}

/// The failure that a step reports when it does not succeed.
pub open spec fn failure_of(step: Step) -> CaptureError {
    match step {
        Step::GetWindowDc | Step::CreateMemoryDc | Step::CreateDevice => {
            CaptureError::DeviceContextCreation
        },
        Step::CreateBitmap | Step::CreateFramePool | Step::CreateStagingTexture => {
            CaptureError::BufferCreation
        },
        Step::SelectBitmap | Step::StartSession | Step::CopyToStaging => CaptureError::ResourceBind,
        Step::BlockCopy => CaptureError::BlockCopy,
        Step::WaitForFrame => CaptureError::FrameWait,
        Step::MapStaging | Step::ReadPixels => CaptureError::ResourceMap,
    }
}

/// The resources held after the first `n` steps of `strategy` succeeded, in
/// the order of their acquisition.
pub open spec fn held_after(strategy: Strategy, n: nat) -> Seq<Resource>
    decreases n,
{
    if n == 0 {
        Seq::<Resource>::empty()
    } else {
        let prev = held_after(strategy, (n - 1) as nat);
        match acquires(steps_of(strategy)[n - 1]) {
            Some(r) => prev.push(r),
            None => prev,
        }
    }
}

/// The steps of a capture acquire each resource at most once, so a resource
/// that is held is released once only.
pub proof fn lemma_held_resources_distinct(strategy: Strategy, n: nat)
    requires
        n <= steps_of(strategy).len(),
    ensures
        held_after(strategy, n).no_duplicates(),
    decreases n,
{
    if n > 0 {
        lemma_held_resources_distinct(strategy, (n - 1) as nat);
        let prev = held_after(strategy, (n - 1) as nat);
        match acquires(steps_of(strategy)[n - 1]) {
            Some(r) => {
                lemma_acquired_only_once(strategy, (n - 1) as nat);
                assert forall|i: int, j: int|
                    0 <= i < j < prev.push(r).len() implies prev.push(r)[i] != prev.push(r)[j] by {
                    if j == prev.len() {
                        assert(prev.contains(prev[i]));
                    }
                }
            },
            None => {},
        }
    }
}

proof fn lemma_acquired_only_once(strategy: Strategy, n: nat)
    requires
        n < steps_of(strategy).len(),
        acquires(steps_of(strategy)[n as int]) is Some,
    ensures
        !held_after(strategy, n).contains(acquires(steps_of(strategy)[n as int])->0),
    decreases n,
{
    let r = acquires(steps_of(strategy)[n as int])->0;
    assert forall|k: nat| k < n implies acquires(steps_of(strategy)[k as int]) != Some(r) by {
        match strategy {
            Strategy::BitBlock => {},
            Strategy::Compositor => {},
        }
    }
    lemma_held_only_from_steps(strategy, n, r);
}

proof fn lemma_held_only_from_steps(strategy: Strategy, n: nat, r: Resource)
    requires
        n <= steps_of(strategy).len(),
        forall|k: nat| k < n ==> acquires(#[trigger] steps_of(strategy)[k as int]) != Some(r),
    ensures
        !held_after(strategy, n).contains(r),
    decreases n,
{
    if n > 0 {
        lemma_held_only_from_steps(strategy, (n - 1) as nat, r);
        assert(acquires(steps_of(strategy)[(n - 1) as int]) != Some(r));
    }
}

/// The number of steps of a capture by `strategy`.
pub fn step_count(strategy: Strategy) -> (r: usize)
    ensures
        r == steps_of(strategy).len(),
{
    match strategy {
        Strategy::BitBlock => 6,
        Strategy::Compositor => 8,
    }
}

/// Step `i` of a capture by `strategy`.
pub fn step_at(strategy: Strategy, i: usize) -> (r: Step)
    requires
        i < steps_of(strategy).len(),
    ensures
        r == steps_of(strategy)[i as int],
{
    match strategy {
        Strategy::BitBlock => {
            if i == 0 {
                Step::GetWindowDc
            } else if i == 1 {
                Step::CreateMemoryDc
            } else if i == 2 {
                Step::CreateBitmap
            } else if i == 3 {
                Step::SelectBitmap
            } else if i == 4 {
                Step::BlockCopy
            } else {
                Step::ReadPixels
            }
        },
        Strategy::Compositor => {
            if i == 0 {
                Step::CreateDevice
            } else if i == 1 {
                Step::CreateFramePool
            } else if i == 2 {
                Step::StartSession
            } else if i == 3 {
                Step::WaitForFrame
            } else if i == 4 {
                Step::CreateStagingTexture
            } else if i == 5 {
                Step::CopyToStaging
            } else if i == 6 {
                Step::MapStaging
            } else {
                Step::ReadPixels
            }
        },
    }
}

/// The resource that `step` acquires when it succeeds, if any.
pub fn acquired_by(step: Step) -> (r: Option<Resource>)
    ensures
        r == acquires(step),
{
    match step {
        Step::GetWindowDc => Some(Resource::WindowDc),
        Step::CreateMemoryDc => Some(Resource::MemoryDc),
        Step::CreateBitmap => Some(Resource::Bitmap),
        Step::CreateDevice => Some(Resource::Device),
        Step::CreateFramePool => Some(Resource::FramePool),
        Step::StartSession => Some(Resource::Session),
        Step::CreateStagingTexture => Some(Resource::StagingTexture),
        Step::MapStaging => Some(Resource::MappedView),
        _ => None,
    }
}

/// The failure that `step` reports when it does not succeed.
pub fn failure_for(step: Step) -> (r: CaptureError)
    ensures
        r == failure_of(step),
{
    match step {
        Step::GetWindowDc | Step::CreateMemoryDc | Step::CreateDevice => {
            CaptureError::DeviceContextCreation
        },
        Step::CreateBitmap | Step::CreateFramePool | Step::CreateStagingTexture => {
            CaptureError::BufferCreation
        },
        Step::SelectBitmap | Step::StartSession | Step::CopyToStaging => CaptureError::ResourceBind,
        Step::BlockCopy => CaptureError::BlockCopy,
        Step::WaitForFrame => CaptureError::FrameWait,
        Step::MapStaging | Step::ReadPixels => CaptureError::ResourceMap,
    }
}

/// Empties `held` and returns its resources last first.
fn release_all(held: &mut Vec<Resource>) -> (r: Vec<Resource>)
    ensures
        final(held)@.len() == 0,
        r@ == old(held)@.reverse(),
{
    let ghost orig = held@;
    let mut out: Vec<Resource> = Vec::new();
    while held.len() > 0
        invariant
            held@ == orig.take(held@.len() as int),
            held@.len() <= orig.len(),
            out@.len() == orig.len() - held@.len(),
            forall|j: int| 0 <= j < out@.len() ==> out@[j] == orig[orig.len() - 1 - j],
        decreases held@.len(),
    {
        let r = held.pop().unwrap();
        out.push(r);
        assert(held@ =~= orig.take(held@.len() as int));
    }
    assert(out@ =~= orig.reverse());
    out
}

/// One capture of one window: which step comes next, which resources are
/// held, and, once it is over, how it ended.
pub struct Capture {
    pub name: String,
    pub handle: WindowHandle,
    pub w: u32,
    pub h: u32,
    pub strategy: Strategy,
    /// The number of steps that have succeeded.
    pub completed: usize,
    /// The resources held, in the order of their acquisition.
    pub held: Vec<Resource>,
    /// How the capture ended, or `None` while it runs.
    pub outcome: Option<Result<(), CaptureError>>,
}

/// Whether a mapped surface of `len` bytes, with rows `row_pitch` bytes
/// apart, holds a `w` by `h` bitmap.
pub open spec fn readable(w: nat, h: nat, len: nat, row_pitch: nat) -> bool {
    &&& w * BYTES_PER_PIXEL <= usize::MAX
    &&& mapped_holds_rows(len, row_pitch, (w * BYTES_PER_PIXEL) as nat, h)
}

impl Capture {
    /// While the capture runs, the next step exists and the resources held
    /// are those that the steps done so far acquired; once it is over,
    /// nothing is held.
    pub open spec fn wf(&self) -> bool {
        &&& self.outcome is None ==> self.completed < steps_of(self.strategy).len()
            && self.held@ == held_after(self.strategy, self.completed as nat)
        &&& self.outcome is Some ==> self.held@.len() == 0
    }

    /// Starts a capture of `w` by `h` pixels of the window `handle`. A capture
    /// of zero area is over at once and has succeeded: it needs no resource.
    pub fn capture(name: String, handle: WindowHandle, w: u32, h: u32, strategy: Strategy) -> (r:
        Capture)
        ensures
            r.wf(),
            r.name == name,
            r.handle == handle,
            r.w == w,
            r.h == h,
            r.strategy == strategy,
            r.completed as nat == 0,
            r.held@.len() == 0,
            r.outcome == (if w == 0 || h == 0 {
                Some(Ok::<(), CaptureError>(()))
            } else {
                None::<Result<(), CaptureError>>
            }),
    {
        let outcome = if w == 0 || h == 0 {
            Some(Ok(()))
        } else {
            None
        };
        Capture { name, handle, w, h, strategy, completed: 0, held: Vec::new(), outcome }
    }

    /// The step to perform now, or `None` once the capture is over.
    pub fn pending(&self) -> (r: Option<Step>)
        requires
            self.wf(),
        ensures
            r == (if self.outcome is None {
                Some(steps_of(self.strategy)[self.completed as int])
            } else {
                None::<Step>
            }),
    {
        if self.outcome.is_none() {
            Some(step_at(self.strategy, self.completed))
        } else {
            None
        }
    }

    /// Records whether the pending step succeeded and returns the resources
    /// to release now, last acquired first. A failed step ends the capture
    /// with that step's error; the last step, succeeding, ends it with
    /// success. Either way every resource held is released. Otherwise the
    /// next step is pending and nothing is released.
    pub fn report(&mut self, succeeded: bool) -> (release: Vec<Resource>)
        requires
            old(self).wf(),
            old(self).outcome is None,
        ensures
            final(self).wf(),
            final(self).name == old(self).name,
            final(self).handle == old(self).handle,
            final(self).w == old(self).w,
            final(self).h == old(self).h,
            final(self).strategy == old(self).strategy,
            ({
                let steps = steps_of(old(self).strategy);
                let step = steps[old(self).completed as int];
                if !succeeded {
                    &&& final(self).outcome == Some(Err::<(), CaptureError>(failure_of(step)))
                    &&& release@ == old(self).held@.reverse()
                    &&& release@ == held_after(old(self).strategy, old(self).completed as nat).reverse()
                    &&& final(self).held@.len() == 0
                } else if old(self).completed + 1 == steps.len() {
                    &&& final(self).outcome == Some(Ok::<(), CaptureError>(()))
                    &&& release@ == held_after(old(self).strategy, steps.len()).reverse()
                    &&& final(self).held@.len() == 0
                } else {
                    &&& final(self).outcome is None
                    &&& final(self).completed as nat == old(self).completed + 1
                    &&& release@.len() == 0
                }
            }),
    {
        let step = step_at(self.strategy, self.completed);
        if !succeeded {
            self.outcome = Some(Err(failure_for(step)));
            return release_all(&mut self.held);
        }
        match acquired_by(step) {
            Some(r) => {
                self.held.push(r);
            },
            None => {},
        }
        self.completed = self.completed + 1;
        if self.completed == step_count(self.strategy) {
            self.outcome = Some(Ok(()));
            release_all(&mut self.held)
        } else {
            Vec::new()
        }
    }

    /// Reads the captured pixels out of a mapped surface whose rows start
    /// `row_pitch` bytes apart into `buffer`, packed row after row with no
    /// padding. A capture of zero area leaves `buffer` empty and succeeds. A
    /// mapped surface too short to hold the bitmap is a map failure, and
    /// `buffer` is left as it was.
    pub fn frame(&self, mapped: &Vec<u8>, row_pitch: usize, buffer: &mut Vec<u8>) -> (r: Result<
        (),
        CaptureError,
    >)
        ensures
            self.w == 0 || self.h == 0 ==> r == Ok::<(), CaptureError>(()) && final(buffer)@.len()
                == 0,
            self.w != 0 && self.h != 0 && readable(
                self.w as nat,
                self.h as nat,
                mapped@.len(),
                row_pitch as nat,
            ) ==> r == Ok::<(), CaptureError>(()) && final(buffer)@ == packed_rows(
                mapped@,
                row_pitch as nat,
                (self.w * BYTES_PER_PIXEL) as nat,
                self.h as nat,
            ) && final(buffer)@.len() == self.w * self.h * BYTES_PER_PIXEL,
            self.w != 0 && self.h != 0 && !readable(
                self.w as nat,
                self.h as nat,
                mapped@.len(),
                row_pitch as nat,
            ) ==> r == Err::<(), CaptureError>(CaptureError::ResourceMap) && final(buffer)@ == old(
                buffer,
            )@,
    {
        if self.w == 0 || self.h == 0 {
            buffer.clear();
            return Ok(());
        }
        let mapped_len: usize = mapped.len();
        let width = self.w as usize;
        let height = self.h as usize;
        let row_bytes = match width.checked_mul(BYTES_PER_PIXEL) {
            Some(b) => b,
            None => {
                return Err(CaptureError::ResourceMap);
            },
        };
        if row_bytes > row_pitch {
            return Err(CaptureError::ResourceMap);
        }
        let last_row = match (height - 1).checked_mul(row_pitch) {
            Some(v) => v,
            None => {
                return Err(CaptureError::ResourceMap);
            },
        };
        if last_row > mapped_len || mapped_len - last_row < row_bytes {
            return Err(CaptureError::ResourceMap);
        }
        *buffer = repack_rows(mapped, row_pitch, width, height);
        Ok(())
    }
}

} // verus!
