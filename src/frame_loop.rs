use vstd::prelude::*;
use crate::surface::{caps_valid, chosen_extent, negotiated, Extent, SurfaceCaps, SurfaceConfig};

verus! {

/// Readiness of one image of the presentation chain.
#[derive(Clone, Copy, Debug, PartialEq, Eq, Structural)]
pub enum SlotState {
    /// Not in use; may be acquired.
    Free,
    /// Handed to the frame loop, which records into it.
    Acquired,
    /// Its command sequence was submitted and has not been seen to complete.
    InFlight,
}

/// Where the frame loop stands within a tick.
#[derive(Clone, Copy, Debug, PartialEq, Eq, Structural)]
pub enum Phase {
    Idle,
    Acquiring,
    /// The presentation chain is being rebuilt for the current window size.
    Recreate,
    Recording,
    Submitted,
    Presenting,
    /// Ended by a close request, all work drained.
    Closed,
    /// Ended by an unrecoverable error.
    Failed,
}

/// What the outside world reports to the frame loop: window events, and the
/// outcome of each action the loop asked for.
#[derive(Clone, Copy, Debug, PartialEq, Eq, Structural)]
pub enum LoopEvent {
    /// Time for the next frame.
    Tick,
    /// The window was asked to close.
    Close,
    /// The window now has this size.
    Resize(Extent),
    /// Acquisition handed out the image at this position.
    Acquired(usize),
    /// Acquisition or presentation found the surface out of date.
    Stale,
    /// The chain was rebuilt with this configuration.
    Recreated(SurfaceConfig),
    /// The chain could not be rebuilt.
    RecreateFailed,
    /// The command sequence for the current image was recorded.
    Recorded,
    /// The device accepted the command sequence.
    Submitted,
    /// The device rejected the command sequence.
    SubmitFailed,
    /// The image was presented and its completion signal observed.
    Presented,
}

/// What the frame loop asks the outside world to do next.
#[derive(Clone, Copy, Debug, PartialEq, Eq, Structural)]
pub enum Action {
    /// Nothing; wait for the next event.
    Wait,
    /// Acquire the next image of the chain.
    Acquire,
    /// Release the chain and build a new one for a window of this size.
    Recreate(Extent),
    /// Record clear and draw commands into this image.
    Record(usize),
    /// Submit the recorded command sequence of this image.
    Submit(usize),
    /// Present this image once its commands complete, and wait for that.
    Present(usize),
    /// Wait for outstanding device work, release everything, and exit with this code.
    Exit(i32),
}

/// The frame loop's state, as mathematical values.
pub ghost struct LoopModel {
    pub phase: Phase,
    pub slots: Seq<SlotState>,
    /// The image being worked on, while one is.
    pub current: usize,
    /// The window's latest size.
    pub window: Extent,
    /// The size the presentation chain was built for.
    pub surface: Extent,
    /// The chain must be rebuilt before the next acquisition.
    pub stale: bool,
    /// The chain was already rebuilt during this tick.
    pub retried: bool,
    /// After the rebuild, acquisition is tried again in the same tick.
    pub retry_acquire: bool,
    /// A close request waits for the current tick to drain.
    pub close_pending: bool,
    /// The last rebuild of the chain failed; another failure is fatal.
    pub rebuild_failed: bool,
    /// Images presented so far (held at its maximum once reached).
    pub presented: u64,
}

pub open spec fn all_free(slots: Seq<SlotState>) -> bool {
    forall|j: int| 0 <= j < slots.len() ==> slots[j] == SlotState::Free
}

/// Image `cur` is in state `st` and every other image is free.
pub open spec fn only_slot(slots: Seq<SlotState>, cur: usize, st: SlotState) -> bool {
    &&& cur < slots.len()
    &&& slots[cur as int] == st
    &&& forall|j: int| 0 <= j < slots.len() && j != cur ==> slots[j] == SlotState::Free
}

/// At most one image is ever out of the free state, and which one, and how,
/// follows from the phase.
pub open spec fn loop_wf(m: LoopModel) -> bool {
    &&& m.slots.len() > 0
    &&& match m.phase {
        Phase::Recording => only_slot(m.slots, m.current, SlotState::Acquired),
        Phase::Submitted | Phase::Presenting => only_slot(m.slots, m.current, SlotState::InFlight),
        Phase::Failed => true,
        _ => all_free(m.slots),
    }
}

pub open spec fn free_slots(n: nat) -> Seq<SlotState> {
    Seq::new(n, |_j: int| SlotState::Free)
}

pub open spec fn bump(n: u64) -> u64 {
    if n < u64::MAX {
        (n + 1) as u64
    } else {
        n
    }
}

pub open spec fn fail(m: LoopModel) -> (LoopModel, Action) {
    (LoopModel { phase: Phase::Failed, ..m }, Action::Exit(1))
}

/// Ends a tick: closed where a close request waits, else idle.
pub open spec fn end_tick(m: LoopModel) -> (LoopModel, Action) {
    if m.close_pending {
        (LoopModel { phase: Phase::Closed, ..m }, Action::Exit(0))
    } else {
        (LoopModel { phase: Phase::Idle, ..m }, Action::Wait)
    }
}

/// Starts a rebuild of the chain for the current window.
pub open spec fn start_recreate(m: LoopModel, retry_acquire: bool) -> (LoopModel, Action) {
    (
        LoopModel { phase: Phase::Recreate, retried: true, retry_acquire, ..m },
        Action::Recreate(m.window),
    )
}

/// One step of the frame loop: the next state and the action to perform.
pub open spec fn spec_step(m: LoopModel, e: LoopEvent) -> (LoopModel, Action) {
    match (m.phase, e) {
        (Phase::Closed, _) | (Phase::Failed, _) => (m, Action::Wait),
        (Phase::Idle, LoopEvent::Close) => (LoopModel { phase: Phase::Closed, ..m }, Action::Exit(0)),
        (_, LoopEvent::Close) => (LoopModel { close_pending: true, ..m }, Action::Wait),
        (_, LoopEvent::Resize(ext)) => (LoopModel { window: ext, stale: true, ..m }, Action::Wait),
        (Phase::Idle, LoopEvent::Tick) => if m.stale {
            // a rebuild for a resize seen between ticks leaves this tick's retry unused
            (
                LoopModel { phase: Phase::Recreate, retried: false, retry_acquire: true, ..m },
                Action::Recreate(m.window),
            )
        } else {
            (LoopModel { phase: Phase::Acquiring, retried: false, ..m }, Action::Acquire)
        },
        (Phase::Acquiring, LoopEvent::Acquired(i)) => if i < m.slots.len() && m.slots[i as int]
            == SlotState::Free {
            (
                LoopModel {
                    phase: Phase::Recording,
                    current: i,
                    slots: m.slots.update(i as int, SlotState::Acquired),
                    ..m
                },
                Action::Record(i),
            )
        } else {
            fail(m)
        },
        (Phase::Acquiring, LoopEvent::Stale) => if m.retried {
            fail(m)
        } else {
            start_recreate(m, true)
        },
        (Phase::Recreate, LoopEvent::Recreated(cfg)) => if cfg.image_count == 0 {
            fail(m)
        } else {
            let r = LoopModel {
                slots: free_slots(cfg.image_count as nat),
                surface: cfg.extent,
                stale: false,
                rebuild_failed: false,
                ..m
            };
            if m.retry_acquire {
                (LoopModel { phase: Phase::Acquiring, ..r }, Action::Acquire)
            } else {
                end_tick(r)
            }
        },
        (Phase::Recreate, LoopEvent::RecreateFailed) => if m.rebuild_failed {
            fail(m)
        } else {
            (LoopModel { rebuild_failed: true, ..m }, Action::Recreate(m.window))
        },
        (Phase::Recording, LoopEvent::Recorded) => (
            LoopModel {
                phase: Phase::Submitted,
                slots: m.slots.update(m.current as int, SlotState::InFlight),
                ..m
            },
            Action::Submit(m.current),
        ),
        (Phase::Submitted, LoopEvent::Submitted) => (
            LoopModel { phase: Phase::Presenting, ..m },
            Action::Present(m.current),
        ),
        (Phase::Submitted, LoopEvent::SubmitFailed) => fail(m),
        (Phase::Presenting, LoopEvent::Presented) => end_tick(
            LoopModel {
                slots: m.slots.update(m.current as int, SlotState::Free),
                presented: bump(m.presented),
                ..m
            },
        ),
        (Phase::Presenting, LoopEvent::Stale) => start_recreate(
            LoopModel { slots: m.slots.update(m.current as int, SlotState::Free), stale: true, ..m },
            false,
        ),
        _ => (m, Action::Wait),
    }
}

/// The frame loop: decides, event by event, what the caller does next.
pub struct FrameLoop {
    phase: Phase,
    slots: Vec<SlotState>,
    current: usize,
    window: Extent,
    surface: Extent,
    stale: bool,
    retried: bool,
    retry_acquire: bool,
    close_pending: bool,
    rebuild_failed: bool,
    presented: u64,
}

impl View for FrameLoop {
    type V = LoopModel;

    closed spec fn view(&self) -> LoopModel {
        LoopModel {
            phase: self.phase,
            slots: self.slots@,
            current: self.current,
            window: self.window,
            surface: self.surface,
            stale: self.stale,
            retried: self.retried,
            retry_acquire: self.retry_acquire,
            close_pending: self.close_pending,
            rebuild_failed: self.rebuild_failed,
            presented: self.presented,
        }
    }
}

/// A chain of `n` free images.
fn make_free_slots(n: u32) -> (r: Vec<SlotState>)
    ensures
        r@ == free_slots(n as nat),
{
    let mut v: Vec<SlotState> = Vec::new();
    let mut i: u32 = 0;
    while i < n
        invariant
            i <= n,
            v@ == free_slots(i as nat),
        decreases n - i,
    {
        v.push(SlotState::Free);
        i += 1;
        assert(v@ =~= free_slots(i as nat));
    }
    v
}

impl FrameLoop {
    pub open spec fn wf(&self) -> bool {
        loop_wf(self@)
    }

    /// A loop at rest before its first tick, over a chain built with `config`
    /// for a window of size `window`; `None` where the chain has no image.
    pub fn new(config: SurfaceConfig, window: Extent) -> (r: Option<FrameLoop>)
        ensures
            r is None <==> config.image_count == 0,
            r matches Some(l) ==> l.wf() && l@ == (LoopModel {
                phase: Phase::Idle,
                slots: free_slots(config.image_count as nat),
                current: 0,
                window,
                surface: config.extent,
                stale: false,
                retried: false,
                retry_acquire: false,
                close_pending: false,
                rebuild_failed: false,
                presented: 0,
            }),
    {
        if config.image_count == 0 {
            return None;
        }
        Some(
            FrameLoop {
                phase: Phase::Idle,
                slots: make_free_slots(config.image_count),
                current: 0,
                window,
                surface: config.extent,
                stale: false,
                retried: false,
                retry_acquire: false,
                close_pending: false,
                rebuild_failed: false,
                presented: 0,
            },
        )
    }

    fn fail_exec(&mut self) -> (a: Action)
        ensures
            (final(self)@, a) == fail(old(self)@),
    {
        self.phase = Phase::Failed;
        Action::Exit(1)
    }

    fn end_tick_exec(&mut self) -> (a: Action)
        ensures
            (final(self)@, a) == end_tick(old(self)@),
    {
        if self.close_pending {
            self.phase = Phase::Closed;
            Action::Exit(0)
        } else {
            self.phase = Phase::Idle;
            Action::Wait
        }
    }

    fn start_recreate_exec(&mut self, retry_acquire: bool) -> (a: Action)
        ensures
            (final(self)@, a) == start_recreate(old(self)@, retry_acquire),
    {
        self.phase = Phase::Recreate;
        self.retried = true;
        self.retry_acquire = retry_acquire;
        Action::Recreate(self.window)
    }

    /// Takes one event and returns the action to perform next.
    pub fn step(&mut self, e: LoopEvent) -> (a: Action)
        requires
            old(self).wf(),
        ensures
            (final(self)@, a) == spec_step(old(self)@, e),
            final(self).wf(),
    {
        proof {
            lemma_step_keeps_wf(self@, e);
        }
        match (self.phase, e) {
            (Phase::Closed, _) | (Phase::Failed, _) => Action::Wait,
            (Phase::Idle, LoopEvent::Close) => {
                self.phase = Phase::Closed;
                Action::Exit(0)
            },
            (_, LoopEvent::Close) => {
                self.close_pending = true;
                Action::Wait
            },
            (_, LoopEvent::Resize(ext)) => {
                self.window = ext;
                self.stale = true;
                Action::Wait
            },
            (Phase::Idle, LoopEvent::Tick) => {
                self.retried = false;
                if self.stale {
                    self.phase = Phase::Recreate;
                    self.retry_acquire = true;
                    Action::Recreate(self.window)
                } else {
                    self.phase = Phase::Acquiring;
                    Action::Acquire
                }
            },
            (Phase::Acquiring, LoopEvent::Acquired(i)) => {
                if i < self.slots.len() && self.slots[i] == SlotState::Free {
                    self.phase = Phase::Recording;
                    self.current = i;
                    self.slots.set(i, SlotState::Acquired);
                    Action::Record(i)
                } else {
                    self.fail_exec()
                }
            },
            (Phase::Acquiring, LoopEvent::Stale) => {
                if self.retried {
                    self.fail_exec()
                } else {
                    self.start_recreate_exec(true)
                }
            },
            (Phase::Recreate, LoopEvent::Recreated(cfg)) => {
                if cfg.image_count == 0 {
                    self.fail_exec()
                } else {
                    self.slots = make_free_slots(cfg.image_count);
                    self.surface = cfg.extent;
                    self.stale = false;
                    self.rebuild_failed = false;
                    if self.retry_acquire {
                        self.phase = Phase::Acquiring;
                        Action::Acquire
                    } else {
                        self.end_tick_exec()
                    }
                }
            },
            (Phase::Recreate, LoopEvent::RecreateFailed) => {
                if self.rebuild_failed {
                    self.fail_exec()
                } else {
                    self.rebuild_failed = true;
                    Action::Recreate(self.window)
                }
            },
            (Phase::Recording, LoopEvent::Recorded) => {
                self.phase = Phase::Submitted;
                self.slots.set(self.current, SlotState::InFlight);
                Action::Submit(self.current)
            },
            (Phase::Submitted, LoopEvent::Submitted) => {
                self.phase = Phase::Presenting;
                Action::Present(self.current)
            },
            (Phase::Submitted, LoopEvent::SubmitFailed) => self.fail_exec(),
            (Phase::Presenting, LoopEvent::Presented) => {
                self.slots.set(self.current, SlotState::Free);
                if self.presented < u64::MAX {
                    self.presented = self.presented + 1;
                }
                self.end_tick_exec()
            },
            (Phase::Presenting, LoopEvent::Stale) => {
                self.slots.set(self.current, SlotState::Free);
                self.stale = true;
                self.start_recreate_exec(false)
            },
            _ => Action::Wait,
        }
    }

    pub fn phase(&self) -> (r: Phase)
        ensures
            r == self@.phase,
    {
        self.phase
    }

    /// Number of images in the presentation chain.
    pub fn slot_count(&self) -> (r: usize)
        ensures
            r == self@.slots.len(),
    {
        self.slots.len()
    }

    pub fn slot_state(&self, i: usize) -> (r: Option<SlotState>)
        ensures
            r is Some <==> i < self@.slots.len(),
            r matches Some(s) ==> s == self@.slots[i as int],
    {
        if i < self.slots.len() {
            Some(self.slots[i])
        } else {
            None
        }
    }

    /// The size the presentation chain was last built for.
    pub fn surface_extent(&self) -> (r: Extent)
        ensures
            r == self@.surface,
    {
        self.surface
    }

    /// The window's latest size.
    pub fn window_extent(&self) -> (r: Extent)
        ensures
            r == self@.window,
    {
        self.window
    }

    /// Images presented so far.
    pub fn presented(&self) -> (r: u64)
        ensures
            r == self@.presented,
    {
        self.presented
    }
}

/// Every step keeps the slot invariant: at most one image is out of the free
/// state, it is acquired only while recording and in flight only from
/// submission until presentation, and no image is acquired twice before it is
/// freed.
pub proof fn lemma_step_keeps_wf(m: LoopModel, e: LoopEvent)
    requires
        loop_wf(m),
    ensures
        loop_wf(spec_step(m, e).0),
{
    let n = spec_step(m, e).0;
    match (m.phase, e) {
        (Phase::Recreate, LoopEvent::Recreated(cfg)) => {
            assert(n.slots.len() > 0);
        },
        _ => {},
    }
}

/// The state reached from `m` through the events of `es`, in order.
pub open spec fn run(m: LoopModel, es: Seq<LoopEvent>) -> LoopModel
    decreases es.len(),
{
    if es.len() == 0 {
        m
    } else {
        run(spec_step(m, es[0]).0, es.drop_first())
    }
}

/// The slot invariant holds after any number of events, ticks included.
pub proof fn lemma_run_keeps_wf(m: LoopModel, es: Seq<LoopEvent>)
    requires
        loop_wf(m),
    ensures
        loop_wf(run(m, es)),
    decreases es.len(),
{
    if es.len() > 0 {
        lemma_step_keeps_wf(m, es[0]);
        lemma_run_keeps_wf(spec_step(m, es[0]).0, es.drop_first());
    }
}

/// A tick without a resize or close request takes the acquired image through
/// acquired, in flight and free, once each, presents it, and ends idle with
/// every image free.
pub proof fn lemma_tick_cycle(m: LoopModel, i: usize)
    requires
        loop_wf(m),
        m.phase == Phase::Idle,
        !m.stale,
        !m.close_pending,
        i < m.slots.len(),
    ensures
        ({
            let (s1, a1) = spec_step(m, LoopEvent::Tick);
            let (s2, a2) = spec_step(s1, LoopEvent::Acquired(i));
            let (s3, a3) = spec_step(s2, LoopEvent::Recorded);
            let (s4, a4) = spec_step(s3, LoopEvent::Submitted);
            let (s5, a5) = spec_step(s4, LoopEvent::Presented);
            &&& a1 == Action::Acquire && s1.phase == Phase::Acquiring && all_free(s1.slots)
            &&& a2 == Action::Record(i) && only_slot(s2.slots, i, SlotState::Acquired)
            &&& a3 == Action::Submit(i) && only_slot(s3.slots, i, SlotState::InFlight)
            &&& a4 == Action::Present(i) && only_slot(s4.slots, i, SlotState::InFlight)
            &&& a5 == Action::Wait && s5.phase == Phase::Idle && all_free(s5.slots)
            &&& s5.slots.len() == m.slots.len()
            &&& s5.presented == bump(m.presented)
        }),
{
    let (s1, a1) = spec_step(m, LoopEvent::Tick);
    let (s2, a2) = spec_step(s1, LoopEvent::Acquired(i));
    let (s3, a3) = spec_step(s2, LoopEvent::Recorded);
    let (s4, a4) = spec_step(s3, LoopEvent::Submitted);
    let (s5, a5) = spec_step(s4, LoopEvent::Presented);
    assert(only_slot(s2.slots, i, SlotState::Acquired));
    assert(only_slot(s3.slots, i, SlotState::InFlight));
    assert(all_free(s5.slots));
}

/// An image that is not free is never handed out again: an acquisition
/// report for it changes no image's state.
pub proof fn lemma_no_double_acquire(m: LoopModel, i: usize)
    requires
        loop_wf(m),
        i < m.slots.len(),
        m.slots[i as int] != SlotState::Free,
    ensures
        spec_step(m, LoopEvent::Acquired(i)).0.slots == m.slots,
{
}

/// The window size is what the surface takes as its own under `caps`.
pub open spec fn extent_taken(caps: SurfaceCaps, window: Extent) -> bool {
    match caps.current_extent {
        Some(e) => e == window,
        None => caps.min_extent.width <= window.width <= caps.max_extent.width
            && caps.min_extent.height <= window.height <= caps.max_extent.height,
    }
}

/// After the window is resized and acquisition reports a stale surface, the
/// loop rebuilds the chain for the new window size; once rebuilt with the
/// negotiated configuration, the surface has the window's size and the loop
/// goes on acquiring and recording frames.
pub proof fn lemma_stale_recovery(
    m: LoopModel,
    window: Extent,
    caps: SurfaceCaps,
    preferred_format: u32,
)
    requires
        loop_wf(m),
        m.phase == Phase::Acquiring,
        !m.retried,
        caps_valid(caps),
        caps.formats@.len() > 0,
        extent_taken(caps, window),
    ensures
        ({
            let cfg = negotiated(caps, preferred_format, window);
            let (s1, a1) = spec_step(m, LoopEvent::Resize(window));
            let (s2, a2) = spec_step(s1, LoopEvent::Stale);
            let (s3, a3) = spec_step(s2, LoopEvent::Recreated(cfg));
            let (s4, a4) = spec_step(s3, LoopEvent::Acquired(0));
            &&& a2 == Action::Recreate(window)
            &&& a3 == Action::Acquire && s3.phase == Phase::Acquiring
            &&& s3.surface == window && !s3.stale
            &&& s3.slots.len() == caps.min_image_count
            &&& a4 == Action::Record(0) && s4.phase == Phase::Recording
        }),
{
    let cfg = negotiated(caps, preferred_format, window);
    assert(chosen_extent(caps, window) == window);
    let (s1, a1) = spec_step(m, LoopEvent::Resize(window));
    let (s2, a2) = spec_step(s1, LoopEvent::Stale);
    let (s3, a3) = spec_step(s2, LoopEvent::Recreated(cfg));
    assert(s3.slots[0] == SlotState::Free);
}

/// When the window is resized between ticks, the next tick rebuilds the chain
/// for the new size before acquiring; once rebuilt with the negotiated
/// configuration, the surface has the window's size, the chain has at least
/// the device's minimum image count, a stale report in that tick is still
/// recovered from rather than fatal, and the loop presents the frame, ends the
/// tick idle and acquires again on the next tick, whatever happened in earlier
/// ticks.
pub proof fn lemma_resize_recovery(
    m: LoopModel,
    window: Extent,
    caps: SurfaceCaps,
    preferred_format: u32,
)
    requires
        loop_wf(m),
        m.phase == Phase::Idle,
        !m.close_pending,
        caps_valid(caps),
        caps.formats@.len() > 0,
        extent_taken(caps, window),
    ensures
        ({
            let cfg = negotiated(caps, preferred_format, window);
            let (s1, a1) = spec_step(m, LoopEvent::Resize(window));
            let (s2, a2) = spec_step(s1, LoopEvent::Tick);
            let (s3, a3) = spec_step(s2, LoopEvent::Recreated(cfg));
            let (s4, a4) = spec_step(s3, LoopEvent::Acquired(0));
            let (s5, a5) = spec_step(s4, LoopEvent::Recorded);
            let (s6, a6) = spec_step(s5, LoopEvent::Submitted);
            let (s7, a7) = spec_step(s6, LoopEvent::Presented);
            let (s8, a8) = spec_step(s7, LoopEvent::Tick);
            &&& a1 == Action::Wait
            &&& a2 == Action::Recreate(window) && s2.phase == Phase::Recreate
            &&& a3 == Action::Acquire && s3.phase == Phase::Acquiring
            &&& s3.surface == window && !s3.stale
            &&& s3.slots.len() >= caps.min_image_count
            &&& spec_step(s3, LoopEvent::Stale).1 == Action::Recreate(window)
            &&& a4 == Action::Record(0) && s4.phase == Phase::Recording
            &&& a5 == Action::Submit(0) && a6 == Action::Present(0)
            &&& a7 == Action::Wait && s7.phase == Phase::Idle && all_free(s7.slots)
            &&& s7.presented == bump(m.presented) && s7.surface == window
            &&& a8 == Action::Acquire && s8.phase == Phase::Acquiring
        }),
{
    let cfg = negotiated(caps, preferred_format, window);
    assert(chosen_extent(caps, window) == window);
    let (s1, a1) = spec_step(m, LoopEvent::Resize(window));
    let (s2, a2) = spec_step(s1, LoopEvent::Tick);
    let (s3, a3) = spec_step(s2, LoopEvent::Recreated(cfg));
    assert(s3.slots[0] == SlotState::Free);
    let (s4, a4) = spec_step(s3, LoopEvent::Acquired(0));
    let (s5, a5) = spec_step(s4, LoopEvent::Recorded);
    assert(only_slot(s5.slots, 0, SlotState::InFlight));
    let (s7, a7) = spec_step(spec_step(s5, LoopEvent::Submitted).0, LoopEvent::Presented);
    assert(all_free(s7.slots));
}

} // verus!
