//! The shared input and lifecycle state exchanged between the event thread
//! and the render thread.
//!
//! Four independent cells — the pressed-key set, the mouse-delta
//! accumulator, the window-size state and the health flag — each meant to
//! live behind its own mutual-exclusion guard (owned by the process around
//! this library), so unrelated updates never contend. Each cell's
//! operations are specified by a pure transition function, so facts about
//! sequences of operations are stated and proved over those functions.

use vstd::prelude::*;

use crate::math::{clamp_i64, sat_add};

verus! {

/// Input code for the key that moves the camera left.
pub const KEY_A: u32 = 1;

/// Input code for the key that moves the camera right.
pub const KEY_D: u32 = 2;

/// Input code for the key that moves the camera forward.
pub const KEY_W: u32 = 3;

/// Input code for the key that moves the camera backward.
pub const KEY_S: u32 = 4;

/// Input code for the key that moves the camera up.
pub const KEY_SPACE: u32 = 5;

/// Input code for the key that moves the camera down.
pub const KEY_LSHIFT: u32 = 6;

/// Input code for the escape key; it requests the process to stop.
pub const KEY_ESCAPE: u32 = 7;

/// Input code for the Q key; it requests the process to stop.
pub const KEY_Q: u32 = 8;

/// The set of currently held input codes, kept in the order the keys went
/// down. Written by the event thread on key transitions; read, never
/// cleared, by the render thread each frame.
pub struct PressedKeys {
    /// The held codes, in the order the keys went down.
    pub keys: Vec<u32>,
}

impl View for PressedKeys {
    type V = Seq<u32>;

    open spec fn view(&self) -> Seq<u32> {
        self.keys@
    }
}

impl PressedKeys {
    /// No code occurs twice: the cell is a set.
    pub open spec fn wf(self) -> bool {
        forall|p: int, q: int| 0 <= p < q < self@.len() ==> self@[p] != self@[q]
    }

    /// The empty set.
    pub fn new() -> (r: PressedKeys)
        ensures
            r@ == Seq::<u32>::empty(),
            r.wf(),
    {
        PressedKeys { keys: Vec::new() }
    }

    /// Whether `code` is held.
    pub fn contains(&self, code: u32) -> (r: bool)
        ensures
            r == self@.contains(code),
    {
        let mut i: usize = 0;
        while i < self.keys.len()
            invariant
                i <= self@.len(),
                forall|k: int| 0 <= k < i ==> self@[k] != code,
            decreases self@.len() - i,
        {
            if self.keys[i] == code {
                return true;
            }
            i += 1;
        }
        false
    }

    /// Records that `code` went down. Pressing an already-pressed key is a
    /// no-op; a new key is appended, preserving order.
    pub fn press(&mut self, code: u32)
        requires
            old(self).wf(),
        ensures
            final(self).wf(),
            old(self)@.contains(code) ==> final(self)@ == old(self)@,
            !old(self)@.contains(code) ==> final(self)@ == old(self)@.push(code),
            final(self)@.contains(code),
    {
        if !self.contains(code) {
            self.keys.push(code);
            proof {
                assert forall|p: int, q: int| 0 <= p < q < self@.len() implies self@[p]
                    != self@[q] by {
                    if q == self@.len() - 1 {
                        assert(self@[p] == old(self)@[p]);
                        assert(old(self)@[p] != code);
                    } else {
                        assert(self@[p] == old(self)@[p] && self@[q] == old(self)@[q]);
                    }
                }
                assert(self@[self@.len() - 1] == code);
            }
        }
    }

    /// Records that `code` went up. Releasing a key that is not held is a
    /// no-op; otherwise its one occurrence is removed and the order of the
    /// rest is preserved.
    pub fn release(&mut self, code: u32)
        requires
            old(self).wf(),
        ensures
            final(self).wf(),
            !old(self)@.contains(code) ==> final(self)@ == old(self)@,
            old(self)@.contains(code) ==> {
                exists|p: int|
                    0 <= p < old(self)@.len() && old(self)@[p] == code && final(self)@ == old(
                        self,
                    )@.remove(p)
            },
            !final(self)@.contains(code),
    {
        let mut i: usize = 0;
        while i < self.keys.len()
            invariant
                self@ == old(self)@,
                i <= self@.len(),
                old(self).wf(),
                forall|k: int| 0 <= k < i ==> self@[k] != code,
            decreases self@.len() - i,
        {
            if self.keys[i] == code {
                let ghost pre = self@;
                self.keys.remove(i);
                proof {
                    pre.remove_ensures(i as int);
                    assert forall|p: int, q: int| 0 <= p < q < self@.len() implies self@[p]
                        != self@[q] by {
                        let p0: int = if p < i as int { p } else { p + 1 };
                        let q0: int = if q < i as int { q } else { q + 1 };
                        assert(self@[p] == pre[p0]);
                        assert(self@[q] == pre[q0]);
                    }
                    assert forall|k: int| 0 <= k < self@.len() implies self@[k] != code by {
                        let k0: int = if k < i as int { k } else { k + 1 };
                        assert(self@[k] == pre[k0]);
                        if k0 != i as int && pre[k0] == code {
                            assert(pre[i as int] == code);
                        }
                    }
                    assert(!self@.contains(code));
                }
                return ;
            }
            i += 1;
        }
        proof {
            assert(!self@.contains(code));
        }
    }

    /// The held codes, in the order the keys went down.
    pub fn codes(&self) -> (r: Vec<u32>)
        ensures
            r@ == self@,
    {
        let mut r: Vec<u32> = Vec::new();
        let mut i: usize = 0;
        while i < self.keys.len()
            invariant
                i <= self@.len(),
                r@ == self@.subrange(0, i as int),
            decreases self@.len() - i,
        {
            r.push(self.keys[i]);
            proof {
                assert(r@ =~= self@.subrange(0, i + 1 as int));
            }
            i += 1;
        }
        proof {
            assert(r@ =~= self@);
        }
        r
    }
}

/// The running sum of pointer motion since the last drain. Accumulated by
/// the event thread; read and reset by the render thread every frame,
/// whether or not it is consumed.
pub struct MouseDelta {
    /// Accumulated horizontal motion.
    pub dx: i64,
    /// Accumulated vertical motion.
    pub dy: i64,
}

/// The accumulator after adding `(dx, dy)`: a componentwise saturating sum.
pub open spec fn accumulate_spec(s: MouseDelta, dx: i64, dy: i64) -> MouseDelta {
    MouseDelta { dx: clamp_i64(s.dx + dx) as i64, dy: clamp_i64(s.dy + dy) as i64 }
}

/// The drained value and the accumulator after a drain: the drain returns
/// the running sum and resets it to zero.
pub open spec fn drain_spec(s: MouseDelta) -> ((i64, i64), MouseDelta) {
    ((s.dx, s.dy), MouseDelta { dx: 0, dy: 0 })
}

impl MouseDelta {
    /// The accumulated horizontal motion.
    pub open spec fn spec_dx(self) -> i64 {
        self.dx
    }

    /// The accumulated vertical motion.
    pub open spec fn spec_dy(self) -> i64 {
        self.dy
    }

    /// A zeroed accumulator.
    pub fn new() -> (r: MouseDelta)
        ensures
            r == (MouseDelta { dx: 0, dy: 0 }),
    {
        MouseDelta { dx: 0, dy: 0 }
    }

    /// Adds one motion event into the running sum.
    pub fn accumulate(&mut self, dx: i64, dy: i64)
        ensures
            *final(self) == accumulate_spec(*old(self), dx, dy),
    {
        self.dx = sat_add(self.dx, dx);
        self.dy = sat_add(self.dy, dy);
    }

    /// Reads the running sum and resets it to zero.
    pub fn drain(&mut self) -> (r: (i64, i64))
        ensures
            r == drain_spec(*old(self)).0,
            *final(self) == drain_spec(*old(self)).1,
    {
        let r = (self.dx, self.dy);
        self.dx = 0;
        self.dy = 0;
        r
    }
}

/// Two accumulations compose additively per axis, and a drain returns the
/// composed sum and leaves zero behind; a second drain with no intervening
/// write returns zero. Stated for sums within the `i64` range, where the
/// saturating addition is exact.
pub proof fn lemma_accumulate_then_drain(s: MouseDelta, a: (i64, i64), b: (i64, i64))
    requires
        i64::MIN <= s.spec_dx() + a.0 <= i64::MAX,
        i64::MIN <= s.spec_dx() + a.0 + b.0 <= i64::MAX,
        i64::MIN <= s.spec_dy() + a.1 <= i64::MAX,
        i64::MIN <= s.spec_dy() + a.1 + b.1 <= i64::MAX,
    ensures
        drain_spec(accumulate_spec(accumulate_spec(s, a.0, a.1), b.0, b.1)).0
            == ((s.spec_dx() + a.0 + b.0) as i64, (s.spec_dy() + a.1 + b.1) as i64),
        drain_spec(drain_spec(accumulate_spec(accumulate_spec(s, a.0, a.1), b.0, b.1)).1).0
            == (0i64, 0i64),
{
}

/// The window size and whether a resize is waiting to be applied. Written
/// by the event thread on a resize; read and cleared by the render thread
/// when it applies the new viewport.
pub struct WindowSize {
    /// The most recently recorded width.
    pub width: u32,
    /// The most recently recorded height.
    pub height: u32,
    /// Whether a recorded resize waits to be applied.
    pub resize_pending: bool,
}

/// The cell after the event thread records a resize to `w` by `h`: the new
/// size, with the pending flag raised.
pub open spec fn record_resize_spec(w: u32, h: u32) -> WindowSize {
    WindowSize { width: w, height: h, resize_pending: true }
}

/// The drained value and the cell after a drain: a pending size is handed
/// out once and the flag cleared; with nothing pending, nothing changes.
pub open spec fn window_drain_spec(s: WindowSize) -> (Option<(u32, u32)>, WindowSize) {
    if s.spec_pending() {
        (
            Some((s.spec_width(), s.spec_height())),
            WindowSize { width: s.width, height: s.height, resize_pending: false },
        )
    } else {
        (None, s)
    }
}

impl WindowSize {
    /// The stored width.
    pub open spec fn spec_width(self) -> u32 {
        self.width
    }

    /// The stored height.
    pub open spec fn spec_height(self) -> u32 {
        self.height
    }

    /// Whether a resize waits to be applied.
    pub open spec fn spec_pending(self) -> bool {
        self.resize_pending
    }

    /// The initial cell: the given size, no resize pending.
    pub fn new(width: u32, height: u32) -> (r: WindowSize)
        ensures
            r == (WindowSize { width, height, resize_pending: false }),
    {
        WindowSize { width, height, resize_pending: false }
    }

    /// Records a resize to `w` by `h` and raises the pending flag.
    pub fn record_resize(&mut self, w: u32, h: u32)
        ensures
            *final(self) == record_resize_spec(w, h),
    {
        self.width = w;
        self.height = h;
        self.resize_pending = true;
    }

    /// Drains the cell: if a resize is pending, returns the new size and
    /// clears the flag; otherwise returns nothing and changes nothing.
    pub fn drain(&mut self) -> (r: Option<(u32, u32)>)
        ensures
            r == window_drain_spec(*old(self)).0,
            *final(self) == window_drain_spec(*old(self)).1,
    {
        if self.resize_pending {
            self.resize_pending = false;
            Some((self.width, self.height))
        } else {
            None
        }
    }
}

/// After the event thread records a resize, exactly one drain observes it:
/// the first drain returns the recorded size and clears the pending flag,
/// leaving the recorded size in place for later projections, and a second
/// drain with no intervening write observes nothing and changes nothing.
pub proof fn lemma_one_drain_per_resize(w: u32, h: u32)
    ensures
        window_drain_spec(record_resize_spec(w, h)).0 == Some((w, h)),
        !window_drain_spec(record_resize_spec(w, h)).1.spec_pending(),
        window_drain_spec(record_resize_spec(w, h)).1.spec_width() == w,
        window_drain_spec(record_resize_spec(w, h)).1.spec_height() == h,
        window_drain_spec(window_drain_spec(record_resize_spec(w, h)).1).0 is None,
        window_drain_spec(window_drain_spec(record_resize_spec(w, h)).1).1 == window_drain_spec(
            record_resize_spec(w, h),
        ).1,
{
}

/// The render thread's health, as seen by the event thread. Starts healthy;
/// the watchdog lowers it, once, upon abnormal render-thread termination,
/// and nothing ever raises it again.
pub struct HealthFlag {
    /// Whether the render thread is believed alive and well.
    pub healthy: bool,
}

/// The flag after the watchdog observes the render thread finish: unchanged
/// on a normal finish, lowered on an abnormal one — and once lowered it
/// stays lowered, whatever is observed later.
pub open spec fn observe_spec(s: HealthFlag, finished_normally: bool) -> HealthFlag {
    HealthFlag { healthy: s.spec_healthy() && finished_normally }
}

impl HealthFlag {
    /// Whether the render thread is believed alive and well.
    pub open spec fn spec_healthy(self) -> bool {
        self.healthy
    }

    /// The initial flag: healthy.
    pub fn new() -> (r: HealthFlag)
        ensures
            r.spec_healthy(),
    {
        HealthFlag { healthy: true }
    }

    /// Reads the flag without changing it.
    pub fn is_healthy(&self) -> (r: bool)
        ensures
            r == self.spec_healthy(),
    {
        self.healthy
    }

    /// The watchdog's one write: records how the render thread finished.
    /// An abnormal finish lowers the flag; a normal one leaves it as it is.
    pub fn observe_termination(&mut self, finished_normally: bool)
        ensures
            *final(self) == observe_spec(*old(self), finished_normally),
            !finished_normally ==> !final(self).spec_healthy(),
    {
        if !finished_normally {
            self.healthy = false;
        }
    }
}

/// The health flag is one-shot and one-directional: once an abnormal
/// termination lowers it, no later observation — normal or abnormal — ever
/// raises it again.
pub proof fn lemma_health_flag_never_recovers(s: HealthFlag, later: bool)
    ensures
        !observe_spec(s, false).spec_healthy(),
        !observe_spec(observe_spec(s, false), later).spec_healthy(),
{
}

} // verus!
