//! The touchpad listener: a state machine fed with decoded touchpad events.
//!
//! It tracks one-finger pointer motion and two-finger scrolling and says what
//! the momentum engine should be told: a stop when fingers touch the pad (two
//! or more at once; a single finger at the end of its batch, unless that batch
//! is the second finger of a two-finger scroll lifting), and a start when a
//! gesture ends. Velocities are kept
//! as exact integer samples (a distance and a time span in microseconds); the
//! caller turns a sample into a speed.

use vstd::prelude::*;

use crate::input_codes::{
    RawEvent, ABS_X, ABS_Y, BTN_TOOL_DOUBLETAP, BTN_TOOL_FINGER, BTN_TOOL_QUADTAP,
    BTN_TOOL_QUINTTAP, BTN_TOOL_TRIPLETAP, EV_ABS, EV_KEY,
};

verus! {

/// Capacity of a sample ring.
pub const RING_SIZE: usize = 8;

/// How many of the most recent samples a scroll velocity is computed from.
pub const VELOCITY_SAMPLES: usize = 4;

/// The listener's gesture state.
#[derive(Debug, Clone, Copy, PartialEq, Eq, Structural)]
pub enum ListenerState {
    Idle,
    OneFingerMove,
    TwoFingerScroll,
}

/// A distance travelled along one axis over a span of time.
#[derive(Debug, Clone, Copy, PartialEq, Eq, Structural)]
pub struct ScrollSample {
    /// Sum of the position deltas, in touchpad units.
    pub total_delta: i128,
    /// Time between the first and the last sample, in microseconds (never 0).
    pub dt_us: u64,
}

/// Pointer displacement over a span of time.
#[derive(Debug, Clone, Copy, PartialEq, Eq, Structural)]
pub struct PointerSample {
    pub dx: i64,
    pub dy: i64,
    /// Time span in microseconds (never 0).
    pub dt_us: u64,
}

/// A decoded touchpad event.
#[derive(Debug, Clone, Copy, PartialEq, Eq, Structural)]
pub enum TouchInput {
    /// `ABS_X` with its value.
    AbsX(i32),
    /// `ABS_Y` with its value.
    AbsY(i32),
    /// `BTN_TOOL_FINGER` with its value.
    ToolFinger(i32),
    /// `BTN_TOOL_DOUBLETAP` with its value.
    ToolDoubleTap(i32),
    /// `BTN_TOOL_TRIPLETAP`, `BTN_TOOL_QUADTAP` or `BTN_TOOL_QUINTTAP` with its value.
    ToolMultiTap(i32),
    /// Anything else.
    Other,
}

/// A touchpad event with its time stamp in microseconds since the epoch.
#[derive(Debug, Clone, Copy, PartialEq, Eq, Structural)]
pub struct TouchEvent {
    pub input: TouchInput,
    pub timestamp_us: u64,
}

/// What the listener asks for after an event.
#[derive(Debug, Clone, Copy, PartialEq, Eq, Structural)]
pub enum ListenerAction {
    Nothing,
    /// Stop any momentum now.
    Stop,
    /// The finger left the pad after pointer motion: start pointer momentum if
    /// this velocity (`None` for zero) is fast enough.
    PointerRelease(Option<PointerSample>),
    /// Two fingers left the pad: start scroll momentum from the faster of these
    /// velocities (`None` for zero) if it is fast enough.
    ScrollRelease { y: Option<ScrollSample>, x: Option<ScrollSample> },
}

/// The last [`RING_SIZE`] position deltas of one axis with their time stamps.
pub struct RingBuffer {
    buf: Vec<(i64, u64)>,
    pos: usize,
    count: usize,
}

/// The samples after pushing `x`: the oldest one is dropped when the ring is full.
pub open spec fn ring_push(s: Seq<(i64, u64)>, x: (i64, u64)) -> Seq<(i64, u64)> {
    if s.len() < RING_SIZE {
        s.push(x)
    } else {
        s.drop_first().push(x)
    }
}

/// The samples after pushing each of `ps`, in order, onto `s`.
pub open spec fn replay(s: Seq<(i64, u64)>, ps: Seq<(i64, u64)>) -> Seq<(i64, u64)>
    decreases ps.len(),
{
    if ps.len() == 0 {
        s
    } else {
        ring_push(replay(s, ps.drop_last()), ps.last())
    }
}

/// The last `RING_SIZE` elements of `ps` (all of them when there are fewer).
pub open spec fn last_pushes(ps: Seq<(i64, u64)>) -> Seq<(i64, u64)> {
    ps.subrange(
        if ps.len() > RING_SIZE {
            ps.len() - RING_SIZE
        } else {
            0
        },
        ps.len() as int,
    )
}

/// A cleared ring (like a new one: both hold no sample) keeps exactly the last
/// [`RING_SIZE`] samples pushed since, whatever it held before.
pub proof fn law_cleared_ring_keeps_last_pushes(ps: Seq<(i64, u64)>)
    ensures
        replay(Seq::empty(), ps) == last_pushes(ps),
    decreases ps.len(),
{
    if ps.len() > 0 {
        let front = ps.drop_last();
        law_cleared_ring_keeps_last_pushes(front);
        assert(ring_push(last_pushes(front), ps.last()) =~= last_pushes(ps));
    }
}

/// After a clear (or on a new ring), the velocity is that of the samples
/// pushed since: what the ring held before has no effect.
pub proof fn law_velocity_after_clear(ps: Seq<(i64, u64)>)
    ensures
        window_velocity(replay(Seq::empty(), ps)) == window_velocity(ps),
{
    law_cleared_ring_keeps_last_pushes(ps);
    let t = last_pushes(ps);
    let n = ps.len() as int;
    let m: int = if n < VELOCITY_SAMPLES {
        n
    } else {
        VELOCITY_SAMPLES as int
    };
    assert(t.subrange(t.len() - m, t.len() as int) =~= ps.subrange(n - m, n));
}

/// Two rings that hold no sample, one cleared and one new, hold the same
/// samples and give the same velocity after the same pushes, whatever the
/// cleared one held before its clear: the last [`RING_SIZE`] pushes, and the
/// velocity of the pushes alone.
pub proof fn law_cleared_ring_like_new(cleared: RingBuffer, fresh: RingBuffer, ps: Seq<(i64, u64)>)
    requires
        cleared.samples().len() == 0,
        fresh.samples().len() == 0,
    ensures
        replay(cleared.samples(), ps) == replay(fresh.samples(), ps),
        replay(cleared.samples(), ps) == last_pushes(ps),
        window_velocity(replay(cleared.samples(), ps)) == window_velocity(ps),
{
    assert(cleared.samples() =~= Seq::<(i64, u64)>::empty());
    assert(fresh.samples() =~= Seq::<(i64, u64)>::empty());
    law_cleared_ring_keeps_last_pushes(ps);
    law_velocity_after_clear(ps);
}

/// Sum of the deltas of `w[1]` up to `w[k - 1]` (the first sample only opens
/// the time span).
pub open spec fn sum_deltas(w: Seq<(i64, u64)>, k: int) -> int
    decreases k,
{
    if k <= 1 {
        0
    } else {
        sum_deltas(w, k - 1) + w[k - 1].0
    }
}

/// The velocity of the last [`VELOCITY_SAMPLES`] samples of `s`: `None` when
/// there are fewer than two of them or no time passed between the first and the
/// last (a clock that went back counts as no time).
pub open spec fn window_velocity(s: Seq<(i64, u64)>) -> Option<ScrollSample> {
    let n: int = if s.len() < VELOCITY_SAMPLES {
        s.len() as int
    } else {
        VELOCITY_SAMPLES as int
    };
    let w = s.subrange(s.len() - n, s.len() as int);
    if n < 2 {
        None
    } else {
        let first = w[0].1;
        let last = w[n - 1].1;
        let dt: int = if last >= first {
            last - first
        } else {
            0
        };
        if dt == 0 {
            None
        } else {
            Some(ScrollSample { total_delta: sum_deltas(w, n) as i128, dt_us: dt as u64 })
        }
    }
}

/// The sum of `k` deltas is within `k` times the largest `i64` magnitude.
proof fn lemma_sum_deltas_bound(w: Seq<(i64, u64)>, k: int)
    requires
        0 <= k <= w.len(),
    ensures
        -0x8000_0000_0000_0000 * k <= sum_deltas(w, k) <= 0x8000_0000_0000_0000 * k,
    decreases k,
{
    if k > 1 {
        lemma_sum_deltas_bound(w, k - 1);
    }
}

impl RingBuffer {
    /// The ring's samples, oldest first.
    pub closed spec fn samples(&self) -> Seq<(i64, u64)> {
        Seq::new(
            self.count as nat,
            |i: int| self.buf@[(self.pos as int - self.count as int + i + RING_SIZE as int) % (
            RING_SIZE as int)],
        )
    }

    /// The slot the next sample is written to.
    pub closed spec fn cursor(&self) -> int {
        self.pos as int
    }

    /// The ring's storage, slot by slot.
    pub closed spec fn slots(&self) -> Seq<(i64, u64)> {
        self.buf@
    }

    /// A well-formed ring has [`RING_SIZE`] slots, a cursor on one of them, and
    /// at most [`RING_SIZE`] samples.
    pub proof fn lemma_layout(&self)
        requires
            self.wf(),
        ensures
            self.slots().len() == RING_SIZE,
            0 <= self.cursor() < RING_SIZE,
            self.samples().len() <= RING_SIZE,
    {
    }

    /// The ring's layout is consistent.
    pub closed spec fn wf(&self) -> bool {
        &&& self.buf@.len() == RING_SIZE
        &&& self.pos < RING_SIZE
        &&& self.count <= RING_SIZE
    }

    /// An empty ring.
    pub fn new() -> (res: Self)
        ensures
            res.wf(),
            res.samples() == Seq::<(i64, u64)>::empty(),
            res.cursor() == 0,
    {
        let mut buf: Vec<(i64, u64)> = Vec::new();
        let mut i: usize = 0;
        while i < RING_SIZE
            invariant
                i <= RING_SIZE,
                buf@.len() == i,
                forall|k: int| 0 <= k < i ==> buf@[k] == (0i64, 0u64),
            decreases RING_SIZE - i,
        {
            buf.push((0, 0));
            i = i + 1;
        }
        let res = RingBuffer { buf, pos: 0, count: 0 };
        assert(res.samples() =~= Seq::<(i64, u64)>::empty());
        res
    }

    /// Records a delta with its time stamp.
    pub fn push(&mut self, delta: i64, timestamp_us: u64)
        requires
            old(self).wf(),
        ensures
            final(self).wf(),
            final(self).samples() == ring_push(old(self).samples(), (delta, timestamp_us)),
            final(self).samples().len() <= RING_SIZE,
            final(self).slots() == old(self).slots().update(old(self).cursor(), (delta, timestamp_us)),
            final(self).cursor() == (old(self).cursor() + 1) % (RING_SIZE as int),
    {
        let ghost old_samples = self.samples();
        self.buf.set(self.pos, (delta, timestamp_us));
        self.pos = (self.pos + 1) % RING_SIZE;
        if self.count < RING_SIZE {
            self.count = self.count + 1;
        }
        assert(self.samples() =~= ring_push(old_samples, (delta, timestamp_us)));
    }

    /// Records each of `ps`, in order.
    pub fn push_all(&mut self, ps: &[(i64, u64)])
        requires
            old(self).wf(),
        ensures
            final(self).wf(),
            final(self).samples() == replay(old(self).samples(), ps@),
            old(self).samples().len() == 0 ==> final(self).samples() == last_pushes(ps@)
                && window_velocity(final(self).samples()) == window_velocity(ps@),
    {
        let ghost start = self.samples();
        let mut i: usize = 0;
        while i < ps.len()
            invariant
                i <= ps@.len(),
                self.wf(),
                self.samples() == replay(start, ps@.subrange(0, i as int)),
            decreases ps.len() - i,
        {
            let (d, t) = ps[i];
            self.push(d, t);
            proof {
                let next = ps@.subrange(0, i + 1);
                assert(next.drop_last() =~= ps@.subrange(0, i as int));
                assert(next.last() == ps@[i as int]);
            }
            i = i + 1;
        }
        assert(ps@.subrange(0, ps@.len() as int) =~= ps@);
        proof {
            if start.len() == 0 {
                assert(start =~= Seq::<(i64, u64)>::empty());
                law_cleared_ring_keeps_last_pushes(ps@);
                law_velocity_after_clear(ps@);
            }
        }
    }

    /// Forgets every sample.
    pub fn clear(&mut self)
        requires
            old(self).wf(),
        ensures
            final(self).wf(),
            final(self).samples() == Seq::<(i64, u64)>::empty(),
            final(self).cursor() == 0,
    {
        self.count = 0;
        self.pos = 0;
        assert(self.samples() =~= Seq::<(i64, u64)>::empty());
    }

    /// The velocity of the most recent samples (see [`window_velocity`]).
    pub fn compute_velocity(&self) -> (res: Option<ScrollSample>)
        requires
            self.wf(),
        ensures
            res == window_velocity(self.samples()),
    {
        let n: usize = if self.count < VELOCITY_SAMPLES {
            self.count
        } else {
            VELOCITY_SAMPLES
        };
        if n < 2 {
            return None;
        }
        let ghost s = self.samples();
        let ghost w = s.subrange(s.len() - n, s.len() as int);
        let start: usize = if self.pos >= n {
            self.pos - n
        } else {
            RING_SIZE - (n - self.pos)
        };
        assert(w[0] == self.buf@[start as int]);
        let mut total: i128 = 0;
        let first_ts: u64 = self.buf[start].1;
        let mut last_ts: u64 = first_ts;
        let mut i: usize = 1;
        while i < n
            invariant
                self.wf(),
                2 <= n <= VELOCITY_SAMPLES,
                n <= self.count,
                1 <= i <= n,
                s == self.samples(),
                w == s.subrange(s.len() - n, s.len() as int),
                start as int == (self.pos as int - n as int + RING_SIZE as int) % (RING_SIZE as int),
                total == sum_deltas(w, i as int),
                last_ts == w[i - 1].1,
            decreases n - i,
        {
            let idx: usize = (start + i) % RING_SIZE;
            assert(w[i as int] == self.buf@[idx as int]);
            proof {
                lemma_sum_deltas_bound(w, i as int);
            }
            total = total + self.buf[idx].0 as i128;
            last_ts = self.buf[idx].1;
            i = i + 1;
        }
        let dt_us: u64 = last_ts.saturating_sub(first_ts);
        if dt_us == 0 {
            return None;
        }
        Some(ScrollSample { total_delta: total, dt_us })
    }
}


/// The state of a [`Listener`] in mathematical terms.
pub struct ListenerView {
    pub state: ListenerState,
    pub enable_scroll: bool,
    pub enable_pointer: bool,
    /// Pointer releases this soon after a multi-finger gesture are ignored.
    pub cooldown_us: u64,
    /// Vertical scroll samples, oldest first.
    pub ring_y: Seq<(i64, u64)>,
    /// Horizontal scroll samples, oldest first.
    pub ring_x: Seq<(i64, u64)>,
    pub ptr_x: i32,
    pub ptr_y: i32,
    pub ptr_prev_x: i32,
    pub ptr_prev_y: i32,
    /// Latest pointer velocity (`None` for zero).
    pub ptr_velocity: Option<PointerSample>,
    pub ptr_prev_ts: u64,
    pub scroll_prev_x: i32,
    pub scroll_prev_y: i32,
    /// When the last multi-finger gesture ended.
    pub multitouch_ts: u64,
    /// Time stamp of the latest event.
    pub current_ts: u64,
    /// A finger touched (the finger tool reported one finger) in this batch.
    pub touched: bool,
    /// Two fingers left (the two-finger tool was released) in this batch.
    pub two_finger_lift: bool,
}

/// `a - b`, or 0 when `b` is later.
pub open spec fn elapsed(a: u64, b: u64) -> int {
    if a >= b {
        a - b
    } else {
        0
    }
}

/// A listener that has seen no event.
pub open spec fn listener_init(enable_scroll: bool, enable_pointer: bool, cooldown_ms: u64) -> ListenerView {
    ListenerView {
        state: ListenerState::Idle,
        enable_scroll,
        enable_pointer,
        cooldown_us: (cooldown_ms * 1000) as u64,
        ring_y: Seq::empty(),
        ring_x: Seq::empty(),
        ptr_x: 0,
        ptr_y: 0,
        ptr_prev_x: 0,
        ptr_prev_y: 0,
        ptr_velocity: None,
        ptr_prev_ts: 0,
        scroll_prev_x: 0,
        scroll_prev_y: 0,
        multitouch_ts: 0,
        current_ts: 0,
        touched: false,
        two_finger_lift: false,
    }
}

/// What one event does to the listener, and what the listener asks for.
pub open spec fn listener_step(l0: ListenerView, ev: TouchEvent) -> (ListenerView, ListenerAction) {
    let ts = ev.timestamp_us;
    let l = ListenerView { current_ts: ts, ..l0 };
    match ev.input {
        TouchInput::AbsX(v) => match l.state {
            ListenerState::OneFingerMove => (ListenerView { ptr_x: v, ..l }, ListenerAction::Nothing),
            ListenerState::TwoFingerScroll => (
                ListenerView {
                    ring_x: ring_push(l.ring_x, ((v - l.scroll_prev_x) as i64, ts)),
                    scroll_prev_x: v,
                    ..l
                },
                ListenerAction::Nothing,
            ),
            ListenerState::Idle => (l, ListenerAction::Nothing),
        },
        TouchInput::AbsY(v) => match l.state {
            ListenerState::OneFingerMove => (ListenerView { ptr_y: v, ..l }, ListenerAction::Nothing),
            ListenerState::TwoFingerScroll => (
                ListenerView {
                    ring_y: ring_push(l.ring_y, ((v - l.scroll_prev_y) as i64, ts)),
                    scroll_prev_y: v,
                    ..l
                },
                ListenerAction::Nothing,
            ),
            ListenerState::Idle => (l, ListenerAction::Nothing),
        },
        TouchInput::ToolFinger(v) => if v == 1 {
            let touched = ListenerView { touched: true, ..l };
            if l.state == ListenerState::Idle {
                (
                    ListenerView {
                        state: ListenerState::OneFingerMove,
                        ptr_prev_x: l.ptr_x,
                        ptr_prev_y: l.ptr_y,
                        ptr_velocity: None,
                        ptr_prev_ts: ts,
                        ..touched
                    },
                    ListenerAction::Nothing,
                )
            } else {
                (touched, ListenerAction::Nothing)
            }
        } else {
            let idle = ListenerView { state: ListenerState::Idle, ..l };
            if l.state == ListenerState::OneFingerMove && l.enable_pointer && elapsed(
                ts,
                l.multitouch_ts,
            ) >= l.cooldown_us {
                (idle, ListenerAction::PointerRelease(l.ptr_velocity))
            } else {
                (idle, ListenerAction::Nothing)
            }
        },
        TouchInput::ToolDoubleTap(v) => if v == 1 {
            (
                ListenerView {
                    state: ListenerState::TwoFingerScroll,
                    ring_y: Seq::empty(),
                    ring_x: Seq::empty(),
                    scroll_prev_y: l.ptr_y,
                    scroll_prev_x: l.ptr_x,
                    ..l
                },
                ListenerAction::Stop,
            )
        } else {
            let next = ListenerView {
                state: ListenerState::Idle,
                multitouch_ts: ts,
                two_finger_lift: true,
                ..l
            };
            if l.state == ListenerState::TwoFingerScroll && l.enable_scroll {
                (
                    next,
                    ListenerAction::ScrollRelease {
                        y: window_velocity(l.ring_y),
                        x: window_velocity(l.ring_x),
                    },
                )
            } else {
                (next, ListenerAction::Nothing)
            }
        },
        TouchInput::ToolMultiTap(v) => if v == 1 {
            (ListenerView { state: ListenerState::Idle, ..l }, ListenerAction::Stop)
        } else {
            (ListenerView { multitouch_ts: ts, ..l }, ListenerAction::Nothing)
        },
        TouchInput::Other => (l, ListenerAction::Nothing),
    }
}

/// The pointer velocity at the end of a batch: while one finger moves, it is
/// measured from the previous batch to this one.
pub open spec fn batch_pointer_update(l: ListenerView) -> ListenerView {
    if l.state == ListenerState::OneFingerMove && l.enable_pointer && (l.ptr_x != l.ptr_prev_x
        || l.ptr_y != l.ptr_prev_y) {
        let dt = elapsed(l.current_ts, l.ptr_prev_ts);
        ListenerView {
            ptr_velocity: if dt > 0 {
                Some(
                    PointerSample {
                        dx: (l.ptr_x - l.ptr_prev_x) as i64,
                        dy: (l.ptr_y - l.ptr_prev_y) as i64,
                        dt_us: dt as u64,
                    },
                )
            } else {
                l.ptr_velocity
            },
            ptr_prev_x: l.ptr_x,
            ptr_prev_y: l.ptr_y,
            ptr_prev_ts: l.current_ts,
            ..l
        }
    } else {
        l
    }
}

/// The batch is a fresh touch: a finger touched and two fingers did not leave
/// (when the second of two fingers lifts, the finger tool reports one finger
/// in the same batch as the release of the two-finger tool).
pub open spec fn fresh_touch(l: ListenerView) -> bool {
    l.touched && !l.two_finger_lift
}

/// What the end of a batch of events does: the pointer velocity is updated
/// (see [`batch_pointer_update`]), a fresh touch stops any momentum, and the
/// batch's touch flags are cleared.
pub open spec fn listener_batch_end(l: ListenerView) -> (ListenerView, ListenerAction) {
    let u = batch_pointer_update(l);
    (
        ListenerView { touched: false, two_finger_lift: false, ..u },
        if fresh_touch(l) {
            ListenerAction::Stop
        } else {
            ListenerAction::Nothing
        },
    )
}

/// Follows the touchpad's events and decides when a gesture should start or
/// stop momentum.
pub struct Listener {
    state: ListenerState,
    enable_scroll: bool,
    enable_pointer: bool,
    cooldown_us: u64,
    ring_y: RingBuffer,
    ring_x: RingBuffer,
    ptr_x: i32,
    ptr_y: i32,
    ptr_prev_x: i32,
    ptr_prev_y: i32,
    ptr_velocity: Option<PointerSample>,
    ptr_prev_ts: u64,
    scroll_prev_x: i32,
    scroll_prev_y: i32,
    multitouch_ts: u64,
    current_ts: u64,
    touched: bool,
    two_finger_lift: bool,
}

impl View for Listener {
    type V = ListenerView;

    closed spec fn view(&self) -> ListenerView {
        ListenerView {
            state: self.state,
            enable_scroll: self.enable_scroll,
            enable_pointer: self.enable_pointer,
            cooldown_us: self.cooldown_us,
            ring_y: self.ring_y.samples(),
            ring_x: self.ring_x.samples(),
            ptr_x: self.ptr_x,
            ptr_y: self.ptr_y,
            ptr_prev_x: self.ptr_prev_x,
            ptr_prev_y: self.ptr_prev_y,
            ptr_velocity: self.ptr_velocity,
            ptr_prev_ts: self.ptr_prev_ts,
            scroll_prev_x: self.scroll_prev_x,
            scroll_prev_y: self.scroll_prev_y,
            multitouch_ts: self.multitouch_ts,
            current_ts: self.current_ts,
            touched: self.touched,
            two_finger_lift: self.two_finger_lift,
        }
    }
}

impl Listener {
    /// Both sample rings are well formed.
    pub closed spec fn wf(&self) -> bool {
        self.ring_y.wf() && self.ring_x.wf()
    }

    /// A listener in the idle state. The cooldown is given in milliseconds.
    pub fn new(enable_scroll: bool, enable_pointer: bool, multitouch_cooldown_ms: u64) -> (res:
        Self)
        requires
            multitouch_cooldown_ms * 1000 <= u64::MAX,
        ensures
            res.wf(),
            res@ == listener_init(enable_scroll, enable_pointer, multitouch_cooldown_ms),
    {
        Listener {
            state: ListenerState::Idle,
            enable_scroll,
            enable_pointer,
            cooldown_us: multitouch_cooldown_ms * 1000,
            ring_y: RingBuffer::new(),
            ring_x: RingBuffer::new(),
            ptr_x: 0,
            ptr_y: 0,
            ptr_prev_x: 0,
            ptr_prev_y: 0,
            ptr_velocity: None,
            ptr_prev_ts: 0,
            scroll_prev_x: 0,
            scroll_prev_y: 0,
            multitouch_ts: 0,
            current_ts: 0,
            touched: false,
            two_finger_lift: false,
        }
    }

    /// The current gesture state.
    pub fn state(&self) -> (res: ListenerState)
        ensures
            res == self@.state,
    {
        self.state
    }

    /// Feeds one event to the listener.
    pub fn handle_event(&mut self, ev: TouchEvent) -> (res: ListenerAction)
        requires
            old(self).wf(),
        ensures
            final(self).wf(),
            (final(self)@, res) == listener_step(old(self)@, ev),
    {
        let ts = ev.timestamp_us;
        self.current_ts = ts;
        match ev.input {
            TouchInput::AbsX(v) => {
                match self.state {
                    ListenerState::OneFingerMove => {
                        self.ptr_x = v;
                    },
                    ListenerState::TwoFingerScroll => {
                        let delta: i64 = v as i64 - self.scroll_prev_x as i64;
                        self.ring_x.push(delta, ts);
                        self.scroll_prev_x = v;
                    },
                    ListenerState::Idle => {},
                }
                ListenerAction::Nothing
            },
            TouchInput::AbsY(v) => {
                match self.state {
                    ListenerState::OneFingerMove => {
                        self.ptr_y = v;
                    },
                    ListenerState::TwoFingerScroll => {
                        let delta: i64 = v as i64 - self.scroll_prev_y as i64;
                        self.ring_y.push(delta, ts);
                        self.scroll_prev_y = v;
                    },
                    ListenerState::Idle => {},
                }
                ListenerAction::Nothing
            },
            TouchInput::ToolFinger(v) => {
                if v == 1 {
                    self.touched = true;
                    if self.state == ListenerState::Idle {
                        self.state = ListenerState::OneFingerMove;
                        self.ptr_prev_x = self.ptr_x;
                        self.ptr_prev_y = self.ptr_y;
                        self.ptr_velocity = None;
                        self.ptr_prev_ts = ts;
                    }
                    ListenerAction::Nothing
                } else {
                    let mut res = ListenerAction::Nothing;
                    if self.state == ListenerState::OneFingerMove && self.enable_pointer {
                        let mt_elapsed: u64 = ts.saturating_sub(self.multitouch_ts);
                        if mt_elapsed >= self.cooldown_us {
                            res = ListenerAction::PointerRelease(self.ptr_velocity);
                        }
                    }
                    self.state = ListenerState::Idle;
                    res
                }
            },
            TouchInput::ToolDoubleTap(v) => {
                if v == 1 {
                    self.state = ListenerState::TwoFingerScroll;
                    self.ring_y.clear();
                    self.ring_x.clear();
                    self.scroll_prev_y = self.ptr_y;
                    self.scroll_prev_x = self.ptr_x;
                    ListenerAction::Stop
                } else {
                    let mut res = ListenerAction::Nothing;
                    if self.state == ListenerState::TwoFingerScroll && self.enable_scroll {
                        let y = self.ring_y.compute_velocity();
                        let x = self.ring_x.compute_velocity();
                        res = ListenerAction::ScrollRelease { y, x };
                    }
                    self.multitouch_ts = ts;
                    self.two_finger_lift = true;
                    self.state = ListenerState::Idle;
                    res
                }
            },
            TouchInput::ToolMultiTap(v) => {
                if v == 1 {
                    self.state = ListenerState::Idle;
                    ListenerAction::Stop
                } else {
                    self.multitouch_ts = ts;
                    ListenerAction::Nothing
                }
            },
            TouchInput::Other => ListenerAction::Nothing,
        }
    }

    /// Called after each batch of events: updates the pointer velocity and
    /// asks for a stop when the batch was a fresh touch.
    pub fn end_of_batch(&mut self) -> (res: ListenerAction)
        requires
            old(self).wf(),
        ensures
            final(self).wf(),
            (final(self)@, res) == listener_batch_end(old(self)@),
    {
        let fresh = self.touched && !self.two_finger_lift;
        self.touched = false;
        self.two_finger_lift = false;
        if self.state == ListenerState::OneFingerMove && self.enable_pointer {
            if self.ptr_x != self.ptr_prev_x || self.ptr_y != self.ptr_prev_y {
                let dt: u64 = self.current_ts.saturating_sub(self.ptr_prev_ts);
                if dt > 0 {
                    self.ptr_velocity = Some(
                        PointerSample {
                            dx: self.ptr_x as i64 - self.ptr_prev_x as i64,
                            dy: self.ptr_y as i64 - self.ptr_prev_y as i64,
                            dt_us: dt,
                        },
                    );
                }
                self.ptr_prev_x = self.ptr_x;
                self.ptr_prev_y = self.ptr_y;
                self.ptr_prev_ts = self.current_ts;
            }
        }
        if fresh {
            ListenerAction::Stop
        } else {
            ListenerAction::Nothing
        }
    }
}


/// Microseconds since the epoch of a time stamp given by its distance from the
/// epoch (whole seconds and the microseconds of the last second), `None` for a
/// time stamp before the epoch, which counts as 0. The count is wrapped to 64
/// bits.
pub fn timestamp_to_us(since_epoch: Option<(u64, u32)>) -> (res: u64)
    ensures
        res == match since_epoch {
            Some((secs, micros)) => (secs * 1_000_000 + micros) % 0x1_0000_0000_0000_0000,
            None => 0,
        },
{
    match since_epoch {
        Some((secs, micros)) => {
            let whole: u128 = secs as u128 * 1_000_000u128 + micros as u128;
            let low: u128 = whole % 0x1_0000_0000_0000_0000u128;
            low as u64
        },
        None => 0,
    }
}

/// What a raw touchpad event means to the listener.
pub open spec fn touch_input_of(raw: RawEvent) -> TouchInput {
    if raw.event_type == EV_ABS && raw.code == ABS_X {
        TouchInput::AbsX(raw.value)
    } else if raw.event_type == EV_ABS && raw.code == ABS_Y {
        TouchInput::AbsY(raw.value)
    } else if raw.event_type == EV_KEY && raw.code == BTN_TOOL_FINGER {
        TouchInput::ToolFinger(raw.value)
    } else if raw.event_type == EV_KEY && raw.code == BTN_TOOL_DOUBLETAP {
        TouchInput::ToolDoubleTap(raw.value)
    } else if raw.event_type == EV_KEY && (raw.code == BTN_TOOL_TRIPLETAP || raw.code
        == BTN_TOOL_QUADTAP || raw.code == BTN_TOOL_QUINTTAP) {
        TouchInput::ToolMultiTap(raw.value)
    } else {
        TouchInput::Other
    }
}

/// Decodes a raw touchpad event stamped with its time in microseconds.
pub fn decode_touch_event(raw: &RawEvent, timestamp_us: u64) -> (res: TouchEvent)
    ensures
        res == (TouchEvent { input: touch_input_of(*raw), timestamp_us }),
{
    let input = if raw.event_type == EV_ABS && raw.code == ABS_X {
        TouchInput::AbsX(raw.value)
    } else if raw.event_type == EV_ABS && raw.code == ABS_Y {
        TouchInput::AbsY(raw.value)
    } else if raw.event_type == EV_KEY && raw.code == BTN_TOOL_FINGER {
        TouchInput::ToolFinger(raw.value)
    } else if raw.event_type == EV_KEY && raw.code == BTN_TOOL_DOUBLETAP {
        TouchInput::ToolDoubleTap(raw.value)
    } else if raw.event_type == EV_KEY && (raw.code == BTN_TOOL_TRIPLETAP || raw.code
        == BTN_TOOL_QUADTAP || raw.code == BTN_TOOL_QUINTTAP) {
        TouchInput::ToolMultiTap(raw.value)
    } else {
        TouchInput::Other
    };
    TouchEvent { input, timestamp_us }
}

/// A second finger touching the pad stops any momentum at once and starts a
/// two-finger scroll whose sample rings are empty.
pub proof fn law_second_finger_stops(l: ListenerView, ts: u64)
    ensures
        ({
            let (n, a) = listener_step(
                l,
                TouchEvent { input: TouchInput::ToolDoubleTap(1), timestamp_us: ts },
            );
            &&& a == ListenerAction::Stop
            &&& n.state == ListenerState::TwoFingerScroll
            &&& n.ring_y.len() == 0
            &&& n.ring_x.len() == 0
        }),
{
}

/// Three or more fingers touching the pad stop any momentum and end the gesture.
pub proof fn law_multi_finger_stops(l: ListenerView, ts: u64)
    ensures
        ({
            let (n, a) = listener_step(
                l,
                TouchEvent { input: TouchInput::ToolMultiTap(1), timestamp_us: ts },
            );
            a == ListenerAction::Stop && n.state == ListenerState::Idle
        }),
{
}

/// Scroll momentum is asked for only when a two-finger scroll ends, with scrolling
/// enabled, and it reports the velocities of the samples gathered since the
/// fingers touched; the listener is idle afterwards.
pub proof fn law_scroll_release(l: ListenerView, ev: TouchEvent)
    ensures
        ({
            let (n, a) = listener_step(l, ev);
            a is ScrollRelease ==> {
                &&& l.enable_scroll
                &&& l.state == ListenerState::TwoFingerScroll
                &&& ev.input matches TouchInput::ToolDoubleTap(v) && v != 1
                &&& a == ListenerAction::ScrollRelease {
                    y: window_velocity(l.ring_y),
                    x: window_velocity(l.ring_x),
                }
                &&& n.state == ListenerState::Idle
                &&& n.multitouch_ts == ev.timestamp_us
            }
        }),
{
}

/// Pointer momentum is asked for only when the finger of a one-finger move
/// lifts, with pointer mode enabled and the multi-finger cooldown over; the
/// listener is idle afterwards.
pub proof fn law_pointer_release(l: ListenerView, ev: TouchEvent)
    ensures
        ({
            let (n, a) = listener_step(l, ev);
            a is PointerRelease ==> {
                &&& l.enable_pointer
                &&& l.state == ListenerState::OneFingerMove
                &&& ev.input matches TouchInput::ToolFinger(v) && v != 1
                &&& elapsed(ev.timestamp_us, l.multitouch_ts) >= l.cooldown_us
                &&& a == ListenerAction::PointerRelease(l.ptr_velocity)
                &&& n.state == ListenerState::Idle
            }
        }),
{
}

/// A finger lifted within the cooldown after a multi-finger gesture never
/// starts pointer momentum.
pub proof fn law_cooldown_suppresses_pointer(l: ListenerView, ev: TouchEvent)
    requires
        elapsed(ev.timestamp_us, l.multitouch_ts) < l.cooldown_us,
    ensures
        !(listener_step(l, ev).1 is PointerRelease),
{
}

/// Within a batch, an event asks for a stop exactly when two or more fingers
/// touch the pad; a one-finger touch is answered at the end of the batch (see
/// [`law_fresh_touch_stops`]).
pub proof fn law_event_stops_on_multitouch(l: ListenerView, ev: TouchEvent)
    ensures
        (listener_step(l, ev).1 == ListenerAction::Stop) == (ev.input == TouchInput::ToolDoubleTap(1)
            || ev.input == TouchInput::ToolMultiTap(1)),
{
}

/// The listener after a batch of events (the actions of the events aside).
pub open spec fn run_batch(l: ListenerView, evs: Seq<TouchEvent>) -> ListenerView
    decreases evs.len(),
{
    if evs.len() == 0 {
        l
    } else {
        listener_step(run_batch(l, evs.drop_last()), evs.last()).0
    }
}

/// Some event of the batch is a finger touching (the finger tool reporting one finger).
pub open spec fn has_touch(evs: Seq<TouchEvent>) -> bool {
    exists|i: int| 0 <= i < evs.len() && (#[trigger] evs[i]).input == TouchInput::ToolFinger(1)
}

/// The input releases the two-finger tool.
pub open spec fn is_two_finger_lift(input: TouchInput) -> bool {
    match input {
        TouchInput::ToolDoubleTap(v) => v != 1,
        _ => false,
    }
}

/// Some event of the batch is the release of the two-finger tool.
pub open spec fn has_two_finger_lift(evs: Seq<TouchEvent>) -> bool {
    exists|i: int|
        0 <= i < evs.len() && is_two_finger_lift((#[trigger] evs[i]).input)
}

proof fn lemma_batch_flags(l: ListenerView, evs: Seq<TouchEvent>)
    ensures
        run_batch(l, evs).touched == (l.touched || has_touch(evs)),
        run_batch(l, evs).two_finger_lift == (l.two_finger_lift || has_two_finger_lift(evs)),
    decreases evs.len(),
{
    if evs.len() > 0 {
        let front = evs.drop_last();
        lemma_batch_flags(l, front);
        let e = evs.last();
        assert forall|i: int| 0 <= i < front.len() implies #[trigger] front[i] == evs[i] by {}
        if has_touch(front) {
            let i = choose|i: int| 0 <= i < front.len() && (#[trigger] front[i]).input
                == TouchInput::ToolFinger(1);
            assert(evs[i] == front[i]);
        }
        if has_two_finger_lift(front) {
            let i = choose|i: int|
                0 <= i < front.len() && is_two_finger_lift((#[trigger] front[i]).input);
            assert(evs[i] == front[i]);
        }
        if has_touch(evs) && !has_touch(front) {
            let i = choose|i: int| 0 <= i < evs.len() && (#[trigger] evs[i]).input
                == TouchInput::ToolFinger(1);
            if i < front.len() {
                assert(front[i] == evs[i]);
            }
        }
        if has_two_finger_lift(evs) && !has_two_finger_lift(front) {
            let i = choose|i: int|
                0 <= i < evs.len() && is_two_finger_lift((#[trigger] evs[i]).input);
            if i < front.len() {
                assert(front[i] == evs[i]);
            }
        }
        if e.input == TouchInput::ToolFinger(1) {
            assert(evs[evs.len() - 1] == e);
        }
        if is_two_finger_lift(e.input) {
            assert(evs[evs.len() - 1] == e);
        }
    }
}

/// Touching the pad stops momentum at once: a batch that starts afresh and in
/// which a finger touches asks for a stop at its end, unless two fingers left
/// in the same batch (then the finger report is the second finger lifting off
/// a two-finger scroll, whose momentum must go on).
pub proof fn law_fresh_touch_stops(l: ListenerView, evs: Seq<TouchEvent>)
    requires
        !l.touched,
        !l.two_finger_lift,
    ensures
        (listener_batch_end(run_batch(l, evs)).1 == ListenerAction::Stop) == (has_touch(evs)
            && !has_two_finger_lift(evs)),
        !listener_batch_end(run_batch(l, evs)).0.touched,
        !listener_batch_end(run_batch(l, evs)).0.two_finger_lift,
{
    lemma_batch_flags(l, evs);
}

/// When the second finger lifts, the finger tool reports one finger again in
/// the same batch; during a two-finger scroll that neither ends the gesture
/// nor asks for anything (the lift of the second finger does).
pub proof fn law_one_finger_report_keeps_scroll(l: ListenerView, ts: u64)
    requires
        l.state == ListenerState::TwoFingerScroll,
    ensures
        ({
            let (n, a) = listener_step(
                l,
                TouchEvent { input: TouchInput::ToolFinger(1), timestamp_us: ts },
            );
            a == ListenerAction::Nothing && n.state == ListenerState::TwoFingerScroll && n.ring_x
                == l.ring_x && n.ring_y == l.ring_y
        }),
{
}

/// A velocity needs at least two samples: an empty ring or a single sample
/// gives none.
pub proof fn law_velocity_needs_two_samples(s: Seq<(i64, u64)>)
    requires
        s.len() < 2,
    ensures
        window_velocity(s) is None,
{
}

/// During a two-finger scroll each position report adds one sample whose
/// delta is the finger's motion along that axis: the new position minus the
/// previous one (positive when the fingers move right or down), stamped with
/// the event's time; the previous position becomes the reported one, and the
/// older samples stay, the oldest dropped when the ring is full.
pub proof fn law_scroll_sample_is_finger_motion(l: ListenerView, v: i32, ts: u64)
    requires
        l.state == ListenerState::TwoFingerScroll,
    ensures
        ({
            let n = listener_step(l, TouchEvent { input: TouchInput::AbsX(v), timestamp_us: ts }).0;
            &&& n.scroll_prev_x == v
            &&& n.ring_x.len() > 0
            &&& n.ring_x.last().0 == v - l.scroll_prev_x
            &&& n.ring_x.last().1 == ts
            &&& n.ring_x.drop_last() == (if l.ring_x.len() < RING_SIZE {
                l.ring_x
            } else {
                l.ring_x.drop_first()
            })
            &&& n.ring_y == l.ring_y
            &&& (v > l.scroll_prev_x ==> n.ring_x.last().0 > 0)
            &&& (v < l.scroll_prev_x ==> n.ring_x.last().0 < 0)
        }),
        ({
            let n = listener_step(l, TouchEvent { input: TouchInput::AbsY(v), timestamp_us: ts }).0;
            &&& n.scroll_prev_y == v
            &&& n.ring_y.len() > 0
            &&& n.ring_y.last().0 == v - l.scroll_prev_y
            &&& n.ring_y.last().1 == ts
            &&& n.ring_y.drop_last() == (if l.ring_y.len() < RING_SIZE {
                l.ring_y
            } else {
                l.ring_y.drop_first()
            })
            &&& n.ring_x == l.ring_x
            &&& (v > l.scroll_prev_y ==> n.ring_y.last().0 > 0)
            &&& (v < l.scroll_prev_y ==> n.ring_y.last().0 < 0)
        }),
{
    let nx = listener_step(l, TouchEvent { input: TouchInput::AbsX(v), timestamp_us: ts }).0;
    let ny = listener_step(l, TouchEvent { input: TouchInput::AbsY(v), timestamp_us: ts }).0;
    let dx = ((v - l.scroll_prev_x) as i64, ts);
    let dy = ((v - l.scroll_prev_y) as i64, ts);
    if l.ring_x.len() < RING_SIZE {
        assert(l.ring_x.push(dx).drop_last() =~= l.ring_x);
    } else {
        assert(l.ring_x.drop_first().push(dx).drop_last() =~= l.ring_x.drop_first());
    }
    if l.ring_y.len() < RING_SIZE {
        assert(l.ring_y.push(dy).drop_last() =~= l.ring_y);
    } else {
        assert(l.ring_y.drop_first().push(dy).drop_last() =~= l.ring_y.drop_first());
    }
}

/// Over a two-finger scroll, the velocity's total is the distance the fingers
/// travelled between the first and the last sample of the window: with two
/// position reports `a` then `b` after the samples were cleared, the sample
/// is `b - a` over the time between them.
pub proof fn law_scroll_velocity_is_displacement(l: ListenerView, a: i32, b: i32, t1: u64, t2: u64)
    requires
        l.state == ListenerState::TwoFingerScroll,
        l.ring_x.len() == 0,
        t1 < t2,
    ensures
        ({
            let n1 = listener_step(l, TouchEvent { input: TouchInput::AbsX(a), timestamp_us: t1 }).0;
            let n2 = listener_step(n1, TouchEvent { input: TouchInput::AbsX(b), timestamp_us: t2 }).0;
            window_velocity(n2.ring_x) == Some(
                ScrollSample { total_delta: (b - a) as i128, dt_us: (t2 - t1) as u64 },
            )
        }),
{
    law_scroll_sample_is_finger_motion(l, a, t1);
    let n1 = listener_step(l, TouchEvent { input: TouchInput::AbsX(a), timestamp_us: t1 }).0;
    law_scroll_sample_is_finger_motion(n1, b, t2);
    let n2 = listener_step(n1, TouchEvent { input: TouchInput::AbsX(b), timestamp_us: t2 }).0;
    assert(n1.ring_x.len() == 1);
    assert(n2.ring_x.len() == 2);
    assert(n2.ring_x.drop_last() == n1.ring_x);
    assert(n2.ring_x[0] == n1.ring_x[0]);
    let w = n2.ring_x.subrange(0, 2);
    assert(w =~= n2.ring_x);
    assert(sum_deltas(w, 2) == sum_deltas(w, 1) + w[1].0);
}

/// While one finger moves the pointer, the velocity measured at the end of a
/// batch is the displacement since the previous measurement (new position
/// minus previous, per axis) over the time between them, when time passed.
pub proof fn law_pointer_velocity_is_displacement(l: ListenerView)
    requires
        l.state == ListenerState::OneFingerMove,
        l.enable_pointer,
        l.ptr_x != l.ptr_prev_x || l.ptr_y != l.ptr_prev_y,
        l.current_ts > l.ptr_prev_ts,
    ensures
        ({
            let n = listener_batch_end(l).0;
            &&& n.ptr_velocity matches Some(p) && p.dx == l.ptr_x - l.ptr_prev_x && p.dy == l.ptr_y
                - l.ptr_prev_y && p.dt_us == l.current_ts - l.ptr_prev_ts
            &&& n.ptr_prev_x == l.ptr_x
            &&& n.ptr_prev_y == l.ptr_y
            &&& n.ptr_prev_ts == l.current_ts
        }),
{
}

/// Events and batch ends never change the listener's settings, and the sample
/// rings never hold more than [`RING_SIZE`] samples.
pub proof fn law_settings_and_capacity_kept(l: ListenerView, ev: TouchEvent)
    requires
        l.ring_x.len() <= RING_SIZE,
        l.ring_y.len() <= RING_SIZE,
    ensures
        ({
            let n = listener_step(l, ev).0;
            &&& n.enable_scroll == l.enable_scroll
            &&& n.enable_pointer == l.enable_pointer
            &&& n.cooldown_us == l.cooldown_us
            &&& n.ring_x.len() <= RING_SIZE
            &&& n.ring_y.len() <= RING_SIZE
        }),
        ({
            let n = listener_batch_end(l).0;
            &&& n.enable_scroll == l.enable_scroll
            &&& n.enable_pointer == l.enable_pointer
            &&& n.cooldown_us == l.cooldown_us
            &&& n.ring_x == l.ring_x
            &&& n.ring_y == l.ring_y
        }),
{
}

} // verus!
