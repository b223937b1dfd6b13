use vstd::prelude::*;
use std::sync::Arc;
use std::sync::atomic::AtomicU8;
use std::sync::atomic::Ordering;
use std::time::Duration;

verus! {

/// Nanoseconds in one second.
pub const NANOS_PER_SEC: u64 = 1_000_000_000;

/// Which way a fade ramp runs.
#[derive(Clone, Copy, Debug, PartialEq, Eq, Structural)]
pub enum FadeDirection {
    In,
    Out,
    Nothing,
}

/// The code under which a direction is kept in the shared atomic cell.
pub open spec fn direction_code(d: FadeDirection) -> u8 {
    match d {
        FadeDirection::In => 0,
        FadeDirection::Out => 1,
        FadeDirection::Nothing => 2,
    }
}

/// The direction that a code of the shared cell stands for; codes that no
/// direction uses read as `Nothing`.
pub open spec fn direction_of_code(c: u8) -> FadeDirection {
    if c == 0 {
        FadeDirection::In
    } else if c == 1 {
        FadeDirection::Out
    } else {
        FadeDirection::Nothing
    }
}

impl FadeDirection {
    pub fn to_code(self) -> (r: u8)
        ensures
            r == direction_code(self),
    {
        match self {
            FadeDirection::In => 0,
            FadeDirection::Out => 1,
            FadeDirection::Nothing => 2,
        }
    }

    pub fn from_code(c: u8) -> (r: FadeDirection)
        ensures
            r == direction_of_code(c),
    {
        if c == 0 {
            FadeDirection::In
        } else if c == 1 {
            FadeDirection::Out
        } else {
            FadeDirection::Nothing
        }
    }
}

/// A direction survives the trip through its code.
pub proof fn lemma_direction_code_round_trip(d: FadeDirection)
    ensures
        direction_of_code(direction_code(d)) == d,
{
}

/// Control handle of a fade: a single "latest value wins" cell shared with
/// the filter, which reads it on its next poll.
#[derive(Clone, Debug)]
pub struct AtomicFadeDirection(Arc<AtomicU8>);

impl AtomicFadeDirection {
    /// Requests a new fade direction; the filter picks it up on its next poll.
    pub fn change_direction(&self, direction: FadeDirection) {
        self.0.store(direction.to_code(), Ordering::Relaxed);
    }

    /// The direction most recently requested (by any thread); other threads
    /// may change it at any time, so nothing about it is known in advance.
    pub fn direction(&self) -> FadeDirection {
        let c = self.0.load(Ordering::SeqCst);
        FadeDirection::from_code(c)
    }
}

/// An amplitude `num / den`, with `num <= den` and `den > 0`.
#[derive(Clone, Copy, Debug, PartialEq, Eq, Structural)]
pub struct Gain {
    pub num: u64,
    pub den: u64,
}

/// Abstract state of a fade ramp.
pub ghost struct RampState {
    pub total_ns: nat,
    pub remaining_ns: nat,
    pub current: FadeDirection,
}

/// The amplitude that a ramp in state `s` applies: the remaining share of the
/// ramp while fading out, the elapsed share otherwise.
pub open spec fn ramp_gain(s: RampState) -> Gain {
    match s.current {
        FadeDirection::Out => Gain { num: s.remaining_ns as u64, den: s.total_ns as u64 },
        _ => Gain { num: (s.total_ns - s.remaining_ns) as u64, den: s.total_ns as u64 },
    }
}

/// The length of one sample in nanoseconds at the given rate and channel
/// count, rounded up so that every sample advances a ramp. A rate or channel
/// count of zero ends a ramp at once.
pub open spec fn sample_ns(sample_rate: u32, channels: u16) -> nat {
    let per_sec: int = sample_rate as int * channels as int;
    if per_sec == 0 {
        u64::MAX as nat
    } else {
        ((NANOS_PER_SEC as int + per_sec - 1) / per_sec) as nat
    }
}

/// The state in which a poll computes its amplitude: a newly requested
/// direction restarts the full ramp.
pub open spec fn observe(s: RampState, requested: FadeDirection) -> RampState {
    if requested != s.current {
        RampState { total_ns: s.total_ns, remaining_ns: s.total_ns, current: requested }
    } else {
        s
    }
}

/// The state after one poll: the observed state, less one sample's length of
/// ramp (never below zero, where the ramp stays complete).
pub open spec fn after_poll(
    s: RampState,
    requested: FadeDirection,
    sample_rate: u32,
    channels: u16,
) -> RampState {
    let o = observe(s, requested);
    let step = sample_ns(sample_rate, channels);
    RampState {
        total_ns: o.total_ns,
        remaining_ns: if o.remaining_ns > step { (o.remaining_ns - step) as nat } else { 0 },
        current: o.current,
    }
}

/// The amplitude state of a fade filter.
pub struct FadeRamp {
    total_ns: u64,
    remaining_ns: u64,
    current: FadeDirection,
}

impl View for FadeRamp {
    type V = RampState;

    closed spec fn view(&self) -> RampState {
        RampState {
            total_ns: self.total_ns as nat,
            remaining_ns: self.remaining_ns as nat,
            current: self.current,
        }
    }
}

impl FadeRamp {
    /// A ramp has a positive length, never more time left than its length,
    /// and a length that a `u64` holds.
    pub open spec fn wf(&self) -> bool {
        &&& 0 < self@.total_ns
        &&& self@.remaining_ns <= self@.total_ns
        &&& self@.total_ns <= u64::MAX
    }

    /// A ramp of `total_ns` nanoseconds, with no fade in progress: full
    /// amplitude, direction `Nothing`.
    pub fn new(total_ns: u64) -> (r: FadeRamp)
        requires
            total_ns > 0,
        ensures
            r.wf(),
            r@ == (RampState { total_ns: total_ns as nat, remaining_ns: 0, current: FadeDirection::Nothing }),
    {
        FadeRamp { total_ns, remaining_ns: 0, current: FadeDirection::Nothing }
    }

    /// The amplitude of the current state.
    pub fn gain(&self) -> (g: Gain)
        requires
            self.wf(),
        ensures
            g == ramp_gain(self@),
            g.num <= g.den,
            g.den > 0,
    {
        match self.current {
            FadeDirection::Out => Gain { num: self.remaining_ns, den: self.total_ns },
            _ => Gain { num: self.total_ns - self.remaining_ns, den: self.total_ns },
        }
    }

    pub fn remaining_ns(&self) -> (r: u64)
        ensures
            r == self@.remaining_ns,
    {
        self.remaining_ns
    }

    pub fn total_ns(&self) -> (r: u64)
        ensures
            r == self@.total_ns,
    {
        self.total_ns
    }

    pub fn current_direction(&self) -> (r: FadeDirection)
        ensures
            r == self@.current,
    {
        self.current
    }

    /// One poll of the filter, with `requested` the direction read from the
    /// control cell. Returns the amplitude for this sample.
    pub fn poll(&mut self, requested: FadeDirection, sample_rate: u32, channels: u16) -> (g: Gain)
        requires
            old(self).wf(),
        ensures
            final(self).wf(),
            g == ramp_gain(observe(old(self)@, requested)),
            final(self)@ == after_poll(old(self)@, requested, sample_rate, channels),
            g.num <= g.den,
            g.den > 0,
    {
        if requested != self.current {
            self.remaining_ns = self.total_ns;
            self.current = requested;
        }
        let g = self.gain();
        if self.remaining_ns == 0 {
            return g;
        }
        proof {
            assert(sample_rate as int * channels as int <= u32::MAX as int * u16::MAX as int)
                by (nonlinear_arith);
        }
        let per_sec: u64 = sample_rate as u64 * channels as u64;
        let step: u64 = if per_sec == 0 {
            u64::MAX
        } else {
            (NANOS_PER_SEC + per_sec - 1) / per_sec
        };
        if self.remaining_ns > step {
            self.remaining_ns = self.remaining_ns - step;
        } else {
            self.remaining_ns = 0;
        }
        g
    }
}

/// A poll that sees a direction other than the one in progress restarts the
/// ramp in full: whatever amplitude the interrupted ramp had reached, the
/// sample is scaled by the start of the new ramp (silence for a fade in,
/// full amplitude for a fade out), and the ramp then runs from `total_ns`.
pub proof fn lemma_redirect_restarts_ramp(
    s: RampState,
    requested: FadeDirection,
    sample_rate: u32,
    channels: u16,
)
    requires
        0 < s.total_ns <= u64::MAX,
        s.remaining_ns <= s.total_ns,
        requested != s.current,
    ensures
        observe(s, requested).remaining_ns == s.total_ns,
        observe(s, requested).current == requested,
        requested == FadeDirection::Out ==> ramp_gain(observe(s, requested)) == (Gain { num: s.total_ns as u64, den: s.total_ns as u64 }),
        requested != FadeDirection::Out ==> ramp_gain(observe(s, requested)) == (Gain { num: 0, den: s.total_ns as u64 }),
        after_poll(s, requested, sample_rate, channels).current == requested,
        after_poll(s, requested, sample_rate, channels).remaining_ns == if s.total_ns > sample_ns(sample_rate, channels) {
            (s.total_ns - sample_ns(sample_rate, channels)) as nat
        } else {
            0
        },
{
}

/// A finished ramp stays finished: while the requested direction does not
/// change, polls keep the amplitude pinned (silence after a fade out, full
/// amplitude otherwise) and the state unchanged.
pub proof fn lemma_finished_ramp_is_pinned(s: RampState, sample_rate: u32, channels: u16)
    requires
        0 < s.total_ns <= u64::MAX,
        s.remaining_ns == 0,
    ensures
        after_poll(s, s.current, sample_rate, channels) == s,
        s.current == FadeDirection::Out ==> ramp_gain(observe(s, s.current)) == (Gain { num: 0, den: s.total_ns as u64 }),
        s.current != FadeDirection::Out ==> ramp_gain(observe(s, s.current)) == (Gain { num: s.total_ns as u64, den: s.total_ns as u64 }),
{
}

/// A fade filter around a sample source: the source itself, its ramp, and
/// its end of the shared direction cell.
pub struct Fadeable<I> {
    input: I,
    ramp: FadeRamp,
    direction: Arc<AtomicU8>,
}

/// Relies on `Duration::as_nanos`: the whole number of nanoseconds of `d`.
#[verifier::external_body]
fn duration_as_nanos(d: &Duration) -> (r: u128) {
    d.as_nanos()
}

/// The ramp length for a duration of `n` nanoseconds: at least one
/// nanosecond, at most what a `u64` holds.
pub open spec fn ramp_length(n: u128) -> u64 {
    if n == 0 {
        1
    } else if n > u64::MAX as u128 {
        u64::MAX
    } else {
        n as u64
    }
}

pub fn ramp_length_of(n: u128) -> (r: u64)
    ensures
        r == ramp_length(n),
        r > 0,
{
    if n == 0 {
        1
    } else if n > u64::MAX as u128 {
        u64::MAX
    } else {
        n as u64
    }
}

/// Wraps `input` in a fade filter whose ramps last `nanos` nanoseconds
/// (see [`ramp_length`]), and returns it with the handle that steers it. The
/// filter starts at full amplitude, with no fade requested.
pub fn fadeable_nanos<I>(input: I, nanos: u128) -> (r: (Fadeable<I>, AtomicFadeDirection))
    ensures
        r.0.input() == input,
        r.0.ramp().wf(),
        r.0.ramp()@ == (RampState {
            total_ns: ramp_length(nanos) as nat,
            remaining_ns: 0,
            current: FadeDirection::Nothing,
        }),
{
    let total = ramp_length_of(nanos);
    let direction = Arc::new(AtomicU8::new(FadeDirection::Nothing.to_code()));
    let handle = AtomicFadeDirection(direction.clone());
    (Fadeable { input, ramp: FadeRamp::new(total), direction }, handle)
}

/// Wraps `input` in a fade filter whose ramps last `duration`, and returns it
/// with the handle that steers it. The filter starts at full amplitude.
pub fn fadeable<I>(input: I, duration: Duration) -> (r: (Fadeable<I>, AtomicFadeDirection))
    ensures
        r.0.input() == input,
        r.0.ramp().wf(),
        exists|n: u128|
            r.0.ramp()@ == (RampState {
                total_ns: #[trigger] ramp_length(n) as nat,
                remaining_ns: 0,
                current: FadeDirection::Nothing,
            }),
{
    fadeable_nanos(input, duration_as_nanos(&duration))
}

impl<I> Fadeable<I> {
    pub closed spec fn input(&self) -> I {
        self.input
    }

    pub closed spec fn ramp(&self) -> FadeRamp {
        self.ramp
    }

    /// Returns a reference to the inner source.
    pub fn inner(&self) -> (r: &I)
        ensures
            *r == self.input(),
    {
        &self.input
    }

    /// Returns a mutable reference to the inner source.
    pub fn inner_mut(&mut self) -> (r: &mut I)
        ensures
            *r == old(self).input(),
    {
        &mut self.input
    }

    /// Returns the inner source.
    pub fn into_inner(self) -> (r: I)
        ensures
            r == self.input(),
    {
        self.input
    }

    /// The fade state of the filter.
    pub fn fade_ramp(&self) -> (r: &FadeRamp)
        ensures
            *r == self.ramp(),
    {
        &self.ramp
    }

    /// One poll: reads the requested direction from the shared cell and
    /// advances the ramp by one sample of the given rate and channel count.
    /// Returns the amplitude by which this sample is scaled.
    pub fn next_gain(&mut self, sample_rate: u32, channels: u16) -> (g: Gain)
        requires
            old(self).ramp().wf(),
        ensures
            final(self).ramp().wf(),
            final(self).input() == old(self).input(),
            exists|c: u8|
                {
                    let d = #[trigger] direction_of_code(c);
                    &&& g == ramp_gain(observe(old(self).ramp()@, d))
                    &&& final(self).ramp()@ == after_poll(old(self).ramp()@, d, sample_rate, channels)
                },
            g.num <= g.den,
            g.den > 0,
    {
        let c = self.direction.load(Ordering::SeqCst);
        let requested = FadeDirection::from_code(c);
        self.ramp.poll(requested, sample_rate, channels)
    }
}

} // verus!
