//! The pressure-matching gesture trial.
//!
//! The subject presses on a material sample; the pressure is mapped to the
//! radius of a circle that should match a target ring. Holding the match for
//! a full second moves the ring to a new random radius and starts a new
//! segment of the trial.

use vstd::prelude::*;
use rand::Rng;

use crate::message::{Command, SensorEvent};

verus! {

/// Smallest radius of the pressure circle.
pub const OUTPUT_START: i64 = 20000;
/// Smallest radius a target ring is drawn with.
pub const OUTPUT_RING_MIN: i64 = 30000;
/// Largest radius of the pressure circle; rings are drawn below it.
pub const OUTPUT_END: i64 = 100000;
/// Pressure mapped to `OUTPUT_START`.
pub const INPUT_START: i64 = 20000;
/// Pressure mapped to `OUTPUT_END`.
pub const INPUT_END: i64 = 1500000;
/// How long, in milliseconds, a match must be held before the ring moves.
pub const DWELL_MS: u64 = 1000;
/// Bound on the magnitude of every input of `range`, and of a pressure.
pub const INPUT_LIMIT: i64 = 0x100_0000_0000;
/// Bound on the magnitude of the result of `range`.
pub const OUTPUT_LIMIT: i64 = 0x1000_0000_0000_0000;

/// `floor(v) + 1/2`, with `v` and the result in thousandths.
pub open spec fn round_spec(v: int) -> int {
    (v / 1000) * 1000 + 500
}

/// Linear map of `x` from `[is, ie]` onto `[os, oe]`, rounded by `round_spec`.
pub open spec fn range_spec(os: int, oe: int, is: int, ie: int, x: int) -> int {
    os + round_spec(((oe - os) * (x - is)) / (ie - is))
}

/// Radius of the pressure circle for a pressure, both in thousandths.
pub open spec fn press_radius_spec(pressure: int) -> int {
    range_spec(
        OUTPUT_START as int,
        OUTPUT_END as int,
        INPUT_START as int,
        INPUT_END as int,
        pressure,
    )
}

/// Whether two radii differ by at most `tolerance`.
pub open spec fn within(ring: int, circle: int, tolerance: int) -> bool {
    -tolerance <= ring - circle <= tolerance
}

/// Rounds a value to the half above its floor: `floor(v) + 0.5`, in thousandths.
pub fn round(v: i64) -> (r: i64)
    requires
        i64::MIN + 1000 <= v <= i64::MAX - 1000,
    ensures
        r == round_spec(v as int),
{
    if v >= 0 {
        (v / 1000) * 1000 + 500
    } else {
        let n: i64 = -(v + 1);
        let q: i64 = n / 1000;
        assert(v as int / 1000 == -(q + 1)) by (nonlinear_arith)
            requires
                n == -(v + 1),
                q == n / 1000,
                v < 0,
        ;
        -(q + 1) * 1000 + 500
    }
}

/// `floor(p / d)` for a positive divisor.
fn floor_div(p: i128, d: i128) -> (r: i128)
    requires
        d > 0,
        p > i128::MIN,
    ensures
        r == p as int / d as int,
{
    if p >= 0 {
        p / d
    } else {
        let n: i128 = -(p + 1);
        let q: i128 = n / d;
        assert(p as int / d as int == -(q + 1)) by (nonlinear_arith)
            requires
                n == -(p + 1),
                q == n / d,
                p < 0,
                d > 0,
        ;
        -(q + 1)
    }
}

/// Maps `input` linearly from `[input_start, input_end]` onto
/// `[output_start, output_end]`, rounding the offset with `round`.
pub fn range(output_start: i64, output_end: i64, input_start: i64, input_end: i64, input: i64) -> (r: i64)
    requires
        input_start < input_end,
        -INPUT_LIMIT <= output_start <= INPUT_LIMIT,
        -INPUT_LIMIT <= output_end <= INPUT_LIMIT,
        -INPUT_LIMIT <= input_start <= INPUT_LIMIT,
        -INPUT_LIMIT <= input_end <= INPUT_LIMIT,
        -INPUT_LIMIT <= input <= INPUT_LIMIT,
        -OUTPUT_LIMIT <= range_spec(
            output_start as int,
            output_end as int,
            input_start as int,
            input_end as int,
            input as int,
        ) <= OUTPUT_LIMIT,
    ensures
        r == range_spec(
            output_start as int,
            output_end as int,
            input_start as int,
            input_end as int,
            input as int,
        ),
{
    let a: i128 = output_end as i128 - output_start as i128;
    let b: i128 = input as i128 - input_start as i128;
    assert(-0x400_0000_0000_0000_0000_0000 <= a * b <= 0x400_0000_0000_0000_0000_0000) by (nonlinear_arith)
        requires
            -0x200_0000_0000 <= a <= 0x200_0000_0000,
            -0x200_0000_0000 <= b <= 0x200_0000_0000,
    ;
    let d: i128 = input_end as i128 - input_start as i128;
    let q: i128 = floor_div(a * b, d);
    assert(((q as int) / 1000) * 1000 <= (q as int) < ((q as int) / 1000) * 1000 + 1000) by (nonlinear_arith);
    let v: i64 = q as i64;
    output_start + round(v)
}

/// Radius of the pressure circle for a pressure, both in thousandths.
pub fn press_radius(pressure: i64) -> (r: i64)
    requires
        -INPUT_LIMIT <= pressure <= INPUT_LIMIT,
    ensures
        r == press_radius_spec(pressure as int),
{
    proof {
        let p = pressure as int;
        assert(-0x10_0000_0000_0000 <= (80000 * (p - 20000)) / 1480000 <= 0x10_0000_0000_0000) by (nonlinear_arith)
            requires
                -0x100_0000_0000 <= p <= 0x100_0000_0000,
        ;
    }
    range(OUTPUT_START, OUTPUT_END, INPUT_START, INPUT_END, pressure)
}


/// A higher pressure never maps to a smaller circle.
pub proof fn lemma_press_radius_monotonic(p: int, q: int)
    requires
        p <= q,
    ensures
        press_radius_spec(p) <= press_radius_spec(q),
{
    assert(80000 * (p - 20000) <= 80000 * (q - 20000)) by (nonlinear_arith)
        requires
            p <= q,
    ;
    let a = (80000 * (p - 20000)) / 1480000;
    let b = (80000 * (q - 20000)) / 1480000;
    assert(a <= b) by (nonlinear_arith)
        requires
            a == (80000 * (p - 20000)) / 1480000,
            b == (80000 * (q - 20000)) / 1480000,
            80000 * (p - 20000) <= 80000 * (q - 20000),
    ;
    assert(round_spec(a) <= round_spec(b)) by (nonlinear_arith)
        requires
            a <= b,
    ;
}

/// Relies on rand's `Rng::gen_range` on the thread-local generator: for
/// integers it returns a value in `[low, high)`, and panics when `low >= high`.
#[verifier::external_body]
fn random_between(low: i64, high: i64) -> (r: i64)
    requires
        low < high,
    ensures
        low <= r < high,
{
    rand::thread_rng().gen_range(low, high)
}

/// Whether a radius may serve as a target ring.
pub open spec fn ring_ok(ring: int) -> bool {
    OUTPUT_RING_MIN <= ring < OUTPUT_END
}

/// Whether contact times never decrease along a sequence.
pub open spec fn time_ordered(s: Seq<Contact>) -> bool {
    forall|i: int, j: int| 0 <= i < j < s.len() ==> s[i].time_ms <= s[j].time_ms
}

/// The Press slide: configuration of one gesture trial.
pub struct Press {
    pub material: u32,
    /// Length of the trial in seconds.
    pub duration: u64,
    /// Largest accepted difference between circle and ring, in thousandths.
    pub tolerance: u64,
}

impl Press {
    pub fn new(material: u32, duration: u64, tolerance: u64) -> (r: Self)
        ensures
            r.material == material,
            r.duration == duration,
            r.tolerance == tolerance,
    {
        Press { material, duration, tolerance }
    }

    /// Whether the trial still runs `elapsed_ms` milliseconds after it began:
    /// fewer whole seconds than `duration` have passed.
    pub fn running(&self, elapsed_ms: u64) -> (r: bool)
        ensures
            r == (elapsed_ms / 1000 < self.duration),
    {
        elapsed_ms / 1000 < self.duration
    }

    /// Starts a trial whose first target is `ring`; returns it with the
    /// command that shows the circle at its smallest radius and the ring.
    pub fn begin_with(&self, ring: i64) -> (r: (PressTrial, Command))
        requires
            ring_ok(ring as int),
        ensures
            r.0.wf(),
            r.0.material == self.material,
            r.0.tolerance == self.tolerance,
            r.0.start_circle == OUTPUT_START,
            r.0.ring_radius == ring,
            r.0.current@ == Seq::<Contact>::empty(),
            r.0.closed@ == Seq::<Segment>::empty(),
            !r.0.within_tolerance,
            r.0.last_ms == 0,
            r.1 == (Command::SetPressRadii { circle: OUTPUT_START, ring }),
    {
        let t = PressTrial {
            material: self.material,
            tolerance: self.tolerance,
            start_circle: OUTPUT_START,
            ring_radius: ring,
            current: Vec::new(),
            closed: Vec::new(),
            within_tolerance: false,
            tolerance_since_ms: 0,
            last_ms: 0,
        };
        (t, Command::SetPressRadii { circle: OUTPUT_START, ring })
    }

    /// Starts a trial with a target drawn at random from `[OUTPUT_RING_MIN, OUTPUT_END)`.
    pub fn begin(&self) -> (r: (PressTrial, Command))
        ensures
            r.0.wf(),
            r.0.material == self.material,
            r.0.tolerance == self.tolerance,
            r.0.start_circle == OUTPUT_START,
            ring_ok(r.0.ring_radius as int),
            r.0.current@ == Seq::<Contact>::empty(),
            r.0.closed@ == Seq::<Segment>::empty(),
            !r.0.within_tolerance,
            r.0.last_ms == 0,
            r.1 == (Command::SetPressRadii { circle: OUTPUT_START, ring: r.0.ring_radius }),
    {
        let ring = random_between(OUTPUT_RING_MIN, OUTPUT_END);
        self.begin_with(ring)
    }
}

/// One recorded contact: time since the trial began and the touch, in thousandths.
#[derive(Clone, Copy, Debug, PartialEq, Eq, Structural)]
pub struct Contact {
    pub time_ms: u64,
    pub pressure: i64,
    pub x: i64,
    pub y: i64,
}

/// One target of the trial with the contacts recorded while it stood.
#[derive(Clone, Debug, PartialEq, Eq)]
pub struct Segment {
    /// Radius of the circle when the target was set.
    pub circle_radius: i64,
    pub ring_radius: i64,
    pub contacts: Vec<Contact>,
}

/// A gesture trial in progress.
///
/// `closed` holds the segments whose target was matched, in order; the open
/// segment is `start_circle`, `ring_radius` and `current`.
pub struct PressTrial {
    pub material: u32,
    pub tolerance: u64,
    pub start_circle: i64,
    pub ring_radius: i64,
    pub current: Vec<Contact>,
    pub closed: Vec<Segment>,
    pub within_tolerance: bool,
    /// When the circle last came within tolerance of the ring.
    pub tolerance_since_ms: u64,
    /// Time of the last accepted event.
    pub last_ms: u64,
}

impl PressTrial {
    pub open spec fn wf(&self) -> bool {
        &&& ring_ok(self.ring_radius as int)
        &&& time_ordered(self.current@)
        &&& (self.within_tolerance ==> self.tolerance_since_ms <= self.last_ms)
        &&& forall|i: int| 0 <= i < self.current@.len() ==> self.current@[i].time_ms <= self.last_ms
        &&& forall|i: int|
            0 <= i < self.closed@.len() ==> {
                &&& ring_ok(self.closed@[i].ring_radius as int)
                &&& time_ordered(self.closed@[i].contacts@)
            }
    }

    /// Whether an event at `now_ms` that maps to `circle` completes a match.
    pub open spec fn matches_at(&self, circle: int, now_ms: u64) -> bool {
        &&& within(self.ring_radius as int, circle, self.tolerance as int)
        &&& self.within_tolerance
        &&& now_ms - self.tolerance_since_ms >= DWELL_MS
    }

    /// `new` is the trial after `self` received `ev` at `now_ms`, with
    /// `fresh_ring` as the next target should the event complete a match;
    /// `r` is the command sent to the client.
    pub open spec fn step(
        &self,
        new: &PressTrial,
        ev: SensorEvent,
        now_ms: u64,
        fresh_ring: i64,
        r: Option<Command>,
    ) -> bool {
        if ev.material != self.material {
            &&& r.is_none()
            &&& *new == *self
        } else {
            let circle = press_radius_spec(ev.pressure as int);
            let contact = Contact { time_ms: now_ms, pressure: ev.pressure, x: ev.x, y: ev.y };
            let inside = within(self.ring_radius as int, circle, self.tolerance as int);
            &&& new.material == self.material
            &&& new.tolerance == self.tolerance
            &&& new.last_ms == now_ms
            &&& r == Some(Command::SetPressRadii { circle: circle as i64, ring: new.ring_radius })
            &&& if self.matches_at(circle, now_ms) {
                &&& new.closed@.len() == self.closed@.len() + 1
                &&& new.closed@.take(self.closed@.len() as int) == self.closed@
                &&& new.closed@.last().circle_radius == self.start_circle
                &&& new.closed@.last().ring_radius == self.ring_radius
                &&& new.closed@.last().contacts@ == self.current@.push(contact)
                &&& new.current@ == Seq::<Contact>::empty()
                &&& new.start_circle == circle
                &&& new.ring_radius == fresh_ring
                &&& !new.within_tolerance
            } else {
                &&& new.closed@ == self.closed@
                &&& new.current@ == self.current@.push(contact)
                &&& new.start_circle == self.start_circle
                &&& new.ring_radius == self.ring_radius
                &&& new.within_tolerance == inside
                &&& (inside && !self.within_tolerance ==> new.tolerance_since_ms == now_ms)
                &&& (inside && self.within_tolerance ==> new.tolerance_since_ms
                    == self.tolerance_since_ms)
            }
        }
    }

    /// Takes one event from the touch surface at `now_ms` (milliseconds since
    /// the trial began). Events of another material are ignored. Otherwise
    /// the contact is recorded in the open segment, the match state is
    /// updated, and the command with the new radii is returned; when the match
    /// has been held for `DWELL_MS`, the open segment is closed and a new one
    /// begins with `fresh_ring` as its target.
    pub fn on_event(&mut self, ev: &SensorEvent, now_ms: u64, fresh_ring: i64) -> (r: Option<Command>)
        requires
            old(self).wf(),
            ring_ok(fresh_ring as int),
            now_ms >= old(self).last_ms,
            -INPUT_LIMIT <= ev.pressure <= INPUT_LIMIT,
        ensures
            final(self).wf(),
            old(self).step(&*final(self), *ev, now_ms, fresh_ring, r),
    {
        if ev.material != self.material {
            return None;
        }
        let circle = press_radius(ev.pressure);
        let contact = Contact { time_ms: now_ms, pressure: ev.pressure, x: ev.x, y: ev.y };
        self.current.push(contact);
        self.last_ms = now_ms;
        let diff: i128 = self.ring_radius as i128 - circle as i128;
        let tol: i128 = self.tolerance as i128;
        if -tol <= diff && diff <= tol {
            if self.within_tolerance {
                if now_ms - self.tolerance_since_ms >= DWELL_MS {
                    let mut contacts: Vec<Contact> = Vec::new();
                    std::mem::swap(&mut contacts, &mut self.current);
                    let seg = Segment {
                        circle_radius: self.start_circle,
                        ring_radius: self.ring_radius,
                        contacts,
                    };
                    self.closed.push(seg);
                    assert(self.closed@.take(old(self).closed@.len() as int) == old(self).closed@);
                    self.start_circle = circle;
                    self.ring_radius = fresh_ring;
                    self.within_tolerance = false;
                }
            } else {
                self.within_tolerance = true;
                self.tolerance_since_ms = now_ms;
            }
        } else {
            self.within_tolerance = false;
        }
        Some(Command::SetPressRadii { circle, ring: self.ring_radius })
    }

    /// As `on_event`, with the next target drawn at random from
    /// `[OUTPUT_RING_MIN, OUTPUT_END)`.
    pub fn handle_event(&mut self, ev: &SensorEvent, now_ms: u64) -> (r: Option<Command>)
        requires
            old(self).wf(),
            now_ms >= old(self).last_ms,
            -INPUT_LIMIT <= ev.pressure <= INPUT_LIMIT,
        ensures
            final(self).wf(),
            exists|f: i64| ring_ok(f as int) && old(self).step(&*final(self), *ev, now_ms, f, r),
    {
        let fresh = random_between(OUTPUT_RING_MIN, OUTPUT_END);
        self.on_event(ev, now_ms, fresh)
    }

    /// Ends the trial: every segment in order, the open one last.
    pub fn finish(self) -> (r: Vec<Segment>)
        requires
            self.wf(),
        ensures
            r@.len() == self.closed@.len() + 1,
            r@.take(self.closed@.len() as int) == self.closed@,
            r@.last().circle_radius == self.start_circle,
            r@.last().ring_radius == self.ring_radius,
            r@.last().contacts@ == self.current@,
            forall|i: int|
                0 <= i < r@.len() ==> {
                    &&& ring_ok(r@[i].ring_radius as int)
                    &&& time_ordered(r@[i].contacts@)
                },
    {
        let PressTrial { start_circle, ring_radius, current, closed, .. } = self;
        let mut segments = closed;
        segments.push(Segment { circle_radius: start_circle, ring_radius, contacts: current });
        assert(segments@.take(self.closed@.len() as int) == self.closed@);
        segments
    }
}

/// A match must be held for a full `DWELL_MS`: when one event brings the
/// circle within tolerance of the ring and a later event keeps it there, the
/// later event moves the ring, closing exactly one segment, if and only if it
/// comes at least `DWELL_MS` after the first.
pub proof fn lemma_dwell(
    t0: PressTrial,
    t1: PressTrial,
    t2: PressTrial,
    e1: SensorEvent,
    e2: SensorEvent,
    n1: u64,
    n2: u64,
    f1: i64,
    f2: i64,
    r1: Option<Command>,
    r2: Option<Command>,
)
    requires
        !t0.within_tolerance,
        e1.material == t0.material,
        e2.material == t0.material,
        within(t0.ring_radius as int, press_radius_spec(e1.pressure as int), t0.tolerance as int),
        within(t0.ring_radius as int, press_radius_spec(e2.pressure as int), t0.tolerance as int),
        n1 <= n2,
        t0.step(&t1, e1, n1, f1, r1),
        t1.step(&t2, e2, n2, f2, r2),
    ensures
        t1.within_tolerance,
        t1.closed@ == t0.closed@,
        t1.ring_radius == t0.ring_radius,
        n2 - n1 < DWELL_MS ==> t2.closed@ == t1.closed@ && t2.ring_radius == t1.ring_radius,
        n2 - n1 >= DWELL_MS ==> {
            &&& t2.closed@.len() == t1.closed@.len() + 1
            &&& t2.ring_radius == f2
            &&& t2.current@ == Seq::<Contact>::empty()
        },
{
}

/// Leaving tolerance forfeits the time already held: after the circle leaves
/// tolerance and comes back at `n2`, no event before `n2 + DWELL_MS` moves the
/// ring, however long the match had been held before.
pub proof fn lemma_interruption(
    t0: PressTrial,
    t1: PressTrial,
    t2: PressTrial,
    t3: PressTrial,
    e1: SensorEvent,
    e2: SensorEvent,
    e3: SensorEvent,
    n1: u64,
    n2: u64,
    n3: u64,
    f1: i64,
    f2: i64,
    f3: i64,
    r1: Option<Command>,
    r2: Option<Command>,
    r3: Option<Command>,
)
    requires
        e1.material == t0.material,
        e2.material == t0.material,
        !within(t0.ring_radius as int, press_radius_spec(e1.pressure as int), t0.tolerance as int),
        n2 <= n3,
        n3 - n2 < DWELL_MS,
        t0.step(&t1, e1, n1, f1, r1),
        t1.step(&t2, e2, n2, f2, r2),
        t2.step(&t3, e3, n3, f3, r3),
    ensures
        !t1.within_tolerance,
        t3.closed@ == t0.closed@,
        t3.ring_radius == t0.ring_radius,
{
}

} // verus!
