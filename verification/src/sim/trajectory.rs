//! A straight line between two points, walked at constant speed.

use vstd::prelude::*;
use crate::geometry::Point;

verus! {

/// One coordinate of the point that lies the fraction `t / d` of the way from
/// `a` to `b`. The offset from `a` is rounded towards `a`.
pub open spec fn lerp(a: int, b: int, t: int, d: int) -> int {
    if b >= a {
        a + ((b - a) * t) / d
    } else {
        a - ((a - b) * t) / d
    }
}

/// The mathematical content of a trajectory.
///
/// Its progress is the fraction `elapsed / duration`.
pub struct TrajectoryView {
    pub from: Point,
    pub to: Point,
    /// Microseconds that the whole line takes.
    pub duration: nat,
    /// Microseconds walked so far.
    pub elapsed: nat,
    pub finished: bool,
}

impl TrajectoryView {
    /// The duration is positive, progress is at most one, and a trajectory
    /// whose progress is one is finished.
    pub open spec fn wf(self) -> bool {
        &&& self.duration >= 1
        &&& self.elapsed <= self.duration
        &&& self.elapsed >= self.duration ==> self.finished
    }

    /// A fresh trajectory. A duration of zero is raised to one microsecond.
    pub open spec fn fresh(from: Point, to: Point, duration: nat) -> TrajectoryView {
        TrajectoryView {
            from,
            to,
            duration: if duration >= 1 {
                duration
            } else {
                1
            },
            elapsed: 0,
            finished: false,
        }
    }

    /// The trajectory after `dt` more microseconds. A finished trajectory
    /// stays as it is.
    pub open spec fn update(self, dt: nat) -> TrajectoryView {
        if self.finished {
            self
        } else if self.elapsed + dt >= self.duration {
            TrajectoryView { elapsed: self.duration, finished: true, ..self }
        } else {
            TrajectoryView { elapsed: self.elapsed + dt, ..self }
        }
    }

    /// The same trajectory with `t` microseconds walked.
    pub open spec fn at(self, t: nat) -> TrajectoryView {
        TrajectoryView { elapsed: t, ..self }
    }

    /// The time walked once `time` more microseconds have gone by: the time
    /// gone by in all, or the whole duration where that is less.
    pub open spec fn walked(self, time: nat) -> nat {
        if self.elapsed + time >= self.duration {
            self.duration
        } else {
            self.elapsed + time
        }
    }

    /// The trajectory after one update for each entry of `dts`, in order.
    pub open spec fn update_all(self, dts: Seq<nat>) -> TrajectoryView
        decreases dts.len(),
    {
        if dts.len() == 0 {
            self
        } else {
            self.update_all(dts.drop_last()).update(dts.last())
        }
    }

    /// The point reached: `from + (to - from) * elapsed / duration`.
    pub open spec fn position(self) -> Point {
        Point {
            x: lerp(self.from.x as int, self.to.x as int, self.elapsed as int, self.duration as int) as i32,
            y: lerp(self.from.y as int, self.to.y as int, self.elapsed as int, self.duration as int) as i32,
            z: lerp(self.from.z as int, self.to.z as int, self.elapsed as int, self.duration as int) as i32,
        }
    }
}

/// An interpolated coordinate lies between the two it interpolates, is the
/// first at progress zero and the second at progress one.
pub proof fn lemma_lerp_bounds(a: int, b: int, t: int, d: int)
    requires
        d >= 1,
        0 <= t <= d,
    ensures
        a <= b ==> a <= lerp(a, b, t, d) <= b,
        b <= a ==> b <= lerp(a, b, t, d) <= a,
        t == 0 ==> lerp(a, b, t, d) == a,
        t == d ==> lerp(a, b, t, d) == b,
{
    let span = if b >= a {
        b - a
    } else {
        a - b
    };
    assert(0 <= (span * t) / d <= span) by (nonlinear_arith)
        requires
            span >= 0,
            d >= 1,
            0 <= t <= d,
    ;
    assert(t == 0 ==> (span * t) / d == 0) by (nonlinear_arith)
        requires
            d >= 1,
    ;
    assert(t == d ==> (span * t) / d == span) by (nonlinear_arith)
        requires
            d >= 1,
    ;
}

/// A coordinate interpolated later is no nearer to the start than one
/// interpolated earlier.
pub proof fn lemma_lerp_monotone(a: int, b: int, t1: int, t2: int, d: int)
    requires
        d >= 1,
        0 <= t1 <= t2,
    ensures
        a <= b ==> lerp(a, b, t1, d) <= lerp(a, b, t2, d),
        b <= a ==> lerp(a, b, t2, d) <= lerp(a, b, t1, d),
{
    let span = if b >= a {
        b - a
    } else {
        a - b
    };
    assert((span * t1) / d <= (span * t2) / d) by (nonlinear_arith)
        requires
            span >= 0,
            d >= 1,
            0 <= t1 <= t2,
    ;
}

/// At progress zero the position is the starting point.
pub proof fn lemma_position_at_start(tv: TrajectoryView)
    requires
        tv.wf(),
        tv.elapsed == 0,
    ensures
        tv.position() == tv.from,
{
    lemma_lerp_bounds(tv.from.x as int, tv.to.x as int, 0, tv.duration as int);
    lemma_lerp_bounds(tv.from.y as int, tv.to.y as int, 0, tv.duration as int);
    lemma_lerp_bounds(tv.from.z as int, tv.to.z as int, 0, tv.duration as int);
}

/// At progress one the position is the end point.
pub proof fn lemma_position_at_end(tv: TrajectoryView)
    requires
        tv.wf(),
        tv.elapsed == tv.duration,
    ensures
        tv.position() == tv.to,
{
    let d = tv.duration as int;
    lemma_lerp_bounds(tv.from.x as int, tv.to.x as int, d, d);
    lemma_lerp_bounds(tv.from.y as int, tv.to.y as int, d, d);
    lemma_lerp_bounds(tv.from.z as int, tv.to.z as int, d, d);
}

/// A fresh trajectory is well formed, stands at its starting point and is
/// not finished.
pub proof fn lemma_fresh_starts_at_from(from: Point, to: Point, duration: nat)
    ensures
        TrajectoryView::fresh(from, to, duration).wf(),
        TrajectoryView::fresh(from, to, duration).position() == from,
        !TrajectoryView::fresh(from, to, duration).finished,
{
    lemma_position_at_start(TrajectoryView::fresh(from, to, duration));
}

/// One update never lowers the progress and never raises it above one; it
/// leaves the end points and the duration alone, and it finishes the
/// trajectory exactly when the progress has come to one.
pub proof fn lemma_update_monotone(tv: TrajectoryView, dt: nat)
    requires
        tv.wf(),
    ensures
        tv.update(dt).wf(),
        tv.update(dt).from == tv.from,
        tv.update(dt).to == tv.to,
        tv.update(dt).duration == tv.duration,
        tv.elapsed <= tv.update(dt).elapsed <= tv.duration,
        tv.finished ==> tv.update(dt) == tv,
        !tv.finished ==> (tv.update(dt).finished <==> tv.elapsed + dt >= tv.duration),
        dt == 0 ==> tv.update(dt) == tv,
{
}

/// Any number of updates, by any amounts, never lowers the progress and
/// never raises it above one.
pub proof fn lemma_update_all_monotone(tv: TrajectoryView, dts: Seq<nat>)
    requires
        tv.wf(),
    ensures
        tv.update_all(dts).wf(),
        tv.update_all(dts).from == tv.from,
        tv.update_all(dts).to == tv.to,
        tv.update_all(dts).duration == tv.duration,
        tv.elapsed <= tv.update_all(dts).elapsed <= tv.duration,
    decreases dts.len(),
{
    if dts.len() > 0 {
        lemma_update_all_monotone(tv, dts.drop_last());
        lemma_update_monotone(tv.update_all(dts.drop_last()), dts.last());
    }
}

/// The sum of the entries of `dts`.
pub open spec fn total(dts: Seq<nat>) -> nat
    decreases dts.len(),
{
    if dts.len() == 0 {
        0
    } else {
        total(dts.drop_last()) + dts.last()
    }
}

/// However the time is cut into steps, only its sum counts: a trajectory
/// that is under way has walked the time gone by, or its whole duration
/// where that is less, and it is finished exactly when the time gone by has
/// reached the duration.
pub proof fn lemma_update_all_elapsed(tv: TrajectoryView, dts: Seq<nat>)
    requires
        tv.wf(),
        !tv.finished,
    ensures
        tv.update_all(dts).elapsed == tv.walked(total(dts)),
        tv.update_all(dts).finished <==> tv.elapsed + total(dts) >= tv.duration,
    decreases dts.len(),
{
    if dts.len() > 0 {
        lemma_update_all_elapsed(tv, dts.drop_last());
        lemma_update_all_monotone(tv, dts.drop_last());
    }
}

/// The position never moves back: after an update each coordinate is where
/// it was or nearer to the end point, and it never passes the end point.
pub proof fn lemma_position_advances(tv: TrajectoryView, dt: nat)
    requires
        tv.wf(),
    ensures
        tv.from.x <= tv.to.x ==> tv.position().x <= tv.update(dt).position().x <= tv.to.x,
        tv.from.x >= tv.to.x ==> tv.position().x >= tv.update(dt).position().x >= tv.to.x,
        tv.from.y <= tv.to.y ==> tv.position().y <= tv.update(dt).position().y <= tv.to.y,
        tv.from.y >= tv.to.y ==> tv.position().y >= tv.update(dt).position().y >= tv.to.y,
        tv.from.z <= tv.to.z ==> tv.position().z <= tv.update(dt).position().z <= tv.to.z,
        tv.from.z >= tv.to.z ==> tv.position().z >= tv.update(dt).position().z >= tv.to.z,
{
    let d = tv.duration as int;
    let t1 = tv.elapsed as int;
    let t2 = tv.update(dt).elapsed as int;
    lemma_update_monotone(tv, dt);
    lemma_lerp_monotone(tv.from.x as int, tv.to.x as int, t1, t2, d);
    lemma_lerp_monotone(tv.from.y as int, tv.to.y as int, t1, t2, d);
    lemma_lerp_monotone(tv.from.z as int, tv.to.z as int, t1, t2, d);
    lemma_lerp_bounds(tv.from.x as int, tv.to.x as int, t2, d);
    lemma_lerp_bounds(tv.from.y as int, tv.to.y as int, t2, d);
    lemma_lerp_bounds(tv.from.z as int, tv.to.z as int, t2, d);
}

/// A finished trajectory that was walked to its end stands at its end point.
pub proof fn lemma_finished_walk_ends_at_to(tv: TrajectoryView, dt: nat)
    requires
        tv.wf(),
        !tv.finished,
        tv.update(dt).finished,
    ensures
        tv.update(dt).position() == tv.to,
{
    lemma_position_at_end(tv.update(dt));
}

/// A straight-line trajectory between two points with a fixed duration.
#[derive(Copy, Clone, Debug)]
pub struct LinearTrajectory {
    a: Point,
    b: Point,
    duration: u64,
    t: u64,
    finished: bool,
}

impl View for LinearTrajectory {
    type V = TrajectoryView;

    closed spec fn view(&self) -> TrajectoryView {
        TrajectoryView {
            from: self.a,
            to: self.b,
            duration: self.duration as nat,
            elapsed: self.t as nat,
            finished: self.finished,
        }
    }
}

impl Default for LinearTrajectory {
    /// A trajectory that rests at the origin: one second long and finished.
    fn default() -> (r: Self)
        ensures
            r@ == (TrajectoryView {
                from: Point { x: 0, y: 0, z: 0 },
                to: Point { x: 0, y: 0, z: 0 },
                duration: 1_000_000,
                elapsed: 0,
                finished: true,
            }),
            r@.wf(),
    {
        LinearTrajectory {
            a: Point::zero(),
            b: Point::zero(),
            duration: 1_000_000,
            t: 0,
            finished: true,
        }
    }
}

/// Interpolates one coordinate.
fn lerp_coord(a: i32, b: i32, t: u64, d: u64) -> (r: i32)
    requires
        d >= 1,
        t <= d,
    ensures
        r == lerp(a as int, b as int, t as int, d as int),
{
    proof {
        lemma_lerp_bounds(a as int, b as int, t as int, d as int);
    }
    if b >= a {
        let span: u128 = (b as i64 - a as i64) as u128;
        assert(span * t <= 0xffff_ffff * 0xffff_ffff_ffff_ffff) by (nonlinear_arith)
            requires
                0 <= span <= 0xffff_ffff,
                0 <= t <= 0xffff_ffff_ffff_ffff,
        ;
        let off: u128 = span * (t as u128) / (d as u128);
        (a as i64 + off as i64) as i32
    } else {
        let span: u128 = (a as i64 - b as i64) as u128;
        assert(span * t <= 0xffff_ffff * 0xffff_ffff_ffff_ffff) by (nonlinear_arith)
            requires
                0 <= span <= 0xffff_ffff,
                0 <= t <= 0xffff_ffff_ffff_ffff,
        ;
        let off: u128 = span * (t as u128) / (d as u128);
        (a as i64 - off as i64) as i32
    }
}

impl LinearTrajectory {
    #[verifier::type_invariant]
    spec fn inv(&self) -> bool {
        self@.wf()
    }

    /// Starts the line anew from `from` to `to`, to be walked in
    /// `duration` microseconds. A duration of zero is raised to one
    /// microsecond.
    pub fn reset(&mut self, from: Point, to: Point, duration: u64)
        ensures
            final(self)@ == TrajectoryView::fresh(from, to, duration as nat),
            final(self)@.wf(),
            final(self)@.position() == from,
    {
        proof {
            lemma_fresh_starts_at_from(from, to, duration as nat);
        }
        *self = LinearTrajectory {
            a: from,
            b: to,
            duration: if duration >= 1 {
                duration
            } else {
                1
            },
            t: 0,
            finished: false,
        };
    }

    /// Walks `dt` microseconds further. Does nothing once finished.
    pub fn update(&mut self, dt: u64)
        ensures
            final(self)@ == old(self)@.update(dt as nat),
            final(self)@.wf(),
            old(self)@.elapsed <= final(self)@.elapsed <= final(self)@.duration,
    {
        proof {
            use_type_invariant(&*self);
        }
        if self.finished {
            return ;
        }
        if dt >= self.duration - self.t {
            *self = LinearTrajectory {
                a: self.a,
                b: self.b,
                duration: self.duration,
                t: self.duration,
                finished: true,
            };
        } else {
            *self = LinearTrajectory {
                a: self.a,
                b: self.b,
                duration: self.duration,
                t: self.t + dt,
                finished: false,
            };
        }
    }

    /// The point reached so far.
    pub fn position(&self) -> (p: Point)
        ensures
            p == self@.position(),
            self@.elapsed == 0 ==> p == self@.from,
            self@.elapsed == self@.duration ==> p == self@.to,
    {
        proof {
            use_type_invariant(self);
            if self@.elapsed == 0 {
                lemma_position_at_start(self@);
            }
            if self@.elapsed == self@.duration {
                lemma_position_at_end(self@);
            }
        }
        Point {
            x: lerp_coord(self.a.x, self.b.x, self.t, self.duration),
            y: lerp_coord(self.a.y, self.b.y, self.t, self.duration),
            z: lerp_coord(self.a.z, self.b.z, self.t, self.duration),
        }
    }

    /// Whether the end of the line has been reached.
    pub fn finished(&self) -> (r: bool)
        ensures
            r == self@.finished,
    {
        self.finished
    }

    /// Microseconds walked so far; never more than `duration`.
    pub fn elapsed(&self) -> (r: u64)
        ensures
            r == self@.elapsed,
            r <= self@.duration,
    {
        proof {
            use_type_invariant(self);
        }
        self.t
    }

    /// Microseconds that the whole line takes; at least one.
    pub fn duration(&self) -> (r: u64)
        ensures
            r == self@.duration,
            r >= 1,
    {
        proof {
            use_type_invariant(self);
        }
        self.duration
    }
}

} // verus!
