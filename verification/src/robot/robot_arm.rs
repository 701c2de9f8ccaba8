//! A two-link arm on a turning base, and the exact part of its inverse
//! kinematics: which targets the tool can reach, and the cosine of the elbow
//! angle that reaches them.

use vstd::prelude::*;
use crate::geometry::{
    integer_sqrt, isqrt, lemma_product_bound, lemma_square_bound, square, Point,
};
use crate::text::{decimal, spec_decimal};

verus! {

/// One link of the arm, taken as a uniform rod.
///
/// Lengths are micrometres, masses are grams, moments of inertia are
/// gram square-micrometres.
#[derive(Copy, Clone, Debug, PartialEq, Eq, Structural)]
pub struct LinkParams {
    pub length_um: u32,
    pub mass_g: u32,
    /// Moment of inertia about the centre of the rod.
    pub inertia_cm: u128,
    /// Moment of inertia about the joint at the end of the rod.
    pub inertia_joint: u128,
}

impl LinkParams {
    /// `mass * length^2 / k`, rounded down: the moment of inertia of a
    /// uniform rod about an axis across it, with `k = 12` for the axis
    /// through the centre and `k = 3` for the axis through one end.
    pub open spec fn rod_inertia(self, k: int) -> int {
        (self.mass_g * (self.length_um * self.length_um)) / k
    }

    /// The link with both moments of inertia brought up to date.
    pub open spec fn with_inertia(self) -> LinkParams {
        LinkParams {
            length_um: self.length_um,
            mass_g: self.mass_g,
            inertia_cm: self.rod_inertia(12) as u128,
            inertia_joint: self.rod_inertia(3) as u128,
        }
    }

    /// Recomputes both moments of inertia from mass and length.
    pub fn recompute_inertia(&mut self)
        ensures
            *final(self) == old(self).with_inertia(),
            final(self).inertia_cm == old(self).rod_inertia(12),
            final(self).inertia_joint == old(self).rod_inertia(3),
    {
        let len: u128 = self.length_um as u128;
        let mass: u128 = self.mass_g as u128;
        proof {
            lemma_product_bound(len as int, len as int, 0xffff_ffff);
            assert(0 <= mass * (len * len) <= 0xffff_ffff * (0xffff_ffff * 0xffff_ffff))
                by (nonlinear_arith)
                requires
                    0 <= mass <= 0xffff_ffff,
                    0 <= len * len <= 0xffff_ffff * 0xffff_ffff,
            ;
        }
        let rod: u128 = mass * (len * len);
        self.inertia_cm = rod / 12;
        self.inertia_joint = rod / 3;
    }
}

impl Default for LinkParams {
    /// A rod of two and a half metres and one kilogram, inertia not yet
    /// computed.
    fn default() -> (r: Self)
        ensures
            r == (LinkParams {
                length_um: 2_500_000,
                mass_g: 1000,
                inertia_cm: 0,
                inertia_joint: 0,
            }),
    {
        LinkParams { length_um: 2_500_000, mass_g: 1000, inertia_cm: 0, inertia_joint: 0 }
    }
}

/// What inverse kinematics can say exactly about the pose that puts the tool
/// at `target`.
///
/// The three joint angles follow from it by trigonometry alone:
/// the base yaw is the direction of `(target.x, target.y)`, or zero when
/// `on_axis`; the elbow angle has cosine `cos_elbow_num / cos_elbow_den` and
/// is negative unless `elbow_up`; the shoulder angle then follows from the
/// elbow angle and the target.
#[derive(Copy, Clone, Debug, PartialEq, Eq, Structural)]
pub struct JointSolution {
    /// The point at which this pose puts the tool.
    pub target: Point,
    /// The target lies on the axis of the base, where every yaw serves.
    pub on_axis: bool,
    /// Which of the two elbow configurations is taken.
    pub elbow_up: bool,
    /// Numerator of the cosine of the elbow angle.
    pub cos_elbow_num: i128,
    /// Denominator of the cosine of the elbow angle: twice the product of
    /// the link lengths.
    pub cos_elbow_den: i128,
}

impl JointSolution {
    /// The pose that stands in where there is no solution: target at the
    /// origin, cosine `0/1`.
    pub open spec fn rest() -> JointSolution {
        JointSolution {
            target: Point { x: 0, y: 0, z: 0 },
            on_axis: true,
            elbow_up: false,
            cos_elbow_num: 0,
            cos_elbow_den: 1,
        }
    }
}

impl Default for JointSolution {
    /// The rest pose.
    fn default() -> (r: Self)
        ensures
            r == JointSolution::rest(),
    {
        JointSolution {
            target: Point::zero(),
            on_axis: true,
            elbow_up: false,
            cos_elbow_num: 0,
            cos_elbow_den: 1,
        }
    }
}

/// Why a target cannot be reached.
#[derive(Copy, Clone, Debug, PartialEq, Eq, Structural)]
pub enum IkError {
    /// The target lies below the base plane: `z < 0`.
    InvalidTarget,
    /// The distance of the target from the base is outside the workspace.
    /// `radius` is that distance rounded away from the workspace, so it is
    /// below `min_reach` or above `max_reach`.
    OutOfWorkspace { radius: u64, min_reach: u64, max_reach: u64 },
}

impl IkError {
    /// The reason in words. Lengths are given in micrometres.
    pub open spec fn spec_message(self) -> Seq<char> {
        match self {
            IkError::InvalidTarget => "Invalid target: z must be >= 0"@,
            IkError::OutOfWorkspace { radius, min_reach, max_reach } => "Target radius |p|="@
                + spec_decimal(radius as nat) + " um is outside ["@ + spec_decimal(
                min_reach as nat,
            ) + " um, "@ + spec_decimal(max_reach as nat) + " um]"@,
        }
    }

    /// The reason in words.
    pub fn message(&self) -> (r: String)
        ensures
            r@ == self.spec_message(),
    {
        match self {
            IkError::InvalidTarget => String::from_str("Invalid target: z must be >= 0"),
            IkError::OutOfWorkspace { radius, min_reach, max_reach } => {
                let mut s: String = String::from_str("Target radius |p|=");
                s.append(decimal(*radius).as_str());
                s.append(" um is outside [");
                s.append(decimal(*min_reach).as_str());
                s.append(" um, ");
                s.append(decimal(*max_reach).as_str());
                s.append(" um]");
                s
            },
        }
    }
}

/// The outcome of inverse kinematics: reachable with a joint solution, or
/// unreachable with the reason.
#[derive(Copy, Clone, Debug, PartialEq, Eq)]
pub struct IKResult {
    pub reachable: bool,
    /// The solution when `reachable`, else the rest pose.
    pub q: JointSolution,
    /// The reason when the target was refused.
    pub error: Option<IkError>,
}

impl Default for IKResult {
    /// An empty outcome: not reachable, no reason recorded yet.
    fn default() -> (r: Self)
        ensures
            r == (IKResult { reachable: false, q: JointSolution::rest(), error: None }),
    {
        IKResult { reachable: false, q: JointSolution::default(), error: None }
    }
}

impl IKResult {
    /// The outcome in words: `OK` for a reachable target, else the reason;
    /// nothing for an empty outcome.
    pub open spec fn spec_message(self) -> Seq<char> {
        if self.reachable {
            "OK"@
        } else {
            match self.error {
                Some(e) => e.spec_message(),
                None => Seq::<char>::empty(),
            }
        }
    }

    /// The outcome in words.
    pub fn message(&self) -> (r: String)
        ensures
            r@ == self.spec_message(),
    {
        if self.reachable {
            String::from_str("OK")
        } else {
            match &self.error {
                Some(e) => e.message(),
                None => String::new(),
            }
        }
    }
}

/// The reach tolerance is one part in this many of a micrometre: with a
/// thousand parts, one nanometre.
pub const TOLERANCE_PARTS: u64 = 1000;

/// `v` held between `lo` and `hi`; `lo` wins where the two bounds cross.
pub open spec fn clamp_int(v: int, lo: int, hi: int) -> int {
    if v < lo {
        lo
    } else if v > hi {
        hi
    } else {
        v
    }
}

/// The arm: two links on a base that turns about the vertical axis.
#[derive(Copy, Clone, Debug)]
pub struct RobotArm {
    link1: LinkParams,
    link2: LinkParams,
}

impl RobotArm {
    /// The first link, from the base to the elbow.
    pub closed spec fn spec_link1(&self) -> LinkParams {
        self.link1
    }

    /// The second link, from the elbow to the tool.
    pub closed spec fn spec_link2(&self) -> LinkParams {
        self.link2
    }

    /// Length of the first link.
    pub open spec fn spec_l1(&self) -> int {
        self.spec_link1().length_um as int
    }

    /// Length of the second link.
    pub open spec fn spec_l2(&self) -> int {
        self.spec_link2().length_um as int
    }

    /// The largest distance from the base that the tool can have.
    pub open spec fn spec_max_reach(&self) -> int {
        self.spec_l1() + self.spec_l2()
    }

    /// The smallest distance from the base that the tool can have.
    pub open spec fn spec_min_reach(&self) -> int {
        if self.spec_l1() >= self.spec_l2() {
            self.spec_l1() - self.spec_l2()
        } else {
            self.spec_l2() - self.spec_l1()
        }
    }

    /// The point is nearer to the base than the arm can fold, by more than
    /// the tolerance: `|p| < |L1 - L2| - e`, where `e` is one nanometre.
    /// Both sides are scaled by `TOLERANCE_PARTS` and squared, which keeps
    /// the comparison exact.
    pub open spec fn too_near(&self, p: Point) -> bool {
        let k = TOLERANCE_PARTS as int;
        k * self.spec_min_reach() > 1 && square(k) * p.norm_sq() < square(
            k * self.spec_min_reach() - 1,
        )
    }

    /// The point is farther from the base than the arm can stretch, by more
    /// than the tolerance: `|p| > L1 + L2 + e`, where `e` is one nanometre.
    pub open spec fn too_far(&self, p: Point) -> bool {
        let k = TOLERANCE_PARTS as int;
        square(k) * p.norm_sq() > square(k * self.spec_max_reach() + 1)
    }

    /// The distance of `p` from the base lies between the two reaches, give
    /// or take the tolerance.
    pub open spec fn in_workspace(&self, p: Point) -> bool {
        !self.too_near(p) && !self.too_far(p)
    }

    /// The tool can be put at `p`: it is not below the base plane, and it is
    /// in the workspace.
    pub open spec fn reachable(&self, p: Point) -> bool {
        p.z >= 0 && self.in_workspace(p)
    }

    /// Twice the product of the link lengths.
    pub open spec fn elbow_cos_den(&self) -> int {
        2 * (self.spec_l1() * self.spec_l2())
    }

    /// The law of cosines for the elbow, before it is held to `[-1, 1]`:
    /// `|p|^2 - L1^2 - L2^2`, to be divided by `elbow_cos_den`.
    pub open spec fn elbow_cos_raw(&self, p: Point) -> int {
        p.norm_sq() - square(self.spec_l1()) - square(self.spec_l2())
    }

    /// Numerator of the elbow cosine, held to `[-den, den]`.
    pub open spec fn elbow_cos_num(&self, p: Point) -> int {
        clamp_int(self.elbow_cos_raw(p), -self.elbow_cos_den(), self.elbow_cos_den())
    }

    /// The distance of an out-of-workspace point from the base, rounded to a
    /// whole micrometre away from the workspace: down when the point is too
    /// near, up when it is too far.
    pub open spec fn outside_radius(&self, p: Point) -> int {
        let floor = isqrt(p.norm_sq() as nat) as int;
        if self.too_far(p) && square(floor) < p.norm_sq() {
            floor + 1
        } else {
            floor
        }
    }

    /// The outcome of inverse kinematics for `target`.
    pub open spec fn spec_solve_ik(&self, target: Point, elbow_up: bool) -> IKResult {
        if target.z < 0 {
            IKResult {
                reachable: false,
                q: JointSolution::rest(),
                error: Some(IkError::InvalidTarget),
            }
        } else if !self.in_workspace(target) {
            IKResult {
                reachable: false,
                q: JointSolution::rest(),
                error: Some(
                    IkError::OutOfWorkspace {
                        radius: self.outside_radius(target) as u64,
                        min_reach: self.spec_min_reach() as u64,
                        max_reach: self.spec_max_reach() as u64,
                    },
                ),
            }
        } else {
            IKResult {
                reachable: true,
                q: JointSolution {
                    target,
                    on_axis: target.x == 0 && target.y == 0,
                    elbow_up,
                    cos_elbow_num: self.elbow_cos_num(target) as i128,
                    cos_elbow_den: self.elbow_cos_den() as i128,
                },
                error: None,
            }
        }
    }

    /// Builds the arm from its two links and computes their inertia.
    pub fn new(l1: LinkParams, l2: LinkParams) -> (arm: Self)
        ensures
            arm.spec_link1() == l1.with_inertia(),
            arm.spec_link2() == l2.with_inertia(),
            arm.spec_l1() == l1.length_um,
            arm.spec_l2() == l2.length_um,
    {
        let mut l1 = l1;
        let mut l2 = l2;
        l1.recompute_inertia();
        l2.recompute_inertia();
        Self { link1: l1, link2: l2 }
    }

    /// The first link, from the base to the elbow.
    pub fn link1(&self) -> (r: &LinkParams)
        ensures
            *r == self.spec_link1(),
    {
        &self.link1
    }

    /// The second link, from the elbow to the tool.
    pub fn link2(&self) -> (r: &LinkParams)
        ensures
            *r == self.spec_link2(),
    {
        &self.link2
    }

    /// Length of the first link.
    pub fn l1(&self) -> (r: u32)
        ensures
            r == self.spec_l1(),
    {
        self.link1.length_um
    }

    /// Length of the second link.
    pub fn l2(&self) -> (r: u32)
        ensures
            r == self.spec_l2(),
    {
        self.link2.length_um
    }

    /// The largest distance from the base that the tool can have: the sum
    /// of the link lengths.
    pub fn max_reach(&self) -> (r: u64)
        ensures
            r == self.spec_max_reach(),
    {
        self.link1.length_um as u64 + self.link2.length_um as u64
    }

    /// The smallest distance from the base that the tool can have: the
    /// difference of the link lengths.
    pub fn min_reach(&self) -> (r: u64)
        ensures
            r == self.spec_min_reach(),
    {
        if self.link1.length_um >= self.link2.length_um {
            (self.link1.length_um - self.link2.length_um) as u64
        } else {
            (self.link2.length_um - self.link1.length_um) as u64
        }
    }

    /// Inverse kinematics: decides whether the tool can be put at `target`
    /// and, if so, gives the joint solution.
    ///
    /// A target is reachable exactly when `z >= 0` and its distance from the
    /// base is at least `|L1 - L2|` and at most `L1 + L2`, give or take a
    /// tolerance of one nanometre. A target below the base plane is refused
    /// as invalid, one outside the workspace with its distance and the bounds.
    pub fn solve_ik(&self, target: Point, elbow_up: bool) -> (out: IKResult)
        ensures
            out == self.spec_solve_ik(target, elbow_up),
            out.reachable <==> self.reachable(target),
            out.reachable <==> out.error is None,
            target.z < 0 ==> out.error == Some(IkError::InvalidTarget),
            self.too_near(target) || self.too_far(target) ==> !out.reachable,
            out.reachable ==> out.q.target == target,
            out.reachable ==> out.q.cos_elbow_den == self.elbow_cos_den(),
            out.reachable ==> out.q.cos_elbow_num == self.elbow_cos_num(target),
    {
        let mut out = IKResult::default();
        if target.z < 0 {
            out.error = Some(IkError::InvalidTarget);
            return out;
        }
        let d2: u128 = target.norm_squared() as u128;
        let rmin: u64 = self.min_reach();
        let rmax: u64 = self.max_reach();
        let parts: u128 = TOLERANCE_PARTS as u128;
        let near_edge: u128 = parts * rmin as u128;
        let far_edge: u128 = parts * rmax as u128 + 1;
        proof {
            lemma_square_bound(target.x as int, 0x8000_0000);
            lemma_square_bound(target.y as int, 0x8000_0000);
            lemma_square_bound(target.z as int, 0x8000_0000);
            if near_edge > 1 {
                lemma_product_bound(near_edge - 1, near_edge - 1, 0x7cf_ffff_fc18);
            }
            lemma_product_bound(far_edge as int, far_edge as int, 0x7cf_ffff_fc19);
        }
        let parts_sq: u128 = parts * parts;
        assert(parts_sq == 1_000_000);
        let scaled: u128 = parts_sq * d2;
        let too_near: bool = near_edge > 1 && scaled < (near_edge - 1) * (near_edge - 1);
        let too_far: bool = scaled > far_edge * far_edge;
        if too_near || too_far {
            let floor: u64 = integer_sqrt(d2);
            proof {
                assert(floor <= 0x1_0000_0000) by (nonlinear_arith)
                    requires
                        floor * floor <= d2,
                        d2 <= 3 * (0x8000_0000 * 0x8000_0000),
                ;
            }
            let exact: bool = floor as u128 * floor as u128 == d2;
            let radius: u64 = if too_far && !exact {
                floor + 1
            } else {
                floor
            };
            out.error = Some(IkError::OutOfWorkspace { radius, min_reach: rmin, max_reach: rmax });
            return out;
        }
        let l1: i128 = self.link1.length_um as i128;
        let l2: i128 = self.link2.length_um as i128;
        proof {
            lemma_product_bound(l1 as int, l2 as int, 0xffff_ffff);
            lemma_product_bound(l1 as int, l1 as int, 0xffff_ffff);
            lemma_product_bound(l2 as int, l2 as int, 0xffff_ffff);
        }
        let den: i128 = 2 * (l1 * l2);
        let raw: i128 = d2 as i128 - l1 * l1 - l2 * l2;
        let num: i128 = if raw < -den {
            -den
        } else if raw > den {
            den
        } else {
            raw
        };
        out.reachable = true;
        out.q = JointSolution {
            target,
            on_axis: target.x == 0 && target.y == 0,
            elbow_up,
            cos_elbow_num: num,
            cos_elbow_den: den,
        };
        out
    }
}

/// The square of a sum and of a difference, written out.
proof fn lemma_binomial(a: int, b: int)
    ensures
        square(a + b) == square(a) + 2 * (a * b) + square(b),
        square(a - b) == square(a) - 2 * (a * b) + square(b),
        square(b - a) == square(a) - 2 * (a * b) + square(b),
{
    assert((a + b) * (a + b) == a * a + 2 * (a * b) + b * b) by (nonlinear_arith);
    assert((a - b) * (a - b) == a * a - 2 * (a * b) + b * b) by (nonlinear_arith);
    assert((b - a) * (b - a) == a * a - 2 * (a * b) + b * b) by (nonlinear_arith);
}

/// A point whose distance from the base lies between the two reaches is in
/// the workspace: the tolerance only ever lets more points in.
pub proof fn lemma_between_reaches_in_workspace(arm: RobotArm, p: Point)
    requires
        square(arm.spec_min_reach()) <= p.norm_sq() <= square(arm.spec_max_reach()),
    ensures
        arm.in_workspace(p),
{
    let k = TOLERANCE_PARTS as int;
    let lo = arm.spec_min_reach();
    let hi = arm.spec_max_reach();
    let n = p.norm_sq();
    assert(square(k) * n <= square(k * hi + 1)) by (nonlinear_arith)
        requires
            n <= square(hi),
            hi >= 0,
            k >= 1,
    ;
    assert(k * lo > 1 ==> square(k) * n >= square(k * lo - 1)) by (nonlinear_arith)
        requires
            n >= square(lo),
            lo >= 0,
            k >= 1,
    ;
}

/// A point that is a whole micrometre or more beyond full stretch, or a
/// whole micrometre or more short of the full fold, cannot be reached: the
/// tolerance is far smaller than that.
pub proof fn lemma_outside_reaches_unreachable(arm: RobotArm, p: Point, elbow_up: bool)
    requires
        p.norm_sq() >= square(arm.spec_max_reach() + 1) || (arm.spec_min_reach() >= 1
            && p.norm_sq() <= square(arm.spec_min_reach() - 1)),
    ensures
        !arm.reachable(p),
        !arm.spec_solve_ik(p, elbow_up).reachable,
        arm.spec_solve_ik(p, elbow_up).error is Some,
{
    let k = TOLERANCE_PARTS as int;
    let lo = arm.spec_min_reach();
    let hi = arm.spec_max_reach();
    let n = p.norm_sq();
    lemma_square_bound(p.x as int, 0x8000_0000);
    lemma_square_bound(p.y as int, 0x8000_0000);
    lemma_square_bound(p.z as int, 0x8000_0000);
    if n >= square(hi + 1) {
        assert(square(k) * n > square(k * hi + 1)) by (nonlinear_arith)
            requires
                n >= square(hi + 1),
                hi >= 0,
                k == 1000,
        ;
    } else {
        assert(k * lo > 1 && square(k) * n < square(k * lo - 1)) by (nonlinear_arith)
            requires
                0 <= n <= square(lo - 1),
                lo >= 1,
                k == 1000,
        ;
    }
}

/// For a target whose distance from the base lies between the two reaches
/// the law of cosines yields a true cosine: its raw value already lies in
/// `[-den, den]`, so holding it to that range changes nothing, and a
/// triangle with sides `L1` and `L2` that encloses this elbow angle has a
/// third side of exactly the target's distance:
/// `L1^2 + L2^2 + 2 L1 L2 cos(q2) = |p|^2`.
pub proof fn lemma_elbow_cosine_exact(arm: RobotArm, p: Point)
    requires
        square(arm.spec_min_reach()) <= p.norm_sq() <= square(arm.spec_max_reach()),
    ensures
        -arm.elbow_cos_den() <= arm.elbow_cos_raw(p) <= arm.elbow_cos_den(),
        arm.elbow_cos_num(p) == arm.elbow_cos_raw(p),
        square(arm.spec_l1()) + square(arm.spec_l2()) + arm.elbow_cos_num(p) == p.norm_sq(),
{
    lemma_binomial(arm.spec_l1(), arm.spec_l2());
}

/// Within the tolerance beyond full stretch the elbow is held straight, and
/// within the tolerance short of the full fold it is held folded: that is
/// what holding the cosine to `[-1, 1]` is for.
pub proof fn lemma_tolerance_band_is_clamped(arm: RobotArm, p: Point)
    ensures
        p.norm_sq() > square(arm.spec_max_reach()) ==> arm.elbow_cos_num(p)
            == arm.elbow_cos_den(),
        p.norm_sq() < square(arm.spec_min_reach()) ==> arm.elbow_cos_num(p)
            == -arm.elbow_cos_den(),
{
    lemma_binomial(arm.spec_l1(), arm.spec_l2());
}

/// A target at full stretch, `|p| = L1 + L2` with `z >= 0`, is reachable, and
/// the elbow is straight: the cosine of its angle is exactly one, so the
/// angle is exactly zero in either elbow configuration.
pub proof fn lemma_full_extension_is_straight(arm: RobotArm, p: Point, elbow_up: bool)
    requires
        arm.spec_l1() > 0,
        arm.spec_l2() > 0,
        p.z >= 0,
        p.norm_sq() == square(arm.spec_max_reach()),
    ensures
        arm.spec_solve_ik(p, elbow_up).reachable,
        arm.spec_solve_ik(p, elbow_up).q.cos_elbow_den > 0,
        arm.spec_solve_ik(p, elbow_up).q.cos_elbow_num == arm.spec_solve_ik(
            p,
            elbow_up,
        ).q.cos_elbow_den,
{
    let a = arm.spec_l1();
    let b = arm.spec_l2();
    lemma_binomial(a, b);
    lemma_product_bound(a, b, 0xffff_ffff);
    assert(a * b > 0) by (nonlinear_arith)
        requires
            a > 0,
            b > 0,
    ;
    assert(square(arm.spec_min_reach()) <= square(arm.spec_max_reach()));
    lemma_between_reaches_in_workspace(arm, p);
}

/// A target with the arm folded back on itself, `|p| = |L1 - L2|` with
/// `z >= 0`, is reachable, and the cosine of the elbow angle is exactly
/// minus one.
pub proof fn lemma_full_fold_is_reversed(arm: RobotArm, p: Point, elbow_up: bool)
    requires
        arm.spec_l1() > 0,
        arm.spec_l2() > 0,
        p.z >= 0,
        p.norm_sq() == square(arm.spec_min_reach()),
    ensures
        arm.spec_solve_ik(p, elbow_up).reachable,
        arm.spec_solve_ik(p, elbow_up).q.cos_elbow_den > 0,
        arm.spec_solve_ik(p, elbow_up).q.cos_elbow_num == -arm.spec_solve_ik(
            p,
            elbow_up,
        ).q.cos_elbow_den,
{
    let a = arm.spec_l1();
    let b = arm.spec_l2();
    lemma_binomial(a, b);
    lemma_product_bound(a, b, 0xffff_ffff);
    assert(a * b > 0) by (nonlinear_arith)
        requires
            a > 0,
            b > 0,
    ;
    assert(square(arm.spec_min_reach()) <= square(arm.spec_max_reach()));
    lemma_between_reaches_in_workspace(arm, p);
}

} // verus!
