//! Laws of the integrator, proved once and for all inputs.
//!
//! Each proof function below states a property of the mathematical model
//! that `sim` ties its executable functions to: what a step does when the
//! time step or the gravitational constant is zero, that coincident bodies
//! feel no force, that symmetric bodies of equal mass feel opposite forces,
//! and that a recorded trajectory has one sample per step.

use vstd::prelude::*;

verus! {

use crate::fixed::SCALE;
use crate::fixed::fits;
use crate::fixed::div_t;
use crate::fixed::mul_s;
use crate::fixed::div_s;
use crate::fixed::lemma_div_t_bounds;
use crate::fixed::lemma_div_t_odd;
use crate::fixed::lemma_mul_s_odd;
use crate::fixed::lemma_div_s_odd;
use crate::sim::V2;
use crate::sim::accel_spec;
use crate::sim::component_update_spec;
use crate::sim::step_spec;
use crate::sim::trajectory_spec;
use vstd::arithmetic::div_mod::lemma_div_of0;

/// A scaled square is never negative.
pub proof fn lemma_square_nonneg(a: int)
    ensures
        mul_s(a, a) >= 0,
{
    assert(a * a >= 0) by (nonlinear_arith);
    lemma_div_t_bounds(a * a, SCALE as int);
}

/// Law: two bodies at the same position feel exactly zero acceleration;
/// the softening term keeps the law defined, with no division error.
pub proof fn lemma_accel_coincident(p: V2, g: int, m: int)
    ensures
        accel_spec(p, p, g, m) == Some(V2 { x: 0, y: 0 }),
{
    lemma_div_of0(SCALE as int);
    assert(mul_s(0, 0) == 0);
    assert(mul_s(0, g) == 0);
    assert(mul_s(0, m) == 0);
    assert(div_s(0, SCALE as int) == 0);
}

/// A step stage with zero time step: every stage term of the coordinate is
/// zero, so a completed update returns the coordinate unchanged.
pub proof fn lemma_component_dt_zero(p: int, a: int)
    ensures
        component_update_spec(p, a, 0) is Some ==> component_update_spec(p, a, 0) == Some(p),
{
    lemma_div_of0(SCALE as int);
    lemma_div_of0(2);
    lemma_div_of0(6);
    assert(a * 0 == 0);
    assert(mul_s(a, 0) == 0);
    assert((a + div_t(0, 2)) * 0 == 0);
}

/// Law: with a zero time step, a completed step leaves both positions
/// unchanged.
pub proof fn lemma_step_dt_zero(pa: V2, pb: V2, ma: int, mb: int, g: int)
    ensures
        step_spec(pa, pb, ma, mb, g, 0) is Some ==> step_spec(pa, pb, ma, mb, g, 0) == Some(
            (pa, pb),
        ),
{
    if step_spec(pa, pb, ma, mb, g, 0) is Some {
        let aa = accel_spec(pa, pb, g, mb)->0;
        let ab = accel_spec(pb, pa, g, ma)->0;
        lemma_component_dt_zero(pa.x, aa.x);
        lemma_component_dt_zero(pa.y, aa.y);
        lemma_component_dt_zero(pb.x, ab.x);
        lemma_component_dt_zero(pb.y, ab.y);
        assert((step_spec(pa, pb, ma, mb, g, 0)->0).0 =~= pa);
        assert((step_spec(pa, pb, ma, mb, g, 0)->0).1 =~= pb);
    }
}

/// Law: with a zero time step, every recorded sample equals the initial
/// position pair, and there is one sample per step.
pub proof fn lemma_trajectory_dt_zero(pa: V2, pb: V2, ma: int, mb: int, g: int, n: nat)
    requires
        trajectory_spec(pa, pb, ma, mb, g, 0, n) is Some,
    ensures
        trajectory_spec(pa, pb, ma, mb, g, 0, n)->0.len() == n,
        forall|i: int|
            0 <= i < n ==> trajectory_spec(pa, pb, ma, mb, g, 0, n)->0[i] == ((pa, pb)),
    decreases n,
{
    if n > 0 {
        lemma_step_dt_zero(pa, pb, ma, mb, g);
        let np = step_spec(pa, pb, ma, mb, g, 0)->0;
        lemma_trajectory_dt_zero(np.0, np.1, ma, mb, g, (n - 1) as nat);
    }
}

/// A stage acceleration of zero: all four stage terms vanish, so a
/// completed update returns the coordinate unchanged.
pub proof fn lemma_component_zero_accel(p: int, dt: int)
    ensures
        component_update_spec(p, 0, dt) is Some ==> component_update_spec(p, 0, dt) == Some(p),
{
    lemma_div_of0(SCALE as int);
    lemma_div_of0(2);
    lemma_div_of0(6);
    assert(0 * dt == 0);
    assert(mul_s(0, dt) == 0);
}

/// Law: with a zero gravitational constant, a completed acceleration is the
/// zero vector.
pub proof fn lemma_accel_g_zero(ps: V2, po: V2, m: int)
    ensures
        accel_spec(ps, po, 0, m) is Some ==> accel_spec(ps, po, 0, m) == Some(V2 { x: 0, y: 0 }),
{
    if accel_spec(ps, po, 0, m) is Some {
        let dx = ps.x - po.x;
        let dy = ps.y - po.y;
        lemma_square_nonneg(dx);
        lemma_square_nonneg(dy);
        let den = mul_s(dx, dx) + mul_s(dy, dy) + SCALE;
        lemma_div_of0(SCALE as int);
        lemma_div_of0(den);
        assert(dx * 0 == 0);
        assert(dy * 0 == 0);
        assert(mul_s(dx, 0) == 0);
        assert(mul_s(dy, 0) == 0);
        assert(0 * m == 0);
        assert(mul_s(0, m) == 0);
        assert(0 * (SCALE as int) == 0);
        assert(div_s(0, den) == 0);
    }
}

/// Law: with a zero gravitational constant, a completed step leaves both
/// positions unchanged (velocity is stored but never applied).
pub proof fn lemma_step_g_zero(pa: V2, pb: V2, ma: int, mb: int, dt: int)
    ensures
        step_spec(pa, pb, ma, mb, 0, dt) is Some ==> step_spec(pa, pb, ma, mb, 0, dt) == Some(
            (pa, pb),
        ),
{
    if step_spec(pa, pb, ma, mb, 0, dt) is Some {
        lemma_accel_g_zero(pa, pb, mb);
        lemma_accel_g_zero(pb, pa, ma);
        lemma_component_zero_accel(pa.x, dt);
        lemma_component_zero_accel(pa.y, dt);
        lemma_component_zero_accel(pb.x, dt);
        lemma_component_zero_accel(pb.y, dt);
        assert((step_spec(pa, pb, ma, mb, 0, dt)->0).0 =~= pa);
        assert((step_spec(pa, pb, ma, mb, 0, dt)->0).1 =~= pb);
    }
}

/// Law: with a zero gravitational constant, every recorded sample equals the
/// initial position pair.
pub proof fn lemma_trajectory_g_zero(pa: V2, pb: V2, ma: int, mb: int, dt: int, n: nat)
    requires
        trajectory_spec(pa, pb, ma, mb, 0, dt, n) is Some,
    ensures
        trajectory_spec(pa, pb, ma, mb, 0, dt, n)->0.len() == n,
        forall|i: int|
            0 <= i < n ==> trajectory_spec(pa, pb, ma, mb, 0, dt, n)->0[i] == ((pa, pb)),
    decreases n,
{
    if n > 0 {
        lemma_step_g_zero(pa, pb, ma, mb, dt);
        let np = step_spec(pa, pb, ma, mb, 0, dt)->0;
        lemma_trajectory_g_zero(np.0, np.1, ma, mb, dt, (n - 1) as nat);
    }
}

/// Law: a completed trajectory holds exactly one sample per requested step.
pub proof fn lemma_trajectory_len(pa: V2, pb: V2, ma: int, mb: int, g: int, dt: int, n: nat)
    requires
        trajectory_spec(pa, pb, ma, mb, g, dt, n) is Some,
    ensures
        trajectory_spec(pa, pb, ma, mb, g, dt, n)->0.len() == n,
    decreases n,
{
    if n > 0 {
        let np = step_spec(pa, pb, ma, mb, g, dt)->0;
        lemma_trajectory_len(np.0, np.1, ma, mb, g, dt, (n - 1) as nat);
    }
}

/// The componentwise negation of a vector.
pub open spec fn neg_v2(v: V2) -> V2 {
    V2 { x: -v.x, y: -v.y }
}

/// Negation lifted over an optional vector.
pub open spec fn opt_neg_v2(o: Option<V2>) -> Option<V2> {
    match o {
        None => None,
        Some(v) => Some(neg_v2(v)),
    }
}

/// The first stage term of a body: its stage acceleration scaled by the time
/// step, checked like every scaled operation.
pub open spec fn first_stage_spec(ps: V2, po: V2, g: int, m: int, dt: int) -> Option<V2> {
    match accel_spec(ps, po, g, m) {
        None => None,
        Some(a) => {
            let kx: int = mul_s(a.x, dt);
            let ky: int = mul_s(a.y, dt);
            if fits(kx) && fits(ky) {
                Some(V2 { x: kx, y: ky })
            } else {
                None
            }
        },
    }
}

/// Law: from positions symmetric about the origin, two bodies of equal mass
/// feel accelerations that are exact negatives of each other.
pub proof fn lemma_accel_antiparallel(p: V2, g: int, m: int)
    ensures
        accel_spec(p, neg_v2(p), g, m) == opt_neg_v2(accel_spec(neg_v2(p), p, g, m)),
{
    let q = neg_v2(p);
    let dx = p.x - q.x;
    let dy = p.y - q.y;
    assert(q.x - p.x == -dx);
    assert(q.y - p.y == -dy);
    assert((-dx) * (-dx) == dx * dx) by (nonlinear_arith);
    assert((-dy) * (-dy) == dy * dy) by (nonlinear_arith);
    lemma_square_nonneg(dx);
    lemma_square_nonneg(dy);
    let den = mul_s(dx, dx) + mul_s(dy, dy) + SCALE;
    lemma_mul_s_odd(dx, g);
    lemma_mul_s_odd(dy, g);
    lemma_mul_s_odd(mul_s(dx, g), m);
    lemma_mul_s_odd(mul_s(dy, g), m);
    if fits(den) {
        lemma_div_s_odd(mul_s(mul_s(dx, g), m), den);
        lemma_div_s_odd(mul_s(mul_s(dy, g), m), den);
    }
}

/// Negation lifted over an optional scalar.
pub open spec fn opt_neg_int(o: Option<int>) -> Option<int> {
    match o {
        None => None,
        Some(v) => Some(-v),
    }
}

/// Law: the whole stage set mirrors: every stage term is odd in the stage
/// acceleration and the coordinate, so negating both negates the completed
/// update exactly.
pub proof fn lemma_component_antisymmetric(p: int, a: int, dt: int)
    ensures
        component_update_spec(-p, -a, dt) == opt_neg_int(component_update_spec(p, a, dt)),
{
    let k1 = mul_s(a, dt);
    let b2 = a + div_t(k1, 2);
    let k2 = mul_s(b2, dt);
    let b3 = a + div_t(k2, 2);
    let k3 = mul_s(b3, dt);
    let b4 = a + k3;
    let k4 = mul_s(b4, dt);
    let s3 = (k1 + (k2 + k2)) + (k3 + k3) + k4;
    lemma_mul_s_odd(a, dt);
    assert(mul_s(-a, dt) == -k1);
    lemma_div_t_odd(k1, 2);
    assert(-a + div_t(-k1, 2) == -b2);
    lemma_mul_s_odd(b2, dt);
    assert(mul_s(-b2, dt) == -k2);
    lemma_div_t_odd(k2, 2);
    assert(-a + div_t(-k2, 2) == -b3);
    lemma_mul_s_odd(b3, dt);
    assert(mul_s(-b3, dt) == -k3);
    lemma_mul_s_odd(b4, dt);
    assert(mul_s(-b4, dt) == -k4);
    lemma_div_t_odd(s3, 6);
    assert(-p + div_t(-s3, 6) == -(p + div_t(s3, 6)));
}

/// Law: a step keeps mirror symmetry: from positions symmetric about the
/// origin and equal masses, a completed step returns positions that are
/// again exact negatives of each other.
pub proof fn lemma_step_antisymmetric(p: V2, m: int, g: int, dt: int)
    ensures
        step_spec(p, neg_v2(p), m, m, g, dt) is Some ==> (step_spec(
            p,
            neg_v2(p),
            m,
            m,
            g,
            dt,
        )->0).1 == neg_v2((step_spec(p, neg_v2(p), m, m, g, dt)->0).0),
{
    lemma_accel_antiparallel(p, g, m);
    if step_spec(p, neg_v2(p), m, m, g, dt) is Some {
        let aa = accel_spec(p, neg_v2(p), g, m)->0;
        let ab = accel_spec(neg_v2(p), p, g, m)->0;
        assert(ab.x == -aa.x);
        assert(ab.y == -aa.y);
        lemma_component_antisymmetric(p.x, aa.x, dt);
        lemma_component_antisymmetric(p.y, aa.y, dt);
        assert((step_spec(p, neg_v2(p), m, m, g, dt)->0).1 =~= neg_v2(
            (step_spec(p, neg_v2(p), m, m, g, dt)->0).0,
        ));
    }
}

/// Law: from positions symmetric about the origin and equal masses, the two
/// first stage terms are exact negatives of each other.
pub proof fn lemma_first_stage_antiparallel(p: V2, g: int, m: int, dt: int)
    ensures
        first_stage_spec(p, neg_v2(p), g, m, dt) == opt_neg_v2(
            first_stage_spec(neg_v2(p), p, g, m, dt),
        ),
{
    lemma_accel_antiparallel(p, g, m);
    if accel_spec(neg_v2(p), p, g, m) is Some {
        let a = accel_spec(neg_v2(p), p, g, m)->0;
        lemma_mul_s_odd(a.x, dt);
        lemma_mul_s_odd(a.y, dt);
    }
}

} // verus!
