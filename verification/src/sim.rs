//! The two-body integrator.
//!
//! Each particle feels the softened acceleration `delta * g * m /
//! (|delta|^2 + 1)`, where `delta` points from the other body to it (the
//! `+ 1` keeps the law well defined at zero separation, and for a positive
//! `g` it drives the bodies apart), and each step moves both positions by the weighted
//! Runge-Kutta combination `(k1 + 2*k2 + 2*k3 + k4) / 6` of four stage terms.
//! All stage terms of one step are evaluated against the positions from
//! before the step, and velocities are stored but never advanced: only the
//! stage terms move the positions.
//!
//! The module carries an exact mathematical model of every operation: the
//! spec functions below mirror the scaled arithmetic, including its rounding
//! and its range checks, so each executable function returns precisely the
//! value of its model, or `None` exactly when the model marks an intermediate
//! value as out of range.

use vstd::prelude::*;

verus! {

use crate::fixed::SCALE;
use crate::fixed::fits;
use crate::fixed::div_t;
use crate::fixed::mul_s;
use crate::fixed::div_s;
use crate::fixed::add_fx;
use crate::fixed::sub_fx;
use crate::fixed::mul_fx;
use crate::fixed::div_fx;
use crate::fixed::half_fx;
use crate::fixed::sixth_fx;

/// Mathematical model of a 2D vector: a pair of unbounded scaled integers.
#[verifier::ext_equal]
pub struct V2 {
    pub x: int,
    pub y: int,
}

/// Mathematical model of a particle.
#[verifier::ext_equal]
pub struct PState {
    pub position: V2,
    pub velocity: V2,
    pub mass: int,
}

/// A 2D vector of fixed-point scalars.
#[derive(Clone, Copy, Debug, PartialEq, Eq, Structural)]
pub struct Vec2 {
    pub x: i64,
    pub y: i64,
}

impl View for Vec2 {
    type V = V2;

    open spec fn view(&self) -> V2 {
        V2 { x: self.x as int, y: self.y as int }
    }
}

impl Vec2 {
    /// A vector from its two components.
    pub fn new(x: i64, y: i64) -> (v: Vec2)
        ensures
            v@ == (V2 { x: x as int, y: y as int }),
    {
        Vec2 { x, y }
    }
}

/// One point mass: a position, a velocity (stored, never advanced), and a mass.
#[derive(Clone, Copy, Debug)]
pub struct Particle {
    pub position: Vec2,
    pub velocity: Vec2,
    pub mass: i64,
}

impl View for Particle {
    type V = PState;

    open spec fn view(&self) -> PState {
        PState { position: self.position@, velocity: self.velocity@, mass: self.mass as int }
    }
}

/// The softened acceleration law on a body at `ps`, paired with a body at
/// `po` of mass `m`, under the gravitational constant `g`; `None` where an
/// intermediate value leaves the representable range.
pub open spec fn accel_spec(ps: V2, po: V2, g: int, m: int) -> Option<V2> {
    let dx: int = ps.x - po.x;
    let dy: int = ps.y - po.y;
    if !(fits(dx) && fits(dy)) {
        None
    } else {
        let x2: int = mul_s(dx, dx);
        let y2: int = mul_s(dy, dy);
        if !(fits(x2) && fits(y2)) {
            None
        } else {
            let d2: int = x2 + y2;
            if !fits(d2) {
                None
            } else {
                let den: int = d2 + SCALE;
                if !fits(den) {
                    None
                } else {
                    let tx: int = mul_s(dx, g);
                    let ty: int = mul_s(dy, g);
                    if !(fits(tx) && fits(ty)) {
                        None
                    } else {
                        let ux: int = mul_s(tx, m);
                        let uy: int = mul_s(ty, m);
                        if !(fits(ux) && fits(uy)) {
                            None
                        } else {
                            let ax: int = div_s(ux, den);
                            let ay: int = div_s(uy, den);
                            if !(fits(ax) && fits(ay)) {
                                None
                            } else {
                                Some(V2 { x: ax, y: ay })
                            }
                        }
                    }
                }
            }
        }
    }
}

/// One coordinate of one body across a step: the four stage terms
/// `k1 = a*dt`, `k2 = (a + k1/2)*dt`, `k3 = (a + k2/2)*dt`, `k4 = (a + k3)*dt`
/// from the stage acceleration `a`, and the move by their weighted mean
/// `(k1 + 2*k2 + 2*k3 + k4) / 6`.
pub open spec fn component_update_spec(p: int, a: int, dt: int) -> Option<int> {
    let k1: int = mul_s(a, dt);
    if !fits(k1) {
        None
    } else {
        let b2: int = a + div_t(k1, 2);
        if !fits(b2) {
            None
        } else {
            let k2: int = mul_s(b2, dt);
            if !fits(k2) {
                None
            } else {
                let b3: int = a + div_t(k2, 2);
                if !fits(b3) {
                    None
                } else {
                    let k3: int = mul_s(b3, dt);
                    if !fits(k3) {
                        None
                    } else {
                        let b4: int = a + k3;
                        if !fits(b4) {
                            None
                        } else {
                            let k4: int = mul_s(b4, dt);
                            if !fits(k4) {
                                None
                            } else {
                                let t2: int = k2 + k2;
                                let t3: int = k3 + k3;
                                if !(fits(t2) && fits(t3)) {
                                    None
                                } else {
                                    let s1: int = k1 + t2;
                                    if !fits(s1) {
                                        None
                                    } else {
                                        let s2: int = s1 + t3;
                                        if !fits(s2) {
                                            None
                                        } else {
                                            let s3: int = s2 + k4;
                                            if !fits(s3) {
                                                None
                                            } else {
                                                let np: int = p + div_t(s3, 6);
                                                if !fits(np) {
                                                    None
                                                } else {
                                                    Some(np)
                                                }
                                            }
                                        }
                                    }
                                }
                            }
                        }
                    }
                }
            }
        }
    }
}

/// One step of the integrator on both positions: both stage accelerations
/// are taken between the positions from before the step, then each
/// coordinate of each body moves by its weighted stage mean.
pub open spec fn step_spec(pa: V2, pb: V2, ma: int, mb: int, g: int, dt: int) -> Option<(V2, V2)> {
    match accel_spec(pa, pb, g, mb) {
        None => None,
        Some(aa) => match accel_spec(pb, pa, g, ma) {
            None => None,
            Some(ab) => {
                let nax: Option<int> = component_update_spec(pa.x, aa.x, dt);
                let nay: Option<int> = component_update_spec(pa.y, aa.y, dt);
                let nbx: Option<int> = component_update_spec(pb.x, ab.x, dt);
                let nby: Option<int> = component_update_spec(pb.y, ab.y, dt);
                if nax is Some && nay is Some && nbx is Some && nby is Some {
                    Some((V2 { x: nax->0, y: nay->0 }, V2 { x: nbx->0, y: nby->0 }))
                } else {
                    None
                }
            },
        },
    }
}

/// The full trajectory: `n` steps from the given positions, recording both
/// positions after each step.
pub open spec fn trajectory_spec(
    pa: V2,
    pb: V2,
    ma: int,
    mb: int,
    g: int,
    dt: int,
    n: nat,
) -> Option<Seq<(V2, V2)>>
    decreases n,
{
    if n == 0 {
        Some(Seq::empty())
    } else {
        match step_spec(pa, pb, ma, mb, g, dt) {
            None => None,
            Some(np) => match trajectory_spec(np.0, np.1, ma, mb, g, dt, (n - 1) as nat) {
                None => None,
                Some(rest) => Some(seq![np] + rest),
            },
        }
    }
}

/// The positions held in a recorded sequence of samples.
pub open spec fn samples_view(s: Seq<(Vec2, Vec2)>) -> Seq<(V2, V2)> {
    s.map_values(|p: (Vec2, Vec2)| (p.0@, p.1@))
}

/// A sequence prefix in front of an optional remainder.
pub open spec fn opt_prepend(
    prefix: Seq<(V2, V2)>,
    rest: Option<Seq<(V2, V2)>>,
) -> Option<Seq<(V2, V2)>> {
    match rest {
        None => None,
        Some(s) => Some(prefix + s),
    }
}

impl Particle {
    /// A particle from its initial position, velocity and mass.
    pub fn new(x: i64, y: i64, vx: i64, vy: i64, mass: i64) -> (p: Particle)
        ensures
            p@.position == (V2 { x: x as int, y: y as int }),
            p@.velocity == (V2 { x: vx as int, y: vy as int }),
            p@.mass == mass as int,
    {
        Particle { position: Vec2::new(x, y), velocity: Vec2::new(vx, vy), mass }
    }

    /// The acceleration this particle feels from `other`: exactly the value
    /// of the softened law, or `None` exactly where the law's model marks an
    /// intermediate value as out of range. At zero separation the softening
    /// makes the result an exact zero.
    pub fn acceleration(&self, other: &Particle, g: i64) -> (r: Option<Vec2>)
        ensures
            r is Some <==> accel_spec(self@.position, other@.position, g as int, other@.mass)
                is Some,
            r is Some ==> r->0@ == accel_spec(
                self@.position,
                other@.position,
                g as int,
                other@.mass,
            )->0,
            self@.position == other@.position ==> r == Some(Vec2 { x: 0i64, y: 0i64 }),
    {
        proof {
            crate::laws::lemma_accel_coincident(self@.position, g as int, other@.mass);
        }
        let dx: i64 = match sub_fx(self.position.x, other.position.x) {
            Some(v) => v,
            None => {
                return None;
            },
        };
        let dy: i64 = match sub_fx(self.position.y, other.position.y) {
            Some(v) => v,
            None => {
                return None;
            },
        };
        let x2: i64 = match mul_fx(dx, dx) {
            Some(v) => v,
            None => {
                return None;
            },
        };
        let y2: i64 = match mul_fx(dy, dy) {
            Some(v) => v,
            None => {
                return None;
            },
        };
        let d2: i64 = match add_fx(x2, y2) {
            Some(v) => v,
            None => {
                return None;
            },
        };
        let den: i64 = match add_fx(d2, SCALE) {
            Some(v) => v,
            None => {
                return None;
            },
        };
        proof {
            crate::laws::lemma_square_nonneg(dx as int);
            crate::laws::lemma_square_nonneg(dy as int);
        }
        let tx: i64 = match mul_fx(dx, g) {
            Some(v) => v,
            None => {
                return None;
            },
        };
        let ty: i64 = match mul_fx(dy, g) {
            Some(v) => v,
            None => {
                return None;
            },
        };
        let ux: i64 = match mul_fx(tx, other.mass) {
            Some(v) => v,
            None => {
                return None;
            },
        };
        let uy: i64 = match mul_fx(ty, other.mass) {
            Some(v) => v,
            None => {
                return None;
            },
        };
        let ax: i64 = match div_fx(ux, den) {
            Some(v) => v,
            None => {
                return None;
            },
        };
        let ay: i64 = match div_fx(uy, den) {
            Some(v) => v,
            None => {
                return None;
            },
        };
        Some(Vec2 { x: ax, y: ay })
    }

    /// One step: computes both stage accelerations from the current
    /// positions, then moves both positions by their weighted stage means.
    /// Velocities and masses never change. On an out-of-range intermediate
    /// value nothing moves and the step reports `false`.
    pub fn update_position(&mut self, other: &mut Particle, g: i64, dt: i64) -> (ok: bool)
        ensures
            final(self)@.velocity == old(self)@.velocity,
            final(self)@.mass == old(self)@.mass,
            final(other)@.velocity == old(other)@.velocity,
            final(other)@.mass == old(other)@.mass,
            ok == (step_spec(
                old(self)@.position,
                old(other)@.position,
                old(self)@.mass,
                old(other)@.mass,
                g as int,
                dt as int,
            ) is Some),
            ok ==> final(self)@.position == (step_spec(
                old(self)@.position,
                old(other)@.position,
                old(self)@.mass,
                old(other)@.mass,
                g as int,
                dt as int,
            )->0).0,
            ok ==> final(other)@.position == (step_spec(
                old(self)@.position,
                old(other)@.position,
                old(self)@.mass,
                old(other)@.mass,
                g as int,
                dt as int,
            )->0).1,
            !ok ==> final(self)@.position == old(self)@.position,
            !ok ==> final(other)@.position == old(other)@.position,
    {
        let aa = match self.acceleration(other, g) {
            Some(v) => v,
            None => {
                return false;
            },
        };
        let ab = match other.acceleration(self, g) {
            Some(v) => v,
            None => {
                return false;
            },
        };
        let nax: i64 = match update_component(self.position.x, aa.x, dt) {
            Some(v) => v,
            None => {
                return false;
            },
        };
        let nay: i64 = match update_component(self.position.y, aa.y, dt) {
            Some(v) => v,
            None => {
                return false;
            },
        };
        let nbx: i64 = match update_component(other.position.x, ab.x, dt) {
            Some(v) => v,
            None => {
                return false;
            },
        };
        let nby: i64 = match update_component(other.position.y, ab.y, dt) {
            Some(v) => v,
            None => {
                return false;
            },
        };
        self.position = Vec2 { x: nax, y: nay };
        other.position = Vec2 { x: nbx, y: nby };
        true
    }
}

/// One coordinate of one body across a step; returns exactly the value of
/// its model, or `None` exactly where the model does.
fn update_component(p: i64, a: i64, dt: i64) -> (r: Option<i64>)
    ensures
        r is Some <==> component_update_spec(p as int, a as int, dt as int) is Some,
        r is Some ==> r->0 == component_update_spec(p as int, a as int, dt as int)->0,
{
    let k1: i64 = match mul_fx(a, dt) {
        Some(v) => v,
        None => {
            return None;
        },
    };
    let b2: i64 = match add_fx(a, half_fx(k1)) {
        Some(v) => v,
        None => {
            return None;
        },
    };
    let k2: i64 = match mul_fx(b2, dt) {
        Some(v) => v,
        None => {
            return None;
        },
    };
    let b3: i64 = match add_fx(a, half_fx(k2)) {
        Some(v) => v,
        None => {
            return None;
        },
    };
    let k3: i64 = match mul_fx(b3, dt) {
        Some(v) => v,
        None => {
            return None;
        },
    };
    let b4: i64 = match add_fx(a, k3) {
        Some(v) => v,
        None => {
            return None;
        },
    };
    let k4: i64 = match mul_fx(b4, dt) {
        Some(v) => v,
        None => {
            return None;
        },
    };
    let t2: i64 = match add_fx(k2, k2) {
        Some(v) => v,
        None => {
            return None;
        },
    };
    let t3: i64 = match add_fx(k3, k3) {
        Some(v) => v,
        None => {
            return None;
        },
    };
    let s1: i64 = match add_fx(k1, t2) {
        Some(v) => v,
        None => {
            return None;
        },
    };
    let s2: i64 = match add_fx(s1, t3) {
        Some(v) => v,
        None => {
            return None;
        },
    };
    let s3: i64 = match add_fx(s2, k4) {
        Some(v) => v,
        None => {
            return None;
        },
    };
    add_fx(p, sixth_fx(s3))
}

/// Runs `num_steps` steps from the given initial particles and returns the
/// recorded positions of both bodies after each step, in step order; `None`
/// exactly where the model marks some intermediate value of some step as out
/// of range. Zero steps give an empty recording.
#[verifier::loop_isolation(false)]
pub fn simulate(p1: Particle, p2: Particle, g: i64, dt: i64, num_steps: usize) -> (r: Option<
    Vec<(Vec2, Vec2)>,
>)
    ensures
        r is Some <==> trajectory_spec(
            p1@.position,
            p2@.position,
            p1@.mass,
            p2@.mass,
            g as int,
            dt as int,
            num_steps as nat,
        ) is Some,
        r is Some ==> samples_view(r->0@) == trajectory_spec(
            p1@.position,
            p2@.position,
            p1@.mass,
            p2@.mass,
            g as int,
            dt as int,
            num_steps as nat,
        )->0,
        r is Some ==> r->0@.len() == num_steps,
        num_steps == 0 ==> r is Some && r->0@.len() == 0,
{
    let ghost pa0: V2 = p1@.position;
    let ghost pb0: V2 = p2@.position;
    let ghost ma: int = p1@.mass;
    let ghost mb: int = p2@.mass;
    let mut a = p1;
    let mut b = p2;
    let mut out: Vec<(Vec2, Vec2)> = Vec::new();
    let mut i: usize = 0;
    proof {
        assert(samples_view(out@) + trajectory_spec(pa0, pb0, ma, mb, g as int, dt as int,
            num_steps as nat)->0 =~= trajectory_spec(pa0, pb0, ma, mb, g as int, dt as int,
            num_steps as nat)->0);
    }
    while i < num_steps
        invariant
            i <= num_steps,
            a@.mass == ma,
            b@.mass == mb,
            out@.len() == i,
            trajectory_spec(pa0, pb0, ma, mb, g as int, dt as int, num_steps as nat)
                == opt_prepend(
                samples_view(out@),
                trajectory_spec(a@.position, b@.position, ma, mb, g as int, dt as int, (num_steps
                    - i) as nat),
            ),
        decreases num_steps - i,
    {
        let ghost pre_rest = trajectory_spec(a@.position, b@.position, ma, mb, g as int, dt as int,
            (num_steps - i) as nat);
        let ok = a.update_position(&mut b, g, dt);
        if !ok {
            proof {
                assert(pre_rest is None);
            }
            return None;
        }
        out.push((a.position, b.position));
        i = i + 1;
        proof {
            let post_rest = trajectory_spec(a@.position, b@.position, ma, mb, g as int, dt as int,
                (num_steps - i) as nat);
            let s: (V2, V2) = (a@.position, b@.position);
            assert(samples_view(out@) =~= samples_view(out@.drop_last()).push(s));
            if post_rest is Some {
                assert(samples_view(out@.drop_last()) + (seq![s] + post_rest->0) =~= samples_view(
                    out@,
                ) + post_rest->0);
            }
        }
    }
    proof {
        assert(trajectory_spec(a@.position, b@.position, ma, mb, g as int, dt as int, 0nat)
            == Some(Seq::<(V2, V2)>::empty()));
        assert(samples_view(out@) + Seq::<(V2, V2)>::empty() =~= samples_view(out@));
    }
    Some(out)
}

} // verus!
