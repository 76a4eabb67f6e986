use twobody::fixed::{add_fx, div_fx, half_fx, mul_fx, sixth_fx, sub_fx, SCALE};
use twobody::sim::{simulate, Particle, Vec2};

#[test]
fn scale_is_one_million() {
    assert_eq!(SCALE, 1_000_000);
}

#[test]
fn add_and_sub_are_exact() {
    assert_eq!(add_fx(2 * SCALE, 3 * SCALE), Some(5 * SCALE));
    assert_eq!(sub_fx(2 * SCALE, 3 * SCALE), Some(-SCALE));
    assert_eq!(add_fx(i64::MAX, 1), None);
    assert_eq!(sub_fx(i64::MIN + 1, 2), None);
}

#[test]
fn mul_rounds_toward_zero() {
    assert_eq!(mul_fx(2 * SCALE, 3 * SCALE), Some(6 * SCALE));
    // -1.5 scaled by 0.5 is -0.75; -3 units times 500000 units truncates to -1.
    assert_eq!(mul_fx(-3, SCALE / 2), Some(-1));
    assert_eq!(mul_fx(3, SCALE / 2), Some(1));
    assert_eq!(mul_fx(i64::MAX, i64::MAX), None);
}

#[test]
fn div_is_exact_scaled_quotient() {
    assert_eq!(div_fx(SCALE, 3 * SCALE), Some(333_333));
    assert_eq!(div_fx(-SCALE, 3 * SCALE), Some(-333_333));
    assert_eq!(div_fx(6 * SCALE, 2 * SCALE), Some(3 * SCALE));
}

#[test]
fn half_and_sixth_truncate() {
    assert_eq!(half_fx(-5), -2);
    assert_eq!(half_fx(5), 2);
    assert_eq!(sixth_fx(-7), -1);
    assert_eq!(sixth_fx(7), 1);
}

#[test]
fn particle_new_stores_fields() {
    let p = Particle::new(1, 2, 3, 4, 5);
    assert_eq!(p.position, Vec2 { x: 1, y: 2 });
    assert_eq!(p.velocity, Vec2 { x: 3, y: 4 });
    assert_eq!(p.mass, 5);
}

#[test]
fn empty_when_zero_steps() {
    let p1 = Particle::new(0, 0, 0, 0, SCALE);
    let p2 = Particle::new(SCALE, 0, 0, SCALE, SCALE);
    let samples = simulate(p1, p2, SCALE, SCALE / 10, 0).unwrap();
    assert_eq!(samples.len(), 0);
}

#[test]
fn constant_when_dt_zero() {
    let p1 = Particle::new(0, 0, 0, 0, SCALE);
    let p2 = Particle::new(SCALE, 0, 0, SCALE, SCALE);
    let samples = simulate(p1, p2, SCALE, 0, 5).unwrap();
    assert_eq!(samples.len(), 5);
    for s in &samples {
        assert_eq!(s.0, Vec2 { x: 0, y: 0 });
        assert_eq!(s.1, Vec2 { x: SCALE, y: 0 });
    }
}

#[test]
fn constant_when_g_zero() {
    let p1 = Particle::new(0, 0, 0, 0, SCALE);
    let p2 = Particle::new(SCALE, 0, 0, SCALE, SCALE);
    let samples = simulate(p1, p2, 0, SCALE / 10, 5).unwrap();
    assert_eq!(samples.len(), 5);
    for s in &samples {
        assert_eq!(s.0, Vec2 { x: 0, y: 0 });
        assert_eq!(s.1, Vec2 { x: SCALE, y: 0 });
    }
}

#[test]
fn acceleration_unit_value() {
    // Bodies two units apart: acceleration is delta * g * m / (2*2 + 1),
    // which is (-0.4, 0) of a unit.
    let p_self = Particle::new(0, 0, 0, 0, SCALE);
    let p_other = Particle::new(2 * SCALE, 0, 0, 0, SCALE);
    let a = p_self.acceleration(&p_other, SCALE).unwrap();
    assert_eq!(a, Vec2 { x: -400_000, y: 0 });
}

#[test]
fn coincident_bodies_feel_zero_acceleration() {
    let p_self = Particle::new(7 * SCALE, -3 * SCALE, 0, 0, SCALE);
    let p_other = Particle::new(7 * SCALE, -3 * SCALE, 0, 0, 9 * SCALE);
    let a = p_self.acceleration(&p_other, 5 * SCALE).unwrap();
    assert_eq!(a, Vec2 { x: 0, y: 0 });
}

#[test]
fn symmetric_accelerations_antiparallel() {
    let p1 = Particle::new(SCALE, SCALE / 2, 0, 0, SCALE);
    let p2 = Particle::new(-SCALE, -SCALE / 2, 0, 0, SCALE);
    let g = SCALE;
    let a1 = p1.acceleration(&p2, g).unwrap();
    let a2 = p2.acceleration(&p1, g).unwrap();
    assert_eq!(a1.x, -a2.x);
    assert_eq!(a1.y, -a2.y);
    // The first stage terms inherit the antiparallelism.
    let dt = SCALE / 10;
    let k1x = mul_fx(a1.x, dt).unwrap();
    let l1x = mul_fx(a2.x, dt).unwrap();
    assert_eq!(k1x, -l1x);
}

#[test]
fn update_position_moves_only_positions() {
    let mut p1 = Particle::new(0, 0, 0, 0, SCALE);
    let mut p2 = Particle::new(SCALE, 0, 0, SCALE, SCALE);
    let ok = p1.update_position(&mut p2, SCALE, SCALE / 10);
    assert!(ok);
    assert_eq!(p1.position, Vec2 { x: -52_585, y: 0 });
    assert_eq!(p2.position, Vec2 { x: 1_052_585, y: 0 });
    assert_eq!(p1.velocity, Vec2 { x: 0, y: 0 });
    assert_eq!(p2.velocity, Vec2 { x: 0, y: SCALE });
    assert_eq!(p1.mass, SCALE);
    assert_eq!(p2.mass, SCALE);
}

#[test]
fn end_to_end_trajectory() {
    let p1 = Particle::new(0, 0, 0, 0, SCALE);
    let p2 = Particle::new(SCALE, 0, 0, SCALE, SCALE);
    let samples = simulate(p1, p2, SCALE, SCALE / 10, 1000).unwrap();
    assert_eq!(samples.len(), 1000);
    // The first sample moves body A off the origin by a small,
    // deterministically reproducible offset.
    assert_ne!(samples[0].0, Vec2 { x: 0, y: 0 });
    assert_eq!(samples[0].0, Vec2 { x: -52_585, y: 0 });
    assert_eq!(samples[0].1, Vec2 { x: 1_052_585, y: 0 });
    // The softened law repels along the line between the bodies here, so
    // body A keeps drifting one way and body B the other.
    assert!(samples[999].0.x < samples[0].0.x);
    assert!(samples[999].1.x > samples[0].1.x);
    for s in &samples {
        assert_eq!(s.0.y, 0);
        assert_eq!(s.1.y, 0);
    }
}

#[test]
fn out_of_range_run_reports_none() {
    let p1 = Particle::new(i64::MAX, 0, 0, 0, SCALE);
    let p2 = Particle::new(-i64::MAX, 0, 0, 0, SCALE);
    assert_eq!(p1.acceleration(&p2, SCALE), None);
    assert_eq!(simulate(p1, p2, SCALE, SCALE / 10, 1), None);
}

#[test]
fn symmetric_step_stays_symmetric() {
    let mut p1 = Particle::new(SCALE, SCALE / 2, 0, 0, SCALE);
    let mut p2 = Particle::new(-SCALE, -SCALE / 2, 0, 0, SCALE);
    let ok = p1.update_position(&mut p2, SCALE, SCALE / 10);
    assert!(ok);
    assert_eq!(p2.position.x, -p1.position.x);
    assert_eq!(p2.position.y, -p1.position.y);
}
