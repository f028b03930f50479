use ray_tracing::ray::{CastHit, CastResult, Window, DEFAULT_T_MAX_BITS};
use ray_tracing::scalar::Scalar;
use ray_tracing::shape::Shape;
use ray_tracing::vec::Vec3;

fn sy(value: f32) -> Scalar {
    Scalar::from_bits(value.to_bits())
}

fn vy(x: f32, y: f32, z: f32) -> Vec3 {
    Vec3::new(sy(x), sy(y), sy(z))
}

fn float(value: Scalar) -> f32 {
    f32::from_bits(value.to_bits())
}

fn unit_sphere() -> Shape {
    Shape::Sphere { center: vy(0.0, 0.0, 0.0), radius: sy(1.0), color: vy(0.3, 1.0, 0.3) }
}

fn hit_with(collisions: Vec<Vec3>) -> CastResult {
    CastResult::Hit(CastHit {
        shape: unit_sphere(),
        entry: vy(0.0, 0.0, 1.0),
        collisions,
        normal: vy(0.0, 0.0, 1.0),
        time: sy(1.0),
    })
}

/// The numbers of the intersection of the ray `origin + t * direction` with a
/// sphere, computed as the renderer computes them: the discriminant, the two
/// roots, and for a root the entry point, the outward normal and how the ray
/// faces it.
struct Quadratic {
    discriminant: f32,
    root: f32,
    second_root: f32,
}

fn dot(a: [f32; 3], b: [f32; 3]) -> f32 {
    a[0] * b[0] + a[1] * b[1] + a[2] * b[2]
}

fn quadratic(origin: [f32; 3], direction: [f32; 3], center: [f32; 3], radius: f32) -> Quadratic {
    let oc = [origin[0] - center[0], origin[1] - center[1], origin[2] - center[2]];
    let a = dot(direction, direction);
    let half_b = dot(oc, direction);
    let c = dot(oc, oc) - radius * radius;
    let discriminant = half_b * half_b - a * c;
    let sqrtd = discriminant.sqrt();
    Quadratic { discriminant, root: (-half_b - sqrtd) / a, second_root: (-half_b + sqrtd) / a }
}

fn cast(shape: &Shape, origin: [f32; 3], direction: [f32; 3]) -> CastResult {
    let Shape::Sphere { center, radius, .. } = shape;
    let center = [float(center.x()), float(center.y()), float(center.z())];
    let radius = float(*radius);
    let q = quadratic(origin, direction, center, radius);
    match Window::default().hit_time(sy(q.discriminant), sy(q.root), sy(q.second_root)) {
        None => CastResult::Miss,
        Some(time) => {
            let t = float(time);
            let p = [
                origin[0] + direction[0] * t,
                origin[1] + direction[1] * t,
                origin[2] + direction[2] * t,
            ];
            let outward = [
                (p[0] - center[0]) * (1.0 / radius),
                (p[1] - center[1]) * (1.0 / radius),
                (p[2] - center[2]) * (1.0 / radius),
            ];
            shape.hit_at(
                vy(p[0], p[1], p[2]),
                vy(outward[0], outward[1], outward[2]),
                sy(dot(direction, outward)),
                time,
            )
        }
    }
}

#[test]
fn a_miss_counts_no_hit() {
    assert_eq!(CastResult::Miss.hit_count(), 0);
}

#[test]
fn a_hit_counts_its_entry_and_its_collisions() {
    assert_eq!(hit_with(vec![]).hit_count(), 1);
    assert_eq!(hit_with(vec![vy(0.0, 0.0, -1.0)]).hit_count(), 2);
    assert_eq!(hit_with(vec![vy(0.0, 0.0, -1.0), vy(0.0, 0.0, -2.0)]).hit_count(), 3);
}

#[test]
fn hit_of_a_miss_is_none() {
    assert!(CastResult::Miss.hit().is_none());
}

#[test]
fn hit_of_a_hit_is_its_record() {
    let record = hit_with(vec![vy(0.0, 0.0, -1.0)]).hit().expect("a hit");
    assert_eq!(record.shape, unit_sphere());
    assert_eq!(record.entry, vy(0.0, 0.0, 1.0));
    assert_eq!(record.normal, vy(0.0, 0.0, 1.0));
    assert_eq!(record.time, sy(1.0));
    assert_eq!(record.collisions, vec![vy(0.0, 0.0, -1.0)]);
}

#[test]
fn default_window_runs_from_zero_to_three() {
    let window = Window::default();
    assert_eq!(float(window.t_min), 0.0);
    assert_eq!(float(window.t_max), 3.0);
    assert_eq!(window.t_max.to_bits(), DEFAULT_T_MAX_BITS);
    assert_eq!(window, Window::new(sy(0.0), sy(3.0)));
}

#[test]
fn window_includes_both_of_its_ends() {
    let window = Window::default();
    assert!(!window.out_of_bounds(sy(0.0)));
    assert!(!window.out_of_bounds(sy(-0.0)));
    assert!(!window.out_of_bounds(sy(3.0)));
    assert!(!window.out_of_bounds(sy(1.5)));
}

#[test]
fn window_excludes_what_lies_outside() {
    let window = Window::default();
    assert!(window.out_of_bounds(sy(-1.0e-6)));
    assert!(window.out_of_bounds(sy(3.000_000_2)));
    assert!(window.out_of_bounds(sy(f32::INFINITY)));
    assert!(window.out_of_bounds(sy(f32::NEG_INFINITY)));
}

#[test]
fn window_does_not_exclude_nan() {
    assert!(!Window::default().out_of_bounds(sy(f32::NAN)));
}

#[test]
fn select_prefers_the_nearer_root() {
    assert_eq!(Window::default().select(sy(1.0), sy(2.0)), Some(sy(1.0)));
}

#[test]
fn select_falls_back_to_the_second_root() {
    assert_eq!(Window::default().select(sy(-1.0), sy(2.0)), Some(sy(2.0)));
    assert_eq!(Window::default().select(sy(3.5), sy(2.0)), Some(sy(2.0)));
}

#[test]
fn select_finds_nothing_when_both_roots_are_outside() {
    assert_eq!(Window::default().select(sy(-2.0), sy(-1.0)), None);
    assert_eq!(Window::default().select(sy(3.5), sy(4.0)), None);
    assert_eq!(Window::default().select(sy(-1.0), sy(4.0)), None);
}

#[test]
fn select_follows_a_window_of_ones_own() {
    let window = Window::new(sy(10.0), sy(20.0));
    assert_eq!(window.select(sy(1.0), sy(2.0)), None);
    assert_eq!(window.select(sy(1.0), sy(12.0)), Some(sy(12.0)));
    assert_eq!(window.select(sy(11.0), sy(12.0)), Some(sy(11.0)));
}

#[test]
fn hit_time_is_none_for_a_negative_discriminant() {
    assert_eq!(Window::default().hit_time(sy(-0.25), sy(1.0), sy(2.0)), None);
    assert_eq!(Window::default().hit_time(sy(-0.25), sy(f32::NAN), sy(f32::NAN)), None);
}

#[test]
fn hit_time_of_a_tangent_ray_is_its_double_root() {
    assert_eq!(Window::default().hit_time(sy(0.0), sy(2.0), sy(2.0)), Some(sy(2.0)));
    assert_eq!(Window::default().hit_time(sy(-0.0), sy(2.0), sy(2.0)), Some(sy(2.0)));
}

#[test]
fn hit_time_passes_a_nan_root_on() {
    let time = Window::default().hit_time(sy(f32::NAN), sy(f32::NAN), sy(1.0)).expect("a hit");
    assert!(time.is_nan());
}

#[test]
fn hit_at_keeps_the_normal_on_the_front_face() {
    let result = unit_sphere().hit_at(vy(0.0, 0.0, 1.0), vy(0.0, 0.0, 1.0), sy(-1.0), sy(1.0));
    let record = result.hit().expect("a hit");
    assert_eq!(record.normal, vy(0.0, 0.0, 1.0));
    assert_eq!(record.entry, vy(0.0, 0.0, 1.0));
    assert_eq!(record.time, sy(1.0));
    assert_eq!(record.shape, unit_sphere());
    assert!(record.collisions.is_empty());
}

#[test]
fn hit_at_flips_the_normal_on_the_back_face() {
    let result = unit_sphere().hit_at(vy(0.0, 0.0, -1.0), vy(0.0, 0.5, -1.0), sy(1.0), sy(1.0));
    assert_eq!(result.hit().expect("a hit").normal, vy(-0.0, -0.5, 1.0));
}

#[test]
fn hit_at_flips_the_normal_of_a_grazing_ray() {
    let result = unit_sphere().hit_at(vy(1.0, 0.0, 0.0), vy(1.0, 0.0, 0.0), sy(0.0), sy(2.0));
    assert_eq!(result.hit().expect("a hit").normal, vy(-1.0, -0.0, -0.0));
}

#[test]
fn ray_down_the_z_axis_hits_the_unit_sphere_at_one() {
    let result = cast(&unit_sphere(), [0.0, 0.0, 2.0], [0.0, 0.0, -1.0]);
    assert_eq!(result.hit_count(), 1);
    let record = result.hit().expect("a hit");
    assert_eq!(float(record.time), 1.0);
    assert_eq!(
        [float(record.normal.x()), float(record.normal.y()), float(record.normal.z())],
        [0.0, 0.0, 1.0]
    );
    assert_eq!(
        [float(record.entry.x()), float(record.entry.y()), float(record.entry.z())],
        [0.0, 0.0, 1.0]
    );
}

#[test]
fn ray_from_inside_the_sphere_hits_the_back_face() {
    let record = cast(&unit_sphere(), [0.0, 0.0, 0.0], [0.0, 0.0, -1.0]).hit().expect("a hit");
    assert_eq!(float(record.time), 1.0);
    assert_eq!(
        [float(record.entry.x()), float(record.entry.y()), float(record.entry.z())],
        [0.0, 0.0, -1.0]
    );
    assert_eq!(
        [float(record.normal.x()), float(record.normal.y()), float(record.normal.z())],
        [0.0, 0.0, 1.0]
    );
}

#[test]
fn ray_pointing_away_misses() {
    assert!(cast(&unit_sphere(), [0.0, 0.0, 2.0], [0.0, 0.0, 1.0]).hit().is_none());
}

#[test]
fn ray_passing_by_misses() {
    assert!(cast(&unit_sphere(), [0.0, 2.0, 2.0], [0.0, 0.0, -1.0]).hit().is_none());
}

#[test]
fn sphere_beyond_the_far_end_is_missed() {
    let far = Shape::Sphere { center: vy(0.0, 0.0, -10.0), radius: sy(1.0), color: Vec3::null() };
    assert!(cast(&far, [0.0, 0.0, 0.0], [0.0, 0.0, -1.0]).hit().is_none());
}
