use pathtracer::fixed::Fixed;
use pathtracer::material::lambertian::Lambertian;
use pathtracer::material::{Draw, Material};
use pathtracer::ray::Ray;
use pathtracer::sphere::Sphere;
use pathtracer::vec3::Vec3;
use pathtracer::world::World;

fn fx(units: i64, millionths: i64) -> Fixed {
    Fixed::from_raw(units * 1_000_000 + millionths)
}

fn v(x: i64, y: i64, z: i64) -> Vec3<Fixed> {
    Vec3::new(fx(x, 0), fx(y, 0), fx(z, 0))
}

fn draw(x: i64, y: i64, z: i64) -> Draw<Fixed> {
    Draw { cube: v(x, y, z), coin: fx(0, 500_000) }
}

fn one_sphere() -> World<Sphere<Fixed>> {
    let albedo = Vec3::new(fx(0, 500_000), fx(0, 400_000), fx(0, 200_000));
    let mut world = World::new();
    world.push(Sphere::new(v(0, 0, 2), fx(0, 500_000), Material::Lambertian(Lambertian::new(albedo))));
    world
}

fn components(c: Vec3<Fixed>) -> (i64, i64, i64) {
    (c.x().raw(), c.y().raw(), c.z().raw())
}

#[test]
fn depth_zero_is_black_whatever_the_scene() {
    let world = one_sphere();
    let empty: World<Sphere<Fixed>> = World::new();
    let draws = vec![draw(0, 0, -1)];
    for ray in [Ray::new(v(0, 0, 0), v(0, 0, 1)), Ray::new(v(0, 0, 0), v(0, 1, 0))] {
        assert_eq!(components(ray.cast(&world, fx(0, 1_000), fx(1_000, 0), 0, &draws)), (0, 0, 0));
        assert_eq!(components(ray.cast(&empty, fx(0, 1_000), fx(1_000, 0), 0, &[])), (0, 0, 0));
    }
}

#[test]
fn a_ray_straight_up_sees_sky_blue() {
    let world = one_sphere();
    let ray = Ray::new(v(0, 0, 0), v(0, 1, 0));
    let color = ray.cast(&world, fx(0, 1_000), fx(1_000, 0), 4, &[draw(0, 0, 1); 4]);
    assert_eq!(components(color), (500_000, 700_000, 1_000_000));
    assert_eq!(components(ray.background()), (500_000, 700_000, 1_000_000));
}

#[test]
fn a_ray_straight_down_sees_white() {
    let world: World<Sphere<Fixed>> = World::new();
    let ray = Ray::new(v(0, 0, 0), v(0, -3, 0));
    let color = ray.cast(&world, fx(0, 1_000), fx(1_000, 0), 1, &[draw(0, 0, 1)]);
    assert_eq!(components(color), (1_000_000, 1_000_000, 1_000_000));
}

#[test]
fn a_level_ray_sees_the_even_blend() {
    let world: World<Sphere<Fixed>> = World::new();
    let ray = Ray::new(v(0, 0, 0), v(2, 0, 0));
    let color = ray.cast(&world, fx(0, 1_000), fx(1_000, 0), 1, &[draw(0, 0, 1)]);
    assert_eq!(components(color), (750_000, 850_000, 1_000_000));
}

#[test]
fn one_bounce_brings_back_the_attenuated_background() {
    let world = one_sphere();
    let ray = Ray::new(v(0, 0, 0), v(0, 0, 1));
    // The ray meets the sphere at (0, 0, 1.5) with the normal (0, 0, -1). The
    // draw adds (0, 0, -1), so the scattered ray leaves along (0, 0, -2),
    // misses, and sees the even blend (0.75, 0.85, 1), which the albedo
    // (0.5, 0.4, 0.2) attenuates.
    let draws = [draw(0, 0, -1), draw(0, 0, -1)];
    let color = ray.cast(&world, fx(0, 1_000), fx(1_000, 0), 2, &draws);
    assert_eq!(components(color), (375_000, 340_000, 200_000));
    // The same arguments give the same colour again.
    let again = ray.cast(&world, fx(0, 1_000), fx(1_000, 0), 2, &draws);
    assert_eq!(components(again), components(color));
}

#[test]
fn a_bounce_with_no_depth_left_is_black() {
    let world = one_sphere();
    let ray = Ray::new(v(0, 0, 0), v(0, 0, 1));
    let color = ray.cast(&world, fx(0, 1_000), fx(1_000, 0), 1, &[draw(0, 0, -1)]);
    assert_eq!(components(color), (0, 0, 0));
}

#[test]
fn ray_points_lie_along_the_direction() {
    let ray = Ray::new(v(1, 2, 3), v(0, -2, 4));
    assert_eq!(components(ray.at(fx(1, 500_000))), (1_000_000, -1_000_000, 9_000_000));
    assert_eq!(components(ray.origin()), (1_000_000, 2_000_000, 3_000_000));
    assert_eq!(components(ray.direction()), (0, -2_000_000, 4_000_000));
}
