use pathtracer::fixed::Fixed;
use pathtracer::material::dielectric::Dielectric;
use pathtracer::material::lambertian::Lambertian;
use pathtracer::material::Material;
use pathtracer::ray::Ray;
use pathtracer::sphere::Sphere;
use pathtracer::vec3::Vec3;
use pathtracer::world::World;

fn fx(units: i64, millionths: i64) -> Fixed {
    Fixed::from_raw(units * 1_000_000 + millionths)
}

fn v(x: i64, y: i64, z: i64) -> Vec3<Fixed> {
    Vec3::new(fx(x, 0), fx(y, 0), fx(z, 0))
}

fn diffuse() -> Material<Fixed> {
    Material::Lambertian(Lambertian::new(Vec3::new_diag(fx(0, 500_000))))
}

fn glass() -> Material<Fixed> {
    Material::Dielectric(Dielectric::new(fx(1, 500_000)))
}

fn near_sphere() -> Sphere<Fixed> {
    Sphere::new(v(0, 0, 2), fx(1, 0), diffuse())
}

fn far_sphere() -> Sphere<Fixed> {
    Sphere::new(v(0, 0, 3), fx(1, 0), glass())
}

fn forward() -> Ray<Fixed> {
    Ray::new(v(0, 0, 0), v(0, 0, 1))
}

#[test]
fn empty_world_has_no_hit() {
    let world: World<Sphere<Fixed>> = World::new();
    assert_eq!(world.len(), 0);
    assert!(world.hit(forward(), fx(0, 1_000), fx(1_000, 0)).is_none());
}

#[test]
fn overlapping_spheres_give_the_same_hit_in_both_orders() {
    let mut one = World::new();
    one.push(near_sphere());
    one.push(far_sphere());
    let mut other = World::new();
    other.push(far_sphere());
    other.push(near_sphere());
    assert_eq!(one.len(), 2);

    let a = one.hit(forward(), fx(0, 1_000), fx(1_000, 0)).expect("a sphere is hit");
    let b = other.hit(forward(), fx(0, 1_000), fx(1_000, 0)).expect("a sphere is hit");
    // The near sphere spans z from 1 to 3, the far one from 2 to 4.
    assert_eq!(a.t, fx(1, 0));
    assert_eq!(b.t, fx(1, 0));
    assert_eq!(a.hit_point.z, b.hit_point.z);
    assert_eq!(a.normal.z, fx(-1, 0));
    assert_eq!(b.normal.z, fx(-1, 0));
    assert!(a.front_face && b.front_face);
    assert!(matches!(a.material, Material::Lambertian(_)));
    assert!(matches!(b.material, Material::Lambertian(_)));
}

#[test]
fn the_nearest_of_three_is_found_wherever_it_stands() {
    let middle = Sphere::new(v(0, 0, 10), fx(1, 0), glass());
    let back = Sphere::new(v(0, 0, 20), fx(1, 0), glass());
    let front = Sphere::new(v(0, 0, 5), fx(1, 0), diffuse());
    let mut world = World::new();
    world.push(middle);
    world.push(back);
    world.push(front);
    let hit = world.hit(forward(), fx(0, 1_000), fx(1_000, 0)).expect("a sphere is hit");
    assert_eq!(hit.t, fx(4, 0));
    assert!(matches!(hit.material, Material::Lambertian(_)));
}

#[test]
fn of_two_equally_near_hits_the_earlier_shape_wins() {
    let mut world = World::new();
    world.push(Sphere::new(v(0, 0, 2), fx(1, 0), glass()));
    world.push(Sphere::new(v(0, 0, 2), fx(1, 0), diffuse()));
    let hit = world.hit(forward(), fx(0, 1_000), fx(1_000, 0)).expect("a sphere is hit");
    assert_eq!(hit.t, fx(1, 0));
    assert!(matches!(hit.material, Material::Dielectric(_)));
}

#[test]
fn a_hit_beyond_the_upper_bound_does_not_count() {
    let mut world = World::new();
    world.push(far_sphere());
    assert!(world.hit(forward(), fx(0, 1_000), fx(2, 0)).is_none());
    let hit = world.hit(forward(), fx(0, 1_000), fx(2, 1)).expect("the bound is open");
    assert_eq!(hit.t, fx(2, 0));
}
