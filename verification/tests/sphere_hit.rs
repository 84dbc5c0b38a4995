use pathtracer::fixed::Fixed;
use pathtracer::hit_record::Hittable;
use pathtracer::material::lambertian::Lambertian;
use pathtracer::material::Material;
use pathtracer::ray::Ray;
use pathtracer::scalar::Scalar;
use pathtracer::sphere::Sphere;
use pathtracer::vec3::Vec3;

fn fx(units: i64, millionths: i64) -> Fixed {
    Fixed::from_raw(units * 1_000_000 + millionths)
}

fn v(x: i64, y: i64, z: i64) -> Vec3<Fixed> {
    Vec3::new(fx(x, 0), fx(y, 0), fx(z, 0))
}

fn grey() -> Material<Fixed> {
    Material::Lambertian(Lambertian::new(Vec3::new_diag(fx(0, 500_000))))
}

#[test]
fn ray_along_z_hits_sphere_at_one_and_a_half() {
    let sphere = Sphere::new(v(0, 0, 2), fx(0, 500_000), grey());
    let ray = Ray::new(v(0, 0, 0), v(0, 0, 1));
    let hit = sphere.hit(ray, fx(0, 1_000), fx(1_000, 0)).expect("the ray meets the sphere");
    assert_eq!(hit.t, fx(1, 500_000));
    assert_eq!(hit.hit_point.x, fx(0, 0));
    assert_eq!(hit.hit_point.y, fx(0, 0));
    assert_eq!(hit.hit_point.z, fx(1, 500_000));
    assert_eq!(hit.normal.x, fx(0, 0));
    assert_eq!(hit.normal.y, fx(0, 0));
    assert_eq!(hit.normal.z, fx(-1, 0));
    assert!(hit.front_face);
}

#[test]
fn ray_that_passes_beside_the_sphere_misses() {
    let sphere = Sphere::new(v(0, 0, 2), fx(0, 500_000), grey());
    let ray = Ray::new(v(0, 0, 0), v(0, 1, 0));
    assert!(sphere.hit(ray, fx(0, 1_000), fx(1_000, 0)).is_none());
}

#[test]
fn roots_outside_the_range_give_no_hit() {
    let sphere = Sphere::new(v(0, 0, 2), fx(0, 500_000), grey());
    let ray = Ray::new(v(0, 0, 0), v(0, 0, 1));
    // The roots are 1.5 and 2.5.
    assert!(sphere.hit(ray, fx(0, 1_000), fx(1, 0)).is_none());
    assert!(sphere.hit(ray, fx(3, 0), fx(10, 0)).is_none());
    assert!(sphere.hit(ray, fx(1, 500_000), fx(2, 500_000)).is_none());
}

#[test]
fn far_root_is_taken_when_the_near_one_is_out_of_range() {
    let sphere = Sphere::new(v(0, 0, 2), fx(0, 500_000), grey());
    let ray = Ray::new(v(0, 0, 0), v(0, 0, 1));
    let hit = sphere.hit(ray, fx(2, 0), fx(10, 0)).expect("the far root is in range");
    assert_eq!(hit.t, fx(2, 500_000));
    // Seen from inside, the stored normal is turned against the ray.
    assert!(!hit.front_face);
    assert_eq!(hit.normal.z, fx(-1, 0));
    assert_eq!(Fixed::from_int(1), fx(1, 0));
}
