use pathtracer::camera::Camera;
use pathtracer::color::{linear_to_gamma, ppm_image};
use pathtracer::fixed::Fixed;
use pathtracer::material::lambertian::Lambertian;
use pathtracer::material::metal::Metal;
use pathtracer::material::{Draw, Material};
use pathtracer::render::{render_pixel, SampleDraw, TraceLimits};
use pathtracer::sphere::Sphere;
use pathtracer::vec3::Vec3;
use pathtracer::world::World;

fn fx(units: i64, millionths: i64) -> Fixed {
    Fixed::from_raw(units * 1_000_000 + millionths)
}

fn v(x: i64, y: i64, z: i64) -> Vec3<Fixed> {
    Vec3::new(fx(x, 0), fx(y, 0), fx(z, 0))
}

fn raw(a: Vec3<Fixed>) -> (i64, i64, i64) {
    (a.x().raw(), a.y().raw(), a.z().raw())
}

fn camera() -> Camera<Fixed> {
    // A quarter-turn field of view: the tangent of its half is one.
    Camera::new(v(0, 0, 0), v(0, 0, -1), v(0, 1, 0), 2, 2, fx(1, 0))
}

fn limits(max_depth: u8) -> TraceLimits<Fixed> {
    TraceLimits { t_min: fx(0, 1_000), t_max: fx(1_000_000, 0), max_depth }
}

fn bounce() -> Draw<Fixed> {
    Draw { cube: v(0, 0, 1), coin: fx(0, 500_000) }
}

fn sample(v_offset: Fixed, h_offset: Fixed, bounces: usize) -> SampleDraw<Fixed> {
    SampleDraw { v_offset, h_offset, bounces: vec![bounce(); bounces] }
}

#[test]
fn camera_rays_pass_through_the_pixel_grid() {
    let camera = camera();
    let first = camera.get_ray_for_pixel(0, 0);
    assert_eq!(raw(first.origin()), (0, 0, 0));
    assert_eq!(raw(first.direction()), (500_000, 500_000, -1_000_000));
    assert_eq!(raw(camera.get_ray_for_pixel(1, 1).direction()), (-500_000, -500_000, -1_000_000));
    assert_eq!(raw(camera.get_ray_for_pixel(1, 0).direction()), (500_000, -500_000, -1_000_000));
    let moved = camera.get_ray_for_pixel_with_offset(0, fx(0, 500_000), 0, fx(0, 500_000));
    assert_eq!(raw(moved.direction()), (0, 0, -1_000_000));
    let back = camera.get_ray_for_pixel_with_offset(1, fx(0, -500_000), 1, fx(0, -500_000));
    assert_eq!(raw(back.direction()), (0, 0, -1_000_000));
}

#[test]
fn camera_follows_the_aspect_ratio_and_the_focal_length() {
    // Four pixels wide, two high, looking from two units away.
    let camera = Camera::new(v(0, 0, 2), v(0, 0, 0), v(0, 1, 0), 4, 2, fx(0, 500_000));
    // The viewport is two high and four wide at the distance two.
    let ray = camera.get_ray_for_pixel(0, 0);
    assert_eq!(raw(ray.origin()), (0, 0, 2_000_000));
    assert_eq!(raw(ray.direction()), (1_500_000, 500_000, -2_000_000));
    assert_eq!(raw(camera.get_ray_for_pixel(1, 3).direction()), (-1_500_000, -500_000, -2_000_000));
}

#[test]
fn a_single_sample_is_the_centre_ray() {
    let world: World<Sphere<Fixed>> = World::new();
    let camera = camera();
    let color = render_pixel(&camera, &world, limits(1), 0, 0, &[bounce()], &[]);
    let expected = camera.get_ray_for_pixel(0, 0).background();
    assert_eq!(raw(color), raw(expected));
}

#[test]
fn samples_are_averaged() {
    let world: World<Sphere<Fixed>> = World::new();
    let camera = camera();
    let jittered = [
        sample(fx(0, 500_000), fx(0, 500_000), 1),
        sample(fx(0, 500_000), fx(0, 500_000), 1),
        sample(fx(0, 500_000), fx(0, 500_000), 1),
    ];
    let color = render_pixel(&camera, &world, limits(1), 0, 0, &[bounce()], &jittered);
    let centre = camera.get_ray_for_pixel(0, 0).background();
    // The three moved rays look straight ahead and see the even blend.
    let level = Vec3::new(fx(0, 750_000), fx(0, 850_000), fx(1, 0));
    let sum = centre + level + level + level;
    assert_eq!(raw(color), raw(sum / fx(4, 0)));
    assert_eq!(color.z().raw(), 1_000_000);
}

#[test]
fn rendering_twice_gives_the_same_pixels() {
    let mut world = World::new();
    world.push(Sphere::new(v(0, 0, -3), fx(1, 0), Material::Metal(Metal::new(v(1, 1, 1), fx(0, 0)))));
    world.push(Sphere::new(
        v(0, -101, -3),
        fx(100, 0),
        Material::Lambertian(Lambertian::new(Vec3::new_diag(fx(0, 600_000)))),
    ));
    let camera = camera();
    let jittered = [
        sample(fx(0, 250_000), fx(0, -250_000), 3),
        sample(fx(0, -400_000), fx(0, 100_000), 3),
    ];
    let first = [bounce(), bounce(), bounce()];
    let mut one = Vec::new();
    let mut two = Vec::new();
    for row in 0..2 {
        for column in 0..2 {
            one.push(raw(render_pixel(&camera, &world, limits(3), row, column, &first, &jittered)));
            two.push(raw(render_pixel(&camera, &world, limits(3), row, column, &first, &jittered)));
        }
    }
    assert_eq!(one.len(), 4);
    assert_eq!(one, two);
    // The upper row sees more sky than the lower one.
    assert_ne!(one[0], one[2]);
}

#[test]
fn colours_become_text() {
    assert_eq!(Vec3::new(fx(1, 0), fx(1, 0), fx(1, 0)).ppm_format(), "255 255 255");
    assert_eq!(Vec3::new(fx(0, 0), fx(0, 250_000), fx(0, 500_000)).ppm_format(), "0 127 181");
    assert_eq!(Vec3::new(fx(0, 10_000), fx(0, 2_000), fx(9, 0)).ppm_format_ln(), "25 11 255\n");
    assert_eq!(Vec3::new(fx(-1, 0), fx(0, 1), fx(0, 160_000)).ppm_format(), "0 0 102");
    assert_eq!(linear_to_gamma(fx(0, 250_000)), fx(0, 500_000));
    assert_eq!(linear_to_gamma(fx(9, 0)), fx(3, 0));
}

#[test]
fn an_image_becomes_a_plain_text_file() {
    let pixels = [
        Vec3::new(fx(1, 0), fx(0, 0), fx(0, 0)),
        Vec3::new(fx(0, 0), fx(0, 250_000), fx(0, 500_000)),
    ];
    assert_eq!(ppm_image(2, 1, &pixels), "P3\n2 1\n255\n255 0 0\n0 127 181\n\n");
    let none: [Vec3<Fixed>; 0] = [];
    assert_eq!(ppm_image(1200, 800, &none), "P3\n1200 800\n255\n\n");
    assert_eq!(ppm_image(0, 4_294_967_295, &none), "P3\n0 4294967295\n255\n\n");
}
