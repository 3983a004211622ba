use relativistic_ray_tracing::camera::{
    accumulate, max_radiance, sample_radiance, tone_map, Camera, Pixel, ToneCurve,
};
use relativistic_ray_tracing::fraction::Fraction;
use relativistic_ray_tracing::obstacle::{CollisionPoint, Position, Rgb};
use relativistic_ray_tracing::ray::{Ray, Status};

fn camera(width: u32, height: u32) -> Camera {
    Camera { position: Position { radius: 800, polar: 0, altitude: 0 }, im_size: [width, height] }
}

fn grey(v: u64) -> Rgb {
    Rgb { r: v, g: v, b: v }
}

#[test]
fn default_camera() {
    let camera = Camera::new();
    assert_eq!(camera.im_size, [100, 100]);
    assert_eq!(camera.position, Position { radius: 0, polar: 0, altitude: 0 });
}

#[test]
fn camera_emits_rays_from_its_position() {
    let camera = camera(10, 10);
    let ray = camera.emit();
    assert_eq!(ray, Ray { position: camera.position, steps: 0, status: Status::Stepping });
}

#[test]
fn grid_side_is_the_square_root_rounded_down() {
    assert_eq!(Camera::grid_side(0), 0);
    assert_eq!(Camera::grid_side(1), 1);
    assert_eq!(Camera::grid_side(3), 1);
    assert_eq!(Camera::grid_side(4), 2);
    assert_eq!(Camera::grid_side(8), 2);
    assert_eq!(Camera::grid_side(9), 3);
    assert_eq!(Camera::grid_side(16), 4);
    assert_eq!(Camera::grid_side(17), 4);
    assert_eq!(Camera::grid_side(1_000_000), 1000);
    assert_eq!(Camera::grid_side(999_999), 999);
}

#[test]
fn grid_side_of_the_largest_count() {
    let side = Camera::grid_side(usize::MAX) as u128;
    assert!(side * side <= usize::MAX as u128);
    assert!((side + 1) * (side + 1) > usize::MAX as u128);
}

#[test]
fn pixels_run_row_after_row() {
    let list = camera(3, 2).pixels();
    assert_eq!(list, Some(vec![(0, 0), (1, 0), (2, 0), (0, 1), (1, 1), (2, 1)]));
}

#[test]
fn pixels_of_a_larger_image() {
    let list = camera(10, 7).pixels().unwrap();
    assert_eq!(list.len(), 70);
    for (k, (x, y)) in list.iter().enumerate() {
        assert_eq!(*x as usize, k % 10);
        assert_eq!(*y as usize, k / 10);
    }
}

#[test]
fn image_without_pixels() {
    assert_eq!(camera(0, 5).pixels(), Some(Vec::new()));
    assert_eq!(camera(5, 0).pixels(), Some(Vec::new()));
}

#[test]
fn sample_offset_of_single_samples() {
    let camera = camera(10, 4);
    assert_eq!(camera.sample_offset(0, 0, 1, 0), Some(Fraction { num: -9, den: 20 }));
    assert_eq!(camera.sample_offset(0, 9, 1, 0), Some(Fraction { num: 9, den: 20 }));
    assert_eq!(camera.sample_offset(1, 0, 1, 0), Some(Fraction { num: -3, den: 8 }));
    assert_eq!(camera.sample_offset(1, 3, 1, 0), Some(Fraction { num: 3, den: 8 }));
    assert_eq!(camera.sample_offset(7, 2, 1, 0), Some(Fraction { num: 1, den: 8 }));
}

#[test]
fn sample_offset_matches_the_sum_of_pixel_and_sub_sample_offsets() {
    let camera = camera(10, 10);
    let offset = camera.sample_offset(0, 3, 2, 1).unwrap();
    assert_eq!(offset, Fraction { num: -5, den: 40 });
    let fov = std::f64::consts::PI / 4.0;
    let expected = (3.0 - (10.0 - 1.0) / 2.0) * fov / 10.0 + (1.0 - (2.0 - 1.0) / 2.0) * fov / (10.0 * 2.0);
    let got = offset.num as f64 / offset.den as f64 * fov;
    assert!((got - expected).abs() < 1e-12);
}

#[test]
fn sample_offsets_stay_inside_the_view_and_are_evenly_spaced() {
    let camera = camera(5, 5);
    let grid = 3;
    let mut last: Option<i128> = None;
    for pixel in 0..5 {
        for sub in 0..grid {
            let f = camera.sample_offset(0, pixel, grid, sub).unwrap();
            assert_eq!(f.den, 30);
            assert!(-f.den < 2 * f.num && 2 * f.num < f.den);
            if let Some(previous) = last {
                assert_eq!(f.num, previous + 2);
            }
            last = Some(f.num);
        }
    }
    assert_eq!(last, Some(14));
}

#[test]
fn sample_offsets_mirror_about_the_middle() {
    let camera = camera(6, 6);
    for pixel in 0..6 {
        for sub in 0..4 {
            let f = camera.sample_offset(1, pixel, 4, sub).unwrap();
            let g = camera.sample_offset(1, 5 - pixel, 4, 3 - sub).unwrap();
            assert_eq!(f.num, -g.num);
            assert_eq!(f.den, g.den);
        }
    }
}

#[test]
fn no_sample_offset_without_samples() {
    assert_eq!(camera(0, 4).sample_offset(0, 0, 1, 0), None);
    assert_eq!(camera(4, 0).sample_offset(1, 0, 1, 0), None);
    assert_eq!(camera(4, 4).sample_offset(0, 0, 0, 0), None);
    assert!(camera(0, 4).sample_offset(1, 0, 1, 0).is_some());
}

#[test]
fn sample_offset_at_the_limits_of_the_types() {
    let camera = camera(u32::MAX, 1);
    let f = camera.sample_offset(0, u32::MAX, usize::MAX, usize::MAX).unwrap();
    let n = usize::MAX as i128;
    let s = u32::MAX as i128;
    assert_eq!(f.num, 2 * (s * n + n) + 1 - n * s);
    assert_eq!(f.den, 2 * n * s);
}

#[test]
fn collided_ray_adds_the_surface_colour() {
    let point = CollisionPoint { obstacle: 2, at: Fraction { num: 1, den: 4 } };
    let mut ray = Ray::new();
    ray.status = Status::Collided(point);
    let surface = Rgb { r: 7, g: 8, b: 9 };
    assert_eq!(sample_radiance(&ray, surface, 255), surface);
}

#[test]
fn diverged_ray_adds_red_and_escaped_ray_adds_blue() {
    let surface = Rgb { r: 7, g: 8, b: 9 };
    let mut ray = Ray::new();
    ray.status = Status::Diverged;
    assert_eq!(sample_radiance(&ray, surface, 255), Rgb { r: 255, g: 0, b: 0 });
    ray.status = Status::Escaped;
    assert_eq!(sample_radiance(&ray, surface, 255), Rgb { r: 0, g: 0, b: 255 });
    ray.status = Status::Stepping;
    assert_eq!(sample_radiance(&ray, surface, 1000), Rgb { r: 0, g: 0, b: 1000 });
}

#[test]
fn radiance_adds_up_channel_by_channel() {
    let total = Rgb { r: 1, g: 20, b: 300 };
    let sample = Rgb { r: 4, g: 50, b: 600 };
    assert_eq!(accumulate(&total, &sample), Some(Rgb { r: 5, g: 70, b: 900 }));
    assert_eq!(accumulate(&total, &grey(0)), Some(total));
}

#[test]
fn radiance_that_does_not_fit_is_refused() {
    let total = Rgb { r: u64::MAX, g: 0, b: 0 };
    assert_eq!(accumulate(&total, &Rgb { r: 1, g: 0, b: 0 }), None);
    assert_eq!(accumulate(&Rgb { r: 0, g: u64::MAX, b: 0 }, &grey(1)), None);
    assert_eq!(accumulate(&Rgb { r: 0, g: 0, b: u64::MAX }, &grey(1)), None);
    assert_eq!(
        accumulate(&Rgb { r: u64::MAX - 1, g: 0, b: 0 }, &grey(1)),
        Some(Rgb { r: u64::MAX, g: 1, b: 1 })
    );
}

#[test]
fn largest_channel_of_a_buffer() {
    assert_eq!(max_radiance(&Vec::new()), 0);
    assert_eq!(max_radiance(&vec![grey(0), grey(0)]), 0);
    let buffer = vec![
        Rgb { r: 3, g: 9, b: 1 },
        Rgb { r: 12, g: 2, b: 5 },
        Rgb { r: 0, g: 0, b: 11 },
    ];
    assert_eq!(max_radiance(&buffer), 12);
    assert_eq!(max_radiance(&vec![Rgb { r: 1, g: 2, b: u64::MAX }]), u64::MAX);
}

#[test]
fn linear_curve_has_one_level_for_each_display_value() {
    let curve = ToneCurve::linear();
    assert_eq!(curve.len(), 256);
    assert_eq!(curve.level(0, 255), 0);
    assert_eq!(curve.level(1, 255), 1);
    assert_eq!(curve.level(200, 255), 200);
    assert_eq!(curve.level(255, 255), 255);
}

#[test]
fn brightest_channel_maps_to_full_brightness() {
    let buffer = vec![
        Rgb { r: 10, g: 500, b: 250 },
        Rgb { r: 1000, g: 0, b: 999 },
        Rgb { r: 333, g: 1, b: 750 },
    ];
    let pixels = tone_map(&buffer, &ToneCurve::linear());
    assert_eq!(
        pixels,
        vec![
            Pixel { r: 2, g: 127, b: 63 },
            Pixel { r: 255, g: 0, b: 254 },
            Pixel { r: 84, g: 0, b: 191 },
        ]
    );
}

#[test]
fn every_pixel_at_the_peak_is_full_and_none_is_brighter() {
    let buffer = vec![grey(40), Rgb { r: 40, g: 39, b: 0 }, grey(20), grey(1)];
    let pixels = tone_map(&buffer, &ToneCurve::linear());
    assert_eq!(pixels[0], Pixel { r: 255, g: 255, b: 255 });
    assert_eq!(pixels[1], Pixel { r: 255, g: 248, b: 0 });
    assert_eq!(pixels[2], Pixel { r: 127, g: 127, b: 127 });
    assert_eq!(pixels[3], Pixel { r: 6, g: 6, b: 6 });
}

#[test]
fn tone_mapping_does_not_depend_on_the_scale_of_radiance() {
    let small = vec![grey(1), grey(2), grey(4)];
    let large = vec![grey(1 << 60), grey(2 << 60), grey(4 << 60)];
    let curve = ToneCurve::linear();
    assert_eq!(tone_map(&small, &curve), tone_map(&large, &curve));
    assert_eq!(tone_map(&small, &curve)[0], Pixel { r: 63, g: 63, b: 63 });
}

#[test]
fn image_without_light_is_black() {
    let pixels = tone_map(&vec![grey(0), grey(0)], &ToneCurve::linear());
    assert_eq!(pixels, vec![Pixel { r: 0, g: 0, b: 0 }, Pixel { r: 0, g: 0, b: 0 }]);
    assert_eq!(tone_map(&Vec::new(), &ToneCurve::linear()), Vec::new());
}

#[test]
fn curve_must_hold_a_level_and_never_fall() {
    assert!(ToneCurve::from_levels(Vec::new()).is_none());
    assert!(ToneCurve::from_levels(vec![0, 10, 9]).is_none());
    assert!(ToneCurve::from_levels(vec![5, 4]).is_none());
    assert!(ToneCurve::from_levels(vec![7]).is_some());
    assert!(ToneCurve::from_levels(vec![0, 0, 10, 10, 255]).is_some());
}

#[test]
fn tabulated_curve_is_read_at_the_share_of_the_peak() {
    // Five levels: shares 0, 1/4, 1/2, 3/4 and 1 of the peak.
    let curve = ToneCurve::from_levels(vec![0, 100, 150, 200, 255]).unwrap();
    assert_eq!(curve.len(), 5);
    assert_eq!(curve.level(0, 1000), 0);
    assert_eq!(curve.level(249, 1000), 0);
    assert_eq!(curve.level(250, 1000), 100);
    assert_eq!(curve.level(500, 1000), 150);
    assert_eq!(curve.level(999, 1000), 200);
    assert_eq!(curve.level(1000, 1000), 255);
}

#[test]
fn value_beyond_the_peak_is_clamped() {
    let curve = ToneCurve::from_levels(vec![0, 100, 150, 200, 255]).unwrap();
    assert_eq!(curve.level(5000, 1000), 255);
    assert_eq!(curve.level(u64::MAX, 1), 255);
    assert_eq!(curve.level(7, 0), 0);
}

#[test]
fn single_level_curve_shows_everything_alike() {
    let curve = ToneCurve::from_levels(vec![9]).unwrap();
    assert_eq!(curve.level(0, 10), 9);
    assert_eq!(curve.level(10, 10), 9);
    assert_eq!(curve.level(0, 0), 9);
}

#[test]
fn render_wants_one_entry_for_each_pixel() {
    let camera = camera(2, 2);
    let curve = ToneCurve::linear();
    assert_eq!(camera.render(&vec![grey(1), grey(2), grey(3)], &curve), None);
    assert_eq!(camera.render(&Vec::new(), &curve), None);
    let image = camera.render(&vec![grey(1), grey(2), grey(3), grey(4)], &curve);
    assert_eq!(
        image,
        Some(vec![
            Pixel { r: 63, g: 63, b: 63 },
            Pixel { r: 127, g: 127, b: 127 },
            Pixel { r: 191, g: 191, b: 191 },
            Pixel { r: 255, g: 255, b: 255 },
        ])
    );
}

#[test]
fn render_of_an_image_without_pixels() {
    let curve = ToneCurve::linear();
    assert_eq!(camera(0, 3).render(&Vec::new(), &curve), Some(Vec::new()));
}

#[test]
fn every_sample_lies_inside_its_own_pixel() {
    let camera = camera(7, 7);
    let size: i128 = 7;
    let grid: i128 = 3;
    for pixel in 0..7u32 {
        for sub in 0..3usize {
            let f = camera.sample_offset(0, pixel, 3, sub).unwrap();
            let left = (2 * pixel as i128 - size) * grid;
            let right = (2 * pixel as i128 + 2 - size) * grid;
            assert!(left < f.num && f.num < right);
        }
    }
}

#[test]
fn every_pixel_is_listed_at_its_own_place() {
    let list = camera(4, 3).pixels().unwrap();
    for y in 0..3u32 {
        for x in 0..4u32 {
            let places: Vec<usize> =
                (0..list.len()).filter(|k| list[*k] == (x, y)).collect();
            assert_eq!(places, vec![(y * 4 + x) as usize]);
        }
    }
}

#[test]
fn image_too_large_to_be_held_has_no_pixel_list() {
    assert_eq!(camera(u32::MAX, u32::MAX).pixels(), None);
}
