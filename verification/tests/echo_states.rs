use blind_depths::camera::Camera2D;
use blind_depths::echo::{alpha_exec, Echo};
use blind_depths::mask::{CollisionMask, Rgba};
use blind_depths::units::{Heading, Point};

const RED: Rgba = Rgba { r: 255, g: 0, b: 0, a: 255 };
const ROCK: Rgba = Rgba { r: 10, g: 20, b: 30, a: 255 };
const EAST: Heading = Heading { cos: 1000, sin: 0 };

fn mask_with(width: usize, height: usize, x: usize, y: usize, c: Rgba) -> CollisionMask {
    let mut bytes = vec![0u8; width * height * 4];
    let i = (y * width + x) * 4;
    bytes[i] = c.r;
    bytes[i + 1] = c.g;
    bytes[i + 2] = c.b;
    bytes[i + 3] = c.a;
    CollisionMask::new(bytes, width, height).unwrap()
}

fn camera() -> Camera2D {
    Camera2D::new(0, 0, 640_000, 360_000)
}

#[test]
fn new_echo_travels_at_full_life() {
    let e = Echo::new(1, 2, 3, ROCK);
    assert_eq!(e.pos, Point { x: 1, y: 2 });
    assert_eq!(e.dir, 3);
    assert!(!e.hit);
    assert!(!e.no_find);
    assert_eq!(e.hit_color, ROCK);
    assert_eq!(e.lifetime, 1_000_000);
}

#[test]
fn echo_over_open_water_only_moves() {
    let mask = mask_with(20, 20, 19, 19, ROCK);
    let mut e = Echo::new(1_500, 2_500, 0, Rgba::purple());
    e.advance(&mask, &camera(), EAST, 1000, 5);
    assert_eq!(
        e,
        Echo {
            pos: Point { x: 7_500, y: 2_500 },
            dir: 0,
            hit: false,
            hit_color: Rgba::purple(),
            no_find: false,
            lifetime: 1_000_000,
        }
    );
}

#[test]
fn echo_leaving_the_mask_keeps_travelling() {
    let mask = mask_with(4, 4, 0, 0, ROCK);
    let mut e = Echo::new(3_500, 2_500, 0, Rgba::purple());
    e.advance(&mask, &camera(), EAST, 1000, 5);
    assert_eq!(e.pos, Point { x: 9_500, y: 2_500 });
    assert!(!e.hit);
    assert!(!e.no_find);
    assert_eq!(e.hit_color, Rgba::purple());
}

#[test]
fn echo_on_rock_embeds_and_takes_the_colour() {
    let mask = mask_with(20, 20, 7, 2, ROCK);
    let mut e = Echo::new(1_500, 2_500, 90_000, Rgba::purple());
    e.advance(&mask, &camera(), EAST, 1000, 5);
    assert_eq!(
        e,
        Echo {
            pos: Point { x: 12_500, y: 2_500 },
            dir: 90_000,
            hit: true,
            hit_color: ROCK,
            no_find: false,
            lifetime: 1_000_000,
        }
    );
}

#[test]
fn echo_embedding_scales_with_heading_and_time() {
    let mask = mask_with(20, 20, 4, 5, ROCK);
    let mut e = Echo::new(2_000, 2_000, 0, Rgba::purple());
    let heading = Heading { cos: 600, sin: 800 };
    e.advance(&mask, &camera(), heading, 1000, 10);
    assert_eq!(e.pos, Point { x: 5_600, y: 6_800 });
    assert!(!e.hit);
    let mask = mask_with(20, 20, 5, 6, ROCK);
    let mut e = Echo::new(2_000, 2_000, 0, Rgba::purple());
    e.advance(&mask, &camera(), heading, 1000, 10);
    assert_eq!(e.pos, Point { x: 5_600 + 6_000, y: 6_800 + 8_000 });
    assert!(e.hit);
    let mut e = Echo::new(2_000, 2_000, 0, Rgba::purple());
    e.advance(&mask, &camera(), heading, 500, 10);
    assert_eq!(e.pos, Point { x: 3_800, y: 4_400 });
    assert!(!e.hit);
}

#[test]
fn echo_sampling_red_is_swallowed_where_it_sampled() {
    let mask = mask_with(20, 20, 7, 2, RED);
    let mut e = Echo::new(1_500, 2_500, 0, Rgba::purple());
    e.advance(&mask, &camera(), EAST, 1000, 79);
    assert!(e.no_find);
    assert!(!e.hit);
    assert_eq!(e.hit_color.a, 0);
    assert_eq!(e.hit_color, Rgba::transparent());
    assert_eq!(e.pos, Point { x: 7_500, y: 2_500 });
    assert_eq!(e.lifetime, 1_000_000);
}

#[test]
fn swallowed_echo_never_changes_again() {
    let mask = mask_with(20, 20, 7, 2, RED);
    let rock = mask_with(20, 20, 13, 2, ROCK);
    let mut e = Echo::new(1_500, 2_500, 0, Rgba::purple());
    e.update(&mask, &camera(), EAST, 1000);
    let frozen = e;
    assert!(frozen.no_find);
    for _ in 0..300 {
        e.update(&rock, &camera(), EAST, 1000);
        assert_eq!(e, frozen);
        e.advance(&mask, &camera(), Heading { cos: 0, sin: -1000 }, 250_000, 40);
        assert_eq!(e, frozen);
    }
}

#[test]
fn settled_echo_fades_by_four_thousandths_a_tick() {
    let mask = mask_with(20, 20, 7, 2, ROCK);
    let mut e = Echo::new(1_500, 2_500, 0, Rgba::purple());
    e.advance(&mask, &camera(), EAST, 1000, 1);
    assert!(e.hit);
    let settled_at = e.pos;
    e.advance(&mask, &camera(), EAST, 1000, 1);
    assert_eq!(e.lifetime, 996_000);
    assert_eq!(e.hit_color, Rgba { r: 10, g: 20, b: 30, a: 253 });
    assert_eq!(e.pos, settled_at);
    e.advance(&mask, &camera(), EAST, 2500, 1);
    assert_eq!(e.lifetime, 986_000);
    assert_eq!(e.hit_color.a, 251);
}

#[test]
fn settled_lifetime_never_grows_and_stops_at_expiry() {
    let mask = mask_with(20, 20, 7, 2, ROCK);
    let mut e = Echo::new(1_500, 2_500, 0, Rgba::purple());
    e.update(&mask, &camera(), EAST, 1000);
    assert!(e.hit);
    let mut before = e.lifetime;
    let mut updates = 0;
    while e.lifetime > 0 {
        e.update(&mask, &camera(), EAST, 1000);
        assert!(e.lifetime <= before);
        assert!(e.hit);
        before = e.lifetime;
        updates += 1;
    }
    assert_eq!(updates, 250);
    assert_eq!(e.lifetime, 0);
    assert_eq!(e.hit_color.a, 0);
    let expired = e;
    e.update(&mask, &camera(), EAST, 1000);
    assert_eq!(e, expired);
}

#[test]
fn expired_echo_is_not_updated() {
    let mask = mask_with(20, 20, 7, 2, ROCK);
    let mut e = Echo::new(1_500, 2_500, 0, Rgba::purple());
    e.lifetime = 0;
    let before = e;
    e.advance(&mask, &camera(), EAST, 1000, 3);
    assert_eq!(e, before);
    e.lifetime = -100_000;
    e.hit = true;
    let before = e;
    e.update(&mask, &camera(), EAST, 1000);
    assert_eq!(e, before);
}

#[test]
fn fading_can_overshoot_below_zero() {
    let mask = mask_with(20, 20, 7, 2, ROCK);
    let mut e = Echo::new(1_500, 2_500, 0, ROCK);
    e.hit = true;
    e.lifetime = 1_000;
    e.advance(&mask, &camera(), EAST, 1_000_000, 1);
    assert_eq!(e.lifetime, -3_999_000);
    assert_eq!(e.hit_color.a, 0);
}

#[test]
fn random_embedding_lies_between_one_and_seventy_nine_steps() {
    let mask = mask_with(20, 20, 7, 2, ROCK);
    let mut seen_low = false;
    let mut seen_high = false;
    for _ in 0..2000 {
        let mut e = Echo::new(1_500, 2_500, 0, Rgba::purple());
        e.update(&mask, &camera(), EAST, 1000);
        assert!(e.hit);
        assert_eq!(e.hit_color, ROCK);
        assert_eq!(e.pos.y, 2_500);
        let extra = e.pos.x - 7_500;
        assert_eq!(extra % 1000, 0);
        let steps = extra / 1000;
        assert!((1..80).contains(&steps));
        if steps < 40 {
            seen_low = true;
        } else {
            seen_high = true;
        }
    }
    assert!(seen_low && seen_high);
}

#[test]
fn alpha_follows_lifetime() {
    assert_eq!(alpha_exec(1_000_000), 255);
    assert_eq!(alpha_exec(2_000_000), 255);
    assert_eq!(alpha_exec(500_000), 127);
    assert_eq!(alpha_exec(3_922), 1);
    assert_eq!(alpha_exec(3_921), 0);
    assert_eq!(alpha_exec(0), 0);
    assert_eq!(alpha_exec(-5), 0);
}

#[test]
fn inert_echoes_are_untouched_wherever_they_are() {
    let mask = mask_with(20, 20, 7, 2, ROCK);
    let mut spent = Echo::new(i64::MAX, i64::MIN, 0, ROCK);
    spent.hit = true;
    spent.lifetime = i64::MIN;
    let before = spent;
    spent.update(&mask, &camera(), Heading { cos: 5_000, sin: -9_000 }, i64::MAX);
    assert_eq!(spent, before);
    spent.advance(&mask, &camera(), EAST, -7, 3);
    assert_eq!(spent, before);
    let mut swallowed = Echo::new(i64::MIN, i64::MAX, 0, Rgba::transparent());
    swallowed.no_find = true;
    let before = swallowed;
    swallowed.update(&mask, &camera(), Heading { cos: 5_000, sin: -9_000 }, i64::MAX);
    assert_eq!(swallowed, before);
    assert_eq!(swallowed.lifetime, 1_000_000);
    assert_eq!(swallowed.hit_color.a, 0);
}
