use blind_depths::beacon::Beacon;
use blind_depths::camera::Camera2D;
use blind_depths::echo::Echo;
use blind_depths::mask::{CollisionMask, Rgba};
use blind_depths::player::{ceil_root_exec, Input, Player, Scene};
use blind_depths::units::{Heading, Point};

const EAST: Heading = Heading { cos: 1000, sin: 0 };
const IDLE: Input = Input { thrust: false, turn_left: false, turn_right: false, trigger: false };

fn mask_with(width: usize, height: usize, x: usize, y: usize, c: Rgba) -> CollisionMask {
    let mut bytes = vec![0u8; width * height * 4];
    let i = (y * width + x) * 4;
    bytes[i] = c.r;
    bytes[i + 1] = c.g;
    bytes[i + 2] = c.b;
    bytes[i + 3] = c.a;
    CollisionMask::new(bytes, width, height).unwrap()
}

fn camera() -> Camera2D {
    Camera2D::new(0, 0, 640_000, 360_000)
}

#[test]
fn beacon_with_period_fifteen_fires_when_its_timer_passes_fifteen() {
    let mut beacon = Beacon::new(885_000, 165_000, false, 15);
    let mut echoes: Vec<Echo> = Vec::new();
    let mut fired_at = Vec::new();
    for tick in 0..64 {
        let before = echoes.len();
        beacon.update(&mut echoes, 1000);
        let sent = echoes.len() - before;
        assert!(sent == 0 || sent == 61);
        if sent == 61 {
            fired_at.push(tick);
            assert_eq!(beacon.timer, 0);
        }
    }
    assert_eq!(fired_at, vec![15, 31, 47, 63]);
    assert_eq!(echoes.len(), 4 * 61);
}

#[test]
fn beacon_never_fires_on_its_first_tick() {
    for freq in [1, 15, 60] {
        let mut beacon = Beacon::new(0, 0, true, freq);
        let mut echoes: Vec<Echo> = Vec::new();
        beacon.update(&mut echoes, 1000);
        assert!(echoes.is_empty());
        assert_eq!(beacon.timer, 1000);
    }
}

#[test]
fn beacon_timer_accumulates_fractions_of_a_tick() {
    let mut beacon = Beacon::new(0, 0, true, 1);
    let mut echoes: Vec<Echo> = Vec::new();
    beacon.pulse(&mut echoes, 400, 0);
    beacon.pulse(&mut echoes, 600, 0);
    assert_eq!(beacon.timer, 1000);
    assert!(echoes.is_empty());
    beacon.pulse(&mut echoes, 1, 0);
    assert_eq!(beacon.timer, 0);
    assert_eq!(echoes.len(), 61);
}

#[test]
fn beacon_fan_starts_at_its_sprite_centre_in_its_colour() {
    let mut placed = Beacon::new(100_000, 200_000, true, 0);
    let mut echoes: Vec<Echo> = Vec::new();
    placed.pulse(&mut echoes, 1000, 30_000);
    assert_eq!(echoes.len(), 61);
    assert_eq!(echoes[0], Echo::new(116_000, 216_000, 30_000, Rgba::purple()));
    assert_eq!(echoes[60], Echo::new(116_000, 216_000, 390_000, Rgba::purple()));
    assert_eq!(placed.pos, Point { x: 100_000, y: 200_000 });
    assert!(placed.visible);
    assert_eq!(placed.freq, 0);

    let mut ambient = Beacon::new(100_000, 200_000, false, 0);
    let mut echoes: Vec<Echo> = Vec::new();
    ambient.pulse(&mut echoes, 1000, 0);
    assert_eq!(echoes[7].hit_color, Rgba::transparent());
}

#[test]
fn beacon_direction_is_drawn_from_the_full_circle() {
    let mut beacon = Beacon::new(0, 0, true, 0);
    let mut first = Vec::new();
    for _ in 0..200 {
        let mut echoes: Vec<Echo> = Vec::new();
        beacon.update(&mut echoes, 1000);
        assert_eq!(echoes.len(), 61);
        let base = echoes[0].dir;
        assert!((0..360_000).contains(&base));
        for (i, e) in echoes.iter().enumerate() {
            assert_eq!(e.dir, base + 6_000 * i as i64);
        }
        first.push(base);
    }
    assert!(first.iter().any(|d| *d != first[0]));
}

#[test]
fn player_starts_at_rest() {
    let p = Player::new();
    assert_eq!(p.pos, Point { x: 201_000, y: 167_000 });
    assert_eq!(p.vel, Point { x: 0, y: 0 });
    assert_eq!(p.dir, 0);
}

#[test]
fn player_bounce_reverses_the_velocity_left_after_drag() {
    let rock = Rgba { r: 90, g: 90, b: 90, a: 255 };
    let mask = mask_with(30, 30, 19, 17, rock);
    let mut p = Player { pos: Point { x: 1_000, y: 1_000 }, vel: Point { x: 2_000_000, y: 0 }, dir: 0 };
    let mut echoes: Vec<Echo> = Vec::new();
    p.update(&IDLE, EAST, &mask, &mut echoes, &camera(), &Scene::Game, 1000);
    assert_eq!(p.pos, Point { x: 3_000, y: 1_000 });
    assert_eq!(p.vel, Point { x: -1_980_000, y: 0 });
    assert!(echoes.is_empty());
}

#[test]
fn player_bounce_is_tested_after_the_move() {
    let rock = Rgba { r: 90, g: 90, b: 90, a: 255 };
    let at_start = mask_with(30, 30, 17, 17, rock);
    let mut p = Player { pos: Point { x: 1_000, y: 1_000 }, vel: Point { x: 2_000_000, y: 0 }, dir: 0 };
    let mut echoes: Vec<Echo> = Vec::new();
    p.update(&IDLE, EAST, &at_start, &mut echoes, &camera(), &Scene::Game, 1000);
    assert_eq!(p.vel, Point { x: 1_980_000, y: 0 });
    p.update(&IDLE, EAST, &at_start, &mut echoes, &camera(), &Scene::Game, 1000);
    assert_eq!(p.pos, Point { x: 4_980, y: 1_000 });
    assert_eq!(p.vel, Point { x: 1_960_200, y: 0 });
}

#[test]
fn player_bounces_off_red_and_off_the_outside_not() {
    let red = Rgba { r: 255, g: 0, b: 0, a: 255 };
    let mask = mask_with(30, 30, 19, 16, red);
    let mut p = Player { pos: Point { x: 1_000, y: 1_000 }, vel: Point { x: 2_000_000, y: -1_000_000 }, dir: 0 };
    let mut echoes: Vec<Echo> = Vec::new();
    p.update(&IDLE, EAST, &mask, &mut echoes, &camera(), &Scene::Game, 1000);
    assert_eq!(p.pos, Point { x: 3_000, y: 0 });
    assert_eq!(p.vel, Point { x: -1_980_000, y: 990_000 });
    let mut out = Player { pos: Point { x: -900_000, y: 0 }, vel: Point { x: -1_000_000, y: 0 }, dir: 0 };
    out.update(&IDLE, EAST, &mask, &mut echoes, &camera(), &Scene::Game, 1000);
    assert_eq!(out.pos, Point { x: -901_000, y: 0 });
    assert_eq!(out.vel, Point { x: -990_000, y: 0 });
}

#[test]
fn player_thrust_adds_a_sixtieth_of_the_heading_per_tick() {
    let mask = mask_with(30, 30, 0, 0, Rgba::transparent());
    let thrust = Input { thrust: true, ..IDLE };
    let mut p = Player { pos: Point { x: 0, y: 0 }, vel: Point { x: 0, y: 0 }, dir: 0 };
    let mut echoes: Vec<Echo> = Vec::new();
    p.update(&thrust, Heading { cos: 600, sin: -800 }, &mask, &mut echoes, &camera(), &Scene::Game, 1000);
    // thrust (10_000, -13_333); move by (10, -13); drag takes (100, -133)
    assert_eq!(p.pos, Point { x: 10, y: -13 });
    assert_eq!(p.vel, Point { x: 9_900, y: -13_200 });
}

#[test]
fn player_speed_is_capped_at_three_units_a_tick() {
    let mask = mask_with(30, 30, 0, 0, Rgba::transparent());
    let mut p = Player { pos: Point { x: 0, y: 0 }, vel: Point { x: 4_000_000, y: 0 }, dir: 0 };
    let mut echoes: Vec<Echo> = Vec::new();
    p.update(&IDLE, EAST, &mask, &mut echoes, &camera(), &Scene::Game, 1000);
    assert_eq!(p.pos, Point { x: 3_000, y: 0 });
    assert_eq!(p.vel, Point { x: 2_970_000, y: 0 });
    let mut q = Player { pos: Point { x: 0, y: 0 }, vel: Point { x: -3_000_000, y: 4_000_000 }, dir: 0 };
    q.update(&IDLE, EAST, &mask, &mut echoes, &camera(), &Scene::Game, 0);
    assert_eq!(q.vel, Point { x: -1_800_000, y: 2_400_000 });
    assert_eq!(q.pos, Point { x: -1_800, y: 2_400 });
}

#[test]
fn player_input_counts_only_during_play() {
    let mask = mask_with(30, 30, 0, 0, Rgba::transparent());
    let all = Input { thrust: true, turn_left: false, turn_right: true, trigger: true };
    for scene in [Scene::Start, Scene::End] {
        let mut p = Player::new();
        let mut echoes: Vec<Echo> = Vec::new();
        p.update(&all, EAST, &mask, &mut echoes, &camera(), &scene, 1000);
        assert_eq!(p, Player::new());
        assert!(echoes.is_empty());
    }
}

#[test]
fn player_turns_and_sends_a_fan_from_where_it_is() {
    let mask = mask_with(30, 30, 0, 0, Rgba::transparent());
    let mut p = Player { pos: Point { x: 50_000, y: 60_000 }, vel: Point { x: 1_000_000, y: 0 }, dir: 10_000 };
    let mut echoes: Vec<Echo> = Vec::new();
    let input = Input { thrust: false, turn_left: false, turn_right: true, trigger: true };
    p.update(&input, EAST, &mask, &mut echoes, &camera(), &Scene::Game, 1500);
    assert_eq!(p.dir, 11_500);
    assert_eq!(p.pos, Point { x: 51_000, y: 60_000 });
    assert_eq!(echoes.len(), 61);
    assert_eq!(echoes[0], Echo::new(67_000, 76_000, 11_500, Rgba::purple()));
    assert_eq!(echoes[60].dir, 371_500);
    let left = Input { thrust: false, turn_left: true, turn_right: false, trigger: false };
    p.update(&left, EAST, &mask, &mut echoes, &camera(), &Scene::Game, 500);
    assert_eq!(p.dir, 11_000);
    assert_eq!(echoes.len(), 61);
    let both = Input { thrust: false, turn_left: true, turn_right: true, trigger: false };
    p.update(&both, EAST, &mask, &mut echoes, &camera(), &Scene::Game, 500);
    assert_eq!(p.dir, 11_000);
}

#[test]
fn rounded_up_roots() {
    assert_eq!(ceil_root_exec(0), 0);
    assert_eq!(ceil_root_exec(1), 1);
    assert_eq!(ceil_root_exec(2), 2);
    assert_eq!(ceil_root_exec(16), 4);
    assert_eq!(ceil_root_exec(17), 5);
    assert_eq!(ceil_root_exec(25_000_000_000_000), 5_000_000);
    assert_eq!(ceil_root_exec(1 << 60), 1 << 30);
}

#[test]
fn player_bounce_with_no_time_elapsed_is_the_plain_reverse() {
    let rock = Rgba { r: 90, g: 90, b: 90, a: 255 };
    let mask = mask_with(30, 30, 19, 16, rock);
    let mut p = Player { pos: Point { x: 1_000, y: 1_000 }, vel: Point { x: 2_000_000, y: -300_000 }, dir: 0 };
    let mut echoes: Vec<Echo> = Vec::new();
    p.update(&IDLE, EAST, &mask, &mut echoes, &camera(), &Scene::Game, 0);
    assert_eq!(p.pos, Point { x: 3_000, y: 700 });
    assert_eq!(p.vel, Point { x: -2_000_000, y: 300_000 });
}

#[test]
fn fan_can_be_sent_from_the_edge_of_the_integers() {
    let mut echoes: Vec<Echo> = Vec::new();
    let pos = Point { x: i64::MAX - 16_000, y: i64::MIN };
    blind_depths::field::send_echo(&mut echoes, &pos, i64::MAX - 360_000, Rgba::purple());
    assert_eq!(echoes.len(), 61);
    assert_eq!(echoes[0].pos, Point { x: i64::MAX, y: i64::MIN + 16_000 });
    assert_eq!(echoes[60].dir, i64::MAX);
    blind_depths::field::send_echo(&mut echoes, &Point { x: 0, y: 0 }, i64::MIN, Rgba::purple());
    assert_eq!(echoes.len(), 122);
    assert_eq!(echoes[61].dir, i64::MIN);
    assert_eq!(echoes[62].dir - echoes[61].dir, 6_000);
}
