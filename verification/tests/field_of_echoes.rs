use blind_depths::camera::Camera2D;
use blind_depths::echo::Echo;
use blind_depths::field::{advance_echoes, remove_expired, send_echo, update_echoes, visible_echoes};
use blind_depths::mask::{CollisionMask, Rgba};
use blind_depths::units::{Heading, Point};

fn with_lifetime(tag: i64, lifetime: i64) -> Echo {
    let mut e = Echo::new(tag, tag, tag, Rgba::purple());
    e.hit = true;
    e.lifetime = lifetime;
    e
}

fn lifetimes(echoes: &Vec<Echo>) -> Vec<i64> {
    echoes.iter().map(|e| e.lifetime).collect()
}

fn open_water(width: usize, height: usize) -> CollisionMask {
    CollisionMask::new(vec![0u8; width * height * 4], width, height).unwrap()
}

#[test]
fn fan_has_sixty_one_echoes_six_degrees_apart() {
    let mut echoes = Vec::new();
    send_echo(&mut echoes, &Point { x: 201_000, y: 167_000 }, 45_000, Rgba::purple());
    assert_eq!(echoes.len(), 61);
    for (i, e) in echoes.iter().enumerate() {
        assert_eq!(e.dir, 45_000 + 6_000 * i as i64);
        assert_eq!(e.pos, Point { x: 217_000, y: 183_000 });
        assert_eq!(e.hit_color, Rgba::purple());
        assert!(!e.hit);
        assert!(!e.no_find);
        assert_eq!(e.lifetime, 1_000_000);
    }
    assert_eq!(echoes[0].dir, 45_000);
    assert_eq!(echoes[60].dir, 405_000);
}

#[test]
fn fan_is_appended_after_what_is_there() {
    let mut echoes = vec![with_lifetime(1, 5), with_lifetime(2, 6)];
    send_echo(&mut echoes, &Point { x: 0, y: 0 }, -7_000, Rgba::transparent());
    assert_eq!(echoes.len(), 63);
    assert_eq!(echoes[0], with_lifetime(1, 5));
    assert_eq!(echoes[1], with_lifetime(2, 6));
    assert_eq!(echoes[2].dir, -7_000);
    assert_eq!(echoes[62].dir, 353_000);
    assert_eq!(echoes[2].hit_color, Rgba::transparent());
    send_echo(&mut echoes, &Point { x: 0, y: 0 }, 0, Rgba::purple());
    assert_eq!(echoes.len(), 124);
}

#[test]
fn compaction_keeps_the_live_echoes_in_order() {
    let mut echoes = vec![
        with_lifetime(1, 0),
        with_lifetime(2, 500_000),
        with_lifetime(3, -100_000),
        with_lifetime(4, 300_000),
    ];
    remove_expired(&mut echoes);
    assert_eq!(lifetimes(&echoes), vec![500_000, 300_000]);
    assert_eq!(echoes[0], with_lifetime(2, 500_000));
    assert_eq!(echoes[1], with_lifetime(4, 300_000));
}

#[test]
fn compaction_removes_runs_of_expired_echoes() {
    let mut echoes = vec![
        with_lifetime(1, 0),
        with_lifetime(2, 0),
        with_lifetime(3, 1),
        with_lifetime(4, -1),
        with_lifetime(5, -1),
        with_lifetime(6, -1),
        with_lifetime(7, 2),
        with_lifetime(8, 0),
    ];
    remove_expired(&mut echoes);
    assert_eq!(lifetimes(&echoes), vec![1, 2]);
    remove_expired(&mut echoes);
    assert_eq!(lifetimes(&echoes), vec![1, 2]);
}

#[test]
fn compaction_of_nothing_or_of_all_is_empty() {
    let mut echoes: Vec<Echo> = Vec::new();
    remove_expired(&mut echoes);
    assert!(echoes.is_empty());
    let mut echoes = vec![with_lifetime(1, 0), with_lifetime(2, -3)];
    remove_expired(&mut echoes);
    assert!(echoes.is_empty());
}

#[test]
fn swallowed_echoes_survive_compaction() {
    let mut e = Echo::new(0, 0, 0, Rgba::transparent());
    e.no_find = true;
    let mut echoes = vec![e, with_lifetime(1, 0)];
    remove_expired(&mut echoes);
    assert_eq!(echoes, vec![e]);
}

#[test]
fn visible_echoes_are_those_in_view_in_order() {
    let camera = Camera2D::new(1_000_000, 1_000_000, 640_000, 360_000);
    let inside = Echo::new(1_100_000, 900_000, 0, Rgba::purple());
    let outside = Echo::new(1_320_000, 900_000, 0, Rgba::purple());
    let edge = Echo::new(680_001, 1_179_999, 0, Rgba::purple());
    let echoes = vec![outside, inside, outside, edge];
    assert_eq!(visible_echoes(&echoes, &camera), vec![inside, edge]);
    assert!(visible_echoes(&Vec::new(), &camera).is_empty());
}

#[test]
fn expired_echoes_are_never_visible() {
    let camera = Camera2D::new(1_000_000, 1_000_000, 640_000, 360_000);
    let live = Echo::new(1_100_000, 900_000, 0, Rgba::purple());
    let mut spent = live;
    spent.hit = true;
    spent.lifetime = 0;
    let mut long_spent = spent;
    long_spent.lifetime = -100_000;
    let mut fading = spent;
    fading.lifetime = 1;
    let echoes = vec![spent, live, long_spent, fading, spent];
    assert_eq!(visible_echoes(&echoes, &camera), vec![live, fading]);
    assert!(visible_echoes(&vec![spent, long_spent], &camera).is_empty());
}

#[test]
fn advancing_moves_each_echo_along_its_own_heading() {
    let mask = open_water(50, 50);
    let camera = Camera2D::new(0, 0, 640_000, 360_000);
    let mut echoes = vec![
        Echo::new(10_000, 10_000, 0, Rgba::purple()),
        Echo::new(10_000, 10_000, 90_000, Rgba::purple()),
        with_lifetime(3, 8_000),
    ];
    let headings =
        vec![Heading { cos: 1000, sin: 0 }, Heading { cos: 0, sin: 1000 }, Heading { cos: 0, sin: 0 }];
    advance_echoes(&mut echoes, &headings, &mask, &camera, 1000);
    assert_eq!(echoes.len(), 3);
    assert_eq!(echoes[0].pos, Point { x: 16_000, y: 10_000 });
    assert_eq!(echoes[1].pos, Point { x: 10_000, y: 16_000 });
    assert_eq!(echoes[2].lifetime, 4_000);
    assert_eq!(echoes[2].pos, Point { x: 3, y: 3 });
}

#[test]
fn field_update_advances_then_removes() {
    let mask = open_water(50, 50);
    let camera = Camera2D::new(0, 0, 640_000, 360_000);
    let mut echoes = vec![
        with_lifetime(1, 4_000),
        Echo::new(10_000, 10_000, 0, Rgba::purple()),
        with_lifetime(3, 4_001),
    ];
    let headings = vec![Heading { cos: 1000, sin: 0 }; 3];
    update_echoes(&mut echoes, &headings, &mask, &camera, 1000);
    assert_eq!(echoes.len(), 2);
    assert_eq!(echoes[0].pos, Point { x: 16_000, y: 10_000 });
    assert_eq!(echoes[1].lifetime, 1);
    let mut none: Vec<Echo> = Vec::new();
    update_echoes(&mut none, &Vec::new(), &mask, &camera, 1000);
    assert!(none.is_empty());
}
