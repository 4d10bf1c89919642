use osm_ingest::sprite::{
    random_int, update_sprites, Direction, Frame, Sprite, SpriteType, MAX_ACTION_MILLIS,
    SPRITE_SIZE, STEP,
};

fn sprite(x: i32, y: i32, sprite_type: SpriteType, direction: Direction, end: i32) -> Sprite {
    Sprite {
        x,
        y,
        red: 1,
        green: 2,
        blue: 3,
        sprite_type,
        current_direction: direction,
        action_end_timestamp: end,
    }
}

#[test]
fn direction_from_int_covers_zero_to_eight() {
    assert_eq!(Direction::from_int(0), Some(Direction::STOP));
    assert_eq!(Direction::from_int(1), Some(Direction::UP));
    assert_eq!(Direction::from_int(2), Some(Direction::RIGHT));
    assert_eq!(Direction::from_int(3), Some(Direction::DOWN));
    assert_eq!(Direction::from_int(4), Some(Direction::LEFT));
    assert_eq!(Direction::from_int(5), Some(Direction::UPRIGHT));
    assert_eq!(Direction::from_int(6), Some(Direction::DOWNRIGHT));
    assert_eq!(Direction::from_int(7), Some(Direction::UPLEFT));
    assert_eq!(Direction::from_int(8), Some(Direction::DOWNLEFT));
    assert_eq!(Direction::from_int(9), None);
    assert_eq!(Direction::from_int(-1), None);
    assert_eq!(Direction::from_int(i32::MAX), None);
    assert_eq!(Direction::from_int(i32::MIN), None);
}

#[test]
fn sprite_wraps_at_the_edges() {
    let mut s = sprite(801, 50, SpriteType::ENEMY, Direction::STOP, 0);
    s.return_sprite_to_canvas(800, 600);
    assert_eq!((s.x, s.y), (0, 50));
    let mut s = sprite(-1, 50, SpriteType::ENEMY, Direction::STOP, 0);
    s.return_sprite_to_canvas(800, 600);
    assert_eq!((s.x, s.y), (800, 50));
    let mut s = sprite(10, 601, SpriteType::ENEMY, Direction::STOP, 0);
    s.return_sprite_to_canvas(800, 600);
    assert_eq!((s.x, s.y), (10, 0));
    let mut s = sprite(10, -1, SpriteType::ENEMY, Direction::STOP, 0);
    s.return_sprite_to_canvas(800, 600);
    assert_eq!((s.x, s.y), (10, 600));
    let mut s = sprite(800, 600, SpriteType::ENEMY, Direction::STOP, 0);
    s.return_sprite_to_canvas(800, 600);
    assert_eq!((s.x, s.y), (800, 600));
    let mut s = sprite(0, 0, SpriteType::PLAYER, Direction::UP, 4);
    let before = s;
    s.return_sprite_to_canvas(800, 600);
    assert_eq!(s, before);
}

#[test]
fn sprite_wraps_one_coordinate_per_call() {
    let mut s = sprite(801, 601, SpriteType::ENEMY, Direction::STOP, 0);
    s.return_sprite_to_canvas(800, 600);
    assert_eq!((s.x, s.y), (0, 601));
    s.return_sprite_to_canvas(800, 600);
    assert_eq!((s.x, s.y), (0, 0));
}

#[test]
fn destroy_sprite_removes_one() {
    let mut sprites = vec![
        sprite(1, 1, SpriteType::PLAYER, Direction::STOP, 0),
        sprite(2, 2, SpriteType::ENEMY, Direction::STOP, 0),
        sprite(3, 3, SpriteType::ENEMY, Direction::STOP, 0),
    ];
    Sprite::destroy_sprite(&mut sprites, 1);
    assert_eq!(sprites.len(), 2);
    assert_eq!(sprites[0].x, 1);
    assert_eq!(sprites[1].x, 3);
    Sprite::destroy_sprite(&mut sprites, 1);
    Sprite::destroy_sprite(&mut sprites, 0);
    assert!(sprites.is_empty());
}

#[test]
fn step_moves_by_direction() {
    let cases = [
        (Direction::STOP, (0, 0)),
        (Direction::UP, (0, 10)),
        (Direction::RIGHT, (10, 0)),
        (Direction::DOWN, (0, -10)),
        (Direction::LEFT, (-10, 0)),
        (Direction::UPRIGHT, (10, 10)),
        (Direction::DOWNRIGHT, (10, -10)),
        (Direction::UPLEFT, (-10, -10)),
        (Direction::DOWNLEFT, (-10, 10)),
    ];
    assert_eq!(STEP, 10);
    for (direction, (dx, dy)) in cases {
        let mut s = sprite(100, 200, SpriteType::ENEMY, direction, 5);
        s.step();
        assert_eq!((s.x, s.y), (100 + dx, 200 + dy));
        assert_eq!(s.current_direction, direction);
        assert_eq!(s.action_end_timestamp, 5);
    }
}

#[test]
fn retarget_sets_direction_and_deadline() {
    let mut s = sprite(100, 200, SpriteType::ENEMY, Direction::UP, 0);
    s.retarget(1000, 7, 250);
    assert_eq!(s.current_direction, Direction::UPLEFT);
    assert_eq!(s.action_end_timestamp, 1250);
    assert_eq!((s.x, s.y), (100, 200));
    s.retarget(1000, 12, 0);
    assert_eq!(s.current_direction, Direction::STOP);
    assert_eq!(s.action_end_timestamp, 1000);
}

#[test]
fn auto_move_leaves_the_player_alone() {
    let mut s = sprite(100, 200, SpriteType::PLAYER, Direction::UP, 0);
    let before = s;
    s.auto_move(500);
    assert_eq!(s, before);
}

#[test]
fn auto_move_steps_while_the_action_lasts() {
    let mut s = sprite(100, 200, SpriteType::ENEMY, Direction::RIGHT, 900);
    s.auto_move(500);
    assert_eq!((s.x, s.y), (110, 200));
    assert_eq!(s.action_end_timestamp, 900);
    assert_eq!(s.current_direction, Direction::RIGHT);
}

#[test]
fn auto_move_draws_a_new_action_when_over() {
    for end in [0, 400, 500] {
        let mut s = sprite(100, 200, SpriteType::ENEMY, Direction::RIGHT, end);
        s.auto_move(500);
        assert_eq!((s.x, s.y), (100, 200));
        assert!(s.action_end_timestamp >= 500);
        assert!(s.action_end_timestamp < 500 + MAX_ACTION_MILLIS);
        assert_ne!(s.current_direction, Direction::DOWNLEFT);
    }
}

#[test]
fn random_int_stays_in_range() {
    for _ in 0..200 {
        let r = random_int(-3, 4);
        assert!(-3 <= r && r < 4);
    }
    assert_eq!(random_int(5, 6), 5);
}

fn frame(now: i32) -> Frame {
    Frame {
        window_width: 800,
        window_height: 600,
        now,
        up: false,
        down: false,
        left: false,
        right: false,
        mouse_down: false,
        mouse_x: 0,
        mouse_y: 0,
    }
}

#[test]
fn sprite_square_includes_its_edges() {
    let s = sprite(100, 200, SpriteType::ENEMY, Direction::STOP, 0);
    assert_eq!(SPRITE_SIZE, 20);
    assert!(s.is_under(100, 200));
    assert!(s.is_under(120, 220));
    assert!(s.is_under(110, 205));
    assert!(!s.is_under(99, 200));
    assert!(!s.is_under(121, 200));
    assert!(!s.is_under(100, 199));
    assert!(!s.is_under(100, 221));
    let edge = sprite(i32::MAX - 5, i32::MAX, SpriteType::ENEMY, Direction::STOP, 0);
    assert!(edge.is_under(i32::MAX, i32::MAX));
    assert!(!edge.is_under(i32::MAX - 6, i32::MAX));
}

#[test]
fn steer_follows_the_keys() {
    let mut s = sprite(100, 200, SpriteType::PLAYER, Direction::STOP, 0);
    s.steer(&Frame { up: true, ..frame(0) });
    assert_eq!((s.x, s.y), (100, 190));
    s.steer(&Frame { down: true, right: true, ..frame(0) });
    assert_eq!((s.x, s.y), (110, 200));
    s.steer(&Frame { left: true, ..frame(0) });
    assert_eq!((s.x, s.y), (100, 200));
    s.steer(&Frame { up: true, down: true, left: true, right: true, ..frame(0) });
    assert_eq!((s.x, s.y), (100, 200));
    s.steer(&frame(0));
    assert_eq!((s.x, s.y), (100, 200));
}

#[test]
fn update_moves_the_player_by_the_keys_only() {
    let mut s = sprite(100, 200, SpriteType::PLAYER, Direction::UP, 0);
    let hit = s.update(&Frame { right: true, mouse_down: true, mouse_x: 115, mouse_y: 205, ..frame(50) });
    assert!(!hit);
    assert_eq!((s.x, s.y), (110, 200));
    assert_eq!(s.current_direction, Direction::UP);
    assert_eq!(s.action_end_timestamp, 0);
}

#[test]
fn update_wraps_then_moves() {
    let mut s = sprite(801, 300, SpriteType::ENEMY, Direction::RIGHT, 900);
    let hit = s.update(&frame(50));
    assert!(!hit);
    assert_eq!((s.x, s.y), (10, 300));
}

#[test]
fn update_tells_a_hit_on_an_enemy() {
    let mut s = sprite(100, 200, SpriteType::ENEMY, Direction::RIGHT, 900);
    assert!(s.update(&Frame { mouse_down: true, mouse_x: 115, mouse_y: 205, ..frame(50) }));
    assert_eq!((s.x, s.y), (110, 200));
    let mut s = sprite(100, 200, SpriteType::ENEMY, Direction::RIGHT, 900);
    assert!(!s.update(&Frame { mouse_down: false, mouse_x: 115, mouse_y: 205, ..frame(50) }));
    let mut s = sprite(100, 200, SpriteType::ENEMY, Direction::RIGHT, 900);
    assert!(!s.update(&Frame { mouse_down: true, mouse_x: 105, mouse_y: 205, ..frame(50) }));
    let mut s = sprite(100, 200, SpriteType::DEFAULT, Direction::RIGHT, 900);
    assert!(!s.update(&Frame { mouse_down: true, mouse_x: 115, mouse_y: 205, ..frame(50) }));
}

#[test]
fn update_sprites_takes_hit_enemies_away() {
    let mut sprites = vec![
        sprite(100, 200, SpriteType::PLAYER, Direction::STOP, 0),
        sprite(300, 300, SpriteType::ENEMY, Direction::UP, 900),
        sprite(305, 295, SpriteType::ENEMY, Direction::STOP, 900),
        sprite(500, 500, SpriteType::ENEMY, Direction::LEFT, 900),
        sprite(300, 300, SpriteType::DEFAULT, Direction::UP, 900),
    ];
    let click = Frame { down: true, mouse_down: true, mouse_x: 310, mouse_y: 312, ..frame(50) };
    update_sprites(&mut sprites, &click);
    assert_eq!(sprites.len(), 3);
    assert_eq!((sprites[0].x, sprites[0].y), (100, 210));
    assert_eq!(sprites[0].sprite_type, SpriteType::PLAYER);
    assert_eq!((sprites[1].x, sprites[1].y), (490, 500));
    assert_eq!((sprites[2].x, sprites[2].y), (300, 310));
    assert_eq!(sprites[2].sprite_type, SpriteType::DEFAULT);
    let mut none: Vec<Sprite> = vec![];
    update_sprites(&mut none, &click);
    assert!(none.is_empty());
}

#[test]
fn bounds_checks() {
    assert!(frame(0).fits());
    assert!(!frame(-1).fits());
    assert!(!frame(i32::MAX).fits());
    assert!(frame(i32::MAX - MAX_ACTION_MILLIS).fits());
    assert!(!Frame { window_width: -1, ..frame(0) }.fits());
    assert!(!Frame { window_height: i32::MAX, ..frame(0) }.fits());
    assert!(sprite(0, 0, SpriteType::ENEMY, Direction::STOP, 0).fits());
    assert!(sprite(i32::MIN + 20, i32::MAX - 20, SpriteType::ENEMY, Direction::STOP, 0).fits());
    assert!(!sprite(i32::MIN + 19, 0, SpriteType::ENEMY, Direction::STOP, 0).fits());
    assert!(!sprite(0, i32::MAX - 19, SpriteType::ENEMY, Direction::STOP, 0).fits());
    assert!(Frame { window_width: i32::MAX - 20, ..frame(0) }.fits());
    assert!(!Frame { window_width: i32::MAX - 19, ..frame(0) }.fits());
}

#[test]
fn spawn_lands_on_the_canvas() {
    for _ in 0..100 {
        let s = Sprite::spawn(SpriteType::ENEMY, 800, 600);
        assert!(0 <= s.x && s.x < 800);
        assert!(0 <= s.y && s.y < 600);
        assert!(s.red < 255 && s.green < 255 && s.blue < 255);
        assert_eq!(s.sprite_type, SpriteType::ENEMY);
        assert_eq!(s.current_direction, Direction::STOP);
        assert_eq!(s.action_end_timestamp, 0);
    }
    let s = Sprite::spawn(SpriteType::PLAYER, 1, 1);
    assert_eq!((s.x, s.y), (0, 0));
}
