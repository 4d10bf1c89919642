use osm_ingest::input::{handle_key_events, handle_mouse_events, Controls, Input, InputEvent};
use osm_ingest::sprite::{Direction, Sprite, SpriteType};

const CONTROLS: Controls = Controls { up: 1, down: 2, left: 3, right: 4, hit: 1 };

#[test]
fn new_input_has_nothing_down() {
    let input = Input::new();
    assert!(!input.is_key_down(0));
    assert!(!input.is_key_down(27));
    assert!(!input.is_mouse_btn_down(1));
    assert_eq!(input.current_mouse_pos(), (0, 0));
    assert_eq!(input.last_click_mouse_pos(), (0, 0));
}

#[test]
fn keys_go_down_and_up() {
    let mut input = Input::new();
    handle_key_events(InputEvent::KeyDown { key: 7 }, &mut input);
    assert!(input.is_key_down(7));
    assert!(!input.is_key_down(8));
    handle_key_events(InputEvent::KeyDown { key: 8 }, &mut input);
    handle_key_events(InputEvent::KeyUp { key: 7 }, &mut input);
    assert!(!input.is_key_down(7));
    assert!(input.is_key_down(8));
    handle_key_events(InputEvent::KeyUp { key: 99 }, &mut input);
    assert!(!input.is_key_down(99));
    handle_key_events(InputEvent::MouseButtonDown { button: 8 }, &mut input);
    handle_key_events(InputEvent::MouseMotion { x: 5, y: 6 }, &mut input);
    handle_key_events(InputEvent::Other, &mut input);
    assert!(!input.is_mouse_btn_down(8));
    assert_eq!(input.current_mouse_pos(), (0, 0));
    assert!(input.is_key_down(8));
}

#[test]
fn mouse_events_move_and_click() {
    let mut input = Input::new();
    handle_mouse_events(InputEvent::MouseMotion { x: 15, y: -3 }, &mut input);
    assert_eq!(input.current_mouse_pos(), (15, -3));
    assert_eq!(input.last_click_mouse_pos(), (0, 0));
    handle_mouse_events(InputEvent::MouseButtonDown { button: 1 }, &mut input);
    assert!(input.is_mouse_btn_down(1));
    assert!(!input.is_mouse_btn_down(3));
    assert_eq!(input.last_click_mouse_pos(), (0, 0));
    handle_mouse_events(InputEvent::MouseButtonUp { button: 1, x: 40, y: 50 }, &mut input);
    assert!(!input.is_mouse_btn_down(1));
    assert_eq!(input.last_click_mouse_pos(), (40, 50));
    assert_eq!(input.current_mouse_pos(), (15, -3));
    handle_mouse_events(InputEvent::KeyDown { key: 1 }, &mut input);
    handle_mouse_events(InputEvent::Other, &mut input);
    assert!(!input.is_key_down(1));
}

#[test]
fn setters_change_one_thing() {
    let mut input = Input::new();
    input.set_key(5, true);
    input.set_mouse_btn(2, true);
    input.set_current_mouse_pos(1, 2);
    input.set_last_click_mouse_pos(3, 4);
    assert!(input.is_key_down(5));
    assert!(input.is_mouse_btn_down(2));
    assert_eq!(input.current_mouse_pos(), (1, 2));
    assert_eq!(input.last_click_mouse_pos(), (3, 4));
    input.set_key(5, false);
    assert!(!input.is_key_down(5));
    assert!(input.is_mouse_btn_down(2));
}

#[test]
fn mouse_over_sprite() {
    let mut input = Input::new();
    let sprite = Sprite {
        x: 100,
        y: 200,
        red: 0,
        green: 0,
        blue: 0,
        sprite_type: SpriteType::ENEMY,
        current_direction: Direction::STOP,
        action_end_timestamp: 0,
    };
    assert!(!input.is_mouse_over_sprite(&sprite));
    input.set_current_mouse_pos(120, 220);
    assert!(input.is_mouse_over_sprite(&sprite));
    input.set_current_mouse_pos(121, 220);
    assert!(!input.is_mouse_over_sprite(&sprite));
}

#[test]
fn frame_reads_the_controls() {
    let mut input = Input::new();
    handle_key_events(InputEvent::KeyDown { key: 1 }, &mut input);
    handle_key_events(InputEvent::KeyDown { key: 4 }, &mut input);
    handle_key_events(InputEvent::KeyDown { key: 77 }, &mut input);
    handle_mouse_events(InputEvent::MouseButtonDown { button: 1 }, &mut input);
    handle_mouse_events(InputEvent::MouseMotion { x: 9, y: 8 }, &mut input);
    let frame = input.frame(&CONTROLS, 800, 600, 1234);
    assert_eq!((frame.window_width, frame.window_height, frame.now), (800, 600, 1234));
    assert_eq!((frame.up, frame.down, frame.left, frame.right), (true, false, false, true));
    assert!(frame.mouse_down);
    assert_eq!((frame.mouse_x, frame.mouse_y), (9, 8));
    handle_mouse_events(InputEvent::MouseButtonUp { button: 1, x: 0, y: 0 }, &mut input);
    assert!(!input.frame(&CONTROLS, 800, 600, 0).mouse_down);
}
