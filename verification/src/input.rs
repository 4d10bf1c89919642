//! The state of keyboard and mouse, kept up to date by the events of the
//! window. Keys and buttons go by their numeric codes.

use std::collections::HashMap;
use vstd::prelude::*;
use crate::sprite::{Frame, Sprite};

verus! {

broadcast use vstd::std_specs::hash::group_hash_axioms;

/// What the window reports, as far as the input state cares.
#[derive(Debug, Clone, Copy, PartialEq, Eq, Structural)]
pub enum InputEvent {
    KeyDown { key: i32 },
    KeyUp { key: i32 },
    MouseButtonDown { button: u8 },
    MouseButtonUp { button: u8, x: i32, y: i32 },
    MouseMotion { x: i32, y: i32 },
    /// Any other event.
    Other,
}

/// The codes of the keys that steer the player and of the button that hits.
#[derive(Debug, Clone, Copy, PartialEq, Eq, Structural)]
pub struct Controls {
    pub up: i32,
    pub down: i32,
    pub left: i32,
    pub right: i32,
    pub hit: u8,
}

/// What an input state holds: for each key and button seen so far whether
/// it is down, where the mouse is, and where its last click ended.
pub struct InputModel {
    pub keys: Map<i32, bool>,
    pub mouse: Map<u8, bool>,
    pub current_pos: (i32, i32),
    pub last_click_pos: (i32, i32),
}

impl InputModel {
    /// True when `key` was last seen going down.
    pub open spec fn key_down(self, key: i32) -> bool {
        self.keys.contains_key(key) && self.keys[key]
    }

    /// True when `button` was last seen going down.
    pub open spec fn button_down(self, button: u8) -> bool {
        self.mouse.contains_key(button) && self.mouse[button]
    }

    /// The state after a keyboard event; other events leave it as it is.
    pub open spec fn after_key_event(self, event: InputEvent) -> InputModel {
        match event {
            InputEvent::KeyDown { key } => InputModel { keys: self.keys.insert(key, true), ..self },
            InputEvent::KeyUp { key } => InputModel { keys: self.keys.insert(key, false), ..self },
            _ => self,
        }
    }

    /// The state after a mouse event; other events leave it as it is. A
    /// button that goes up marks the place of the last click.
    pub open spec fn after_mouse_event(self, event: InputEvent) -> InputModel {
        match event {
            InputEvent::MouseButtonDown { button } => InputModel {
                mouse: self.mouse.insert(button, true),
                ..self
            },
            InputEvent::MouseButtonUp { button, x, y } => InputModel {
                mouse: self.mouse.insert(button, false),
                last_click_pos: (x, y),
                ..self
            },
            InputEvent::MouseMotion { x, y } => InputModel { current_pos: (x, y), ..self },
            _ => self,
        }
    }
}

/// The state of keyboard and mouse.
#[derive(Debug)]
pub struct Input {
    keys: HashMap<i32, bool>,
    mouse: HashMap<u8, bool>,
    mouse_current_pos_x: i32,
    mouse_current_pos_y: i32,
    mouse_last_click_pos_x: i32,
    mouse_last_click_pos_y: i32,
}

impl View for Input {
    type V = InputModel;

    closed spec fn view(&self) -> InputModel {
        InputModel {
            keys: self.keys@,
            mouse: self.mouse@,
            current_pos: (self.mouse_current_pos_x, self.mouse_current_pos_y),
            last_click_pos: (self.mouse_last_click_pos_x, self.mouse_last_click_pos_y),
        }
    }
}

impl Input {
    /// The state before any event: nothing is down, the mouse at the origin.
    pub fn new() -> (r: Input)
        ensures
            r@ == (InputModel {
                keys: Map::empty(),
                mouse: Map::empty(),
                current_pos: (0i32, 0i32),
                last_click_pos: (0i32, 0i32),
            }),
    {
        Input {
            keys: HashMap::new(),
            mouse: HashMap::new(),
            mouse_current_pos_x: 0,
            mouse_current_pos_y: 0,
            mouse_last_click_pos_x: 0,
            mouse_last_click_pos_y: 0,
        }
    }

    /// Notes whether `key` is down.
    pub fn set_key(&mut self, key: i32, value: bool)
        ensures
            final(self)@ == (InputModel { keys: old(self)@.keys.insert(key, value), ..old(self)@ }),
    {
        self.keys.insert(key, value);
    }

    /// Notes whether `mouse` is down.
    pub fn set_mouse_btn(&mut self, mouse: u8, value: bool)
        ensures
            final(self)@ == (InputModel {
                mouse: old(self)@.mouse.insert(mouse, value),
                ..old(self)@
            }),
    {
        self.mouse.insert(mouse, value);
    }

    /// Notes where the mouse is.
    pub fn set_current_mouse_pos(&mut self, x: i32, y: i32)
        ensures
            final(self)@ == (InputModel { current_pos: (x, y), ..old(self)@ }),
    {
        self.mouse_current_pos_x = x;
        self.mouse_current_pos_y = y;
    }

    /// Notes where the last click ended.
    pub fn set_last_click_mouse_pos(&mut self, x: i32, y: i32)
        ensures
            final(self)@ == (InputModel { last_click_pos: (x, y), ..old(self)@ }),
    {
        self.mouse_last_click_pos_x = x;
        self.mouse_last_click_pos_y = y;
    }

    /// Tells whether `key` is down. A key never seen is up.
    pub fn is_key_down(&self, key: i32) -> (r: bool)
        ensures
            r == self@.key_down(key),
    {
        match self.keys.get(&key) {
            Some(down) => *down,
            None => false,
        }
    }

    /// Tells whether `mouse_btn` is down. A button never seen is up.
    pub fn is_mouse_btn_down(&self, mouse_btn: u8) -> (r: bool)
        ensures
            r == self@.button_down(mouse_btn),
    {
        match self.mouse.get(&mouse_btn) {
            Some(down) => *down,
            None => false,
        }
    }

    /// Where the mouse is.
    pub fn current_mouse_pos(&self) -> (r: (i32, i32))
        ensures
            r == self@.current_pos,
    {
        (self.mouse_current_pos_x, self.mouse_current_pos_y)
    }

    /// Where the last click ended.
    pub fn last_click_mouse_pos(&self) -> (r: (i32, i32))
        ensures
            r == self@.last_click_pos,
    {
        (self.mouse_last_click_pos_x, self.mouse_last_click_pos_y)
    }

    /// Tells whether the mouse is on the sprite's square.
    pub fn is_mouse_over_sprite(&self, sprite: &Sprite) -> (r: bool)
        ensures
            r == sprite.covers(self@.current_pos.0, self@.current_pos.1),
    {
        sprite.is_under(self.mouse_current_pos_x, self.mouse_current_pos_y)
    }

    /// What a frame at time `now` on a canvas of the given size sees of this
    /// state, with the keys and the button read by their codes.
    pub fn frame(&self, controls: &Controls, window_width: i32, window_height: i32, now: i32) -> (r:
        Frame)
        ensures
            r == (Frame {
                window_width,
                window_height,
                now,
                up: self@.key_down(controls.up),
                down: self@.key_down(controls.down),
                left: self@.key_down(controls.left),
                right: self@.key_down(controls.right),
                mouse_down: self@.button_down(controls.hit),
                mouse_x: self@.current_pos.0,
                mouse_y: self@.current_pos.1,
            }),
    {
        Frame {
            window_width,
            window_height,
            now,
            up: self.is_key_down(controls.up),
            down: self.is_key_down(controls.down),
            left: self.is_key_down(controls.left),
            right: self.is_key_down(controls.right),
            mouse_down: self.is_mouse_btn_down(controls.hit),
            mouse_x: self.mouse_current_pos_x,
            mouse_y: self.mouse_current_pos_y,
        }
    }
}

/// Brings the state up to date with a keyboard event.
pub fn handle_key_events(event: InputEvent, input: &mut Input)
    ensures
        final(input)@ == old(input)@.after_key_event(event),
{
    match event {
        InputEvent::KeyDown { key } => {
            input.set_key(key, true);
        },
        InputEvent::KeyUp { key } => {
            input.set_key(key, false);
        },
        _ => {},
    }
}

/// Brings the state up to date with a mouse event.
pub fn handle_mouse_events(event: InputEvent, input: &mut Input)
    ensures
        final(input)@ == old(input)@.after_mouse_event(event),
{
    match event {
        InputEvent::MouseButtonDown { button } => {
            input.set_mouse_btn(button, true);
        },
        InputEvent::MouseButtonUp { button, x, y } => {
            input.set_mouse_btn(button, false);
            input.set_last_click_mouse_pos(x, y);
        },
        InputEvent::MouseMotion { x, y } => {
            input.set_current_mouse_pos(x, y);
        },
        _ => {},
    }
}

} // verus!
