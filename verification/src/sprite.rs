//! The moving sprites of the viewer: their state and the rules that move them.

use rand::Rng;
use vstd::prelude::*;

verus! {

/// Who a sprite is: the one the keys steer, one that moves by itself and can
/// be hit, or neither.
#[allow(non_camel_case_types)]
#[derive(Debug, Clone, Copy, PartialEq, Eq, Structural)]
pub enum SpriteType {
    PLAYER,
    ENEMY,
    DEFAULT,
}

/// The nine ways a sprite can head.
#[allow(non_camel_case_types)]
#[derive(Debug, Clone, Copy, PartialEq, Eq, Structural)]
pub enum Direction {
    STOP,
    UP,
    RIGHT,
    DOWN,
    LEFT,
    UPRIGHT,
    DOWNRIGHT,
    DOWNLEFT,
    UPLEFT,
}

/// A coloured square on the canvas: where it is, where it heads, and until
/// when.
#[derive(Debug, Clone, Copy, PartialEq, Eq, Structural)]
pub struct Sprite {
    pub x: i32,
    pub y: i32,
    pub red: u8,
    pub green: u8,
    pub blue: u8,
    pub sprite_type: SpriteType,
    pub current_direction: Direction,
    pub action_end_timestamp: i32,
}

/// How far a sprite travels along an axis in one step.
pub const STEP: i32 = 10;

/// The longest time, in milliseconds, a sprite keeps one direction.
pub const MAX_ACTION_MILLIS: i32 = 3000;

/// The length of a sprite's side, in pixels.
pub const SPRITE_SIZE: i32 = 20;

/// What one frame knows of the world outside: the size of the canvas, the
/// time, which of the player's keys are held, and the mouse.
#[derive(Debug, Clone, Copy, PartialEq, Eq, Structural)]
pub struct Frame {
    pub window_width: i32,
    pub window_height: i32,
    pub now: i32,
    pub up: bool,
    pub down: bool,
    pub left: bool,
    pub right: bool,
    pub mouse_down: bool,
    pub mouse_x: i32,
    pub mouse_y: i32,
}

impl Frame {
    /// True when the frame's numbers leave room for every move of a sprite.
    pub open spec fn in_bounds(self) -> bool {
        &&& 0 <= self.window_width <= i32::MAX - 2 * STEP
        &&& 0 <= self.window_height <= i32::MAX - 2 * STEP
        &&& 0 <= self.now <= i32::MAX - MAX_ACTION_MILLIS
    }

    /// Tells whether the frame's numbers leave room for every move.
    pub fn fits(&self) -> (r: bool)
        ensures
            r == self.in_bounds(),
    {
        0 <= self.window_width && self.window_width <= i32::MAX - 2 * STEP && 0
            <= self.window_height && self.window_height <= i32::MAX - 2 * STEP && 0 <= self.now
            && self.now <= i32::MAX - MAX_ACTION_MILLIS
    }
}

impl Direction {
    /// The number under which `from_int` finds this direction.
    pub open spec fn code(self) -> int {
        match self {
            Direction::STOP => 0,
            Direction::UP => 1,
            Direction::RIGHT => 2,
            Direction::DOWN => 3,
            Direction::LEFT => 4,
            Direction::UPRIGHT => 5,
            Direction::DOWNRIGHT => 6,
            Direction::UPLEFT => 7,
            Direction::DOWNLEFT => 8,
        }
    }

    /// No two directions share a number.
    pub proof fn lemma_code_tells_apart(a: Direction, b: Direction)
        requires
            a.code() == b.code(),
        ensures
            a == b,
    {
    }

    /// Horizontal displacement of one step in this direction.
    pub open spec fn dx(self) -> int {
        match self {
            Direction::RIGHT | Direction::UPRIGHT | Direction::DOWNRIGHT => STEP as int,
            Direction::LEFT | Direction::UPLEFT | Direction::DOWNLEFT => -(STEP as int),
            _ => 0,
        }
    }

    /// Vertical displacement of one step in this direction.
    pub open spec fn dy(self) -> int {
        match self {
            Direction::UP | Direction::UPRIGHT | Direction::DOWNLEFT => STEP as int,
            Direction::DOWN | Direction::DOWNRIGHT | Direction::UPLEFT => -(STEP as int),
            _ => 0,
        }
    }

    /// The direction numbered `index`, for `index` from 0 to 8.
    pub fn from_int(index: i32) -> (r: Option<Direction>)
        ensures
            r is Some <==> 0 <= index <= 8,
            r matches Some(d) ==> d.code() == index,
    {
        match index {
            0 => Some(Direction::STOP),
            1 => Some(Direction::UP),
            2 => Some(Direction::RIGHT),
            3 => Some(Direction::DOWN),
            4 => Some(Direction::LEFT),
            5 => Some(Direction::UPRIGHT),
            6 => Some(Direction::DOWNRIGHT),
            7 => Some(Direction::UPLEFT),
            8 => Some(Direction::DOWNLEFT),
            _ => None,
        }
    }
}

/// Draws an integer from `min` up to, not including, `max`.
///
/// Calls `rand::thread_rng().gen_range(min..max)`, which panics on an empty
/// range and otherwise returns a value of the range. Nothing is claimed of
/// which value comes back.
#[verifier::external_body]
pub fn random_int(min: i32, max: i32) -> (r: i32)
    requires
        min < max,
    ensures
        min <= r < max,
{
    let mut rng = rand::thread_rng();
    rng.gen_range(min..max)
}

impl Sprite {
    /// True when the sprite's current action is over at time `now`.
    pub open spec fn action_over(self, now: i32) -> bool {
        self.action_end_timestamp == 0 || self.action_end_timestamp <= now
    }

    /// The sprite after it picked direction number `direction_roll` for the
    /// next `duration_roll` milliseconds.
    pub open spec fn retargeted(self, now: i32, direction_roll: i32, duration_roll: i32) -> Sprite {
        Sprite {
            current_direction: Self::rolled_direction(direction_roll),
            action_end_timestamp: (duration_roll + now) as i32,
            ..self
        }
    }

    /// The direction numbered `roll`, or `STOP` where there is none.
    pub open spec fn rolled_direction(roll: i32) -> Direction {
        choose|d: Direction|
            d.code() == if 0 <= roll <= 8 {
                roll as int
            } else {
                0
            }
    }

    /// The sprite after one step in its current direction.
    pub open spec fn stepped(self) -> Sprite {
        Sprite {
            x: (self.x + self.current_direction.dx()) as i32,
            y: (self.y + self.current_direction.dy()) as i32,
            ..self
        }
    }

    /// True when one step in any direction stays within `i32`.
    pub open spec fn can_step(self) -> bool {
        &&& i32::MIN + STEP <= self.x <= i32::MAX - STEP
        &&& i32::MIN + STEP <= self.y <= i32::MAX - STEP
    }

    /// True when `after` is `before` with a new action drawn at time `now`:
    /// some direction number below 8 and some duration below the maximum.
    pub open spec fn drew_new_action(before: Sprite, after: Sprite, now: i32) -> bool {
        exists|direction_roll: i32, duration_roll: i32|
            0 <= direction_roll < 8 && 0 <= duration_roll < MAX_ACTION_MILLIS && after
                == #[trigger] before.retargeted(now, direction_roll, duration_roll)
    }

    /// Starts a new action: direction number `direction_roll`, lasting
    /// `duration_roll` milliseconds from `now`.
    pub fn retarget(&mut self, now: i32, direction_roll: i32, duration_roll: i32)
        requires
            i32::MIN <= duration_roll + now <= i32::MAX,
        ensures
            *final(self) == old(self).retargeted(now, direction_roll, duration_roll),
    {
        let picked = Direction::from_int(direction_roll);
        self.current_direction = match picked {
            Some(d) => d,
            None => Direction::STOP,
        };
        self.action_end_timestamp = duration_roll + now;
        proof {
            let wanted = Self::rolled_direction(direction_roll);
            assert(self.current_direction.code() == if 0 <= direction_roll <= 8 {
                direction_roll as int
            } else {
                0
            });
            Direction::lemma_code_tells_apart(wanted, self.current_direction);
        }
    }

    /// Moves the sprite one step in its current direction.
    pub fn step(&mut self)
        requires
            old(self).can_step(),
        ensures
            *final(self) == old(self).stepped(),
    {
        match self.current_direction {
            Direction::STOP => {},
            Direction::UP => {
                self.y = self.y + STEP;
            },
            Direction::RIGHT => {
                self.x = self.x + STEP;
            },
            Direction::DOWN => {
                self.y = self.y - STEP;
            },
            Direction::LEFT => {
                self.x = self.x - STEP;
            },
            Direction::UPRIGHT => {
                self.y = self.y + STEP;
                self.x = self.x + STEP;
            },
            Direction::DOWNRIGHT => {
                self.y = self.y - STEP;
                self.x = self.x + STEP;
            },
            Direction::UPLEFT => {
                self.y = self.y - STEP;
                self.x = self.x - STEP;
            },
            Direction::DOWNLEFT => {
                self.y = self.y + STEP;
                self.x = self.x - STEP;
            },
        }
    }

    /// Lets a sprite that is not the player act at time `now`: when its
    /// action is over it draws a new direction and duration, otherwise it
    /// takes one step. The player's sprite is left alone.
    pub fn auto_move(&mut self, now: i32)
        requires
            old(self).can_step(),
            0 <= now <= i32::MAX - MAX_ACTION_MILLIS,
        ensures
            old(self).sprite_type == SpriteType::PLAYER ==> *final(self) == *old(self),
            old(self).sprite_type != SpriteType::PLAYER && old(self).action_over(now)
                ==> Self::drew_new_action(*old(self), *final(self), now),
            old(self).sprite_type != SpriteType::PLAYER && !old(self).action_over(now)
                ==> *final(self) == old(self).stepped(),
    {
        if self.sprite_type == SpriteType::PLAYER {
            return ;
        }
        if self.action_end_timestamp == 0 || self.action_end_timestamp <= now {
            let direction_roll: i32 = random_int(0, 8);
            let duration_roll: i32 = random_int(0, MAX_ACTION_MILLIS);
            self.retarget(now, direction_roll, duration_roll);
        } else {
            self.step();
        }
    }

    /// Where a coordinate lands after wrapping at the edges of `0..=limit`.
    pub open spec fn wrapped(position: i32, limit: i32) -> i32 {
        if position > limit {
            0
        } else if position < 0 {
            limit
        } else {
            position
        }
    }

    /// Brings a sprite that left the canvas back in at the opposite edge.
    /// One coordinate is corrected per call, the horizontal one first.
    pub fn return_sprite_to_canvas(&mut self, window_width: i32, window_height: i32)
        ensures
            final(self).x == Self::wrapped(old(self).x, window_width),
            final(self).y == if 0 <= old(self).x <= window_width {
                Self::wrapped(old(self).y, window_height)
            } else {
                old(self).y
            },
            *final(self) == (Sprite { x: final(self).x, y: final(self).y, ..*old(self) }),
    {
        if self.x > window_width {
            self.x = 0
        } else if self.x < 0 {
            self.x = window_width
        } else if self.y > window_height {
            self.y = 0
        } else if self.y < 0 {
            self.y = window_height
        }
    }

    /// Takes the sprite at `index` out of `sprites`; the others keep their order.
    pub fn destroy_sprite(sprites: &mut Vec<Sprite>, index: usize)
        requires
            index < old(sprites).len(),
        ensures
            final(sprites)@ == old(sprites)@.remove(index as int),
    {
        sprites.remove(index);
    }
}

impl Sprite {
    /// True when a sprite can be wrapped, moved and steered once without
    /// leaving `i32`.
    pub open spec fn in_bounds(self) -> bool {
        &&& i32::MIN + 2 * STEP <= self.x <= i32::MAX - 2 * STEP
        &&& i32::MIN + 2 * STEP <= self.y <= i32::MAX - 2 * STEP
    }

    /// Tells whether the sprite has room for the moves of one frame.
    pub fn fits(&self) -> (r: bool)
        ensures
            r == self.in_bounds(),
    {
        i32::MIN + 2 * STEP <= self.x && self.x <= i32::MAX - 2 * STEP && i32::MIN + 2 * STEP
            <= self.y && self.y <= i32::MAX - 2 * STEP
    }

    /// True when the point lies on the sprite's square, edges included.
    pub open spec fn covers(self, x: i32, y: i32) -> bool {
        self.x <= x <= self.x + SPRITE_SIZE && self.y <= y <= self.y + SPRITE_SIZE
    }

    /// Tells whether the point lies on the sprite's square.
    pub fn is_under(&self, x: i32, y: i32) -> (r: bool)
        ensures
            r == self.covers(x, y),
    {
        let right: i64 = self.x as i64 + SPRITE_SIZE as i64;
        let bottom: i64 = self.y as i64 + SPRITE_SIZE as i64;
        x >= self.x && x as i64 <= right && y >= self.y && y as i64 <= bottom
    }

    /// The sprite after the held keys moved it: up and down work against
    /// each other, and so do left and right.
    pub open spec fn steered(self, frame: Frame) -> Sprite {
        Sprite {
            x: (self.x - (if frame.left {
                STEP as int
            } else {
                0
            }) + (if frame.right {
                STEP as int
            } else {
                0
            })) as i32,
            y: (self.y - (if frame.up {
                STEP as int
            } else {
                0
            }) + (if frame.down {
                STEP as int
            } else {
                0
            })) as i32,
            ..self
        }
    }

    /// Moves the sprite by the keys that are held.
    pub fn steer(&mut self, frame: &Frame)
        requires
            old(self).can_step(),
        ensures
            *final(self) == old(self).steered(*frame),
    {
        if frame.up {
            self.y = self.y - STEP;
        }
        if frame.down {
            self.y = self.y + STEP;
        }
        if frame.left {
            self.x = self.x - STEP;
        }
        if frame.right {
            self.x = self.x + STEP;
        }
    }

    /// The sprite after `return_sprite_to_canvas`.
    pub open spec fn returned(self, window_width: i32, window_height: i32) -> Sprite {
        Sprite {
            x: Self::wrapped(self.x, window_width),
            y: if 0 <= self.x <= window_width {
                Self::wrapped(self.y, window_height)
            } else {
                self.y
            },
            ..self
        }
    }

    /// True when `after` is what `auto_move` may make of `before` at `now`.
    pub open spec fn auto_moved(before: Sprite, after: Sprite, now: i32) -> bool {
        if before.sprite_type == SpriteType::PLAYER {
            after == before
        } else if before.action_over(now) {
            Self::drew_new_action(before, after, now)
        } else {
            after == before.stepped()
        }
    }

    /// True when `after` is what one frame may make of `before`: brought
    /// back to the canvas, moved by itself, and, for the player, steered.
    pub open spec fn updated(before: Sprite, after: Sprite, frame: Frame) -> bool {
        exists|moved: Sprite| #[trigger]
            Self::auto_moved(
                before.returned(frame.window_width, frame.window_height),
                moved,
                frame.now,
            ) && after == if moved.sprite_type == SpriteType::PLAYER {
                moved.steered(frame)
            } else {
                moved
            }
    }

    /// True when the frame's click takes this sprite away: the button is
    /// down on an enemy.
    pub open spec fn is_hit(self, frame: Frame) -> bool {
        frame.mouse_down && self.covers(frame.mouse_x, frame.mouse_y) && self.sprite_type
            == SpriteType::ENEMY
    }

    /// Plays one frame on one sprite and tells whether the click took it.
    pub fn update(&mut self, frame: &Frame) -> (hit: bool)
        requires
            old(self).in_bounds(),
            frame.in_bounds(),
        ensures
            Self::updated(*old(self), *final(self), *frame),
            hit == final(self).is_hit(*frame),
    {
        self.return_sprite_to_canvas(frame.window_width, frame.window_height);
        let ghost back = *self;
        self.auto_move(frame.now);
        let ghost moved = *self;
        if self.sprite_type == SpriteType::PLAYER {
            self.steer(frame);
        }
        assert(Self::auto_moved(back, moved, frame.now));
        frame.mouse_down && self.is_under(frame.mouse_x, frame.mouse_y) && self.sprite_type
            == SpriteType::ENEMY
    }

    /// A new sprite of `sprite_type` somewhere on the canvas, in some colour.
    pub fn spawn(sprite_type: SpriteType, window_width: i32, window_height: i32) -> (r: Sprite)
        requires
            0 < window_width,
            0 < window_height,
        ensures
            0 <= r.x < window_width,
            0 <= r.y < window_height,
            r.red < 255,
            r.green < 255,
            r.blue < 255,
            r.sprite_type == sprite_type,
            r.action_end_timestamp == 0,
            r.current_direction == Direction::STOP,
    {
        let x: i32 = random_int(0, window_width);
        let y: i32 = random_int(0, window_height);
        let red: i32 = random_int(0, 255);
        let green: i32 = random_int(0, 255);
        let blue: i32 = random_int(0, 255);
        Sprite {
            x,
            y,
            sprite_type,
            red: red as u8,
            green: green as u8,
            blue: blue as u8,
            action_end_timestamp: 0,
            current_direction: Direction::STOP,
        }
    }
}

/// True when `after` is what one frame may make of the sprites `before`:
/// each sprite is updated in its turn, and those that the click took are
/// gone; the others keep their order.
pub open spec fn swept(before: Seq<Sprite>, after: Seq<Sprite>, frame: Frame) -> bool
    decreases before.len(),
{
    if before.len() == 0 {
        after.len() == 0
    } else {
        exists|last: Sprite| #[trigger]
            Sprite::updated(before.last(), last, frame) && if last.is_hit(frame) {
                swept(before.drop_last(), after, frame)
            } else {
                after.len() > 0 && after.last() == last && swept(
                    before.drop_last(),
                    after.drop_last(),
                    frame,
                )
            }
    }
}

/// Plays one frame on every sprite, front to back, and takes away the
/// enemies that the click hit.
pub fn update_sprites(sprites: &mut Vec<Sprite>, frame: &Frame)
    requires
        frame.in_bounds(),
        forall|i: int| 0 <= i < old(sprites).len() ==> (#[trigger] old(sprites)[i]).in_bounds(),
    ensures
        swept(old(sprites)@, final(sprites)@, *frame),
{
    let ghost before = sprites@;
    let ghost mut k: int = 0;
    let mut i: usize = 0;
    assert(before.take(0).len() == 0);
    while i < sprites.len()
        invariant
            frame.in_bounds(),
            0 <= i <= sprites.len(),
            i <= k <= before.len(),
            sprites.len() - i == before.len() - k,
            forall|j: int| 0 <= j < before.len() ==> (#[trigger] before[j]).in_bounds(),
            forall|j: int| i <= j < sprites.len() ==> #[trigger] sprites@[j] == before[j - i + k],
            swept(before.take(k), sprites@.take(i as int), *frame),
        decreases sprites.len() - i,
    {
        let ghost done = sprites@.take(i as int);
        let mut sprite = sprites[i];
        assert(sprite == before[k]);
        let hit = sprite.update(frame);
        proof {
            assert(before.take(k + 1).last() == before[k]);
            assert(before.take(k + 1).drop_last() =~= before.take(k));
        }
        if hit {
            sprites.remove(i);
            proof {
                assert(sprites@.take(i as int) =~= done);
                assert(Sprite::updated(before.take(k + 1).last(), sprite, *frame));
                k = k + 1;
            }
        } else {
            sprites.set(i, sprite);
            proof {
                let grown = sprites@.take(i + 1);
                assert(grown.last() == sprite);
                assert(grown.drop_last() =~= done);
                assert(Sprite::updated(before.take(k + 1).last(), sprite, *frame));
                k = k + 1;
            }
            i = i + 1;
        }
    }
    proof {
        assert(before.take(k) =~= before);
        assert(sprites@.take(i as int) =~= sprites@);
    }
}

} // verus!
