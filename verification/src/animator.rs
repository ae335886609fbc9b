//! The animator: all mutable state of the animation, and the three
//! operations an event loop invokes on it — describe a frame, give the
//! current rotation speeds, and react to a key press.

use vstd::prelude::*;

use crate::color::{Rgba, rainbow, spec_rainbow};

verus! {

/// The keys the animator responds to.
#[derive(Clone, Copy, PartialEq, Eq, Structural, Debug)]
pub enum Key {
    /// Spin forward.
    Right,
    /// Spin backward.
    Left,
    /// Move up.
    W,
    /// Move down.
    S,
    /// Move left.
    A,
    /// Move right.
    D,
    /// Reset the position.
    Space,
    /// Shift the color scheme up.
    Up,
    /// Shift the color scheme down.
    Down,
}

/// The sign applied to the rotation speed.
#[derive(Clone, Copy, PartialEq, Eq, Structural, Debug)]
pub enum Direction {
    /// Sign +1: the big square turns forward.
    Positive,
    /// Sign -1: the big square turns backward.
    Negative,
}

/// The sign of a direction as an integer, +1 or -1.
pub open spec fn spec_sign(d: Direction) -> int {
    match d {
        Direction::Positive => 1,
        Direction::Negative => -1,
    }
}

/// The big square's rotation speed in radians per second: twice the
/// direction sign.
pub open spec fn spec_big_rate(d: Direction) -> int {
    2 * spec_sign(d)
}

/// The little square's rotation speed in radians per second: the exact
/// opposite of the big square's.
pub open spec fn spec_little_rate(d: Direction) -> int {
    -2 * spec_sign(d)
}

/// The direction with the opposite sign.
pub open spec fn spec_flip(d: Direction) -> Direction {
    match d {
        Direction::Positive => Direction::Negative,
        Direction::Negative => Direction::Positive,
    }
}

/// How far one W/S/A/D press moves the squares, in screen units.
pub const MOVE_STEP: i64 = 5;

/// The starting (and Space-reset) position, in screen units.
pub const START_X: i64 = 100;

/// The starting (and Space-reset) position, in screen units.
pub const START_Y: i64 = 100;

/// The index of the last color in the rainbow table.
pub const TOP_INDEX: usize = 5;

/// The animator state. Angles are not held here: they are unbounded
/// floating-point accumulators owned by the render backend, which advances
/// them by the speeds that [`App::rotation_rates`] prescribes.
#[derive(Clone, Copy, PartialEq, Eq, Structural, Debug)]
pub struct App {
    /// Rainbow index of the big square's color.
    pub fg_index: usize,
    /// Rainbow index of the little square's (and the backdrop's) color.
    pub bg_index: usize,
    /// Horizontal position of the squares' common center, in screen units.
    pub x: i64,
    /// Vertical position of the squares' common center, in screen units.
    pub y: i64,
    /// Current sign of the rotation speed.
    pub direction: Direction,
}

/// Well-formedness: the two color indices always sum to the top index, which
/// also keeps each of them within the rainbow table.
pub open spec fn wf(s: App) -> bool {
    s.fg_index + s.bg_index == TOP_INDEX
}

/// Clamp a mathematical integer into the range an `i64` can hold.
pub open spec fn saturate_i64(v: int) -> int {
    if v < i64::MIN {
        i64::MIN as int
    } else if v > i64::MAX {
        i64::MAX as int
    } else {
        v
    }
}

/// One Up or Down press on the color scheme: step the index pair by one with
/// a clamp. Increasing is blocked once the foreground index reaches the top
/// or the background index reaches zero, and symmetrically for decreasing.
pub open spec fn spec_update_color(s: App, up: bool) -> App {
    if up {
        if s.fg_index != TOP_INDEX && s.bg_index != 0 {
            (App { fg_index: (s.fg_index + 1) as usize, bg_index: (s.bg_index - 1) as usize, ..s })
        } else {
            s
        }
    } else {
        if s.fg_index != 0 && s.bg_index != TOP_INDEX {
            (App { fg_index: (s.fg_index - 1) as usize, bg_index: (s.bg_index + 1) as usize, ..s })
        } else {
            s
        }
    }
}

/// The effect of one key press on the animator state.
pub open spec fn spec_step(s: App, key: Key) -> App {
    match key {
        Key::Right => (App { direction: Direction::Positive, ..s }),
        Key::Left => (App { direction: Direction::Negative, ..s }),
        Key::W => (App { y: saturate_i64(s.y - MOVE_STEP) as i64, ..s }),
        Key::S => (App { y: saturate_i64(s.y + MOVE_STEP) as i64, ..s }),
        Key::A => (App { x: saturate_i64(s.x - MOVE_STEP) as i64, ..s }),
        Key::D => (App { x: saturate_i64(s.x + MOVE_STEP) as i64, ..s }),
        Key::Space => (App { x: START_X, y: START_Y, ..s }),
        Key::Up => spec_update_color(s, true),
        Key::Down => spec_update_color(s, false),
    }
}

/// The state after a whole sequence of key presses, first press first.
pub open spec fn spec_run(s: App, keys: Seq<Key>) -> App
    decreases keys.len(),
{
    if keys.len() == 0 {
        s
    } else {
        spec_run(spec_step(s, keys[0]), keys.drop_first())
    }
}

/// Shift `v` by `delta`, saturating at the bounds of `i64`.
fn shifted(v: i64, delta: i64) -> (r: i64)
    ensures
        r as int == saturate_i64(v + delta),
{
    if delta >= 0 {
        if v > i64::MAX - delta {
            i64::MAX
        } else {
            v + delta
        }
    } else {
        if v < i64::MIN - delta {
            i64::MIN
        } else {
            v + delta
        }
    }
}

impl App {
    /// A fresh animator: color indices at (top, 0), position at the start,
    /// spinning forward.
    pub fn new() -> (app: App)
        ensures
            app.fg_index == TOP_INDEX,
            app.bg_index == 0,
            app.x == START_X,
            app.y == START_Y,
            app.direction == Direction::Positive,
            wf(app),
    {
        App {
            fg_index: TOP_INDEX,
            bg_index: 0,
            x: START_X,
            y: START_Y,
            direction: Direction::Positive,
        }
    }

    /// Step the color scheme: up if `up_or_down` is 1, down otherwise,
    /// clamped so both indices stay within the rainbow table. Returns the
    /// new index pair.
    pub fn update_color(&mut self, up_or_down: i32) -> (indexes: (usize, usize))
        requires
            wf(*old(self)),
        ensures
            *final(self) == spec_update_color(*old(self), up_or_down == 1),
            wf(*final(self)),
            indexes == (final(self).fg_index, final(self).bg_index),
            final(self).fg_index <= TOP_INDEX,
            final(self).bg_index <= TOP_INDEX,
            up_or_down == 1 && old(self).fg_index == TOP_INDEX ==> *final(self) == *old(self),
            up_or_down != 1 && old(self).fg_index == 0 ==> *final(self) == *old(self),
    {
        if up_or_down == 1 {
            if self.fg_index != TOP_INDEX && self.bg_index != 0 {
                self.fg_index += 1;
                self.bg_index -= 1;
            }
        } else {
            if self.fg_index != 0 && self.bg_index != TOP_INDEX {
                self.fg_index -= 1;
                self.bg_index += 1;
            }
        }
        (self.fg_index, self.bg_index)
    }

    /// React to one key press as the input mapping prescribes: Right/Left
    /// set the direction, W/S/A/D move the position by one step, Space
    /// resets the position, Up/Down step the color scheme.
    pub fn on_input(&mut self, key: Key)
        requires
            wf(*old(self)),
        ensures
            *final(self) == spec_step(*old(self), key),
            wf(*final(self)),
    {
        match key {
            Key::Right => {
                self.direction = Direction::Positive;
            }
            Key::Left => {
                self.direction = Direction::Negative;
            }
            Key::W => {
                self.y = shifted(self.y, -MOVE_STEP);
            }
            Key::S => {
                self.y = shifted(self.y, MOVE_STEP);
            }
            Key::A => {
                self.x = shifted(self.x, -MOVE_STEP);
            }
            Key::D => {
                self.x = shifted(self.x, MOVE_STEP);
            }
            Key::Space => {
                self.x = START_X;
                self.y = START_Y;
            }
            Key::Up => {
                let _ = self.update_color(1);
            }
            Key::Down => {
                let _ = self.update_color(0);
            }
        }
    }

    /// The rotation speeds in radians per second, `(big, little)`: the big
    /// square turns at twice the direction sign, the little square exactly
    /// opposite. The backend advances each angle by its speed times the
    /// elapsed seconds.
    pub fn rotation_rates(&self) -> (r: (i64, i64))
        ensures
            r.0 == spec_big_rate(self.direction),
            r.1 == spec_little_rate(self.direction),
    {
        match self.direction {
            Direction::Positive => (2, -2),
            Direction::Negative => (-2, 2),
        }
    }

    /// Describe the current frame: clear with the background color, then
    /// draw the big square in the foreground color, then the little square
    /// in the background color on top, both centered at the position.
    pub fn render(&self) -> (scene: Scene)
        requires
            wf(*self),
        ensures
            scene.clear == spec_rainbow(self.bg_index as int),
            scene.x == self.x,
            scene.y == self.y,
            scene.big.color == spec_rainbow(self.fg_index as int),
            scene.big.side == 80,
            scene.big.half == 40,
            scene.little.color == spec_rainbow(self.bg_index as int),
            scene.little.side == 40,
            scene.little.half == 20,
    {
        let fg = rainbow(self.fg_index);
        let bg = rainbow(self.bg_index);
        Scene {
            clear: bg,
            x: self.x,
            y: self.y,
            big: Quad { color: fg, side: 80, half: 40 },
            little: Quad { color: bg, side: 40, half: 20 },
        }
    }
}

/// One filled square to draw: its color, its side length, and half its side
/// length, by which the backend translates back after rotating so the square
/// spins about its center.
#[derive(Clone, Copy, PartialEq, Eq, Structural, Debug)]
pub struct Quad {
    /// Fill color.
    pub color: Rgba,
    /// Side length in screen units.
    pub side: u8,
    /// Half the side length in screen units.
    pub half: u8,
}

/// Everything one frame draws, in order: clear the screen with `clear`, then
/// `big` rotated by the big angle, then `little` rotated by the little angle,
/// both centered at `(x, y)`.
#[derive(Clone, Copy, PartialEq, Eq, Structural, Debug)]
pub struct Scene {
    /// Color the whole screen is cleared with.
    pub clear: Rgba,
    /// Horizontal center of both squares.
    pub x: i64,
    /// Vertical center of both squares.
    pub y: i64,
    /// The big square, drawn first.
    pub big: Quad,
    /// The little square, drawn on top.
    pub little: Quad,
}

} // verus!
