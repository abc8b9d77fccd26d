//! One moving pipe segment: its position on the toroidal grid, its heading,
//! its fixed color, and the per-tick step that moves it, possibly turns it,
//! and picks the connector glyph for the cell it arrived in.

use vstd::prelude::*;

use crate::direction::Direction;
use crate::direction::spec_clockwise;
use crate::direction::spec_counterclockwise;
use crate::direction::spec_opposite;
use crate::rng::next_random_u32;
use crate::wrap::spec_wrap_add;
use crate::wrap::spec_wrap_sub;
use crate::wrap::wrap_add;
use crate::wrap::wrap_sub;

verus! {

/// One pipe segment. The color is an ANSI palette index, fixed at creation;
/// the position is kept inside the grid by the wrap arithmetic on every move.
#[derive(Debug, Clone, Copy, PartialEq, Eq, Structural)]
pub struct Pipe {
    pub x: u16,
    pub y: u16,
    pub direction: Direction,
    pub color: u8,
}

/// The turn a pipe takes on one tick: none, or a quarter turn either way.
#[derive(Debug, Clone, Copy, PartialEq, Eq, Structural)]
pub enum Turn {
    Straight,
    Clockwise,
    Counterclockwise,
}

/// The direction after taking `t` while heading `d`.
pub open spec fn apply_turn(d: Direction, t: Turn) -> Direction {
    match t {
        Turn::Straight => d,
        Turn::Clockwise => spec_clockwise(d),
        Turn::Counterclockwise => spec_counterclockwise(d),
    }
}

/// The glyph-table index connecting the side a pipe came in from (`old_dir`,
/// pointing back toward the previous cell) with the direction it leaves
/// toward (`new_dir`): 0 vertical, 1 horizontal, 2 up-right, 3 down-right,
/// 4 up-left, 5 down-left.
pub open spec fn connector_index(new_dir: Direction, old_dir: Direction) -> int {
    match (new_dir, old_dir) {
        (Direction::Up, Direction::Up) => 0,
        (Direction::Up, Direction::Down) => 0,
        (Direction::Up, Direction::Left) => 4,
        (Direction::Up, Direction::Right) => 2,
        (Direction::Down, Direction::Up) => 0,
        (Direction::Down, Direction::Down) => 0,
        (Direction::Down, Direction::Left) => 5,
        (Direction::Down, Direction::Right) => 3,
        (Direction::Left, Direction::Up) => 4,
        (Direction::Left, Direction::Down) => 5,
        (Direction::Left, Direction::Left) => 1,
        (Direction::Left, Direction::Right) => 1,
        (Direction::Right, Direction::Up) => 2,
        (Direction::Right, Direction::Down) => 3,
        (Direction::Right, Direction::Left) => 1,
        (Direction::Right, Direction::Right) => 1,
    }
}

/// Picks the glyph that joins the incoming side `old_direction` to the
/// outgoing heading `direction`, from a caller-supplied six-glyph table in
/// the order vertical, horizontal, up-right, down-right, up-left, down-left.
pub fn pipe_connecting(old_direction: Direction, direction: Direction, map: [char; 6]) -> (c: char)
    ensures
        c == map@[connector_index(direction, old_direction)],
{
    let idx: usize = match (direction, old_direction) {
        (Direction::Up, Direction::Up) => 0,
        (Direction::Up, Direction::Down) => 0,
        (Direction::Up, Direction::Left) => 4,
        (Direction::Up, Direction::Right) => 2,
        (Direction::Down, Direction::Up) => 0,
        (Direction::Down, Direction::Down) => 0,
        (Direction::Down, Direction::Left) => 5,
        (Direction::Down, Direction::Right) => 3,
        (Direction::Left, Direction::Up) => 4,
        (Direction::Left, Direction::Down) => 5,
        (Direction::Left, Direction::Left) => 1,
        (Direction::Left, Direction::Right) => 1,
        (Direction::Right, Direction::Up) => 2,
        (Direction::Right, Direction::Down) => 3,
        (Direction::Right, Direction::Left) => 1,
        (Direction::Right, Direction::Right) => 1,
    };
    map[idx]
}

/// The pipe one cell forward in its current direction, with both coordinates
/// wrapped to the grid `[0, w) x [0, h)`.
pub open spec fn spec_move(p: Pipe, w: u16, h: u16) -> Pipe {
    match p.direction {
        Direction::Up => Pipe { y: spec_wrap_sub(p.y, 1, 0, h) as u16, ..p },
        Direction::Down => Pipe { y: spec_wrap_add(p.y, 1, 0, h) as u16, ..p },
        Direction::Left => Pipe { x: spec_wrap_sub(p.x, 1, 0, w) as u16, ..p },
        Direction::Right => Pipe { x: spec_wrap_add(p.x, 1, 0, w) as u16, ..p },
    }
}

/// The pipe after one full tick: moved one cell, then turned by `t`.
pub open spec fn spec_tick_state(p: Pipe, t: Turn, w: u16, h: u16) -> Pipe {
    let moved = spec_move(p, w, h);
    Pipe { direction: apply_turn(p.direction, t), ..moved }
}

/// The glyph a tick emits: the connector between the side the pipe entered
/// the new cell from and the direction it will leave it toward.
pub open spec fn spec_tick_glyph(p: Pipe, t: Turn, map: Seq<char>) -> char {
    map[connector_index(apply_turn(p.direction, t), spec_opposite(p.direction))]
}

/// The heading a pipe is given at creation, from one random draw.
pub open spec fn direction_from_bits(r: u32) -> Direction {
    if r % 4 == 0 {
        Direction::Up
    } else if r % 4 == 1 {
        Direction::Down
    } else if r % 4 == 2 {
        Direction::Left
    } else {
        Direction::Right
    }
}

impl Pipe {
    pub fn new(x: u16, y: u16, direction: Direction, color: u8) -> (p: Self)
        ensures
            p == (Pipe { x, y, direction, color }),
    {
        Pipe { x, y, direction, color }
    }

    /// Builds the pipe a given set of random draws determines: heading and
    /// color from the first two, the starting position from the last two,
    /// reduced into the grid.
    pub fn from_bits(
        r_dir: u32,
        r_color: u32,
        r_x: u32,
        r_y: u32,
        term_width: u16,
        term_height: u16,
    ) -> (p: Self)
        requires
            0 < term_width,
            0 < term_height,
        ensures
            p.direction == direction_from_bits(r_dir),
            p.color == r_color % 16,
            p.x == r_x % (term_width as u32),
            p.y == r_y % (term_height as u32),
    {
        let direction = match r_dir % 4 {
            0 => Direction::Up,
            1 => Direction::Down,
            2 => Direction::Left,
            _ => Direction::Right,
        };
        let color: u8 = (r_color % 16) as u8;
        let x: u16 = (r_x % term_width as u32) as u16;
        let y: u16 = (r_y % term_height as u32) as u16;
        Pipe { x, y, direction, color }
    }

    /// A freshly created pipe: heading, color and starting position drawn
    /// from the thread-local generator, the position inside the grid.
    pub fn new_random(term_width: u16, term_height: u16, rng: &mut rand::rngs::ThreadRng) -> (p: Self)
        requires
            0 < term_width,
            0 < term_height,
        ensures
            p.x < term_width,
            p.y < term_height,
            p.color < 16,
    {
        let r_dir = next_random_u32(rng);
        let r_color = next_random_u32(rng);
        let r_x = next_random_u32(rng);
        let r_y = next_random_u32(rng);
        Pipe::from_bits(r_dir, r_color, r_x, r_y, term_width, term_height)
    }

    fn move_forward(&mut self, term_height: u16, term_width: u16)
        requires
            0 < term_width,
            0 < term_height,
        ensures
            *final(self) == spec_move(*old(self), term_width, term_height),
    {
        match self.direction {
            Direction::Up => self.y = wrap_sub(self.y, 1, 0, term_height),
            Direction::Down => self.y = wrap_add(self.y, 1, 0, term_height),
            Direction::Left => self.x = wrap_sub(self.x, 1, 0, term_width),
            Direction::Right => self.x = wrap_add(self.x, 1, 0, term_width),
        }
    }

    fn maybe_turn(&mut self, turn: Turn) -> (turned: bool)
        ensures
            *final(self) == (Pipe { direction: apply_turn(old(self).direction, turn), ..*old(self) }),
            turned == (turn != Turn::Straight),
    {
        match turn {
            Turn::Straight => false,
            Turn::Clockwise => {
                self.direction = self.direction.clockwise();
                true
            }
            Turn::Counterclockwise => {
                self.direction = self.direction.counterclockwise();
                true
            }
        }
    }

    /// One simulation tick: move one cell forward with wraparound, take the
    /// given turn, and return the glyph for the cell just entered. The turn
    /// is drawn by the caller (with probability `turn_chance`, an even coin
    /// between the two quarter turns); every outcome is handled here.
    pub fn tick(
        &mut self,
        turn: Turn,
        term_width: u16,
        term_height: u16,
        char_map: [char; 6],
    ) -> (c: char)
        requires
            0 < term_width,
            0 < term_height,
        ensures
            *final(self) == spec_tick_state(*old(self), turn, term_width, term_height),
            c == spec_tick_glyph(*old(self), turn, char_map@),
    {
        self.move_forward(term_height, term_width);

        let old_direction = self.direction;
        let _ = self.maybe_turn(turn);

        pipe_connecting(old_direction.opposite(), self.direction, char_map)
    }
}

/// The pipe after `n` ticks in which it never turns.
pub open spec fn spec_ticks_straight(p: Pipe, n: nat, w: u16, h: u16) -> Pipe
    decreases n,
{
    if n == 0 {
        p
    } else {
        spec_tick_state(spec_ticks_straight(p, (n - 1) as nat, w, h), Turn::Straight, w, h)
    }
}

/// The index of the straight glyph of a direction's axis: vertical for
/// Up/Down, horizontal for Left/Right.
pub open spec fn straight_glyph_index(d: Direction) -> int {
    match d {
        Direction::Up => 0,
        Direction::Down => 0,
        Direction::Left => 1,
        Direction::Right => 1,
    }
}

/// Law: a pipe that never turns keeps its direction over any number of ticks.
pub proof fn lemma_straight_keeps_direction(p: Pipe, n: nat, w: u16, h: u16)
    ensures
        spec_ticks_straight(p, n, w, h).direction == p.direction,
    decreases n,
{
    if n > 0 {
        lemma_straight_keeps_direction(p, (n - 1) as nat, w, h);
    }
}

/// Law: a tick without a turn emits the straight glyph of the pipe's axis.
pub proof fn lemma_straight_tick_glyph(p: Pipe, map: Seq<char>)
    ensures
        spec_tick_glyph(p, Turn::Straight, map) == map[straight_glyph_index(p.direction)],
{
}

/// Law: the wrap arithmetic keeps a pipe's position inside the grid on
/// every tick, whichever turn is taken.
pub proof fn lemma_tick_preserves_bounds(p: Pipe, t: Turn, w: u16, h: u16)
    requires
        p.x < w,
        p.y < h,
    ensures
        spec_tick_state(p, t, w, h).x < w,
        spec_tick_state(p, t, w, h).y < h,
{
}

/// Law: a tick with a turn, either way, always changes the direction.
pub proof fn lemma_turning_tick_changes_direction(p: Pipe, t: Turn, w: u16, h: u16)
    requires
        t != Turn::Straight,
    ensures
        spec_tick_state(p, t, w, h).direction != p.direction,
{
}

} // verus!
