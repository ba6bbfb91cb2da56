use vstd::prelude::*;
use crate::geometry::{clamp_int, Direction};

verus! {

/// Width of the paddle in arena units.
pub const PEDDLE_WIDTH: usize = 12;

/// Units the paddle moves per key press.
pub const PEDDLE_SPEED: usize = 3;

/// The player's paddle: its top-left position in arena units.
#[derive(Clone, Copy, Debug)]
pub struct Peddle {
    pub pos: (usize, usize),
}

/// The paddle's `x` after one move in `dir` inside an arena `game_width` wide:
/// a left move saturates at 2, then `x` is clamped into `[2, game_width - PEDDLE_WIDTH]`.
pub open spec fn moved_x(x: int, dir: Direction, game_width: int) -> int {
    let stepped = match dir {
        Direction::LEFT => if x >= PEDDLE_SPEED { x - PEDDLE_SPEED } else { 2 },
        _ => x + PEDDLE_SPEED,
    };
    clamp_int(stepped, 2, game_width - PEDDLE_WIDTH)
}

/// The paddle's `x` after `n` moves in `dir`.
pub open spec fn moved_n(x: int, dir: Direction, game_width: int, n: nat) -> int
    decreases n,
{
    if n == 0 {
        x
    } else {
        moved_x(moved_n(x, dir, game_width, (n - 1) as nat), dir, game_width)
    }
}

impl Peddle {
    /// Moves the paddle one step left or right and keeps it inside the arena.
    pub fn move_in_dir(&mut self, dir: Direction, game_width: usize)
        requires
            dir == Direction::LEFT || dir == Direction::RIGHT,
            game_width >= PEDDLE_WIDTH,
        ensures
            final(self).pos.0 == moved_x(old(self).pos.0 as int, dir, game_width as int),
            final(self).pos.1 == old(self).pos.1,
    {
        let max_x = game_width - Self::get_width();
        let x = self.pos.0;
        let stepped: usize = match dir {
            Direction::LEFT => match x.checked_sub(Self::get_speed()) {
                None => 2,
                Some(v) => v,
            },
            _ => {
                if x >= max_x {
                    // already at or past the right bound: the clamp decides
                    max_x
                } else {
                    x + Self::get_speed()
                }
            },
        };
        let raised = if stepped < 2 { 2 } else { stepped };
        self.pos.0 = if raised > max_x { max_x } else { raised };
    }

    /// Units moved per key press.
    pub fn get_speed() -> (r: usize)
        ensures
            r == PEDDLE_SPEED,
    {
        PEDDLE_SPEED
    }

    /// Width of the paddle.
    pub fn get_width() -> (r: usize)
        ensures
            r == PEDDLE_WIDTH,
    {
        PEDDLE_WIDTH
    }

    /// The paddle's top-left position.
    pub fn get_pos(&self) -> (r: (usize, usize))
        ensures
            r == self.pos,
    {
        self.pos
    }
}

/// Repeated left moves bring the paddle to `x == 2` and keep it there, and no
/// move ever leaves `[2, game_width - PEDDLE_WIDTH]`.
pub proof fn lemma_left_moves_settle(x: int, game_width: int, n: nat)
    requires
        x >= 0,
        game_width >= PEDDLE_WIDTH + 2,
    ensures
        n >= 1 ==> 2 <= moved_n(x, Direction::LEFT, game_width, n) <= game_width - PEDDLE_WIDTH,
        n >= 1 && n >= x ==> moved_n(x, Direction::LEFT, game_width, n) == 2,
    decreases n,
{
    if n > 0 {
        lemma_left_moves_settle(x, game_width, (n - 1) as nat);
        lemma_left_bound(x, game_width, n);
    }
}

/// After `n` left moves from `x`, the paddle is at most at `max(2, x - n)`.
proof fn lemma_left_bound(x: int, game_width: int, n: nat)
    requires
        x >= 0,
        game_width >= PEDDLE_WIDTH + 2,
    ensures
        n >= 1 ==> moved_n(x, Direction::LEFT, game_width, n) <= if x - n >= 2 { x - n } else { 2 },
        moved_n(x, Direction::LEFT, game_width, n) >= 0,
    decreases n,
{
    if n > 0 {
        lemma_left_bound(x, game_width, (n - 1) as nat);
        assert(moved_n(x, Direction::LEFT, game_width, 0) == x);
    }
}

/// Repeated right moves bring the paddle to `x == game_width - PEDDLE_WIDTH`
/// and keep it there, and no move ever leaves `[2, game_width - PEDDLE_WIDTH]`.
pub proof fn lemma_right_moves_settle(x: int, game_width: int, n: nat)
    requires
        x >= 0,
        game_width >= PEDDLE_WIDTH + 2,
    ensures
        n >= 1 ==> 2 <= moved_n(x, Direction::RIGHT, game_width, n) <= game_width - PEDDLE_WIDTH,
        n >= game_width ==> moved_n(x, Direction::RIGHT, game_width, n) == game_width - PEDDLE_WIDTH,
    decreases n,
{
    if n > 0 {
        lemma_right_moves_settle(x, game_width, (n - 1) as nat);
        lemma_right_bound(x, game_width, (n - 1) as nat);
    }
}

/// After `n >= 1` right moves the paddle is at least at `min(2 + (n - 1), game_width - PEDDLE_WIDTH)`.
proof fn lemma_right_bound(x: int, game_width: int, n: nat)
    requires
        x >= 0,
        game_width >= PEDDLE_WIDTH + 2,
    ensures
        n >= 1 ==> moved_n(x, Direction::RIGHT, game_width, n) >= if 2 + n - 1 <= game_width
            - PEDDLE_WIDTH { 2 + n - 1 } else { game_width - PEDDLE_WIDTH },
    decreases n,
{
    if n > 0 {
        lemma_right_bound(x, game_width, (n - 1) as nat);
    }
}

} // verus!
