use vstd::prelude::*;
use crate::geometry::{clamp_int, round_to_unit, round_unit, Direction, MAX_SIDE, SCALE};
use crate::grid::{Cell, CELL_WIDTH};
use crate::paddle::PEDDLE_WIDTH;

verus! {

/// Largest position coordinate of a ball, in ball steps.
pub const POS_MAX: i64 = 6553500;

/// Largest speed of a ball along one axis, in ball steps per tick.
pub const V_MAX: i64 = 1000000000000;

/// Horizontal speed a paddle hit at its very edge adds, in ball steps (0.4 units).
pub const DEFLECTION: i64 = 40;

/// Band, in ball steps, next to a brick's side in which a hit counts as a side hit.
pub const SIDE_BAND: i64 = 30;

/// The ball: position and velocity in ball steps (`SCALE` steps per arena unit).
#[derive(Clone, Copy, Debug)]
pub struct Ball {
    pub game_pos: (i64, i64),
    pub vel: (i64, i64),
}

/// Speed added to `vx` by a paddle hit `offset` steps right of the paddle's centre:
/// `0.4 * offset / (PEDDLE_WIDTH / 2)` units, truncated toward zero.
pub open spec fn deflection(offset: int) -> int {
    let den = SCALE * (PEDDLE_WIDTH / 2) as int;
    if offset >= 0 {
        offset * DEFLECTION / den
    } else {
        -((-offset) * DEFLECTION / den)
    }
}

/// The outcome of one physics step of a ball at `(fx, fy)` moving `(vx, vy)` in a
/// `w` by `h` arena with the paddle at `(px, py)`: whether the ball is still in
/// play, then its new position and velocity.
pub open spec fn step(
    fx: int,
    fy: int,
    vx: int,
    vy: int,
    w: int,
    h: int,
    px: int,
    py: int,
) -> (bool, int, int, int, int) {
    let rx = round_unit(fx);
    let ry = round_unit(fy);
    let vx1 = if rx <= 2 || rx >= w - 1 { -vx } else { vx };
    let vy1 = if ry <= 2 { -vy } else { vy };
    if ry >= h - 1 {
        (false, fx, fy, vx1, vy1)
    } else {
        let hit = px <= rx <= px + PEDDLE_WIDTH && ry == py;
        let vx2 = if hit {
            clamp_int(vx1 + deflection(fx - SCALE * (px + PEDDLE_WIDTH / 2)), -V_MAX, V_MAX as int)
        } else {
            vx1
        };
        let vy2 = if hit { -vy1 } else { vy1 };
        (
            true,
            clamp_int(fx + vx2, 2 * SCALE, (w - 1) * SCALE),
            clamp_int(fy + vy2, 2 * SCALE, (h - 1) * SCALE),
            vx2,
            vy2,
        )
    }
}

/// Which way a ball at `(x, y)` with horizontal speed `vx` hits a brick whose
/// top-left corner is at `(tx, ty)` (all in ball steps): a side hit is reported
/// as `LEFT` whichever side was struck.
pub open spec fn collision(x: int, y: int, vx: int, tx: int, ty: int) -> Option<Direction> {
    let tw = CELL_WIDTH * SCALE;
    if ty <= y <= ty + SCALE && ((tx <= x <= tx + SIDE_BAND && vx > 0) || (tx + tw - SIDE_BAND
        <= x <= tx + tw && vx < 0)) {
        Some(Direction::LEFT)
    } else if tx <= x <= tx + tw && ty <= y <= ty + SCALE / 2 {
        Some(Direction::DOWN)
    } else if tx <= x <= tx + tw && ty + SCALE / 2 <= y <= ty + SCALE {
        Some(Direction::UP)
    } else {
        None
    }
}

/// A step that keeps the ball in play leaves it inside the arena's interior
/// `[2, w - 1] x [2, h - 1]`, whatever its position and speed were.
pub proof fn lemma_step_stays_in_arena(
    fx: int,
    fy: int,
    vx: int,
    vy: int,
    w: int,
    h: int,
    px: int,
    py: int,
)
    requires
        w >= 3,
        h >= 3,
    ensures
        step(fx, fy, vx, vy, w, h, px, py).0 ==> 2 * SCALE <= step(fx, fy, vx, vy, w, h, px, py).1
            <= (w - 1) * SCALE,
        step(fx, fy, vx, vy, w, h, px, py).0 ==> 2 * SCALE <= step(fx, fy, vx, vy, w, h, px, py).2
            <= (h - 1) * SCALE,
{
}

/// A ball whose rounded row has reached the floor row `h - 1` is lost on that
/// step: its position stays, its vertical speed is untouched, and its
/// horizontal speed changes only by the wall reflection made before the floor
/// was detected.
pub proof fn lemma_floor_loss(
    fx: int,
    fy: int,
    vx: int,
    vy: int,
    w: int,
    h: int,
    px: int,
    py: int,
)
    requires
        h >= 4,
        round_unit(fy) >= h - 1,
    ensures
        !step(fx, fy, vx, vy, w, h, px, py).0,
        step(fx, fy, vx, vy, w, h, px, py).1 == fx,
        step(fx, fy, vx, vy, w, h, px, py).2 == fy,
        step(fx, fy, vx, vy, w, h, px, py).3 == if round_unit(fx) <= 2 || round_unit(fx) >= w - 1 {
            -vx
        } else {
            vx
        },
        step(fx, fy, vx, vy, w, h, px, py).4 == vy,
{
}

/// A step in play that carries the ball down into the floor row is followed
/// by a step that reports the ball lost and keeps it where it came to rest.
pub proof fn lemma_driven_to_floor(
    fx: int,
    fy: int,
    vx: int,
    vy: int,
    w: int,
    h: int,
    px: int,
    py: int,
)
    requires
        h >= 4,
        step(fx, fy, vx, vy, w, h, px, py).0,
        round_unit(step(fx, fy, vx, vy, w, h, px, py).2) >= h - 1,
    ensures
        ({
            let s = step(fx, fy, vx, vy, w, h, px, py);
            let t = step(s.1, s.2, s.3, s.4, w, h, px, py);
            !t.0 && t.1 == s.1 && t.2 == s.2 && t.4 == s.4
        }),
{
    let s = step(fx, fy, vx, vy, w, h, px, py);
    lemma_floor_loss(s.1, s.2, s.3, s.4, w, h, px, py);
}

/// Limits `v` to `[lo, hi]`, raising it first.
fn clamp_i64(v: i64, lo: i64, hi: i64) -> (r: i64)
    ensures
        r == clamp_int(v as int, lo as int, hi as int),
{
    let raised = if v < lo { lo } else { v };
    if raised > hi { hi } else { raised }
}

impl Ball {
    /// Position and speed stay within the ranges that the arithmetic allows.
    pub open spec fn wf(self) -> bool {
        0 <= self.game_pos.0 <= POS_MAX && 0 <= self.game_pos.1 <= POS_MAX && -V_MAX
            <= self.vel.0 <= V_MAX && -V_MAX <= self.vel.1 <= V_MAX
    }

    /// The position rounded to arena units.
    pub open spec fn unit_pos(self) -> (int, int) {
        (round_unit(self.game_pos.0 as int), round_unit(self.game_pos.1 as int))
    }

    /// The outcome of `update` on this ball.
    pub open spec fn stepped(self, w: int, h: int, paddle: (usize, usize)) -> (
        bool,
        int,
        int,
        int,
        int,
    ) {
        step(
            self.game_pos.0 as int,
            self.game_pos.1 as int,
            self.vel.0 as int,
            self.vel.1 as int,
            w,
            h,
            paddle.0 as int,
            paddle.1 as int,
        )
    }

    /// A ball at `(x, y)` moving `(vx, vy)`, all in ball steps.
    pub fn new(x: i64, y: i64, vx: i64, vy: i64) -> (r: Ball)
        ensures
            r.game_pos == (x, y),
            r.vel == (vx, vy),
    {
        Ball { game_pos: (x, y), vel: (vx, vy) }
    }

    /// Width of the ball in arena units.
    pub fn get_width() -> (r: usize)
        ensures
            r == 1,
    {
        1
    }

    /// The position rounded to arena units.
    pub fn get_pos(&self) -> (r: (usize, usize))
        requires
            self.wf(),
        ensures
            r.0 as int == self.unit_pos().0,
            r.1 as int == self.unit_pos().1,
    {
        let x = round_to_unit(self.game_pos.0);
        let y = round_to_unit(self.game_pos.1);
        (x as usize, y as usize)
    }

    /// Advances the ball one tick in a `game_size` arena with the paddle at
    /// `player_pos`. Returns false, leaving the position as it was, when the
    /// ball has reached the floor; otherwise reflects it off the walls, the
    /// ceiling and the paddle, moves it and clamps it into the arena.
    pub fn update(&mut self, game_size: (usize, usize), player_pos: (usize, usize)) -> (r: bool)
        requires
            old(self).wf(),
            3 <= game_size.0 <= MAX_SIDE,
            3 <= game_size.1 <= MAX_SIDE,
            player_pos.0 <= MAX_SIDE,
            player_pos.1 <= MAX_SIDE,
        ensures
            final(self).wf(),
            ({
                let s = old(self).stepped(game_size.0 as int, game_size.1 as int, player_pos);
                r == s.0 && final(self).game_pos.0 == s.1 && final(self).game_pos.1 == s.2
                    && final(self).vel.0 == s.3 && final(self).vel.1 == s.4
            }),
            r ==> 2 * SCALE <= final(self).game_pos.0 <= (game_size.0 - 1) * SCALE,
            r ==> 2 * SCALE <= final(self).game_pos.1 <= (game_size.1 - 1) * SCALE,
            !r ==> final(self).game_pos == old(self).game_pos,
    {
        let w = game_size.0 as i64;
        let h = game_size.1 as i64;
        let (x, y) = self.get_pos();
        let rx = x as i64;
        let ry = y as i64;
        if rx <= 2 || rx >= w - 1 {
            self.vel.0 = -self.vel.0;
        }
        if ry <= 2 {
            self.vel.1 = -self.vel.1;
        }
        if ry >= h - 1 {
            return false;
        }
        let px = player_pos.0 as i64;
        let py = player_pos.1 as i64;
        let pw = PEDDLE_WIDTH as i64;
        if rx >= px && rx <= px + pw && ry == py {
            self.vel.1 = -self.vel.1;
            let offset = self.game_pos.0 - SCALE * (px + pw / 2);
            let den = SCALE * (pw / 2);
            let d: i64 = if offset >= 0 {
                offset * DEFLECTION / den
            } else {
                -((-offset) * DEFLECTION / den)
            };
            self.vel.0 = clamp_i64(self.vel.0 + d, -V_MAX, V_MAX);
        }
        self.game_pos.0 = clamp_i64(self.game_pos.0 + self.vel.0, 2 * SCALE, (w - 1) * SCALE);
        self.game_pos.1 = clamp_i64(self.game_pos.1 + self.vel.1, 2 * SCALE, (h - 1) * SCALE);
        true
    }

    /// The direction in which the ball strikes `target`, if it touches it.
    pub fn collides_with(&self, target: &Cell) -> (r: Option<Direction>)
        requires
            self.wf(),
            target.in_bounds(),
        ensures
            r == collision(
                self.game_pos.0 as int,
                self.game_pos.1 as int,
                self.vel.0 as int,
                target.pos.0 * SCALE,
                target.pos.1 * SCALE,
            ),
    {
        let tx = target.pos.0 as i64 * SCALE;
        let ty = target.pos.1 as i64 * SCALE;
        let tw = Cell::get_width() as i64 * SCALE;
        let x = self.game_pos.0;
        let y = self.game_pos.1;
        let vx = self.vel.0;
        if ty <= y && y <= ty + SCALE {
            if tx <= x && x <= tx + SIDE_BAND && vx > 0 {
                return Some(Direction::LEFT);
            }
            if tx + tw - SIDE_BAND <= x && x <= tx + tw && vx < 0 {
                return Some(Direction::LEFT);
            }
        }
        if tx <= x && x <= tx + tw {
            if ty <= y && y <= ty + SCALE / 2 {
                return Some(Direction::DOWN);
            }
            if ty + SCALE / 2 <= y && y <= ty + SCALE {
                return Some(Direction::UP);
            }
        }
        None
    }

    /// Reverses the horizontal speed for a side hit, the vertical one otherwise.
    pub fn change_direction(&mut self, dir: Direction)
        requires
            old(self).wf(),
        ensures
            final(self).wf(),
            final(self).game_pos == old(self).game_pos,
            dir == Direction::LEFT || dir == Direction::RIGHT ==> final(self).vel.0 == -old(
                self,
            ).vel.0 && final(self).vel.1 == old(self).vel.1,
            dir == Direction::UP || dir == Direction::DOWN ==> final(self).vel.0 == old(self).vel.0
                && final(self).vel.1 == -old(self).vel.1,
    {
        match dir {
            Direction::LEFT | Direction::RIGHT => self.vel.0 = -self.vel.0,
            Direction::UP | Direction::DOWN => self.vel.1 = -self.vel.1,
        }
    }
}

} // verus!
