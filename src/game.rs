use vstd::prelude::*;
use crate::ball::{collision, Ball};
use crate::geometry::{Direction, MAX_SIDE, SCALE};
use crate::grid::{generate_cell_grid, grid_cols, grid_pos, grid_rows, Cell};
use crate::paddle::{moved_x, Peddle, PEDDLE_WIDTH};

verus! {

/// Narrowest arena the game accepts.
pub const MIN_WIDTH: usize = 32;

/// Lowest arena the game accepts.
pub const MIN_HEIGHT: usize = 20;

/// Speed of a fresh ball along each axis, in ball steps per tick (0.3 units).
pub const START_SPEED: i64 = 30;

/// Key that begins the first round.
pub const KEY_SPACE: u8 = 32;

/// Key that quits, on every screen.
pub const KEY_Q: u8 = 113;

/// Key that restarts while playing and replays after a loss or a win.
pub const KEY_R: u8 = 114;

/// Keys that move the paddle left.
pub const KEY_H: u8 = 104;

pub const KEY_A: u8 = 97;

/// Keys that move the paddle right.
pub const KEY_L: u8 = 108;

pub const KEY_D: u8 = 100;

/// The screen the session shows.
#[derive(Clone, Copy, Debug, PartialEq, Eq, Structural)]
pub enum Screen {
    Start,
    Playing,
    Lost,
    Won,
    Terminated,
}

/// What a key does on the current screen.
#[derive(Clone, Copy, Debug, PartialEq, Eq, Structural)]
pub enum KeyAction {
    Ignore,
    Quit,
    Begin,
    MoveLeft,
    MoveRight,
}

/// The key that accepts a dialog on `screen`: space on the start screen, `r`
/// (replay) after a loss or a win.
pub open spec fn accept_key(screen: Screen) -> u8 {
    if screen == Screen::Start {
        KEY_SPACE
    } else {
        KEY_R
    }
}

/// Whether `screen` is a dialog that waits for its accept or reject key.
pub open spec fn is_dialog(screen: Screen) -> bool {
    screen == Screen::Start || screen == Screen::Lost || screen == Screen::Won
}

/// What `key` does on `screen`. Dialogs react only to their accept key
/// (begin a fresh round) and to `q`; while playing, `q` quits, `r` restarts,
/// `h`/`a` move the paddle left and `l`/`d` right.
pub open spec fn key_action(screen: Screen, key: Option<u8>) -> KeyAction {
    match key {
        None => KeyAction::Ignore,
        Some(k) => if is_dialog(screen) {
            if k == accept_key(screen) {
                KeyAction::Begin
            } else if k == KEY_Q {
                KeyAction::Quit
            } else {
                KeyAction::Ignore
            }
        } else if screen == Screen::Playing {
            if k == KEY_Q {
                KeyAction::Quit
            } else if k == KEY_R {
                KeyAction::Begin
            } else if k == KEY_H || k == KEY_A {
                KeyAction::MoveLeft
            } else if k == KEY_L || k == KEY_D {
                KeyAction::MoveRight
            } else {
                KeyAction::Ignore
            }
        } else {
            KeyAction::Ignore
        },
    }
}

/// Starting position of the ball in a `w` by `h` arena, in ball steps:
/// `(w / 2 - 10, h / 1.5)` units.
pub open spec fn start_ball_pos(w: int, h: int) -> (int, int) {
    (SCALE * w / 2 - 10 * SCALE, SCALE * h * 2 / 3)
}

/// Starting position of the paddle: centred, on the row above the floor.
pub open spec fn start_peddle_pos(w: int, h: int) -> (int, int) {
    (w / 2 - PEDDLE_WIDTH / 2, h - 2)
}

/// The starting values of a round in a `w` by `h` arena: the ball at its
/// start moving `(START_SPEED, START_SPEED)`, the paddle centred, a full grid.
pub open spec fn is_start(ball: Ball, peddle: Peddle, cells: Seq<Cell>, w: int, h: int) -> bool {
    &&& (ball.game_pos.0 as int, ball.game_pos.1 as int) == start_ball_pos(w, h)
    &&& ball.vel == (START_SPEED, START_SPEED)
    &&& (peddle.pos.0 as int, peddle.pos.1 as int) == start_peddle_pos(w, h)
    &&& cells.len() == grid_cols(w) * grid_rows(h)
    &&& forall|i: int|
        0 <= i < cells.len() ==> (cells[i].pos.0 as int, cells[i].pos.1 as int) == grid_pos(
            i,
            grid_cols(w),
        )
}

/// Whether a ball at `(x, y)` with horizontal speed `vx` misses `c`.
pub open spec fn misses(x: int, y: int, vx: int, c: Cell) -> bool {
    collision(x, y, vx, c.pos.0 * SCALE, c.pos.1 * SCALE) is None
}

/// The bricks of `cells` that a ball at `(x, y)` moving with `vx` misses, in order.
pub open spec fn survivors(x: int, y: int, vx: int, cells: Seq<Cell>) -> Seq<Cell>
    decreases cells.len(),
{
    if cells.len() == 0 {
        cells
    } else {
        let rest = survivors(x, y, vx, cells.drop_last());
        if misses(x, y, vx, cells.last()) {
            rest.push(cells.last())
        } else {
            rest
        }
    }
}

/// The bricks of `cells` that a ball at `(x, y)` moving with `vx` strikes, in order.
pub open spec fn struck(x: int, y: int, vx: int, cells: Seq<Cell>) -> Seq<Cell>
    decreases cells.len(),
{
    if cells.len() == 0 {
        cells
    } else {
        let rest = struck(x, y, vx, cells.drop_last());
        if misses(x, y, vx, cells.last()) {
            rest
        } else {
            rest.push(cells.last())
        }
    }
}

/// How many of `cells` a ball at `(x, y)` moving with `vx` strikes on a side
/// (first) and from above or below (second).
pub open spec fn hit_counts(x: int, y: int, vx: int, cells: Seq<Cell>) -> (nat, nat)
    decreases cells.len(),
{
    if cells.len() == 0 {
        (0, 0)
    } else {
        let rest = hit_counts(x, y, vx, cells.drop_last());
        let c = cells.last();
        match collision(x, y, vx, c.pos.0 * SCALE, c.pos.1 * SCALE) {
            Some(Direction::LEFT) | Some(Direction::RIGHT) => (rest.0 + 1, rest.1),
            Some(_) => (rest.0, rest.1 + 1),
            None => rest,
        }
    }
}

/// `v` negated once for each of `n` reflections.
pub open spec fn reflected(v: int, n: nat) -> int {
    if n % 2 == 1 {
        -v
    } else {
        v
    }
}

/// The screen that follows a tick in which the ball stayed in play (or not)
/// and `left` bricks remain.
pub open spec fn screen_after_tick(in_play: bool, left: nat) -> Screen {
    if !in_play {
        Screen::Lost
    } else if left == 0 {
        Screen::Won
    } else {
        Screen::Playing
    }
}

/// A game session: the arena, the ball, the paddle, the bricks left and the
/// screen shown.
pub struct BreakoutGame {
    pub ball: Ball,
    pub peddle: Peddle,
    pub cells: Vec<Cell>,
    pub height: usize,
    pub width: usize,
    pub screen: Screen,
}

impl BreakoutGame {
    /// The arena is one the game accepts, the ball and the bricks lie where the
    /// arithmetic and the terminal can hold them, and the paddle sits on the
    /// row above the floor inside `[2, width - PEDDLE_WIDTH]`.
    pub open spec fn wf(&self) -> bool {
        &&& MIN_WIDTH <= self.width <= MAX_SIDE
        &&& MIN_HEIGHT <= self.height <= MAX_SIDE
        &&& self.ball.wf()
        &&& 2 <= self.peddle.pos.0 <= self.width - PEDDLE_WIDTH
        &&& self.peddle.pos.1 == self.height - 2
        &&& forall|i: int| 0 <= i < self.cells@.len() ==> #[trigger] self.cells@[i].in_bounds()
    }

    /// The ball, the paddle and the bricks are those a round starts with.
    pub open spec fn is_fresh(&self) -> bool {
        is_start(self.ball, self.peddle, self.cells@, self.width as int, self.height as int)
    }

    /// The board of `self` and `other` is the same: arena, ball, paddle, bricks.
    pub open spec fn same_board(&self, other: &BreakoutGame) -> bool {
        &&& self.width == other.width
        &&& self.height == other.height
        &&& self.ball == other.ball
        &&& self.peddle == other.peddle
        &&& self.cells@ == other.cells@
    }

    /// The ball, paddle and brick grid a round starts with in a `width` by
    /// `height` arena.
    pub fn get_start_values(width: usize, height: usize) -> (r: (Ball, Peddle, Vec<Cell>))
        requires
            MIN_WIDTH <= width <= MAX_SIDE,
            MIN_HEIGHT <= height <= MAX_SIDE,
        ensures
            is_start(r.0, r.1, r.2@, width as int, height as int),
            r.0.wf(),
            forall|i: int| 0 <= i < r.2@.len() ==> #[trigger] r.2@[i].in_bounds(),
    {
        let half_peddle_width = Peddle::get_width() / 2;
        let peddle = Peddle { pos: (width / 2 - half_peddle_width, height - 2) };
        let w = width as i64;
        let h = height as i64;
        let ball = Ball::new(SCALE * w / 2 - 10 * SCALE, SCALE * h * 2 / 3, START_SPEED, START_SPEED);
        let cells = generate_cell_grid((width, height));
        (ball, peddle, cells)
    }

    /// A session on the start screen over a fresh board.
    pub fn new(width: usize, height: usize) -> (r: BreakoutGame)
        requires
            MIN_WIDTH <= width <= MAX_SIDE,
            MIN_HEIGHT <= height <= MAX_SIDE,
        ensures
            r.wf(),
            r.is_fresh(),
            r.width == width,
            r.height == height,
            r.screen == Screen::Start,
    {
        let (ball, peddle, cells) = Self::get_start_values(width, height);
        BreakoutGame { ball, peddle, cells, height, width, screen: Screen::Start }
    }

    /// Puts back the ball, the paddle and a new brick grid; the screen stays.
    pub fn reset_game(&mut self)
        requires
            old(self).wf(),
        ensures
            final(self).wf(),
            final(self).is_fresh(),
            final(self).width == old(self).width,
            final(self).height == old(self).height,
            final(self).screen == old(self).screen,
    {
        let (ball, peddle, cells) = Self::get_start_values(self.width, self.height);
        self.ball = ball;
        self.peddle = peddle;
        self.cells = cells;
    }

    /// Applies `key` (none when no key was pressed) on the current screen and
    /// returns what it did: `Begin` leaves a fresh board on the playing
    /// screen, `Quit` ends the session, a move shifts the paddle, and an
    /// ignored key changes nothing.
    pub fn handle_key(&mut self, key: Option<u8>) -> (r: KeyAction)
        requires
            old(self).wf(),
        ensures
            final(self).wf(),
            r == key_action(old(self).screen, key),
            final(self).width == old(self).width,
            final(self).height == old(self).height,
            r == KeyAction::Ignore ==> final(self).same_board(old(self)) && final(self).screen
                == old(self).screen,
            r == KeyAction::Quit ==> final(self).same_board(old(self)) && final(self).screen
                == Screen::Terminated,
            r == KeyAction::Begin ==> final(self).is_fresh() && final(self).screen
                == Screen::Playing,
            r == KeyAction::MoveLeft || r == KeyAction::MoveRight ==> {
                &&& final(self).screen == old(self).screen
                &&& final(self).ball == old(self).ball
                &&& final(self).cells@ == old(self).cells@
                &&& final(self).peddle.pos.1 == old(self).peddle.pos.1
                &&& final(self).peddle.pos.0 == moved_x(
                    old(self).peddle.pos.0 as int,
                    if r == KeyAction::MoveLeft {
                        Direction::LEFT
                    } else {
                        Direction::RIGHT
                    },
                    old(self).width as int,
                )
            },
    {
        let action = action_for_key(self.screen, key);
        match action {
            KeyAction::Ignore => {},
            KeyAction::Quit => {
                self.screen = Screen::Terminated;
            },
            KeyAction::Begin => {
                self.reset_game();
                self.screen = Screen::Playing;
            },
            KeyAction::MoveLeft => {
                self.peddle.move_in_dir(Direction::LEFT, self.width);
            },
            KeyAction::MoveRight => {
                self.peddle.move_in_dir(Direction::RIGHT, self.width);
            },
        }
        action
    }

    /// Plays one tick of a round. The ball takes its physics step; if it is
    /// lost the screen becomes `Lost`. Otherwise every brick it now touches is
    /// found first, then the ball is reflected once per brick struck, in order,
    /// the struck bricks are removed and returned, and an empty grid shows `Won`.
    pub fn tick(&mut self) -> (r: Vec<Cell>)
        requires
            old(self).wf(),
            old(self).screen == Screen::Playing,
        ensures
            final(self).wf(),
            final(self).width == old(self).width,
            final(self).height == old(self).height,
            final(self).peddle == old(self).peddle,
            ({
                let s = old(self).ball.stepped(
                    old(self).width as int,
                    old(self).height as int,
                    old(self).peddle.pos,
                );
                let hits = hit_counts(s.1, s.2, s.3, old(self).cells@);
                &&& final(self).ball.game_pos.0 == s.1
                &&& final(self).ball.game_pos.1 == s.2
                &&& !s.0 ==> {
                    &&& final(self).ball.vel.0 == s.3
                    &&& final(self).ball.vel.1 == s.4
                    &&& final(self).cells@ == old(self).cells@
                    &&& r@.len() == 0
                    &&& final(self).screen == Screen::Lost
                }
                &&& s.0 ==> {
                    &&& final(self).ball.vel.0 == reflected(s.3, hits.0)
                    &&& final(self).ball.vel.1 == reflected(s.4, hits.1)
                    &&& final(self).cells@ == survivors(s.1, s.2, s.3, old(self).cells@)
                    &&& r@ == struck(s.1, s.2, s.3, old(self).cells@)
                    &&& final(self).screen == screen_after_tick(true, final(self).cells@.len())
                }
            }),
    {
        let in_play = self.ball.update((self.width, self.height), self.peddle.pos);
        if !in_play {
            self.screen = Screen::Lost;
            return Vec::new();
        }
        let probe = self.ball;
        let ghost cells = self.cells@;
        let ghost before = *self;
        let mut kept: Vec<Cell> = Vec::new();
        let mut hit: Vec<Cell> = Vec::new();
        let mut i: usize = 0;
        while i < self.cells.len()
            invariant
                self.cells@ == cells,
                self.width == before.width,
                self.height == before.height,
                self.peddle == before.peddle,
                self.screen == before.screen,
                before.wf(),
                probe.wf(),
                self.ball.wf(),
                self.ball.game_pos == probe.game_pos,
                0 <= i <= cells.len(),
                forall|j: int| 0 <= j < cells.len() ==> #[trigger] cells[j].in_bounds(),
                forall|j: int| 0 <= j < kept@.len() ==> #[trigger] kept@[j].in_bounds(),
                kept@ == survivors(
                    probe.game_pos.0 as int,
                    probe.game_pos.1 as int,
                    probe.vel.0 as int,
                    cells.take(i as int),
                ),
                hit@ == struck(
                    probe.game_pos.0 as int,
                    probe.game_pos.1 as int,
                    probe.vel.0 as int,
                    cells.take(i as int),
                ),
                self.ball.vel.0 == reflected(
                    probe.vel.0 as int,
                    hit_counts(
                        probe.game_pos.0 as int,
                        probe.game_pos.1 as int,
                        probe.vel.0 as int,
                        cells.take(i as int),
                    ).0,
                ),
                self.ball.vel.1 == reflected(
                    probe.vel.1 as int,
                    hit_counts(
                        probe.game_pos.0 as int,
                        probe.game_pos.1 as int,
                        probe.vel.0 as int,
                        cells.take(i as int),
                    ).1,
                ),
            decreases cells.len() - i,
        {
            let c = self.cells[i];
            proof {
                assert(cells.take(i as int + 1).drop_last() =~= cells.take(i as int));
                assert(cells.take(i as int + 1).last() == c);
            }
            match probe.collides_with(&c) {
                None => {
                    kept.push(c);
                },
                Some(d) => {
                    hit.push(c);
                    self.ball.change_direction(d);
                },
            }
            i = i + 1;
        }
        proof {
            assert(cells.take(cells.len() as int) =~= cells);
        }
        self.cells = kept;
        if self.cells.len() == 0 {
            self.screen = Screen::Won;
        }
        hit
    }
}

/// The action for `key` on `screen`.
pub fn action_for_key(screen: Screen, key: Option<u8>) -> (r: KeyAction)
    ensures
        r == key_action(screen, key),
{
    match key {
        None => KeyAction::Ignore,
        Some(k) => match screen {
            Screen::Start | Screen::Lost | Screen::Won => {
                let accept: u8 = match screen {
                    Screen::Start => KEY_SPACE,
                    _ => KEY_R,
                };
                if k == accept {
                    KeyAction::Begin
                } else if k == KEY_Q {
                    KeyAction::Quit
                } else {
                    KeyAction::Ignore
                }
            },
            Screen::Playing => if k == KEY_Q {
                KeyAction::Quit
            } else if k == KEY_R {
                KeyAction::Begin
            } else if k == KEY_H || k == KEY_A {
                KeyAction::MoveLeft
            } else if k == KEY_L || k == KEY_D {
                KeyAction::MoveRight
            } else {
                KeyAction::Ignore
            },
            Screen::Terminated => KeyAction::Ignore,
        },
    }
}

/// On a dialog screen nothing but the accept key and `q` has an effect: any
/// other key (or none) is ignored, so the dialog keeps waiting; `q` quits
/// without starting a round; the accept key begins a fresh round.
pub proof fn lemma_dialog_gating(screen: Screen, key: Option<u8>)
    requires
        is_dialog(screen),
    ensures
        key != Some(accept_key(screen)) && key != Some(KEY_Q) ==> key_action(screen, key)
            == KeyAction::Ignore,
        key == Some(KEY_Q) ==> key_action(screen, key) == KeyAction::Quit,
        key == Some(accept_key(screen)) ==> key_action(screen, key) == KeyAction::Begin,
        screen == Screen::Start ==> accept_key(screen) == KEY_SPACE,
        screen != Screen::Start ==> accept_key(screen) == KEY_R,
{
}

/// When the ball, still in play, strikes every brick that is left (in
/// particular when none is left), no brick survives the tick and the win
/// screen follows, wherever the ball is and however it moves.
pub proof fn lemma_drained_grid_wins(x: int, y: int, vx: int, cells: Seq<Cell>)
    requires
        forall|i: int| 0 <= i < cells.len() ==> !misses(x, y, vx, #[trigger] cells[i]),
    ensures
        survivors(x, y, vx, cells).len() == 0,
        screen_after_tick(true, survivors(x, y, vx, cells).len()) == Screen::Won,
    decreases cells.len(),
{
    if cells.len() > 0 {
        let rest = cells.drop_last();
        assert(forall|i: int| 0 <= i < rest.len() ==> rest[i] == cells[i]);
        lemma_drained_grid_wins(x, y, vx, rest);
        assert(!misses(x, y, vx, cells[cells.len() - 1]));
    }
}

} // verus!
