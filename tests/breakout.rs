use rbreakout::ball::Ball;
use rbreakout::game::{action_for_key, BreakoutGame, KeyAction, Screen};
use rbreakout::geometry::{round_to_unit, Direction};
use rbreakout::grid::{color_of_draw, generate_cell_grid, Cell, CellColor};
use rbreakout::paddle::Peddle;

#[test]
fn paddle_moves_by_speed() {
    assert_eq!(Peddle::get_speed(), 3);
    let mut p = Peddle { pos: (10, 28) };
    p.move_in_dir(Direction::LEFT, 104);
    assert_eq!(p.pos, (7, 28));
    p.move_in_dir(Direction::RIGHT, 104);
    p.move_in_dir(Direction::RIGHT, 104);
    assert_eq!(p.pos, (13, 28));
}

#[test]
fn paddle_left_saturates_at_two() {
    let mut p = Peddle { pos: (1, 28) };
    p.move_in_dir(Direction::LEFT, 104);
    assert_eq!(p.pos.0, 2);
    let mut q = Peddle { pos: (4, 28) };
    q.move_in_dir(Direction::LEFT, 104);
    assert_eq!(q.pos.0, 2);
}

#[test]
fn paddle_clamp_converges() {
    for start in [2usize, 3, 10, 50, 92, 100] {
        let mut p = Peddle { pos: (start, 28) };
        for _ in 0..60 {
            p.move_in_dir(Direction::LEFT, 104);
            assert!(p.pos.0 >= 2 && p.pos.0 <= 92);
        }
        assert_eq!(p.pos.0, 2);
        for _ in 0..60 {
            p.move_in_dir(Direction::RIGHT, 104);
            assert!(p.pos.0 >= 2 && p.pos.0 <= 92);
        }
        assert_eq!(p.pos.0, 92);
    }
}

#[test]
fn action_table() {
    assert_eq!(action_for_key(Screen::Playing, Some(b'k')), KeyAction::Ignore);
    assert_eq!(action_for_key(Screen::Start, Some(b' ')), KeyAction::Begin);
    assert_eq!(action_for_key(Screen::Won, Some(b'q')), KeyAction::Quit);
    assert_eq!(action_for_key(Screen::Terminated, Some(b'q')), KeyAction::Ignore);
}

#[test]
fn rounding_halves_up() {
    assert_eq!(round_to_unit(149), 1);
    assert_eq!(round_to_unit(150), 2);
    assert_eq!(round_to_unit(0), 0);
}

#[test]
fn ball_moves_and_bounces_off_wall() {
    let mut b = Ball::new(200, 1000, -30, 30);
    assert!(b.update((104, 30), (46, 28)));
    assert_eq!(b.vel, (30, 30));
    assert_eq!(b.game_pos, (230, 1030));
}

#[test]
fn ball_bounces_off_ceiling() {
    let mut b = Ball::new(3000, 200, 30, -30);
    assert!(b.update((104, 30), (46, 28)));
    assert_eq!(b.vel, (30, 30));
    assert_eq!(b.game_pos, (3030, 230));
}

#[test]
fn ball_deflects_off_paddle() {
    let mut b = Ball::new(5000, 2800, 30, 30);
    assert!(b.update((104, 30), (46, 28)));
    assert_eq!(b.vel, (17, -30));
    assert_eq!(b.game_pos, (5017, 2770));
}

#[test]
fn ball_clamped_into_arena() {
    let mut b = Ball::new(10200, 1000, 500, 0);
    assert!(b.update((104, 30), (46, 28)));
    assert_eq!(b.game_pos, (10300, 1000));
    let mut c = Ball::new(1000, 300, 0, -500);
    assert!(c.update((104, 30), (46, 28)));
    assert_eq!(c.game_pos, (1000, 200));
    assert_eq!(c.get_pos(), (10, 2));
}

#[test]
fn ball_bound_invariant_over_many_updates() {
    let mut b = Ball::new(4200, 2000, 30, 30);
    for _ in 0..2000 {
        if !b.update((104, 30), (2, 28)) {
            break;
        }
        assert!(b.game_pos.0 >= 200 && b.game_pos.0 <= 10300);
        assert!(b.game_pos.1 >= 200 && b.game_pos.1 <= 2900);
    }
}

#[test]
fn ball_lost_at_floor() {
    let mut b = Ball::new(5000, 2860, 30, 30);
    assert!(!b.update((104, 30), (2, 28)));
    assert_eq!(b.game_pos, (5000, 2860));
    assert_eq!(b.vel, (30, 30));
}

#[test]
fn ball_driven_to_floor_is_lost_next_tick() {
    let mut b = Ball::new(5000, 2800, 0, 300);
    assert!(b.update((104, 30), (2, 28)));
    assert_eq!(b.game_pos, (5000, 2900));
    assert!(!b.update((104, 30), (2, 28)));
    assert_eq!(b.game_pos, (5000, 2900));
    assert_eq!(b.vel, (0, 300));
}

#[test]
fn collision_directions() {
    let target = Cell::new(10, 5, CellColor::Red);
    assert_eq!(Ball::new(1010, 500, 30, 30).collides_with(&target), Some(Direction::LEFT));
    assert_eq!(Ball::new(1400, 520, 30, 30).collides_with(&target), Some(Direction::DOWN));
    assert_eq!(Ball::new(1400, 570, 30, 30).collides_with(&target), Some(Direction::UP));
    assert_eq!(Ball::new(1790, 550, -30, 30).collides_with(&target), Some(Direction::LEFT));
    assert_eq!(Ball::new(1400, 700, 30, 30).collides_with(&target), None);
    assert_eq!(Ball::new(2000, 520, 30, 30).collides_with(&target), None);
}

#[test]
fn change_direction_flips_one_axis() {
    let mut b = Ball::new(1000, 1000, 30, -20);
    b.change_direction(Direction::LEFT);
    assert_eq!(b.vel, (-30, -20));
    b.change_direction(Direction::RIGHT);
    assert_eq!(b.vel, (30, -20));
    b.change_direction(Direction::UP);
    assert_eq!(b.vel, (30, 20));
    b.change_direction(Direction::DOWN);
    assert_eq!(b.vel, (30, -20));
    assert_eq!(b.game_pos, (1000, 1000));
}

#[test]
fn draw_colors() {
    assert_eq!(color_of_draw(0), CellColor::Red);
    assert_eq!(color_of_draw(1), CellColor::Green);
    assert_eq!(color_of_draw(2), CellColor::Blue);
    assert_eq!(color_of_draw(3), CellColor::Red);
    assert_eq!(color_of_draw(4), CellColor::Magenta);
}

#[test]
fn grid_count_for_default_arena() {
    let cells = generate_cell_grid((104, 30));
    assert_eq!(cells.len(), 110);
    assert_eq!(cells[0].get_pos(), (8, 4));
    assert_eq!(cells[10].get_pos(), (88, 4));
    assert_eq!(cells[11].get_pos(), (8, 5));
    assert_eq!(cells[109].get_pos(), (88, 13));
    assert_eq!(Cell::get_width(), 8);
}

#[test]
fn grid_count_on_each_reset() {
    let mut g = BreakoutGame::new(104, 30);
    assert_eq!(g.cells.len(), 110);
    g.cells.clear();
    g.reset_game();
    assert_eq!(g.cells.len(), 110);
}

#[test]
fn start_values() {
    let (ball, peddle, cells) = BreakoutGame::get_start_values(104, 30);
    assert_eq!(ball.game_pos, (4200, 2000));
    assert_eq!(ball.vel, (30, 30));
    assert_eq!(peddle.get_pos(), (46, 28));
    assert_eq!(cells.len(), 110);
    let g = BreakoutGame::new(32, 20);
    assert_eq!(g.screen, Screen::Start);
    assert_eq!(g.ball.game_pos, (600, 1333));
    assert_eq!(g.peddle.pos, (10, 18));
    assert_eq!(g.cells.len(), 12);
}

#[test]
fn dialog_ignores_other_keys() {
    let mut g = BreakoutGame::new(104, 30);
    let before_ball = g.ball.game_pos;
    for k in [b'x', b'r', b'h', b'l', 0u8] {
        assert_eq!(g.handle_key(Some(k)), KeyAction::Ignore);
        assert_eq!(g.screen, Screen::Start);
    }
    assert_eq!(g.handle_key(None), KeyAction::Ignore);
    assert_eq!(g.ball.game_pos, before_ball);
    assert_eq!(g.peddle.pos, (46, 28));
}

#[test]
fn dialog_reject_terminates() {
    let mut g = BreakoutGame::new(104, 30);
    assert_eq!(g.handle_key(Some(b'q')), KeyAction::Quit);
    assert_eq!(g.screen, Screen::Terminated);
    assert_eq!(g.handle_key(Some(b' ')), KeyAction::Ignore);
    assert_eq!(g.screen, Screen::Terminated);
}

#[test]
fn dialog_accept_resets_and_plays() {
    let mut g = BreakoutGame::new(104, 30);
    g.ball = Ball::new(9000, 900, -70, 40);
    g.peddle.pos.0 = 2;
    g.cells.truncate(3);
    assert_eq!(g.handle_key(Some(b' ')), KeyAction::Begin);
    assert_eq!(g.screen, Screen::Playing);
    assert_eq!(g.ball.game_pos, (4200, 2000));
    assert_eq!(g.ball.vel, (30, 30));
    assert_eq!(g.peddle.pos, (46, 28));
    assert_eq!(g.cells.len(), 110);
}

#[test]
fn lost_and_won_dialogs_accept_replay() {
    for screen in [Screen::Lost, Screen::Won] {
        let mut g = BreakoutGame::new(104, 30);
        g.screen = screen;
        assert_eq!(g.handle_key(Some(b' ')), KeyAction::Ignore);
        assert_eq!(g.screen, screen);
        assert_eq!(g.handle_key(Some(b'r')), KeyAction::Begin);
        assert_eq!(g.screen, Screen::Playing);
    }
}

#[test]
fn playing_keys() {
    let mut g = BreakoutGame::new(104, 30);
    g.handle_key(Some(b' '));
    assert_eq!(g.handle_key(Some(b'h')), KeyAction::MoveLeft);
    assert_eq!(g.peddle.pos.0, 43);
    assert_eq!(g.handle_key(Some(b'a')), KeyAction::MoveLeft);
    assert_eq!(g.peddle.pos.0, 40);
    assert_eq!(g.handle_key(Some(b'l')), KeyAction::MoveRight);
    assert_eq!(g.handle_key(Some(b'd')), KeyAction::MoveRight);
    assert_eq!(g.peddle.pos.0, 46);
    assert_eq!(g.handle_key(Some(b'z')), KeyAction::Ignore);
    assert_eq!(g.handle_key(None), KeyAction::Ignore);
    g.ball = Ball::new(9000, 900, -70, 40);
    assert_eq!(g.handle_key(Some(b'r')), KeyAction::Begin);
    assert_eq!(g.ball.game_pos, (4200, 2000));
    assert_eq!(g.screen, Screen::Playing);
    assert_eq!(g.handle_key(Some(b'q')), KeyAction::Quit);
    assert_eq!(g.screen, Screen::Terminated);
}

#[test]
fn tick_destroys_struck_brick() {
    let mut g = BreakoutGame::new(104, 30);
    g.screen = Screen::Playing;
    g.ball = Ball::new(1400, 400, 0, 20);
    let removed = g.tick();
    assert_eq!(removed.len(), 1);
    assert_eq!(removed[0].get_pos(), (8, 4));
    assert_eq!(g.cells.len(), 109);
    assert_eq!(g.cells[0].get_pos(), (16, 4));
    assert_eq!(g.ball.game_pos, (1400, 420));
    assert_eq!(g.ball.vel, (0, -20));
    assert_eq!(g.screen, Screen::Playing);
}

#[test]
fn tick_two_hits_cancel_reflection() {
    let mut g = BreakoutGame::new(104, 30);
    g.screen = Screen::Playing;
    g.ball = Ball::new(1600, 400, 0, 20);
    let removed = g.tick();
    assert_eq!(removed.len(), 2);
    assert_eq!(g.cells.len(), 108);
    assert_eq!(g.ball.vel, (0, 20));
}

#[test]
fn tick_on_empty_grid_wins() {
    let mut g = BreakoutGame::new(104, 30);
    g.screen = Screen::Playing;
    g.cells.clear();
    let removed = g.tick();
    assert!(removed.is_empty());
    assert_eq!(g.screen, Screen::Won);
}

#[test]
fn tick_at_floor_loses() {
    let mut g = BreakoutGame::new(104, 30);
    g.screen = Screen::Playing;
    g.ball = Ball::new(5000, 2900, 30, 30);
    let removed = g.tick();
    assert!(removed.is_empty());
    assert_eq!(g.screen, Screen::Lost);
    assert_eq!(g.cells.len(), 110);
    assert_eq!(g.ball.game_pos, (5000, 2900));
}

#[test]
fn fresh_grid_colors_are_drawn() {
    let cells = generate_cell_grid((64, 21));
    assert_eq!(cells.len(), 42);
    for c in &cells {
        assert!(matches!(
            c.get_color(),
            CellColor::Red | CellColor::Green | CellColor::Blue | CellColor::Magenta
        ));
    }
    assert_eq!(Ball::get_width(), 1);
}
