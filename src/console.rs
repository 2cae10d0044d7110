//! The console's state machine: the menu or one running game, and one tick of
//! each game from the joystick readings of that tick.
use vstd::prelude::*;
use crate::cells::{cells_of, holds_cell};
use crate::input::{JOY_LOWER_BOUND, JOY_MAX_VAL, JOY_UPPER_BOUND};
use crate::pong::{PlayerTurn, Pong, MAX_SCORE};
use crate::snake::{opposite, Direction, Snake};

verus! {

/// Width of the screen, in pixels.
pub const CANVAS_WIDTH: i16 = 160;

/// Height of the screen, in pixels.
pub const CANVAS_HEIGHT: i16 = 128;

/// Time between two ticks of the paddle game, in milliseconds.
pub const PONG_TICK_MS: u32 = 20;

/// Time between two ticks of the snake game, in milliseconds.
pub const SNAKE_TICK_MS: u32 = 50;

/// Time between two polls of the menu, in milliseconds.
pub const MENU_POLL_MS: u32 = 10;

/// What the console is doing.
pub enum CurrentState {
    Menu,
    Pong(Pong),
    Snake(Snake),
}

/// What a game tick tells the loop around it.
#[derive(Clone, Copy, Debug, PartialEq, Eq, Structural)]
pub struct TickOutcome {
    /// A score changed, so the score text must be drawn again.
    pub score_changed: bool,
    /// The session is over and the console goes back to the menu.
    pub finished: bool,
}

/// The turn that the snake's two axis readings ask for: the first axis turns
/// left above the upper bound and right below the lower one; else the second
/// axis turns up above the upper bound and down below the lower one.
pub open spec fn steer_spec(x_val: u16, y_val: u16) -> Option<Direction> {
    if x_val > JOY_UPPER_BOUND {
        Some(Direction::Left)
    } else if x_val < JOY_LOWER_BOUND {
        Some(Direction::Right)
    } else if y_val > JOY_UPPER_BOUND {
        Some(Direction::Up)
    } else if y_val < JOY_LOWER_BOUND {
        Some(Direction::Down)
    } else {
        None
    }
}

/// The snake session `s` after it turns as the readings ask, unless that
/// would reverse it.
pub open spec fn steered(s: Snake, x_val: u16, y_val: u16) -> Snake {
    match steer_spec(x_val, y_val) {
        Some(d) => if d == opposite(s.direction) {
            s
        } else {
            Snake { direction: d, ..s }
        },
        None => s,
    }
}

/// The paddle session `p` after one tick: both paddles follow their
/// readings, the ball steps, and the win is checked.
pub open spec fn pong_ticked(p: Pong, p1_val: u16, p2_val: u16) -> Pong {
    p.paddle_moved(PlayerTurn::Player1, p1_val as i16).paddle_moved(
        PlayerTurn::Player2,
        p2_val as i16,
    ).ball_stepped().win_checked()
}

/// Whether `after` is the snake session `s` after one tick: it turns, moves,
/// gets a new food cell, and, when its head lands on food, eats and gets
/// another one.
pub open spec fn snake_ticked(s: Snake, x_val: u16, y_val: u16, after: Snake) -> bool {
    exists|moved: Snake, placed: Snake|
        {
            &&& steered(s, x_val, y_val).moved_to(moved)
            &&& moved.food_placed_to(placed)
            &&& if cells_of(placed.food).contains(placed.head_position) {
                exists|fed: Snake| placed.ate_to(fed) && fed.food_placed_to(after)
            } else {
                after == placed
            }
        }
}

/// The session that confirming the menu starts: the paddle game for
/// selection 0, the snake game otherwise, on the whole screen and from
/// generator seed `seed`.
pub fn start_game(selected_game: u8, seed: u64) -> (r: CurrentState)
    ensures
        selected_game == 0 ==> r == CurrentState::Pong(
            Pong::fresh(CANVAS_WIDTH, CANVAS_HEIGHT, seed),
        ),
        selected_game != 0 ==> (r matches CurrentState::Snake(s) && s.wf() && Snake::is_fresh(
            s,
            CANVAS_WIDTH,
            CANVAS_HEIGHT,
            seed,
        )),
{
    if selected_game == 0 {
        CurrentState::Pong(Pong::new(CANVAS_WIDTH, CANVAS_HEIGHT, seed))
    } else {
        CurrentState::Snake(Snake::new(CANVAS_WIDTH, CANVAS_HEIGHT, seed))
    }
}

/// One tick of the paddle game: move both paddles by their readings, step
/// the ball, and check for a win.
pub fn pong_tick(game: &mut Pong, p1_val: u16, p2_val: u16) -> (r: TickOutcome)
    requires
        old(game).wf(),
        old(game).player1_score < MAX_SCORE,
        old(game).player2_score < MAX_SCORE,
        p1_val <= JOY_MAX_VAL,
        p2_val <= JOY_MAX_VAL,
    ensures
        final(game).wf(),
        *final(game) == pong_ticked(*old(game), p1_val, p2_val),
        r.score_changed == (final(game).player1_score != old(game).player1_score
            || final(game).player2_score != old(game).player2_score),
        r.finished == !final(game).is_running,
{
    let before1 = game.player1_score;
    let before2 = game.player2_score;
    game.move_player(PlayerTurn::Player1, p1_val as i16);
    game.move_player(PlayerTurn::Player2, p2_val as i16);
    game.update_ball();
    let score_changed = before1 != game.player1_score || before2 != game.player2_score;
    game.check_for_win();
    TickOutcome { score_changed, finished: !game.is_running }
}

/// A tick of a running paddle game ends it exactly when a score reaches
/// `MAX_SCORE`, and no score passes it.
pub proof fn lemma_win_on_last_point(game: Pong, p1_val: u16, p2_val: u16)
    requires
        game.wf(),
        game.is_running,
        game.player1_score < MAX_SCORE,
        game.player2_score < MAX_SCORE,
    ensures
        pong_ticked(game, p1_val, p2_val).is_running == (pong_ticked(
            game,
            p1_val,
            p2_val,
        ).player1_score != MAX_SCORE && pong_ticked(game, p1_val, p2_val).player2_score
            != MAX_SCORE),
        pong_ticked(game, p1_val, p2_val).player1_score <= MAX_SCORE,
        pong_ticked(game, p1_val, p2_val).player2_score <= MAX_SCORE,
{
}

/// The turn that the snake's two axis readings ask for.
pub fn steer(x_val: u16, y_val: u16) -> (r: Option<Direction>)
    ensures
        r == steer_spec(x_val, y_val),
{
    if x_val > JOY_UPPER_BOUND {
        Some(Direction::Left)
    } else if x_val < JOY_LOWER_BOUND {
        Some(Direction::Right)
    } else if y_val > JOY_UPPER_BOUND {
        Some(Direction::Up)
    } else if y_val < JOY_LOWER_BOUND {
        Some(Direction::Down)
    } else {
        None
    }
}

/// One tick of the snake game: turn as the readings ask, move, place food,
/// and eat when the head lands on food, placing food again.
pub fn snake_tick(game: &mut Snake, x_val: u16, y_val: u16) -> (r: TickOutcome)
    requires
        old(game).wf(),
        0 < old(game).width,
        0 < old(game).height,
        old(game).score < 255,
    ensures
        final(game).wf(),
        snake_ticked(*old(game), x_val, y_val, *final(game)),
        r.score_changed == (final(game).score != old(game).score),
        r.finished == !final(game).alive,
{
    if let Some(d) = steer(x_val, y_val) {
        game.change_direction(d);
    }
    assert(*game == steered(*old(game), x_val, y_val));
    game.move_snake();
    let ghost moved = *game;
    game.random_food_position();
    let ghost placed = *game;
    let score_changed = holds_cell(&game.food, game.head_position);
    if score_changed {
        game.eat();
        let ghost fed = *game;
        game.random_food_position();
        assert(placed.ate_to(fed) && fed.food_placed_to(*game));
    }
    assert(moved.food_placed_to(placed));
    TickOutcome { score_changed, finished: !game.alive }
}

} // verus!
