//! Redraw plans: each frame erases what the previous frame drew, in the
//! background colour, before it draws the new positions; the score text is
//! cleared and written again only when it changed.
use vstd::prelude::*;
use crate::cells::{cell_at, cell_count, cells_of, Cells};
use crate::pong::{Pong, PLAYER_SIZE};
use crate::snake::Snake;
use crate::{pong, snake};

verus! {

/// Left edge of the first score.
pub const SCORE1_X: i32 = 70;

/// Left edge of the second score.
pub const SCORE2_X: i32 = 90;

/// Top edge of the area that a score is cleared in.
pub const SCORE_CLEAR_Y: i32 = 10;

/// Side of the square that a score is cleared in.
pub const SCORE_CLEAR_SIZE: u32 = 15;

/// Baseline of the score text.
pub const SCORE_TEXT_Y: i32 = 20;

/// Side of the square that the ball is drawn as.
pub const BALL_SIZE: u32 = 2;

/// The colours the games draw in.
#[derive(Clone, Copy, Debug, PartialEq, Eq, Structural)]
pub enum Color {
    Black,
    White,
    Red,
    Green,
}

/// A filled rectangle: top-left corner, size, colour.
#[derive(Clone, Copy, Debug, PartialEq, Eq, Structural)]
pub struct Rect {
    pub x: i32,
    pub y: i32,
    pub width: u32,
    pub height: u32,
    pub color: Color,
}

/// What the last paddle-game frame drew: both paddle centres and the ball.
#[derive(Clone, Copy, Debug, PartialEq, Eq, Structural)]
pub struct PongMarks {
    pub player1: i16,
    pub player2: i16,
    pub ball: pong::Point,
}

/// The paddle centred on row `center` in column `column`.
pub open spec fn paddle_spec(column: i32, center: i16, color: Color) -> Rect {
    Rect {
        x: column,
        y: (center - PLAYER_SIZE) as i32,
        width: 1,
        height: (2 * PLAYER_SIZE) as u32,
        color,
    }
}

/// The ball's square at `p`.
pub open spec fn ball_spec(p: pong::Point, color: Color) -> Rect {
    Rect { x: p.x as i32, y: p.y as i32, width: BALL_SIZE, height: BALL_SIZE, color }
}

/// The one-pixel square of a snake cell.
pub open spec fn cell_spec(p: snake::Point, color: Color) -> Rect {
    Rect { x: p.x as i32, y: p.y as i32, width: 1, height: 1, color }
}

/// Column of the right-hand paddle on a field `width` wide.
pub open spec fn right_column(width: i16) -> i32 {
    (width - 2) as i32
}

/// What a frame of `p` draws, to be erased by the next frame.
pub open spec fn marks_of(p: Pong) -> PongMarks {
    PongMarks { player1: p.player1, player2: p.player2, ball: p.ball }
}

/// The paddle centred on row `center` in column `column`.
pub fn paddle_rect(column: i32, center: i16, color: Color) -> (r: Rect)
    ensures
        r == paddle_spec(column, center, color),
{
    Rect {
        x: column,
        y: center as i32 - PLAYER_SIZE as i32,
        width: 1,
        height: (2 * PLAYER_SIZE) as u32,
        color,
    }
}

/// The ball's square at `p`.
pub fn ball_rect(p: pong::Point, color: Color) -> (r: Rect)
    ensures
        r == ball_spec(p, color),
{
    Rect { x: p.x as i32, y: p.y as i32, width: BALL_SIZE, height: BALL_SIZE, color }
}

impl PongMarks {
    /// Marks for a frame that drew both paddles and the ball at the centre of a
    /// `width` by `height` field.
    pub fn centred(width: i16, height: i16) -> (r: PongMarks)
        ensures
            r == (PongMarks {
                player1: crate::half(height),
                player2: crate::half(height),
                ball: pong::Point { x: crate::half(width), y: crate::half(height) },
            }),
    {
        PongMarks {
            player1: height / 2,
            player2: height / 2,
            ball: pong::Point { x: width / 2, y: height / 2 },
        }
    }
}

/// One paddle-game frame: erase both paddles and the ball where the last
/// frame drew them, draw them where they are now, and remember that.
pub fn pong_frame(marks: &mut PongMarks, game: &Pong) -> (r: Vec<Rect>)
    ensures
        r@ == seq![
            paddle_spec(0, old(marks).player1, Color::Black),
            paddle_spec(right_column(game.width), old(marks).player2, Color::Black),
            ball_spec(old(marks).ball, Color::Black),
            paddle_spec(0, game.player1, Color::White),
            paddle_spec(right_column(game.width), game.player2, Color::White),
            ball_spec(game.ball, Color::Red),
        ],
        *final(marks) == marks_of(*game),
{
    let right: i32 = game.width as i32 - 2;
    let mut r: Vec<Rect> = Vec::new();
    r.push(paddle_rect(0, marks.player1, Color::Black));
    r.push(paddle_rect(right, marks.player2, Color::Black));
    r.push(ball_rect(marks.ball, Color::Black));
    r.push(paddle_rect(0, game.player1, Color::White));
    r.push(paddle_rect(right, game.player2, Color::White));
    r.push(ball_rect(game.ball, Color::Red));
    *marks = PongMarks { player1: game.player1, player2: game.player2, ball: game.ball };
    r
}

/// One square per cell, in the order of the cells.
pub fn cell_rects(cells: &Cells, color: Color) -> (r: Vec<Rect>)
    ensures
        r@.len() == cells_of(*cells).len(),
        forall|i: int| 0 <= i < r@.len() ==> r@[i] == cell_spec(cells_of(*cells)[i], color),
{
    let n = cell_count(cells);
    let mut r: Vec<Rect> = Vec::new();
    let mut i: usize = 0;
    while i < n
        invariant
            n == cells_of(*cells).len(),
            i <= n,
            r@.len() == i,
            forall|j: int| 0 <= j < i ==> r@[j] == cell_spec(cells_of(*cells)[j], color),
        decreases n - i,
    {
        let p = cell_at(cells, i);
        r.push(Rect { x: p.x as i32, y: p.y as i32, width: 1, height: 1, color });
        i += 1;
    }
    r
}

/// The squares of `game`'s body and then of its food, each cell one square
/// in the given colours.
pub open spec fn snake_squares(game: Snake, body_color: Color, food_color: Color) -> Seq<Rect> {
    Seq::new(game.body_cells().len(), |i: int| cell_spec(game.body_cells()[i], body_color)) + Seq::new(
        game.food_cells().len(),
        |i: int| cell_spec(game.food_cells()[i], food_color),
    )
}

/// What a snake frame erases before the game steps: every body and food
/// cell, in full, in the background colour.
pub fn snake_erase(game: &Snake) -> (r: Vec<Rect>)
    ensures
        r@ == snake_squares(*game, Color::Black, Color::Black),
{
    let mut r = cell_rects(&game.body, Color::Black);
    let mut food = cell_rects(&game.food, Color::Black);
    r.append(&mut food);
    assert(r@ =~= snake_squares(*game, Color::Black, Color::Black));
    r
}

/// What a snake frame draws after the game steps: the body in green and the
/// food in red.
pub fn snake_draw(game: &Snake) -> (r: Vec<Rect>)
    ensures
        r@ == snake_squares(*game, Color::Green, Color::Red),
{
    let mut r = cell_rects(&game.body, Color::Green);
    let mut food = cell_rects(&game.food, Color::Red);
    r.append(&mut food);
    assert(r@ =~= snake_squares(*game, Color::Green, Color::Red));
    r
}

/// The squares that clear the score area: one per score column.
pub fn score_clear_rects() -> (r: Vec<Rect>)
    ensures
        r@ == seq![
            Rect {
                x: SCORE1_X,
                y: SCORE_CLEAR_Y,
                width: SCORE_CLEAR_SIZE,
                height: SCORE_CLEAR_SIZE,
                color: Color::Black,
            },
            Rect {
                x: SCORE2_X,
                y: SCORE_CLEAR_Y,
                width: SCORE_CLEAR_SIZE,
                height: SCORE_CLEAR_SIZE,
                color: Color::Black,
            },
        ],
{
    let mut r: Vec<Rect> = Vec::new();
    r.push(
        Rect {
            x: SCORE1_X,
            y: SCORE_CLEAR_Y,
            width: SCORE_CLEAR_SIZE,
            height: SCORE_CLEAR_SIZE,
            color: Color::Black,
        },
    );
    r.push(
        Rect {
            x: SCORE2_X,
            y: SCORE_CLEAR_Y,
            width: SCORE_CLEAR_SIZE,
            height: SCORE_CLEAR_SIZE,
            color: Color::Black,
        },
    );
    r
}

/// The decimal digit `d`.
pub open spec fn digit_char(d: nat) -> char {
    seq!['0', '1', '2', '3', '4', '5', '6', '7', '8', '9'][d as int]
}

/// `n` written in decimal, without leading zeros.
pub open spec fn decimal(n: nat) -> Seq<char>
    decreases n,
{
    if n < 10 {
        seq![digit_char(n)]
    } else {
        decimal(n / 10).push(digit_char(n % 10))
    }
}

/// Relies on `itoa::Buffer::format`: the decimal text of a `u8`.
#[verifier::external_body]
pub fn score_text(score: u8) -> (r: String)
    ensures
        r@ == decimal(score as nat),
{
    let mut buf = itoa::Buffer::new();
    String::from(buf.format(score))
}

} // verus!
