use pico_console::console::{
    pong_tick, snake_tick, start_game, steer, CurrentState, TickOutcome, CANVAS_HEIGHT,
    CANVAS_WIDTH,
};
use pico_console::input::{select_lines, JoyToPin, Menu};
use pico_console::pong::{PlayerTurn, Pong, PongDirection, MAX_SCORE, PLAYER_SIZE};
use pico_console::render::{
    cell_rects, pong_frame, score_clear_rects, score_text, snake_draw, snake_erase, Color,
    PongMarks, Rect,
};
use pico_console::snake::{Direction, Point, Snake, MAX_FOOD_DRAWS, SNAKE_INITIAL_LENGTH};
use pico_console::{cells, pong};

fn body_of(s: &Snake) -> Vec<Point> {
    s.body.iter().copied().collect()
}

fn food_of(s: &Snake) -> Vec<Point> {
    s.food.iter().copied().collect()
}

fn pt(x: i16, y: i16) -> Point {
    Point { x, y }
}

#[test]
fn axis_select_lines_follow_the_table() {
    assert_eq!(select_lines(JoyToPin::JoyX1), (false, false));
    assert_eq!(select_lines(JoyToPin::JoyY1), (true, false));
    assert_eq!(select_lines(JoyToPin::JoyX2), (false, true));
    assert_eq!(select_lines(JoyToPin::JoyY2), (true, true));
    // the same axis always gives the same lines
    assert_eq!(select_lines(JoyToPin::JoyY1), select_lines(JoyToPin::JoyY1));
}

#[test]
fn pong_new_centres_everything() {
    let p = Pong::new(160, 128, 2137);
    assert_eq!(p.width, 160);
    assert_eq!(p.height, 128);
    assert_eq!(p.ball, pong::Point { x: 80, y: 64 });
    assert_eq!(p.player1, 64);
    assert_eq!(p.player2, 64);
    assert_eq!(p.player1_score, 0);
    assert_eq!(p.player2_score, 0);
    assert!(p.is_running);
    assert_eq!(p.ball_direction, PongDirection::UpperRight);
    let q = Pong::new(160, 128, 7);
    assert_eq!(q.ball_direction, PongDirection::LowerRight);
}

#[test]
fn move_player_steps_by_threshold() {
    let mut p = Pong::new(160, 128, 1);
    p.move_player(PlayerTurn::Player1, 3500);
    assert_eq!(p.player1, 66);
    assert_eq!(p.player2, 64);
    p.move_player(PlayerTurn::Player2, 100);
    assert_eq!(p.player2, 62);
    p.move_player(PlayerTurn::Player2, 2000);
    assert_eq!(p.player2, 62);
    p.move_player(PlayerTurn::Player2, 1024);
    assert_eq!(p.player2, 62);
    p.move_player(PlayerTurn::Player2, 3071);
    assert_eq!(p.player2, 62);
}

#[test]
fn move_player_clamps_to_field() {
    let mut p = Pong::new(160, 128, 1);
    p.player1 = 127;
    p.move_player(PlayerTurn::Player1, 4095);
    assert_eq!(p.player1, 128 - PLAYER_SIZE);
    p.player2 = PLAYER_SIZE + 1;
    p.move_player(PlayerTurn::Player2, 0);
    assert_eq!(p.player2, PLAYER_SIZE);
    p.player2 = -300;
    p.move_player(PlayerTurn::Player2, 2000);
    assert_eq!(p.player2, PLAYER_SIZE);
}

#[test]
fn update_ball_free_flight_steps_diagonally() {
    let mut p = Pong::new(160, 128, 1);
    p.ball = pong::Point { x: 50, y: 60 };
    p.ball_direction = PongDirection::LowerLeft;
    p.update_ball();
    assert_eq!(p.ball, pong::Point { x: 49, y: 59 });
    assert_eq!(p.ball_direction, PongDirection::LowerLeft);
    assert_eq!((p.player1_score, p.player2_score), (0, 0));
}

#[test]
fn scenario_pong_ball_climbs_then_bounces() {
    let mut p = Pong::new(160, 128, 5);
    p.ball_direction = PongDirection::UpperRight;
    for i in 1..=10i16 {
        p.update_ball();
        assert_eq!(p.ball, pong::Point { x: 80 + i, y: 64 + i });
        assert_eq!(p.ball_direction, PongDirection::UpperRight);
    }
    p.ball = pong::Point { x: 80, y: 125 };
    p.update_ball();
    assert_eq!(p.ball, pong::Point { x: 81, y: 126 });
    assert_eq!(p.ball_direction, PongDirection::UpperRight);
    p.update_ball();
    assert_eq!(p.ball, pong::Point { x: 82, y: 127 });
    assert_eq!(p.ball_direction, PongDirection::LowerRight);
    p.update_ball();
    assert_eq!(p.ball, pong::Point { x: 83, y: 126 });
}

#[test]
fn ball_bounces_off_a_paddle() {
    let mut p = Pong::new(160, 128, 1);
    p.ball = pong::Point { x: 1, y: 60 };
    p.ball_direction = PongDirection::LowerLeft;
    p.player1 = 62;
    p.update_ball();
    assert_eq!(p.ball, pong::Point { x: 0, y: 59 });
    assert_eq!(p.ball_direction, PongDirection::LowerRight);
}

#[test]
fn left_goal_scores_for_right_player() {
    let mut p = Pong::new(160, 128, 2137);
    // the constructor drew UpperRight; the next draw is LowerRight
    p.ball = pong::Point { x: 0, y: 20 };
    p.ball_direction = PongDirection::UpperLeft;
    p.player1 = 100;
    p.update_ball();
    assert_eq!(p.player2_score, 1);
    assert_eq!(p.player1_score, 0);
    assert_eq!(p.ball, pong::Point { x: 80, y: 64 });
    assert_eq!(p.ball_direction, PongDirection::LowerRight);
}

#[test]
fn right_goal_scores_for_left_player() {
    let mut p = Pong::new(160, 128, 42);
    p.ball = pong::Point { x: 160, y: 20 };
    p.ball_direction = PongDirection::UpperRight;
    p.update_ball();
    assert_eq!(p.player1_score, 1);
    assert_eq!(p.player2_score, 0);
    assert_eq!(p.ball, pong::Point { x: 80, y: 64 });
    assert_eq!(p.ball_direction, PongDirection::LowerRight);
}

#[test]
fn set_ball_direction_codes() {
    let mut p = Pong::new(160, 128, 1);
    p.set_ball_direction(2);
    assert_eq!(p.ball_direction, PongDirection::LowerRight);
    p.set_ball_direction(3);
    assert_eq!(p.ball_direction, PongDirection::LowerLeft);
    p.set_ball_direction(4);
    assert_eq!(p.ball_direction, PongDirection::UpperLeft);
    p.set_ball_direction(1);
    assert_eq!(p.ball_direction, PongDirection::UpperRight);
    p.set_ball_direction(4);
    p.set_ball_direction(0);
    assert_eq!(p.ball_direction, PongDirection::UpperRight);
    p.change_at_wall();
    assert_eq!(p.ball_direction, PongDirection::LowerRight);
    p.change_at_player();
    assert_eq!(p.ball_direction, PongDirection::LowerLeft);
}

#[test]
fn random_direction_draws_one_to_four() {
    let mut p = Pong::new(160, 128, 2137);
    let codes: Vec<u8> = (0..3).map(|_| p.random_direction()).collect();
    assert_eq!(codes, vec![2, 2, 3]);
    for _ in 0..200 {
        let c = p.random_direction();
        assert!((1..=4).contains(&c));
    }
}

#[test]
fn win_stops_only_at_max_score() {
    let mut p = Pong::new(160, 128, 1);
    p.player1_score = MAX_SCORE - 1;
    p.check_for_win();
    assert!(p.is_running);
    p.score(PlayerTurn::Player1);
    assert_eq!(p.player1_score, MAX_SCORE);
    p.check_for_win();
    assert!(!p.is_running);
}

#[test]
fn pong_tick_ends_session_on_eleventh_point() {
    let mut p = Pong::new(160, 128, 1);
    p.player2_score = 10;
    p.ball = pong::Point { x: 0, y: 20 };
    p.ball_direction = PongDirection::UpperLeft;
    p.player1 = 100;
    let out = pong_tick(&mut p, 2000, 2000);
    assert_eq!(out, TickOutcome { score_changed: true, finished: true });
    assert_eq!(p.player2_score, 11);
    assert!(!p.is_running);
}

#[test]
fn pong_tick_moves_paddles_and_ball() {
    let mut p = Pong::new(160, 128, 2137);
    let out = pong_tick(&mut p, 4000, 10);
    assert_eq!(out, TickOutcome { score_changed: false, finished: false });
    assert_eq!(p.player1, 66);
    assert_eq!(p.player2, 62);
    assert_eq!(p.ball, pong::Point { x: 81, y: 65 });
}

#[test]
fn scenario_snake_first_move() {
    let mut s = Snake::new(10, 10, 42);
    assert_eq!(body_of(&s), vec![pt(5, 5), pt(6, 5), pt(7, 5)]);
    assert_eq!(s.direction, Direction::Left);
    assert_eq!(s.score, SNAKE_INITIAL_LENGTH as u8);
    assert!(s.alive && !s.ate && !s.won);
    assert!(food_of(&s).is_empty());
    s.move_snake();
    assert_eq!(s.head_position, pt(4, 5));
    assert_eq!(body_of(&s), vec![pt(4, 5), pt(5, 5), pt(6, 5)]);
}

#[test]
fn change_direction_rejects_reversal_only() {
    let all = [Direction::Up, Direction::Down, Direction::Left, Direction::Right];
    let opposite = |d: Direction| match d {
        Direction::Up => Direction::Down,
        Direction::Down => Direction::Up,
        Direction::Left => Direction::Right,
        Direction::Right => Direction::Left,
    };
    for from in all {
        for to in all {
            let mut s = Snake::new(10, 10, 1);
            s.direction = from;
            s.change_direction(to);
            if to == opposite(from) {
                assert_eq!(s.direction, from);
            } else {
                assert_eq!(s.direction, to);
            }
        }
    }
}

#[test]
fn snake_dies_at_wall_without_moving() {
    let mut s = Snake::new(10, 10, 1);
    for _ in 0..5 {
        s.move_snake();
    }
    assert!(s.alive);
    assert_eq!(s.head_position, pt(0, 5));
    let before = body_of(&s);
    s.move_snake();
    assert!(!s.alive);
    assert_eq!(body_of(&s), before);
    assert_eq!(s.head_position, pt(0, 5));
}

#[test]
fn snake_dies_on_itself_without_moving() {
    let mut s = Snake::new(10, 10, 1);
    s.ate = true;
    s.move_snake();
    s.ate = true;
    s.move_snake();
    // body: (3,5) (4,5) (5,5) (6,5) (7,5)
    s.change_direction(Direction::Up);
    s.move_snake();
    s.change_direction(Direction::Right);
    s.move_snake();
    s.change_direction(Direction::Down);
    let before = body_of(&s);
    s.move_snake();
    assert!(!s.alive);
    assert_eq!(body_of(&s), before);
}

#[test]
fn snake_moving_up_increases_y() {
    let mut s = Snake::new(10, 10, 1);
    s.change_direction(Direction::Up);
    s.move_snake();
    assert_eq!(s.head_position, pt(5, 6));
    s.change_direction(Direction::Right);
    s.move_snake();
    assert_eq!(s.head_position, pt(6, 6));
    s.change_direction(Direction::Down);
    s.move_snake();
    assert_eq!(s.head_position, pt(6, 5));
    assert!(!s.alive || body_of(&s).len() == 3);
}

#[test]
fn eat_then_move_grows_by_one() {
    let mut s = Snake::new(10, 10, 42);
    s.random_food_position();
    let food = food_of(&s);
    assert_eq!(food, vec![pt(1, 4)]);
    s.head_position = pt(1, 4);
    s.eat();
    assert!(s.ate);
    assert_eq!(s.score, 4);
    assert!(food_of(&s).is_empty());
    let mut t = Snake::new(10, 10, 42);
    t.eat();
    assert_eq!(t.score, 4);
    let len = body_of(&t).len();
    t.move_snake();
    assert_eq!(body_of(&t).len(), len + 1);
    assert!(!t.ate);
    assert_eq!(body_of(&t), vec![pt(4, 5), pt(5, 5), pt(6, 5), pt(7, 5)]);
}

#[test]
fn eat_removes_only_the_first_matching_food() {
    let mut s = Snake::new(10, 10, 3);
    s.food.push(pt(1, 1)).unwrap();
    s.food.push(pt(5, 5)).unwrap();
    s.food.push(pt(2, 2)).unwrap();
    s.food.push(pt(5, 5)).unwrap();
    s.eat();
    assert_eq!(food_of(&s), vec![pt(1, 1), pt(2, 2), pt(5, 5)]);
}

#[test]
fn random_food_avoids_body_and_food() {
    let mut s = Snake::new(10, 10, 42);
    for _ in 0..60 {
        let body = body_of(&s);
        let food = food_of(&s);
        s.random_food_position();
        let after = food_of(&s);
        assert_eq!(after.len(), food.len() + 1);
        let p = *after.last().unwrap();
        assert!(p.x >= 0 && p.x < 10 && p.y >= 0 && p.y < 10);
        assert!(!body.contains(&p));
        assert!(!food.contains(&p));
    }
    assert!(MAX_FOOD_DRAWS > 1_000_000);
}

#[test]
fn random_food_uses_the_seeded_sequence() {
    let mut s = Snake::new(10, 10, 42);
    s.random_food_position();
    s.random_food_position();
    s.random_food_position();
    assert_eq!(food_of(&s), vec![pt(1, 4), pt(8, 1), pt(2, 0)]);
}

#[test]
fn full_body_wins_instead_of_growing() {
    let mut s = Snake::new(160, 128, 1);
    while body_of(&s).len() < cells::MAX_VEC_SIZE {
        s.ate = true;
        let head = s.head_position;
        if head.x == 0 {
            s.change_direction(Direction::Up);
        }
        s.move_snake();
        assert!(s.alive);
        s.change_direction(Direction::Left);
    }
    let before = body_of(&s);
    let head = s.head_position;
    s.change_direction(Direction::Up);
    s.ate = true;
    s.move_snake();
    assert!(s.won);
    assert!(s.alive);
    assert_eq!(body_of(&s), before);
    assert_eq!(s.head_position, head);
}

#[test]
fn menu_selects_with_hysteresis() {
    let mut m = Menu { selected_game: 0, menu_changed: false };
    m.read_axis(3500);
    assert_eq!(m, Menu { selected_game: 1, menu_changed: true });
    assert!(m.take_redraw());
    assert!(!m.menu_changed);
    m.read_axis(2000);
    assert_eq!(m, Menu { selected_game: 1, menu_changed: false });
    m.read_axis(3071);
    m.read_axis(1024);
    assert_eq!(m, Menu { selected_game: 1, menu_changed: false });
    m.read_axis(1023);
    assert_eq!(m, Menu { selected_game: 0, menu_changed: true });
    assert_eq!(Menu::new(), Menu { selected_game: 0, menu_changed: true });
}

#[test]
fn menu_entries_mark_selection() {
    let m = Menu::new();
    assert_eq!(m.title(), "Select Game");
    assert_eq!(m.entries(), ("> Pong", "  Snake"));
    let n = Menu { selected_game: 1, menu_changed: false };
    assert_eq!(n.entries(), ("  Pong", "> Snake"));
}

#[test]
fn start_game_builds_selected_session() {
    match start_game(0, 2137) {
        CurrentState::Pong(p) => {
            assert_eq!(p.width, CANVAS_WIDTH);
            assert_eq!(p.height, CANVAS_HEIGHT);
            assert_eq!(p.ball_direction, PongDirection::UpperRight);
        }
        _ => panic!("expected the paddle game"),
    }
    match start_game(1, 9) {
        CurrentState::Snake(s) => {
            assert_eq!(body_of(&s), vec![pt(80, 64), pt(81, 64), pt(82, 64)]);
        }
        _ => panic!("expected the snake game"),
    }
}

#[test]
fn steer_reads_axes_in_order() {
    assert_eq!(steer(4000, 0), Some(Direction::Left));
    assert_eq!(steer(0, 4000), Some(Direction::Right));
    assert_eq!(steer(2000, 4000), Some(Direction::Up));
    assert_eq!(steer(2000, 0), Some(Direction::Down));
    assert_eq!(steer(2000, 2000), None);
}

#[test]
fn snake_tick_moves_and_places_food() {
    let mut s = Snake::new(160, 128, 7);
    let out = snake_tick(&mut s, 2000, 4000);
    assert_eq!(out, TickOutcome { score_changed: false, finished: false });
    assert_eq!(s.head_position, pt(80, 65));
    assert_eq!(food_of(&s), vec![pt(50, 110)]);
}

#[test]
fn snake_tick_eats_food_under_head() {
    let mut s = Snake::new(160, 128, 7);
    s.food.push(pt(79, 64)).unwrap();
    let out = snake_tick(&mut s, 2000, 2000);
    assert_eq!(out, TickOutcome { score_changed: true, finished: false });
    assert_eq!(s.score, 4);
    assert!(s.ate);
    assert_eq!(food_of(&s), vec![pt(50, 110), pt(81, 90)]);
}

#[test]
fn snake_tick_reports_death() {
    let mut s = Snake::new(4, 4, 7);
    s.change_direction(Direction::Up);
    let mut finished = false;
    for _ in 0..3 {
        finished = snake_tick(&mut s, 2000, 2000).finished;
        if finished {
            break;
        }
    }
    assert!(finished);
    assert!(!s.alive);
}

#[test]
fn pong_frame_erases_then_draws() {
    let mut marks = PongMarks::centred(160, 128);
    assert_eq!(marks, PongMarks { player1: 64, player2: 64, ball: pong::Point { x: 80, y: 64 } });
    let mut p = Pong::new(160, 128, 1);
    p.player1 = 70;
    p.ball = pong::Point { x: 81, y: 65 };
    let rects = pong_frame(&mut marks, &p);
    let black = Color::Black;
    assert_eq!(
        rects,
        vec![
            Rect { x: 0, y: 60, width: 1, height: 8, color: black },
            Rect { x: 158, y: 60, width: 1, height: 8, color: black },
            Rect { x: 80, y: 64, width: 2, height: 2, color: black },
            Rect { x: 0, y: 66, width: 1, height: 8, color: Color::White },
            Rect { x: 158, y: 60, width: 1, height: 8, color: Color::White },
            Rect { x: 81, y: 65, width: 2, height: 2, color: Color::Red },
        ]
    );
    assert_eq!(marks, PongMarks { player1: 70, player2: 64, ball: pong::Point { x: 81, y: 65 } });
}

#[test]
fn cell_rects_cover_each_cell() {
    let s = Snake::new(10, 10, 1);
    let rects = cell_rects(&s.body, Color::Green);
    assert_eq!(
        rects,
        vec![
            Rect { x: 5, y: 5, width: 1, height: 1, color: Color::Green },
            Rect { x: 6, y: 5, width: 1, height: 1, color: Color::Green },
            Rect { x: 7, y: 5, width: 1, height: 1, color: Color::Green },
        ]
    );
    assert!(cell_rects(&s.food, Color::Red).is_empty());
}

#[test]
fn snake_frames_cover_body_then_food() {
    let mut s = Snake::new(10, 10, 42);
    s.random_food_position();
    let sq = |x: i32, y: i32, color: Color| Rect { x, y, width: 1, height: 1, color };
    assert_eq!(
        snake_erase(&s),
        vec![
            sq(5, 5, Color::Black),
            sq(6, 5, Color::Black),
            sq(7, 5, Color::Black),
            sq(1, 4, Color::Black),
        ]
    );
    assert_eq!(
        snake_draw(&s),
        vec![
            sq(5, 5, Color::Green),
            sq(6, 5, Color::Green),
            sq(7, 5, Color::Green),
            sq(1, 4, Color::Red),
        ]
    );
}

#[test]
fn score_area_and_text() {
    assert_eq!(score_text(0), "0");
    assert_eq!(score_text(7), "7");
    assert_eq!(score_text(11), "11");
    assert_eq!(score_text(255), "255");
    let r = score_clear_rects();
    assert_eq!(r.len(), 2);
    assert_eq!(r[0], Rect { x: 70, y: 10, width: 15, height: 15, color: Color::Black });
    assert_eq!(r[1], Rect { x: 90, y: 10, width: 15, height: 15, color: Color::Black });
}
