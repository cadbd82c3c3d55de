use snake::Game;
use snake::Snake;
use snake::State;
use snake::Vec2;

const CLEAR: &str = "\x1b[2J";
const FG_WHITE: &str = "\x1b[38;5;7m";
const FG_BLACK: &str = "\x1b[38;5;0m";
const FG_RESET: &str = "\x1b[39m";
const BG_WHITE: &str = "\x1b[48;5;7m";
const BG_BLACK: &str = "\x1b[48;5;0m";
const BG_RESET: &str = "\x1b[49m";

fn small_game(state: State) -> Game {
    Game {
        snake: Snake { dir: Vec2::right(), head: Vec2::new(2, 1), tail: vec![] },
        apple: Vec2::new(4, 1),
        w: 8,
        h: 3,
        state,
    }
}

fn small_walls() -> String {
    let mut s = String::new();
    s.push_str(BG_WHITE);
    s.push_str("\x1b[1;1H  \x1b[3;1H  \x1b[1;3H  \x1b[3;3H  ");
    s.push_str("\x1b[1;5H  \x1b[3;5H  \x1b[1;7H  \x1b[3;7H  ");
    s.push_str("\x1b[0;1H  \x1b[0;7H  \x1b[1;1H  \x1b[1;7H  \x1b[2;1H  \x1b[2;7H  ");
    s
}

fn small_help() -> String {
    let mut s = String::new();
    s.push_str("\x1b[3;4H");
    s.push_str(FG_BLACK);
    s.push_str(BG_WHITE);
    s.push_str("q to quit, hjkl to move");
    s.push_str(FG_RESET);
    s.push_str(BG_RESET);
    s
}

#[test]
fn a_cell_is_drawn_one_right_and_one_down_of_its_coordinates() {
    let mut s = String::new();
    Vec2::new(2, 1).render(&mut s);
    assert_eq!(s, "\x1b[2;3H  ");
}

#[test]
fn a_cell_at_the_origin_is_drawn_in_the_first_column_and_row() {
    let mut s = String::new();
    Vec2::new(0, 0).render(&mut s);
    assert_eq!(s, "\x1b[1;1H  ");
}

#[test]
fn a_cell_far_out_is_drawn_with_all_its_digits() {
    let mut s = String::new();
    Vec2::new(198, 99).render(&mut s);
    assert_eq!(s, "\x1b[100;199H  ");
    let mut s = String::new();
    Vec2::new(32767, 9).render(&mut s);
    assert_eq!(s, "\x1b[10;32768H  ");
}

#[test]
fn a_cell_with_a_negative_coordinate_is_not_drawn() {
    for v in [Vec2::new(-2, 1), Vec2::new(2, -1), Vec2::new(-1, -1), Vec2::new(-32768, 0)] {
        let mut s = String::from("kept");
        v.render(&mut s);
        assert_eq!(s, "kept");
    }
}

#[test]
fn render_appends_to_what_the_sink_holds() {
    let mut s = String::from("before");
    Vec2::new(4, 2).render(&mut s);
    assert_eq!(s, "before\x1b[3;5H  ");
}

#[test]
fn a_snake_is_drawn_head_first() {
    let snake = Snake {
        dir: Vec2::right(),
        head: Vec2::new(10, 5),
        tail: vec![Vec2::new(8, 5), Vec2::new(6, 5), Vec2::new(6, 4)],
    };
    let mut s = String::new();
    snake.render(&mut s);
    assert_eq!(s, "\x1b[6;11H  \x1b[6;9H  \x1b[6;7H  \x1b[5;7H  ");
}

#[test]
fn a_snake_that_trails_off_the_screen_is_drawn_as_far_as_it_shows() {
    let mut snake = Snake::new();
    snake.grow();
    snake.grow();
    let mut s = String::new();
    snake.render(&mut s);
    assert_eq!(s, "\x1b[2;3H  \x1b[2;1H  ");
}

#[test]
fn a_frame_of_a_game_being_played() {
    let g = small_game(State::Playing);
    let mut s = String::new();
    g.render(&mut s);
    let mut expected = String::new();
    expected.push_str(CLEAR);
    expected.push_str(&small_walls());
    expected.push_str("\x1b[2;3H  ");
    expected.push_str("\x1b[2;5H  ");
    expected.push_str(&small_help());
    assert_eq!(s, expected);
}

#[test]
fn a_frame_of_a_lost_game_marks_the_crash_in_black_first() {
    let g = small_game(State::GameOver { point: Vec2::new(6, 1), blink: false });
    let mut s = String::new();
    g.render(&mut s);
    let mut expected = String::new();
    expected.push_str(CLEAR);
    expected.push_str(&small_walls());
    expected.push_str("\x1b[2;3H  ");
    expected.push_str("\x1b[2;5H  ");
    expected.push_str(FG_WHITE);
    expected.push_str(BG_BLACK);
    expected.push_str("\x1b[2;7H  ");
    expected.push_str(&small_help());
    assert_eq!(s, expected);
}

#[test]
fn a_frame_of_a_lost_game_marks_the_crash_in_white_next() {
    let g = small_game(State::GameOver { point: Vec2::new(6, 1), blink: true });
    let mut s = String::new();
    g.render(&mut s);
    let mut expected = String::new();
    expected.push_str(CLEAR);
    expected.push_str(&small_walls());
    expected.push_str("\x1b[2;3H  ");
    expected.push_str("\x1b[2;5H  ");
    expected.push_str(FG_BLACK);
    expected.push_str(BG_WHITE);
    expected.push_str("\x1b[2;7H  ");
    expected.push_str(&small_help());
    assert_eq!(s, expected);
}

#[test]
fn a_frame_of_a_board_of_odd_width_draws_the_last_column_too() {
    let mut g = small_game(State::Playing);
    g.w = 9;
    let mut s = String::new();
    g.render(&mut s);
    let mut expected = String::new();
    expected.push_str(CLEAR);
    expected.push_str(BG_WHITE);
    expected.push_str("\x1b[1;1H  \x1b[3;1H  \x1b[1;3H  \x1b[3;3H  \x1b[1;5H  \x1b[3;5H  ");
    expected.push_str("\x1b[1;7H  \x1b[3;7H  \x1b[1;9H  \x1b[3;9H  ");
    expected.push_str("\x1b[0;1H  \x1b[0;8H  \x1b[1;1H  \x1b[1;8H  \x1b[2;1H  \x1b[2;8H  ");
    expected.push_str("\x1b[2;3H  ");
    expected.push_str("\x1b[2;5H  ");
    expected.push_str(&small_help());
    assert_eq!(s, expected);
}

#[test]
fn a_frame_follows_the_game_from_tick_to_tick() {
    let mut g = small_game(State::Playing);
    g.apple = Vec2::new(4, 1);
    g.w = 12;
    g.h = 5;
    g.update(None);
    let mut first = String::new();
    g.render(&mut first);
    assert!(first.starts_with("\x1b[2J\x1b[48;5;7m\x1b[1;1H  \x1b[5;1H  "));
    assert!(first.contains("\x1b[2;5H  \x1b[2;5H  \x1b[5;4H"));
    assert!(first.ends_with("q to quit, hjkl to move\x1b[39m\x1b[49m"));
    g.update(None);
    let mut second = String::new();
    g.render(&mut second);
    assert_eq!(g.snake.tail, vec![Vec2::new(4, 1)]);
    assert!(second.contains("\x1b[2;7H  \x1b[2;5H  "));
}

#[test]
fn the_walls_of_a_wide_board_reach_its_last_column() {
    let mut g = small_game(State::Playing);
    g.w = 200;
    g.h = 100;
    let mut s = String::new();
    g.render(&mut s);
    assert!(s.contains("\x1b[1;199H  \x1b[100;199H  \x1b[0;1H  \x1b[0;199H  "));
    assert!(s.contains("\x1b[99;1H  \x1b[99;199H  \x1b[2;3H  "));
    assert!(s.contains("\x1b[100;4H\x1b[38;5;0m\x1b[48;5;7mq to quit"));
    assert_eq!(s.matches("  ").count(), 100 * 2 + 100 * 2 + 2);
}
