use snake::controls::{answer, key_direction, Answer, Key};
use snake::food::spawn_food;
use snake::frame::{Char, Colour, FrameBuffer, CARET, FOOD, LINE, L_TOOTH, R_TOOTH, SNAKE_HEAD, SNAKE_PART, SPACE, V};
use snake::game::{Game, Tick};
use snake::geometry::{Pos, HEIGHT, WIDTH};
use snake::snake::{Direction, Snake};
use std::collections::VecDeque;

fn interior(p: Pos) -> bool {
    1 <= p.x && p.x <= WIDTH - 2 && 1 <= p.y && p.y <= HEIGHT - 2
}

fn snake_from(cells: &[(usize, usize)], dir: Direction) -> Snake {
    let body: VecDeque<Pos> = cells.iter().map(|&(x, y)| Pos::new(x, y)).collect();
    let head = body[0];
    Snake { body, dir, head }
}

fn text_at(b: &FrameBuffer, x0: usize, y: usize, n: usize) -> String {
    (x0..x0 + n).map(|x| b.cell(x, y).info as char).collect()
}

#[test]
fn food_spawns_in_the_interior() {
    for _ in 0..2000 {
        let p = spawn_food();
        assert!(interior(p), "{:?}", p);
    }
}

#[test]
fn food_spawn_reaches_both_ends_of_the_interior() {
    let mut xs = std::collections::BTreeSet::new();
    for _ in 0..5000 {
        xs.insert(spawn_food().x);
    }
    assert!(xs.contains(&1));
    assert!(xs.contains(&(WIDTH - 2)));
}

#[test]
fn new_game_is_a_fresh_life() {
    let g = Game::new();
    assert_eq!(g.score, 0);
    assert!(g.state);
    assert_eq!(g.snake.head(), Pos::new(14, 7));
    assert_eq!(g.snake.body.len(), 3);
    assert!(interior(g.food));
}

#[test]
fn one_tick_moves_left_from_spawn() {
    let mut g = Game::new();
    g.food = Pos::new(3, 3);
    let t = g.advance(None, Pos::new(2, 2));
    assert_eq!(t, Tick::Running);
    assert_eq!(g.snake.head(), Pos::new(13, 7));
    let body: Vec<Pos> = g.snake.body.iter().copied().collect();
    assert_eq!(body, vec![Pos::new(13, 7), Pos::new(14, 7), Pos::new(15, 7)]);
    assert_eq!(g.score, 0);
    assert_eq!(g.food, Pos::new(3, 3));
}

#[test]
fn eating_grows_scores_and_moves_food() {
    let mut g = Game::new();
    g.food = Pos::new(13, 7);
    let t = g.advance(None, Pos::new(20, 10));
    assert_eq!(t, Tick::Running);
    assert_eq!(g.snake.body.len(), 4);
    assert_eq!(g.score, 1);
    assert_eq!(g.food, Pos::new(20, 10));
    assert_eq!(g.snake.body[3], Pos::new(16, 7));
}

#[test]
fn eating_with_random_respawn() {
    let mut g = Game::new();
    g.food = Pos::new(13, 7);
    let t = g.tick(None);
    assert_eq!(t, Tick::Running);
    assert_eq!(g.snake.body.len(), 4);
    assert_eq!(g.score, 1);
    assert!(interior(g.food));
}

#[test]
fn reaching_the_left_border_kills() {
    let mut g = Game::new();
    g.food = Pos::new(20, 10);
    g.snake = snake_from(&[(1, 7), (2, 7), (3, 7)], Direction::Left);
    let t = g.advance(None, Pos::new(5, 5));
    assert_eq!(t, Tick::Died);
    assert_eq!(g.snake.head(), Pos::new(0, 7));
    assert!(!g.state);
    assert_eq!(g.score, 0);
}

#[test]
fn reaching_each_border_kills() {
    let cases = [
        (Direction::Up, (5, 1), Pos::new(5, 0)),
        (Direction::Down, (5, HEIGHT - 2), Pos::new(5, HEIGHT - 1)),
        (Direction::Right, (WIDTH - 2, 5), Pos::new(WIDTH - 1, 5)),
    ];
    for (d, (x, y), dead_head) in cases {
        let mut g = Game::new();
        g.food = Pos::new(10, 10);
        let (x2, y2) = match d {
            Direction::Up => (x, y + 1),
            Direction::Down => (x, y - 1),
            _ => (x - 1, y),
        };
        let (x3, y3) = match d {
            Direction::Up => (x, y + 2),
            Direction::Down => (x, y - 2),
            _ => (x - 2, y),
        };
        g.snake = snake_from(&[(x, y), (x2, y2), (x3, y3)], d);
        assert_eq!(g.advance(None, Pos::new(5, 5)), Tick::Died);
        assert_eq!(g.snake.head(), dead_head);
        assert!(!g.state);
    }
}

#[test]
fn running_into_the_fourth_segment_kills() {
    let mut g = Game::new();
    g.food = Pos::new(20, 10);
    g.snake = snake_from(&[(5, 5), (5, 6), (6, 6), (6, 5), (6, 4)], Direction::Up);
    let t = g.advance(Some(Key::Right), Pos::new(3, 3));
    assert_eq!(t, Tick::Died);
    assert_eq!(g.snake.dir, Direction::Right);
    assert!(g.snake.ate_itself());
    assert!(!g.state);
}

#[test]
fn reverse_key_is_ignored_during_play() {
    let mut g = Game::new();
    g.food = Pos::new(3, 3);
    let t = g.advance(Some(Key::Char('d')), Pos::new(2, 2));
    assert_eq!(t, Tick::Running);
    assert_eq!(g.snake.dir, Direction::Left);
    assert_eq!(g.snake.head(), Pos::new(13, 7));
}

#[test]
fn quarter_turn_key_steers() {
    let mut g = Game::new();
    g.food = Pos::new(3, 3);
    let t = g.advance(Some(Key::Char('z')), Pos::new(2, 2));
    assert_eq!(t, Tick::Running);
    assert_eq!(g.snake.dir, Direction::Up);
    assert_eq!(g.snake.head(), Pos::new(14, 6));
}

#[test]
fn escape_pauses_without_moving() {
    let mut g = Game::new();
    g.food = Pos::new(3, 3);
    let t = g.advance(Some(Key::Esc), Pos::new(2, 2));
    assert_eq!(t, Tick::Paused);
    assert_eq!(g.snake.head(), Pos::new(14, 7));
    assert!(g.state);
}

#[test]
fn reset_starts_a_fresh_life() {
    let mut g = Game::new();
    g.food = Pos::new(13, 7);
    g.advance(None, Pos::new(20, 10));
    g.state = false;
    g.reset();
    assert_eq!(g.score, 0);
    assert!(g.state);
    assert_eq!(g.snake.head(), Pos::new(14, 7));
    assert_eq!(g.snake.body.len(), 3);
    assert_eq!(g.snake.dir, Direction::Left);
    assert!(interior(g.food));
}

#[test]
fn keys_steer_and_answer() {
    assert_eq!(key_direction(Key::Char('q')), Some(Direction::Left));
    assert_eq!(key_direction(Key::Left), Some(Direction::Left));
    assert_eq!(key_direction(Key::Char('s')), Some(Direction::Down));
    assert_eq!(key_direction(Key::Down), Some(Direction::Down));
    assert_eq!(key_direction(Key::Char('d')), Some(Direction::Right));
    assert_eq!(key_direction(Key::Right), Some(Direction::Right));
    assert_eq!(key_direction(Key::Char('z')), Some(Direction::Up));
    assert_eq!(key_direction(Key::Up), Some(Direction::Up));
    assert_eq!(key_direction(Key::Char('w')), None);
    assert_eq!(key_direction(Key::Esc), None);
    assert_eq!(answer(Key::Char('Y')), Answer::Restart);
    assert_eq!(answer(Key::Char('y')), Answer::Restart);
    assert_eq!(answer(Key::Char('N')), Answer::Quit);
    assert_eq!(answer(Key::Char('n')), Answer::Quit);
    assert_eq!(answer(Key::Char('x')), Answer::Undecided);
    assert_eq!(answer(Key::Esc), Answer::Undecided);
}

#[test]
fn game_frame_shows_field_snake_and_food() {
    let mut g = Game::new();
    g.food = Pos::new(3, 4);
    g.draw_game();
    let b = &g.buff;
    assert_eq!(b.cells.len(), WIDTH * HEIGHT);
    assert_eq!(b.cell(0, 0), Char::new(V, Colour::White));
    assert_eq!(b.cell(WIDTH - 1, 0), Char::new(V, Colour::White));
    assert_eq!(b.cell(5, HEIGHT - 1), Char::new(CARET, Colour::White));
    assert_eq!(b.cell(0, HEIGHT - 1), Char::new(R_TOOTH, Colour::White));
    assert_eq!(b.cell(WIDTH - 1, HEIGHT - 1), Char::new(L_TOOTH, Colour::White));
    assert_eq!(b.cell(0, 5), Char::new(R_TOOTH, Colour::White));
    assert_eq!(b.cell(WIDTH - 1, 5), Char::new(L_TOOTH, Colour::White));
    assert_eq!(b.cell(14, 7), Char::new(SNAKE_HEAD, Colour::Green));
    assert_eq!(b.cell(15, 7), Char::new(SNAKE_PART, Colour::Green));
    assert_eq!(b.cell(16, 7), Char::new(SNAKE_PART, Colour::Green));
    assert_eq!(b.cell(3, 4), Char::new(FOOD, Colour::Red));
    assert_eq!(b.cell(10, 10), Char::new(SPACE, Colour::Black));
}

#[test]
fn food_is_drawn_over_the_head() {
    let mut g = Game::new();
    g.food = Pos::new(14, 7);
    g.draw_game();
    assert_eq!(g.buff.cell(14, 7), Char::new(FOOD, Colour::Red));
}

#[test]
fn end_screen_shows_rules_and_captions() {
    let mut g = Game::new();
    g.exit_screen();
    let b = &g.buff;
    for x in 10..20 {
        assert_eq!(b.cell(x, 4), Char::new(LINE, Colour::White));
        assert_eq!(b.cell(x, 8), Char::new(LINE, Colour::White));
    }
    assert_eq!(b.cell(9, 4), Char::new(SPACE, Colour::Black));
    assert_eq!(text_at(b, 11, 5, 8), "You Died");
    assert_eq!(text_at(b, 9, 7, 13), "Again?: (Y/N)");
    assert_eq!(b.cell(11, 5).col, Colour::White);
    assert_eq!(b.cell(0, 0), Char::new(V, Colour::White));
    assert_eq!(b.cell(18, 7).info, b'Y');
    assert_eq!(b.cell(1, 1), Char::new(SPACE, Colour::Black));
}
