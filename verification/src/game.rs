//! The game: a snake, an apple and a walled board, and the step that one
//! tick of the clock makes.

use vstd::prelude::*;

use crate::snake::{Snake, SnakeView};
use crate::vector::Vec2;

verus! {

/// How a game stands: still being played, or lost. A lost game keeps the
/// cell where the snake would have crashed, and a flag that flips with every
/// tick so that the cell can be shown blinking.
#[derive(Clone, Copy, PartialEq, Eq, Structural, Debug)]
pub enum State {
    Playing,
    GameOver { point: Vec2, blink: bool },
}

/// A game of snake on a board `w` columns wide and `h` rows high. The
/// outermost ring of the board is wall.
#[derive(Debug)]
pub struct Game {
    pub snake: Snake,
    /// The cell of the apple.
    pub apple: Vec2,
    /// The width of the board, in columns of the screen.
    pub w: u16,
    /// The height of the board, in rows.
    pub h: u16,
    pub state: State,
}

/// What a game is, as a value of mathematics.
pub struct GameView {
    pub snake: SnakeView,
    pub apple: Vec2,
    pub w: int,
    pub h: int,
    pub state: State,
}

impl View for Game {
    type V = GameView;

    open spec fn view(&self) -> GameView {
        GameView {
            snake: self.snake@,
            apple: self.apple,
            w: self.w as int,
            h: self.h as int,
            state: self.state,
        }
    }
}

/// Whether a board of `w` columns and `h` rows can be played on: there is
/// at least one cell for an apple to appear in, and both sizes fit the
/// signed 16-bit coordinates of a cell.
pub open spec fn playable(w: int, h: int) -> bool {
    &&& 8 <= w <= i16::MAX
    &&& 3 <= h <= i16::MAX
}

/// Whether `cell` is one of the cells where a new apple may appear on a
/// board of `w` columns and `h` rows: the cell in column `c` of row `r`,
/// with `2 <= c < (w - 2) / 2` and `1 <= r < h - 1`, which lies at
/// `(2 * c, r)` on the screen.
pub open spec fn apple_spot(cell: Vec2, w: int, h: int) -> bool {
    &&& cell.x % 2 == 0
    &&& 2 <= cell.x / 2 < (w - 2) / 2
    &&& 1 <= cell.y < h - 1
}

/// The step that a key asks for: `h` left, `j` down, `k` up, `l` right. No
/// other key steers the snake.
pub open spec fn key_step(key: char) -> Option<Vec2> {
    if key == 'h' {
        Some(Vec2::left())
    } else if key == 'j' {
        Some(Vec2::down())
    } else if key == 'k' {
        Some(Vec2::up())
    } else if key == 'l' {
        Some(Vec2::right())
    } else {
        None
    }
}

impl GameView {
    /// A game is well formed when its board is playable and its snake is
    /// well formed.
    pub open spec fn wf(self) -> bool {
        &&& playable(self.w, self.h)
        &&& self.snake.wf()
    }

    /// The game before its first tick, with its first apple at `apple`.
    pub open spec fn initial(w: int, h: int, apple: Vec2) -> GameView {
        GameView { snake: SnakeView::initial(), apple, w, h, state: State::Playing }
    }

    /// The cell that the head is about to enter.
    pub open spec fn future_head(self) -> Vec2 {
        self.snake.head.spec_add(self.snake.dir)
    }

    /// Whether a head that enters `cell` strikes a wall: the cell lies in
    /// the first column, in the first row, in the last row, or two columns
    /// before the end of a row, where the cell of the right wall starts.
    pub open spec fn is_wall(self, cell: Vec2) -> bool {
        ||| cell.x == 0
        ||| cell.x == self.w - 2
        ||| cell.y == 0
        ||| cell.y == self.h - 1
    }

    /// The wall cell that the head is about to enter, if it is one.
    pub open spec fn wall_hit(self) -> Option<Vec2> {
        if self.is_wall(self.future_head()) {
            Some(self.future_head())
        } else {
            None
        }
    }

    /// The cell of the tail that the head is about to enter, if it is one.
    pub open spec fn self_hit(self) -> Option<Vec2> {
        if self.snake.tail.contains(self.future_head()) {
            Some(self.future_head())
        } else {
            None
        }
    }

    /// The cell where the snake is about to crash, into a wall or into
    /// itself, if it is.
    pub open spec fn collision(self) -> Option<Vec2> {
        if self.wall_hit() is Some {
            self.wall_hit()
        } else {
            self.self_hit()
        }
    }

    /// The game after the key of this tick, if there was one, has steered
    /// the snake.
    pub open spec fn steered(self, input: Option<char>) -> GameView {
        match input {
            Some(key) => match key_step(key) {
                Some(step) => GameView { snake: self.snake.turned(step), ..self },
                None => self,
            },
            None => self,
        }
    }

    /// The game after the snake has eaten the apple under its head: the
    /// snake is one segment longer, and the next apple lies at `fresh`.
    pub open spec fn fed(self, fresh: Vec2) -> GameView {
        GameView { snake: self.snake.grown(), apple: fresh, ..self }
    }

    /// Whether the snake moves in the tick that gets `input`: the game is
    /// being played, and the snake, once steered, is not about to crash.
    pub open spec fn moves(self, input: Option<char>) -> bool {
        &&& self.state is Playing
        &&& self.steered(input).collision() is None
    }

    /// Whether the snake eats the apple in the tick that gets `input`: it
    /// moves in that tick, and its head lies on the apple.
    pub open spec fn eats(self, input: Option<char>) -> bool {
        &&& self.moves(input)
        &&& self.snake.head == self.apple
    }

    /// The game one tick on, where the key of the tick was `input` and an
    /// apple eaten in it is replaced by one at `fresh`.
    ///
    /// A lost game only flips its blink flag. A game being played steers the
    /// snake first. If the snake is then about to crash, the game is lost,
    /// with the cell of the crash and the flag down, and the snake stays
    /// where it is. Otherwise the snake eats the apple if its head lies on
    /// it, and moves one step.
    pub open spec fn after(self, input: Option<char>, fresh: Vec2) -> GameView {
        match self.state {
            State::GameOver { point, blink } => GameView {
                state: State::GameOver { point, blink: !blink },
                ..self
            },
            State::Playing => {
                let steered = self.steered(input);
                match steered.collision() {
                    Some(point) => GameView {
                        state: State::GameOver { point, blink: false },
                        ..steered
                    },
                    None => {
                        let fed = if steered.snake.head == steered.apple {
                            steered.fed(fresh)
                        } else {
                            steered
                        };
                        GameView { snake: fed.snake.advanced(), ..fed }
                    },
                }
            },
        }
    }
}

/// Whether a board of `w` columns and `h` rows can be played on.
pub fn is_playable(w: u16, h: u16) -> (ok: bool)
    ensures
        ok == playable(w as int, h as int),
{
    8 <= w && w <= 32767 && 3 <= h && h <= 32767
}

impl Game {
    /// Whether the board of this game is playable and its snake is well
    /// formed.
    pub open spec fn wf(&self) -> bool {
        self@.wf()
    }

    /// A new game on a board of `w` columns and `h` rows, with the snake at
    /// its start and a first apple drawn at random.
    pub fn new(w: u16, h: u16) -> (game: Game)
        requires
            playable(w as int, h as int),
        ensures
            game.wf(),
            game@ == GameView::initial(w as int, h as int, game.apple),
            apple_spot(game.apple, w as int, h as int),
    {
        Game {
            snake: Snake::new(),
            apple: Game::spawn_apple(w, h),
            w: w,
            h: h,
            state: State::Playing,
        }
    }

    /// A cell for a new apple, drawn at random from the cells that
    /// `apple_spot` admits, all of which lie inside the walls. Whether the
    /// snake lies on the cell is not looked at.
    pub fn spawn_apple(w: u16, h: u16) -> (apple: Vec2)
        requires
            playable(w as int, h as int),
        ensures
            apple_spot(apple, w as int, h as int),
    {
        let max = Vec2::new((w as i16 - 2) / 2, h as i16 - 1);
        Vec2::random(Vec2::new(2, 1), max).mul(Vec2::new(2, 1))
    }

    /// The wall cell that the head is about to enter, if it is one.
    pub fn snake_hits_walls(&self) -> (hit: Option<Vec2>)
        requires
            self.wf(),
        ensures
            hit == self@.wall_hit(),
    {
        let future_head = self.snake.head.add(self.snake.dir);

        if future_head.x == 0 || future_head.x == (self.w - 2) as i16 {
            return Some(future_head);
        }
        if future_head.y == 0 || future_head.y == (self.h - 1) as i16 {
            return Some(future_head);
        }
        None
    }

    /// The cell of the tail that the head is about to enter, if it is one.
    pub fn snake_hits_itself(&self) -> (hit: Option<Vec2>)
        ensures
            hit == self@.self_hit(),
    {
        let future_head = self.snake.head.add(self.snake.dir);

        let mut i: usize = 0;
        while i < self.snake.tail.len()
            invariant
                i <= self.snake.tail@.len(),
                future_head == self@.future_head(),
                forall|j: int| 0 <= j < i ==> self.snake.tail@[j] != future_head,
            decreases self.snake.tail@.len() - i,
        {
            if self.snake.tail[i] == future_head {
                return Some(future_head);
            }
            i = i + 1;
        }
        None
    }

    /// Lets the snake eat the apple: the snake grows by one segment, and
    /// the next apple is laid at `fresh`.
    pub fn eat(&mut self, fresh: Vec2)
        requires
            old(self).wf(),
        ensures
            final(self).wf(),
            final(self)@ == old(self)@.fed(fresh),
    {
        self.snake.grow();
        self.apple = fresh;
    }

    /// Plays one tick, in which the player pressed the key `input`, or no
    /// key at all.
    ///
    /// A lost game only flips its blink flag. Otherwise the key steers the
    /// snake; if the snake is then about to crash into a wall or into
    /// itself, the game is lost and nothing moves. If not, the snake eats
    /// the apple if its head lies on it, whereupon it grows and a new apple
    /// is drawn at random, and then moves one step.
    pub fn update(&mut self, input: Option<char>)
        requires
            old(self).wf(),
        ensures
            final(self).wf(),
            final(self)@ == old(self)@.after(input, final(self).apple),
            old(self)@.eats(input) ==> apple_spot(
                final(self).apple,
                old(self).w as int,
                old(self).h as int,
            ),
            old(self)@.moves(input) ==> final(self).snake.head == old(self).snake.head.spec_add(
                final(self).snake.dir,
            ),
            old(self).state matches State::GameOver { point, blink } ==> {
                &&& final(self).snake@ == old(self).snake@
                &&& final(self).apple == old(self).apple
                &&& final(self).state == (State::GameOver { point, blink: !blink })
            },
    {
        match self.state {
            State::GameOver { point, blink } => {
                self.state = State::GameOver { point, blink: !blink };
                return ;
            },
            State::Playing => {},
        }

        match input {
            Some('h') => self.snake.go_left(),
            Some('j') => self.snake.go_down(),
            Some('k') => self.snake.go_up(),
            Some('l') => self.snake.go_right(),
            _ => {},
        }

        let hit = match self.snake_hits_walls() {
            Some(point) => Some(point),
            None => self.snake_hits_itself(),
        };
        match hit {
            Some(point) => {
                self.state = State::GameOver { point, blink: false };
                return ;
            },
            None => {},
        }

        if self.snake.head == self.apple {
            let fresh = Game::spawn_apple(self.w, self.h);
            self.eat(fresh);
        }
        self.snake.update();
    }
}

} // verus!
