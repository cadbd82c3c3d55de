//! The text that draws a game on an ANSI terminal.
//!
//! Nothing here writes to a terminal. Each function appends to a string the
//! text that, once written, draws its subject, and the caller writes the
//! string out.

use vstd::prelude::*;

use crate::ansi::{
    bg_black, bg_black_code, bg_reset, bg_reset_code, bg_white, bg_white_code, cell_code,
    clear_all, clear_code, fg_black, fg_black_code, fg_reset, fg_reset_code, fg_white,
    fg_white_code, goto, goto_code, put_cell,
};
use crate::game::{Game, GameView, State};
use crate::snake::{Snake, SnakeView};
use crate::vector::Vec2;

verus! {

impl Vec2 {
    /// The text that paints this cell in the colour that is set. The screen
    /// counts columns and rows from 1, so the cell lies one further right
    /// and down than its coordinates say. A cell with a negative coordinate
    /// is off the screen and takes no text.
    pub open spec fn drawn(self) -> Seq<char> {
        if self.x >= 0 && self.y >= 0 {
            cell_code((self.x + 1) as nat, (self.y + 1) as nat)
        } else {
            Seq::empty()
        }
    }

    /// Appends to `sink` the text that paints this cell.
    pub fn render(&self, sink: &mut String)
        ensures
            final(sink)@ == old(sink)@ + self.drawn(),
    {
        if self.x >= 0 && self.y >= 0 {
            put_cell(sink, self.x as u16 + 1, self.y as u16 + 1);
        } else {
            proof {
                lemma_append_nothing(sink@);
            }
        }
    }
}

/// The text that paints each of `cells`, in their order.
pub open spec fn drawn_cells(cells: Seq<Vec2>) -> Seq<char>
    decreases cells.len(),
{
    if cells.len() == 0 {
        Seq::empty()
    } else {
        drawn_cells(cells.drop_last()) + cells.last().drawn()
    }
}

impl SnakeView {
    /// The text that paints the snake: its head, then its tail from the
    /// segment next to the head to the last.
    pub open spec fn drawn(self) -> Seq<char> {
        self.head.drawn() + drawn_cells(self.tail)
    }
}

impl Snake {
    /// Appends to `sink` the text that paints the snake.
    pub fn render(&self, sink: &mut String)
        ensures
            final(sink)@ == old(sink)@ + self@.drawn(),
    {
        self.head.render(sink);
        let ghost start = sink@;
        let mut i: usize = 0;
        proof {
            lemma_append_nothing(sink@);
            assert(self.tail@.take(0).len() == 0);
        }
        while i < self.tail.len()
            invariant
                i <= self.tail@.len(),
                start == old(sink)@ + self.head.drawn(),
                sink@ == start + drawn_cells(self.tail@.take(i as int)),
            decreases self.tail@.len() - i,
        {
            self.tail[i].render(sink);
            proof {
                let seen = self.tail@.take(i as int);
                let done = self.tail@.take(i as int + 1);
                assert(done.drop_last() =~= seen);
                assert(done.last() == self.tail@[i as int]);
                lemma_append_twice(start, drawn_cells(seen), self.tail@[i as int].drawn());
            }
            i = i + 1;
        }
        proof {
            assert(self.tail@.take(i as int) =~= self.tail@);
            lemma_append_twice(old(sink)@, self.head.drawn(), drawn_cells(self.tail@));
        }
    }
}

impl GameView {
    /// The text that paints the first `n` cells of the top wall and of the
    /// bottom wall, from the left, a cell of the top wall before the cell of
    /// the bottom wall below it. The cells of a wall lie two columns apart.
    pub open spec fn drawn_rows(self, n: nat) -> Seq<char>
        decreases n,
    {
        if n == 0 {
            Seq::empty()
        } else {
            let col = (2 * (n - 1) + 1) as nat;
            self.drawn_rows((n - 1) as nat) + cell_code(col, 1) + cell_code(col, self.h as nat)
        }
    }

    /// The text that paints the cells of the left wall and of the right
    /// wall in the first `n` rows. The rows are counted from 0 here, as the
    /// board does, so the first of them lies above the screen's first row.
    pub open spec fn drawn_sides(self, n: nat) -> Seq<char>
        decreases n,
    {
        if n == 0 {
            Seq::empty()
        } else {
            let row = (n - 1) as nat;
            self.drawn_sides((n - 1) as nat) + cell_code(1, row) + cell_code(
                (self.w - 1) as nat,
                row,
            )
        }
    }

    /// The text that paints the walls, in white: the top and bottom walls
    /// over the whole width of the board, then the left and right walls
    /// over its whole height.
    pub open spec fn drawn_walls(self) -> Seq<char> {
        bg_white_code() + self.drawn_rows(((self.w + 1) / 2) as nat) + self.drawn_sides(
            self.h as nat,
        )
    }

    /// The text that marks the cell of the crash in a lost game: black
    /// while the blink flag is down, white while it is up. A game being
    /// played has no such mark.
    pub open spec fn drawn_crash(self) -> Seq<char> {
        match self.state {
            State::Playing => Seq::empty(),
            State::GameOver { point, blink } => if blink {
                fg_black_code() + bg_white_code() + point.drawn()
            } else {
                fg_white_code() + bg_black_code() + point.drawn()
            },
        }
    }

    /// The text of the line of help in the bottom wall, after which the
    /// colours are the terminal's own again.
    pub open spec fn drawn_help(self) -> Seq<char> {
        goto_code(4, self.h as nat) + fg_black_code() + bg_white_code()
            + "q to quit, hjkl to move"@ + fg_reset_code() + bg_reset_code()
    }

    /// The text of a whole frame: the screen is cleared, then come the
    /// walls, the snake, the apple, the mark of a crash and the line of
    /// help.
    pub open spec fn frame(self) -> Seq<char> {
        clear_code() + self.drawn_walls() + self.snake.drawn() + self.apple.drawn()
            + self.drawn_crash() + self.drawn_help()
    }
}

/// Appending a text in two parts is appending the two parts joined.
proof fn lemma_append_twice(a: Seq<char>, b: Seq<char>, c: Seq<char>)
    ensures
        (a + b) + c == a + (b + c),
{
    assert((a + b) + c =~= a + (b + c));
}

/// Appending nothing changes nothing.
proof fn lemma_append_nothing(a: Seq<char>)
    ensures
        a + Seq::<char>::empty() == a,
{
    assert(a + Seq::<char>::empty() =~= a);
}

impl Game {
    /// Appends to `sink` the text of the top and bottom walls.
    fn render_rows(&self, sink: &mut String)
        requires
            self.wf(),
        ensures
            final(sink)@ == old(sink)@ + self@.drawn_rows(((self.w + 1) / 2) as nat),
    {
        let mut x: u16 = 0;
        let ghost mut n: nat = 0;
        proof {
            lemma_append_nothing(sink@);
        }
        while x < self.w
            invariant
                self.wf(),
                x == 2 * n,
                x <= self.w + 1,
                sink@ == old(sink)@ + self@.drawn_rows(n),
            decreases self.w + 1 - x,
        {
            let ghost top = cell_code((x + 1) as nat, 1);
            let ghost bottom = cell_code((x + 1) as nat, self.h as nat);
            put_cell(sink, x + 1, 1);
            put_cell(sink, x + 1, self.h);
            proof {
                let done = self@.drawn_rows(n);
                lemma_append_twice(old(sink)@, done, top);
                lemma_append_twice(old(sink)@, done + top, bottom);
                n = n + 1;
                assert(self@.drawn_rows(n) == done + top + bottom);
            }
            x = x + 2;
        }
    }

    /// Appends to `sink` the text of the left and right walls.
    fn render_sides(&self, sink: &mut String)
        requires
            self.wf(),
        ensures
            final(sink)@ == old(sink)@ + self@.drawn_sides(self.h as nat),
    {
        let mut y: u16 = 0;
        proof {
            lemma_append_nothing(sink@);
        }
        while y < self.h
            invariant
                self.wf(),
                y <= self.h,
                sink@ == old(sink)@ + self@.drawn_sides(y as nat),
            decreases self.h - y,
        {
            let ghost left = cell_code(1, y as nat);
            let ghost right = cell_code((self.w - 1) as nat, y as nat);
            put_cell(sink, 1, y);
            put_cell(sink, self.w - 1, y);
            proof {
                let done = self@.drawn_sides(y as nat);
                lemma_append_twice(old(sink)@, done, left);
                lemma_append_twice(old(sink)@, done + left, right);
                assert(self@.drawn_sides((y + 1) as nat) == done + left + right);
            }
            y = y + 1;
        }
    }

    /// Appends to `sink` the text that paints the walls.
    fn render_walls(&self, sink: &mut String)
        requires
            self.wf(),
        ensures
            final(sink)@ == old(sink)@ + self@.drawn_walls(),
    {
        sink.push_str(bg_white().as_str());
        self.render_rows(sink);
        self.render_sides(sink);
        proof {
            let rows = self@.drawn_rows(((self.w + 1) / 2) as nat);
            let sides = self@.drawn_sides(self.h as nat);
            lemma_append_twice(old(sink)@, bg_white_code(), rows);
            lemma_append_twice(old(sink)@, bg_white_code() + rows, sides);
        }
    }

    /// Appends to `sink` the text that marks the cell of the crash.
    fn render_crash(&self, sink: &mut String)
        ensures
            final(sink)@ == old(sink)@ + self@.drawn_crash(),
    {
        match self.state {
            State::GameOver { point, blink: false } => {
                sink.push_str(fg_white().as_str());
                sink.push_str(bg_black().as_str());
                point.render(sink);
                proof {
                    lemma_append_twice(old(sink)@, fg_white_code(), bg_black_code());
                    lemma_append_twice(
                        old(sink)@,
                        fg_white_code() + bg_black_code(),
                        point.drawn(),
                    );
                }
            },
            State::GameOver { point, blink: true } => {
                sink.push_str(fg_black().as_str());
                sink.push_str(bg_white().as_str());
                point.render(sink);
                proof {
                    lemma_append_twice(old(sink)@, fg_black_code(), bg_white_code());
                    lemma_append_twice(
                        old(sink)@,
                        fg_black_code() + bg_white_code(),
                        point.drawn(),
                    );
                }
            },
            State::Playing => {
                proof {
                    lemma_append_nothing(sink@);
                }
            },
        }
    }

    /// Appends to `sink` the text of the line of help.
    fn render_help(&self, sink: &mut String)
        requires
            self.wf(),
        ensures
            final(sink)@ == old(sink)@ + self@.drawn_help(),
    {
        let ghost before = sink@;
        let ghost place = goto_code(4, self.h as nat);
        let ghost text = "q to quit, hjkl to move"@;
        sink.push_str(goto(4, self.h).as_str());
        sink.push_str(fg_black().as_str());
        sink.push_str(bg_white().as_str());
        sink.push_str("q to quit, hjkl to move");
        sink.push_str(fg_reset().as_str());
        sink.push_str(bg_reset().as_str());
        proof {
            lemma_append_twice(before, place, fg_black_code());
            lemma_append_twice(before, place + fg_black_code(), bg_white_code());
            lemma_append_twice(before, place + fg_black_code() + bg_white_code(), text);
            lemma_append_twice(
                before,
                place + fg_black_code() + bg_white_code() + text,
                fg_reset_code(),
            );
            lemma_append_twice(
                before,
                place + fg_black_code() + bg_white_code() + text + fg_reset_code(),
                bg_reset_code(),
            );
        }
    }

    /// Appends to `sink` the text of a whole frame of the game: written to
    /// a terminal, it clears the screen and draws the walls, the snake, the
    /// apple, the mark of a crash if the game is lost, and the line of help.
    pub fn render(&self, sink: &mut String)
        requires
            self.wf(),
        ensures
            final(sink)@ == old(sink)@ + self@.frame(),
    {
        let ghost before = sink@;
        let ghost view = self@;
        sink.push_str(clear_all().as_str());
        self.render_walls(sink);
        self.snake.render(sink);
        self.apple.render(sink);
        self.render_crash(sink);
        self.render_help(sink);
        proof {
            let walls = view.drawn_walls();
            let snake = view.snake.drawn();
            let apple = view.apple.drawn();
            let crash = view.drawn_crash();
            let help = view.drawn_help();
            lemma_append_twice(before, clear_code(), walls);
            lemma_append_twice(before, clear_code() + walls, snake);
            lemma_append_twice(before, clear_code() + walls + snake, apple);
            lemma_append_twice(before, clear_code() + walls + snake + apple, crash);
            lemma_append_twice(before, clear_code() + walls + snake + apple + crash, help);
        }
    }
}

} // verus!
