//! One turn of the loop that runs a game, and the board that a terminal
//! has room for.

use vstd::prelude::*;

use crate::game::{apple_spot, Game};

verus! {

/// The width of the widest board that is played on, in columns.
pub const MAX_WIDTH: u16 = 200;

/// The height of the highest board that is played on, in rows.
pub const MAX_HEIGHT: u16 = 100;

/// Whether `input` is the key that ends the game: `q`.
pub open spec fn is_quit(input: Option<char>) -> bool {
    input == Some('q')
}

/// The size of the board for a terminal of `columns` columns and `rows`
/// rows: the size of the terminal, cut down to `MAX_WIDTH` columns and
/// `MAX_HEIGHT` rows where it is larger.
pub fn board_size(columns: u16, rows: u16) -> (size: (u16, u16))
    ensures
        size.0 == if columns < MAX_WIDTH {
            columns
        } else {
            MAX_WIDTH
        },
        size.1 == if rows < MAX_HEIGHT {
            rows
        } else {
            MAX_HEIGHT
        },
{
    let w = if columns < MAX_WIDTH {
        columns
    } else {
        MAX_WIDTH
    };
    let h = if rows < MAX_HEIGHT {
        rows
    } else {
        MAX_HEIGHT
    };
    (w, h)
}

impl Game {
    /// Takes one turn of the loop that runs the game, in which the player
    /// pressed the key `input`, or no key at all, and says whether the loop
    /// goes on.
    ///
    /// The key `q` ends the loop, and nothing else happens in that turn.
    /// On any other input the game plays one tick, and the text of the
    /// frame that shows it afterwards is appended to `sink`.
    pub fn tick(&mut self, input: Option<char>, sink: &mut String) -> (go_on: bool)
        requires
            old(self).wf(),
        ensures
            final(self).wf(),
            go_on == !is_quit(input),
            is_quit(input) ==> final(self)@ == old(self)@ && final(sink)@ == old(sink)@,
            !is_quit(input) ==> final(self)@ == old(self)@.after(input, final(self).apple),
            !is_quit(input) && old(self)@.eats(input) ==> apple_spot(
                final(self).apple,
                old(self).w as int,
                old(self).h as int,
            ),
            !is_quit(input) ==> final(sink)@ == old(sink)@ + final(self)@.frame(),
    {
        match input {
            Some('q') => {
                return false;
            },
            _ => {},
        }
        self.update(input);
        self.render(sink);
        true
    }
}

} // verus!
