//! What holds of every snake and of every game, proved from the definitions
//! that the contracts of the library are stated in.

use vstd::prelude::*;

use crate::game::{apple_spot, key_step, playable, GameView, State};
use crate::snake::SnakeView;
use crate::vector::Vec2;

verus! {

/// The opposite of a vector undoes it, and the opposite of the opposite is
/// the vector itself. The opposite of each of the four steps is the step
/// the other way.
pub proof fn law_opposite_undoes(v: Vec2)
    ensures
        v.spec_add(v.spec_opposite()) == (Vec2 { x: 0, y: 0 }),
        v.spec_opposite().spec_opposite() == v,
        v.is_step() ==> v.spec_opposite().is_step() && v.spec_opposite() != v,
        Vec2::left().spec_opposite() == Vec2::right(),
        Vec2::right().spec_opposite() == Vec2::left(),
        Vec2::up().spec_opposite() == Vec2::down(),
        Vec2::down().spec_opposite() == Vec2::up(),
{
}

/// A snake that is asked to head right against its heading keeps its
/// heading, and nothing else of it changes either.
pub proof fn law_reversal_is_rejected(snake: SnakeView)
    requires
        snake.wf(),
    ensures
        snake.turned(snake.dir.spec_opposite()) == snake,
        snake.dir == Vec2::right() ==> snake.turned(Vec2::left()).dir == Vec2::right(),
        snake.dir == Vec2::left() ==> snake.turned(Vec2::right()).dir == Vec2::left(),
        snake.dir == Vec2::up() ==> snake.turned(Vec2::down()).dir == Vec2::up(),
        snake.dir == Vec2::down() ==> snake.turned(Vec2::up()).dir == Vec2::down(),
{
}

/// A snake that is asked to head any way but right against its heading
/// heads that way afterwards, and stays well formed.
pub proof fn law_other_turns_are_obeyed(snake: SnakeView, requested: Vec2)
    requires
        snake.wf(),
        requested.is_step(),
        requested != snake.dir.spec_opposite(),
    ensures
        snake.turned(requested).dir == requested,
        snake.turned(requested).head == snake.head,
        snake.turned(requested).tail == snake.tail,
        snake.turned(requested).wf(),
{
}

/// In a game being played, the key that asks for the way right against the
/// snake's heading leaves the heading as it is.
pub proof fn law_reversing_key_is_ignored(game: GameView, key: char)
    requires
        game.wf(),
        key_step(key) == Some(game.snake.dir.spec_opposite()),
    ensures
        game.steered(Some(key)) == game,
{
}

/// One step moves the head by exactly the snake's heading, and leaves the
/// heading and the length of the tail as they are. Where the head stays
/// within 16-bit coordinates, the sum is the sum of the integers.
pub proof fn law_head_moves_by_dir(snake: SnakeView)
    ensures
        snake.advanced().head == snake.head.spec_add(snake.dir),
        snake.advanced().dir == snake.dir,
        snake.advanced().tail.len() == snake.tail.len(),
        i16::MIN <= snake.head.x + snake.dir.x <= i16::MAX ==> snake.advanced().head.x
            == snake.head.x + snake.dir.x,
        i16::MIN <= snake.head.y + snake.dir.y <= i16::MAX ==> snake.advanced().head.y
            == snake.head.y + snake.dir.y,
{
}

/// One step puts every segment of the tail where the one it follows was
/// before the step: the first segment where the head was, every other where
/// the segment before it was. This holds of a tail of any length.
pub proof fn law_tail_follows(snake: SnakeView, i: int)
    requires
        0 <= i < snake.tail.len(),
    ensures
        i == 0 ==> snake.advanced().tail[i] == snake.head,
        i > 0 ==> snake.advanced().tail[i] == snake.tail[i - 1],
{
}

/// Growing lengthens the tail by exactly one segment and moves nothing:
/// the head, the heading and every segment that was there stay, and each of
/// them is after the next step where it would have been without the growth.
/// The new segment is after that step where the end of the snake was.
pub proof fn law_grow_displaces_nothing(snake: SnakeView)
    ensures
        snake.grown().tail.len() == snake.tail.len() + 1,
        snake.grown().head == snake.head,
        snake.grown().dir == snake.dir,
        snake.grown().tail.take(snake.tail.len() as int) == snake.tail,
        snake.grown().advanced().head == snake.advanced().head,
        snake.grown().advanced().tail.take(snake.tail.len() as int) == snake.advanced().tail,
        snake.grown().advanced().tail[snake.tail.len() as int] == snake.end(),
{
    let n = snake.tail.len() as int;
    assert(snake.grown().tail.take(n) =~= snake.tail);
    assert(snake.grown().advanced().tail.take(n) =~= snake.advanced().tail);
}

/// In every tick in which the snake moves, its head moves by exactly the
/// heading that the key of the tick has left it with, and every segment
/// that was there takes the place of the one it followed, whether or not
/// the snake eats in that tick.
pub proof fn law_tick_moves_snake(game: GameView, input: Option<char>, fresh: Vec2)
    requires
        game.wf(),
        game.moves(input),
    ensures
        game.after(input, fresh).state is Playing,
        game.after(input, fresh).snake.dir == game.steered(input).snake.dir,
        game.after(input, fresh).snake.head == game.snake.head.spec_add(
            game.steered(input).snake.dir,
        ),
        forall|i: int|
            0 <= i < game.snake.tail.len() ==> #[trigger] game.after(input, fresh).snake.tail[i]
                == game.snake.leader(i),
{
    let steered = game.steered(input);
    assert(steered.snake.head == game.snake.head);
    assert(steered.snake.tail == game.snake.tail);
}

/// In a tick in which the snake eats, its tail is one segment longer
/// afterwards and the apple is the fresh one. In a tick in which it moves
/// without eating, the tail keeps its length and the apple stays.
pub proof fn law_tick_feeds_snake(game: GameView, input: Option<char>, fresh: Vec2)
    requires
        game.wf(),
        game.moves(input),
    ensures
        game.eats(input) ==> game.after(input, fresh).snake.tail.len() == game.snake.tail.len()
            + 1,
        game.eats(input) ==> game.after(input, fresh).apple == fresh,
        !game.eats(input) ==> game.after(input, fresh).snake.tail.len()
            == game.snake.tail.len(),
        !game.eats(input) ==> game.after(input, fresh).apple == game.apple,
{
    let steered = game.steered(input);
    assert(steered.snake.head == game.snake.head);
    assert(steered.snake.tail == game.snake.tail);
}

/// In the tick in which the snake is about to crash, the game is lost with
/// the cell of the crash and the blink flag down, and the snake and the
/// apple stay where they are.
pub proof fn law_crash_ends_game(game: GameView, input: Option<char>, fresh: Vec2)
    requires
        game.wf(),
        game.state is Playing,
        game.steered(input).collision() is Some,
    ensures
        game.after(input, fresh).state == (State::GameOver {
            point: game.snake.head.spec_add(game.steered(input).snake.dir),
            blink: false,
        }),
        game.after(input, fresh).snake.head == game.snake.head,
        game.after(input, fresh).snake.tail == game.snake.tail,
        game.after(input, fresh).apple == game.apple,
{
    let steered = game.steered(input);
    assert(steered.snake.head == game.snake.head);
    assert(steered.snake.tail == game.snake.tail);
}

/// A tick of a lost game changes neither the snake nor the apple nor the
/// board. The game stays lost at the same cell, and only the blink flag
/// flips.
pub proof fn law_game_over_is_final(game: GameView, input: Option<char>, fresh: Vec2)
    requires
        game.state is GameOver,
    ensures
        game.after(input, fresh).snake == game.snake,
        game.after(input, fresh).apple == game.apple,
        game.after(input, fresh).w == game.w,
        game.after(input, fresh).h == game.h,
        game.after(input, fresh).state == (State::GameOver {
            point: game.state->point,
            blink: !game.state->blink,
        }),
{
}

/// The game after a run of ticks, the first of which gets the key and the
/// fresh apple `ticks[0]`.
pub open spec fn after_all(game: GameView, ticks: Seq<(Option<char>, Vec2)>) -> GameView
    decreases ticks.len(),
{
    if ticks.len() == 0 {
        game
    } else {
        after_all(game, ticks.drop_last()).after(ticks.last().0, ticks.last().1)
    }
}

/// However many ticks follow, a lost game keeps its snake, its apple and
/// the cell of the crash. Its blink flag is where it was after an even
/// number of ticks, and flipped after an odd number.
pub proof fn law_game_over_lasts(game: GameView, ticks: Seq<(Option<char>, Vec2)>)
    requires
        game.state is GameOver,
    ensures
        after_all(game, ticks).snake == game.snake,
        after_all(game, ticks).apple == game.apple,
        after_all(game, ticks).state == (State::GameOver {
            point: game.state->point,
            blink: if ticks.len() % 2 == 0 {
                game.state->blink
            } else {
                !game.state->blink
            },
        }),
    decreases ticks.len(),
{
    if ticks.len() > 0 {
        law_game_over_lasts(game, ticks.drop_last());
        law_game_over_is_final(after_all(game, ticks.drop_last()), ticks.last().0, ticks.last().1);
    }
}

/// A tick keeps a well-formed game well formed, and never changes the
/// board.
pub proof fn law_tick_keeps_wf(game: GameView, input: Option<char>, fresh: Vec2)
    requires
        game.wf(),
    ensures
        game.after(input, fresh).wf(),
        game.after(input, fresh).w == game.w,
        game.after(input, fresh).h == game.h,
{
    match input {
        Some(key) => match key_step(key) {
            Some(step) => {
                assert(step.is_step());
            },
            None => {},
        },
        None => {},
    }
}

/// A cell where a new apple may appear lies inside the walls, at least one
/// cell away from the left wall, on a column where a head can be.
pub proof fn law_apple_lies_inside(cell: Vec2, w: int, h: int)
    requires
        playable(w, h),
        apple_spot(cell, w, h),
    ensures
        4 <= cell.x < w - 2,
        1 <= cell.y < h - 1,
        cell.x % 2 == 0,
{
}

impl GameView {
    /// Whether the head lies on a cell inside the walls.
    pub open spec fn head_inside(self) -> bool {
        &&& 0 < self.snake.head.x < self.w - 2
        &&& self.snake.head.x % 2 == 0
        &&& 0 < self.snake.head.y < self.h - 1
    }
}

/// On every playable board the snake starts with its head inside the walls.
pub proof fn law_start_is_inside(w: int, h: int, apple: Vec2)
    requires
        playable(w, h),
    ensures
        GameView::initial(w, h, apple).wf(),
        GameView::initial(w, h, apple).head_inside(),
{
}

/// On a board of even width, a head that lies inside the walls stays inside
/// them for as long as the game is played, and every step it takes is the
/// sum of the integers: no coordinate wraps around.
pub proof fn law_head_stays_inside(game: GameView, input: Option<char>, fresh: Vec2)
    requires
        game.wf(),
        game.w % 2 == 0,
        game.head_inside(),
        game.moves(input),
    ensures
        game.after(input, fresh).head_inside(),
        game.after(input, fresh).snake.head.x == game.snake.head.x + game.steered(
            input,
        ).snake.dir.x,
        game.after(input, fresh).snake.head.y == game.snake.head.y + game.steered(
            input,
        ).snake.dir.y,
{
    law_tick_keeps_wf(game, input, fresh);
    let steered = game.steered(input);
    assert(steered.snake.head == game.snake.head);
    assert(steered.snake.dir.is_step()) by {
        match input {
            Some(key) => match key_step(key) {
                Some(step) => {
                    assert(step.is_step());
                },
                None => {},
            },
            None => {},
        }
    }
    assert(steered.wall_hit() is None);
}

} // verus!
