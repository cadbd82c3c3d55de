//! The snake: a head, the way it is heading, and the body that follows.

use vstd::prelude::*;

use crate::vector::Vec2;

verus! {

/// A snake. `tail[0]` is the segment next to the head, and each further
/// segment follows the one before it.
#[derive(Debug)]
pub struct Snake {
    /// The step that the head takes next.
    pub dir: Vec2,
    /// The cell of the head.
    pub head: Vec2,
    /// The cells of the body, from the head backwards.
    pub tail: Vec<Vec2>,
}

/// What a snake is, as a value of mathematics.
pub struct SnakeView {
    pub dir: Vec2,
    pub head: Vec2,
    pub tail: Seq<Vec2>,
}

impl View for Snake {
    type V = SnakeView;

    open spec fn view(&self) -> SnakeView {
        SnakeView { dir: self.dir, head: self.head, tail: self.tail@ }
    }
}

impl SnakeView {
    /// A snake always heads one of the four ways.
    pub open spec fn wf(self) -> bool {
        self.dir.is_step()
    }

    /// The snake at the start of a game: a bare head in the top left cell
    /// of the board, heading right.
    pub open spec fn initial() -> SnakeView {
        SnakeView { dir: Vec2::right(), head: Vec2 { x: 2, y: 1 }, tail: Seq::empty() }
    }

    /// The snake after it was asked to head the way of `requested`. It
    /// obeys, unless that would turn it right round onto its own neck.
    pub open spec fn turned(self, requested: Vec2) -> SnakeView {
        if requested == self.dir.spec_opposite() {
            self
        } else {
            SnakeView { dir: requested, ..self }
        }
    }

    /// The cell that the segment at `i` follows: the head for the first
    /// segment, the segment before it for every other.
    pub open spec fn leader(self, i: int) -> Vec2 {
        if i == 0 {
            self.head
        } else {
            self.tail[i - 1]
        }
    }

    /// The snake one step on: the head has moved by `dir`, and every
    /// segment has taken the place of the one it follows.
    pub open spec fn advanced(self) -> SnakeView {
        SnakeView {
            dir: self.dir,
            head: self.head.spec_add(self.dir),
            tail: Seq::new(self.tail.len(), |i: int| self.leader(i)),
        }
    }

    /// The last cell of the snake: its last segment, or its head if it has
    /// no tail.
    pub open spec fn end(self) -> Vec2 {
        self.leader(self.tail.len() as int)
    }

    /// The snake one segment longer. The new segment lies one step behind
    /// the old end, against the way the snake is heading.
    pub open spec fn grown(self) -> SnakeView {
        SnakeView { tail: self.tail.push(self.end().spec_add(self.dir.spec_opposite())), ..self }
    }
}

impl Snake {
    /// Whether this snake heads one of the four ways.
    pub open spec fn wf(&self) -> bool {
        self@.wf()
    }

    /// The snake at the start of a game.
    pub fn new() -> (snake: Snake)
        ensures
            snake.wf(),
            snake@ == SnakeView::initial(),
    {
        Snake { head: Vec2 { x: 2, y: 1 }, dir: Vec2::right(), tail: Vec::new() }
    }

    /// Asks the snake to head the way of `requested`. A request to turn
    /// right round is not obeyed.
    pub fn turn(&mut self, requested: Vec2)
        requires
            old(self).wf(),
            requested.is_step(),
        ensures
            final(self).wf(),
            final(self)@ == old(self)@.turned(requested),
            requested == old(self).dir.spec_opposite() ==> final(self).dir == old(self).dir,
            requested != old(self).dir.spec_opposite() ==> final(self).dir == requested,
    {
        if requested != self.dir.opposite() {
            self.dir = requested;
        }
    }

    /// Asks the snake to head left. It does, unless it is heading right.
    pub fn go_left(&mut self)
        requires
            old(self).wf(),
        ensures
            final(self).wf(),
            final(self)@ == old(self)@.turned(Vec2::left()),
            final(self).dir == if old(self).dir == Vec2::right() {
                Vec2::right()
            } else {
                Vec2::left()
            },
    {
        self.turn(Vec2::left());
    }

    /// Asks the snake to head up. It does, unless it is heading down.
    pub fn go_up(&mut self)
        requires
            old(self).wf(),
        ensures
            final(self).wf(),
            final(self)@ == old(self)@.turned(Vec2::up()),
            final(self).dir == if old(self).dir == Vec2::down() {
                Vec2::down()
            } else {
                Vec2::up()
            },
    {
        self.turn(Vec2::up());
    }

    /// Asks the snake to head down. It does, unless it is heading up.
    pub fn go_down(&mut self)
        requires
            old(self).wf(),
        ensures
            final(self).wf(),
            final(self)@ == old(self)@.turned(Vec2::down()),
            final(self).dir == if old(self).dir == Vec2::up() {
                Vec2::up()
            } else {
                Vec2::down()
            },
    {
        self.turn(Vec2::down());
    }

    /// Asks the snake to head right. It does, unless it is heading left.
    pub fn go_right(&mut self)
        requires
            old(self).wf(),
        ensures
            final(self).wf(),
            final(self)@ == old(self)@.turned(Vec2::right()),
            final(self).dir == if old(self).dir == Vec2::left() {
                Vec2::left()
            } else {
                Vec2::right()
            },
    {
        self.turn(Vec2::right());
    }

    /// Moves the snake one step: every segment takes the place of the one
    /// it follows, from the end of the tail up to the head, and then the
    /// head moves by `dir`.
    pub fn update(&mut self)
        ensures
            final(self).wf() == old(self).wf(),
            final(self)@ == old(self)@.advanced(),
            final(self).head == old(self).head.spec_add(old(self).dir),
            final(self).tail@.len() == old(self).tail@.len(),
            forall|i: int|
                0 <= i < old(self).tail@.len() ==> #[trigger] final(self).tail@[i]
                    == old(self)@.leader(i),
    {
        let ghost before = self@;
        let mut i: usize = self.tail.len();
        while i > 0
            invariant
                i <= self.tail@.len(),
                self.tail@.len() == before.tail.len(),
                self.head == before.head,
                self.dir == before.dir,
                forall|j: int| 0 <= j < i ==> self.tail@[j] == before.tail[j],
                forall|j: int| i <= j < self.tail@.len() ==> self.tail@[j] == before.leader(j),
            decreases i,
        {
            i = i - 1;
            let prev = if i > 0 {
                self.tail[i - 1]
            } else {
                self.head
            };
            self.tail.set(i, prev);
        }
        self.head.add_assign(self.dir);
        assert(self.tail@ =~= before.advanced().tail);
    }

    /// Lengthens the snake by one segment, one step behind its end.
    pub fn grow(&mut self)
        requires
            old(self).wf(),
        ensures
            final(self).wf(),
            final(self)@ == old(self)@.grown(),
            final(self).tail@.len() == old(self).tail@.len() + 1,
    {
        let mut last_part = self.head;
        if self.tail.len() > 0 {
            last_part = self.tail[self.tail.len() - 1];
        }
        self.tail.push(last_part.add(self.dir.opposite()));
    }
}

} // verus!
