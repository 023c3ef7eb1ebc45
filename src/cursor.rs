use vstd::prelude::*;

use crate::directory::Directory;

verus! {

/// The largest valid index into a listing of `count` entries, or 0 when it is empty.
pub open spec fn max_index(count: int) -> int {
    if count <= 0 {
        0
    } else {
        count - 1
    }
}

/// `position + delta`, saturated into `0..=max`.
pub open spec fn moved_rel(position: int, max: int, delta: int) -> int {
    if position + delta < 0 {
        0
    } else if position + delta > max {
        max
    } else {
        position + delta
    }
}

/// `value` clamped into `0..=max`.
pub open spec fn clamped(value: int, max: int) -> int {
    if value > max {
        max
    } else {
        value
    }
}

/// Where a cursor at `position` ends after the moves of `deltas`, in order.
pub open spec fn moved_seq(position: int, max: int, deltas: Seq<int>) -> int
    decreases deltas.len(),
{
    if deltas.len() == 0 {
        position
    } else {
        moved_seq(moved_rel(position, max, deltas[0]), max, deltas.subrange(1, deltas.len() as int))
    }
}

/// A bounded index into a listing: `position` never passes `max`.
pub struct Cursor {
    pub position: usize,
    pub max: usize,
}

impl Cursor {
    /// The cursor invariant.
    pub open spec fn wf(&self) -> bool {
        self.position <= self.max
    }

    /// A cursor with bound `max`, placed at `position` clamped to that bound.
    pub fn new(position: usize, max: usize) -> (r: Cursor)
        ensures
            r.wf(),
            r.max == max,
            r.position == clamped(position as int, max as int),
    {
        Cursor { position: if position > max { max } else { position }, max }
    }

    /// Moves by `value` rows, saturating at both ends rather than wrapping.
    pub fn mut_move_rel(&mut self, value: isize)
        requires
            old(self).wf(),
        ensures
            final(self).wf(),
            final(self).max == old(self).max,
            final(self).position == moved_rel(
                old(self).position as int,
                old(self).max as int,
                value as int,
            ),
    {
        if value < 0 {
            let back: usize = if value == isize::MIN {
                (isize::MAX as usize) + 1
            } else {
                (-value) as usize
            };
            if back >= self.position {
                self.position = 0;
            } else {
                self.position = self.position - back;
            }
        } else {
            let ahead: usize = value as usize;
            if ahead >= self.max - self.position {
                self.position = self.max;
            } else {
                self.position = self.position + ahead;
            }
        }
    }

    /// Places the cursor at `value`, clamped to `max`.
    pub fn mut_move_abs(&mut self, value: usize)
        requires
            old(self).wf(),
        ensures
            final(self).wf(),
            final(self).max == old(self).max,
            final(self).position == clamped(value as int, old(self).max as int),
    {
        if value > self.max {
            self.position = self.max;
        } else {
            self.position = value;
        }
    }

    /// Resynchronises with a listing that was just rebuilt: the bound follows its
    /// count, and a position that is no longer valid goes back to 0.
    pub fn update(&mut self, directory: &Directory)
        ensures
            final(self).wf(),
            final(self).max == max_index(directory.count as int),
            final(self).position == (if old(self).position as int <= max_index(
                directory.count as int,
            ) {
                old(self).position as int
            } else {
                0
            }),
    {
        let max: usize = if directory.count == 0 {
            0
        } else {
            directory.count - 1
        };
        self.max = max;
        if self.position > max {
            self.position = 0;
        }
    }
}

/// Any sequence of relative moves keeps the cursor within `0..=max`.
pub proof fn lemma_moves_stay_in_bounds(position: int, max: int, deltas: Seq<int>)
    requires
        0 <= position <= max,
    ensures
        0 <= moved_seq(position, max, deltas) <= max,
    decreases deltas.len(),
{
    if deltas.len() > 0 {
        lemma_moves_stay_in_bounds(
            moved_rel(position, max, deltas[0]),
            max,
            deltas.subrange(1, deltas.len() as int),
        );
    }
}

/// A move by at least the distance to an end stops exactly at that end.
pub proof fn lemma_moves_saturate(position: int, max: int, delta: int)
    requires
        0 <= position <= max,
    ensures
        delta >= max - position ==> moved_rel(position, max, delta) == max,
        delta <= -position ==> moved_rel(position, max, delta) == 0,
{
}

} // verus!
