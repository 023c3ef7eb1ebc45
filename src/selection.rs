use vstd::prelude::*;

verus! {

/// The indices from `min(a, b)` to `max(a, b)`, both included, ascending.
pub open spec fn span(a: int, b: int) -> Seq<usize> {
    let lo = if a <= b {
        a
    } else {
        b
    };
    let hi = if a <= b {
        b
    } else {
        a
    };
    Seq::new((hi - lo + 1) as nat, |k: int| (lo + k) as usize)
}

/// A contiguous range of entries, between a fixed anchor and the cursor.
pub struct Selection {
    /// The anchor: where the cursor stood when selecting began.
    pub start: usize,
    /// The selected indices, ascending.
    pub selected: Vec<usize>,
}

impl Selection {
    /// The selection consistent with a cursor at `position`.
    pub open spec fn spans(&self, position: int) -> bool {
        self.selected@ == span(self.start as int, position)
    }

    /// A selection anchored at `start`, holding it alone.
    pub fn new(start: usize) -> (r: Selection)
        ensures
            r.start == start,
            r.selected@ == seq![start],
            r.spans(start as int),
    {
        let r = Selection { start, selected: vec![start] };
        assert(r.selected@ =~= span(start as int, start as int));
        r
    }

    /// Replaces the selected indices.
    pub fn set(&mut self, selected: Vec<usize>)
        ensures
            final(self).start == old(self).start,
            final(self).selected == selected,
    {
        self.selected = selected;
    }

    /// Recomputes the selection as the closed interval between the anchor and
    /// `cursor_position`.
    pub fn update(&mut self, cursor_position: &usize)
        ensures
            final(self).start == old(self).start,
            final(self).spans(*cursor_position as int),
    {
        let (lo, hi) = if self.start < *cursor_position {
            (self.start, *cursor_position)
        } else {
            (*cursor_position, self.start)
        };
        let mut selected: Vec<usize> = Vec::new();
        let mut i: usize = lo;
        loop
            invariant_except_break
                selected@ == Seq::new((i - lo) as nat, |k: int| (lo + k) as usize),
            invariant
                lo <= i <= hi,
            ensures
                selected@ == Seq::new((hi - lo + 1) as nat, |k: int| (lo + k) as usize),
            decreases hi - i,
        {
            selected.push(i);
            assert(selected@ =~= Seq::new((i + 1 - lo) as nat, |k: int| (lo + k) as usize));
            if i == hi {
                break;
            }
            i = i + 1;
        }
        assert(selected@ =~= span(self.start as int, *cursor_position as int));
        self.set(selected);
    }

    /// Whether `index` is selected.
    pub fn contains(&self, index: usize) -> (r: bool)
        ensures
            r == self.selected@.contains(index),
    {
        let mut i: usize = 0;
        while i < self.selected.len()
            invariant
                i <= self.selected@.len(),
                forall|j: int| 0 <= j < i ==> self.selected@[j] != index,
            decreases self.selected.len() - i,
        {
            if self.selected[i] == index {
                return true;
            }
            i = i + 1;
        }
        false
    }
}

/// The selection is exactly the closed interval between anchor and cursor.
pub proof fn lemma_span_is_interval(a: int, b: int, i: usize)
    requires
        0 <= a <= usize::MAX,
        0 <= b <= usize::MAX,
    ensures
        span(a, b).contains(i) <==> (if a <= b {
            a
        } else {
            b
        }) <= i <= (if a <= b {
            b
        } else {
            a
        }),
        span(a, b).len() == (if a <= b {
            b - a
        } else {
            a - b
        }) + 1,
{
    let s = span(a, b);
    let lo = if a <= b {
        a
    } else {
        b
    };
    if lo <= i <= lo + s.len() - 1 {
        assert(s[i - lo] == i);
    }
}

/// Updating a second time with the same cursor position changes nothing.
pub proof fn lemma_update_idempotent(once: Selection, twice: Selection, position: int)
    requires
        once.spans(position),
        twice.start == once.start,
        twice.spans(position),
    ensures
        twice.selected@ == once.selected@,
{
}

} // verus!
