//! The position of a double-ended traversal: its mathematical model, the
//! executable state that every iterator of the library carries, and the laws
//! of the model.
//!
//! A traversal over the slots `0..count` keeps the next slot to yield from
//! the front and the number of slots not yet yielded. Both ends consume from
//! the same count, which is why no slot is yielded twice.

use vstd::prelude::*;

verus! {

/// Where a double-ended traversal stands.
pub struct Cursor {
    /// The slot that the next step from the front yields.
    pub front: nat,
    /// How many slots are still to be yielded, from either end.
    pub remaining: nat,
}

impl Cursor {
    /// The cursor of a fresh traversal over `count` slots.
    pub open spec fn start(count: nat) -> Cursor {
        Cursor { front: 0, remaining: count }
    }

    /// One past the slot that the next step from the back yields.
    pub open spec fn end(self) -> nat {
        self.front + self.remaining
    }

    /// The slot that the next step yields, from the back if `from_back`.
    pub open spec fn slot(self, from_back: bool) -> Option<nat> {
        if self.remaining == 0 {
            None
        } else if from_back {
            Some((self.end() - 1) as nat)
        } else {
            Some(self.front)
        }
    }

    /// The cursor after the next step.
    pub open spec fn after(self, from_back: bool) -> Cursor {
        if self.remaining == 0 {
            self
        } else if from_back {
            Cursor { front: self.front, remaining: (self.remaining - 1) as nat }
        } else {
            Cursor { front: self.front + 1, remaining: (self.remaining - 1) as nat }
        }
    }

    /// The slots yielded by a run of steps, in the order of the steps. Each
    /// entry of `moves` is one step, from the back where it is `true`. Steps
    /// that find nothing left yield nothing.
    pub open spec fn trace(self, moves: Seq<bool>) -> Seq<nat>
        decreases moves.len(),
    {
        if moves.len() == 0 {
            Seq::empty()
        } else {
            let rest = self.after(moves[0]).trace(moves.drop_first());
            match self.slot(moves[0]) {
                Some(s) => seq![s] + rest,
                None => rest,
            }
        }
    }
}

/// The executable state of a traversal over the slots `0..count`: a cursor
/// for each end and the count of slots still to be yielded. The count alone
/// decides when the traversal ends.
pub struct Span {
    count: usize,
    front_index: usize,
    back_index: usize,
    size: Option<usize>,
}

impl Span {
    #[verifier::type_invariant]
    spec fn well_formed(self) -> bool {
        match self.size {
            Some(n) => self.front_index + n <= self.count && (n > 0 ==> self.back_index + 1
                == self.front_index + n),
            None => self.front_index <= self.count,
        }
    }

    /// The number of slots that the traversal started with.
    pub closed spec fn count(&self) -> nat {
        self.count as nat
    }

    /// Where the traversal stands.
    pub closed spec fn cursor(&self) -> Cursor {
        Cursor {
            front: self.front_index as nat,
            remaining: match self.size {
                Some(n) => n as nat,
                None => 0,
            },
        }
    }

    /// Whether a step has already found nothing left.
    pub closed spec fn finished(&self) -> bool {
        self.size is None
    }

    /// The state of a fresh traversal over `count` slots.
    pub fn new(count: usize) -> (span: Span)
        ensures
            span.count() == count,
            span.cursor() == Cursor::start(count as nat),
            !span.finished(),
    {
        Span {
            count,
            front_index: 0,
            back_index: if count > 0 {
                count - 1
            } else {
                0
            },
            size: Some(count),
        }
    }

    /// Takes the next slot from the front, if any is left.
    pub fn take_front(&mut self) -> (slot: Option<usize>)
        ensures
            final(self).count() == old(self).count(),
            final(self).cursor() == old(self).cursor().after(false),
            final(self).finished() == (old(self).finished() || old(self).cursor().remaining == 0),
            match slot {
                Some(s) => old(self).cursor().slot(false) == Some(s as nat) && s < old(self).count(),
                None => old(self).cursor().slot(false) is None,
            },
        no_unwind
    {
        proof {
            use_type_invariant(&*self);
        }
        match self.size {
            Some(n) if n > 0 => {
                let at: usize = self.front_index;
                *self = Span {
                    count: self.count,
                    front_index: at + 1,
                    back_index: self.back_index,
                    size: Some(n - 1),
                };
                Some(at)
            },
            _ => {
                *self = Span {
                    count: self.count,
                    front_index: self.front_index,
                    back_index: self.back_index,
                    size: None,
                };
                None
            },
        }
    }

    /// Takes the next slot from the back, if any is left.
    pub fn take_back(&mut self) -> (slot: Option<usize>)
        ensures
            final(self).count() == old(self).count(),
            final(self).cursor() == old(self).cursor().after(true),
            final(self).finished() == (old(self).finished() || old(self).cursor().remaining == 0),
            match slot {
                Some(s) => old(self).cursor().slot(true) == Some(s as nat) && s < old(self).count(),
                None => old(self).cursor().slot(true) is None,
            },
        no_unwind
    {
        proof {
            use_type_invariant(&*self);
        }
        match self.size {
            Some(n) if n > 0 => {
                let at: usize = self.back_index;
                *self = Span {
                    count: self.count,
                    front_index: self.front_index,
                    back_index: if at > 0 {
                        at - 1
                    } else {
                        0
                    },
                    size: Some(n - 1),
                };
                Some(at)
            },
            _ => {
                *self = Span {
                    count: self.count,
                    front_index: self.front_index,
                    back_index: self.back_index,
                    size: None,
                };
                None
            },
        }
    }

    /// The number of slots still to be yielded.
    pub fn len(&self) -> (n: usize)
        ensures
            n == self.cursor().remaining,
            self.cursor().end() <= self.count(),
    {
        proof {
            use_type_invariant(self);
        }
        match self.size {
            Some(n) => n,
            None => 0,
        }
    }

    /// The bounds on the number of slots still to be yielded: both are the
    /// exact count, and the upper bound is withheld once a step has found
    /// nothing left.
    pub fn size_hint(&self) -> (r: (usize, Option<usize>))
        ensures
            r.0 == self.cursor().remaining,
            r.1 == (if self.finished() {
                None
            } else {
                Some(r.0)
            }),
    {
        match self.size {
            Some(n) => (n, Some(n)),
            None => (0, None),
        }
    }
}

/// A run of `count` steps that all come from the same end.
pub open spec fn uniform(count: nat, from_back: bool) -> Seq<bool> {
    Seq::new(count, |x: int| from_back)
}

/// Whatever the order of the steps, a run yields no more slots than were
/// left, only slots between the two cursors, and no slot twice.
pub proof fn lemma_trace_never_repeats(c: Cursor, moves: Seq<bool>)
    ensures
        c.trace(moves).len() <= c.remaining,
        c.trace(moves).len() <= moves.len(),
        forall|x: int|
            0 <= x < c.trace(moves).len() ==> c.front <= (#[trigger] c.trace(moves)[x]) < c.end(),
        forall|x: int, y: int|
            #![trigger c.trace(moves)[x], c.trace(moves)[y]]
            0 <= x < y < c.trace(moves).len() ==> c.trace(moves)[x] != c.trace(moves)[y],
    decreases moves.len(),
{
    if moves.len() > 0 {
        lemma_trace_never_repeats(c.after(moves[0]), moves.drop_first());
    }
}

/// Steps from the front alone yield the slots in rising order, starting at
/// the front cursor, until none is left.
pub proof fn lemma_trace_forward(c: Cursor, steps: nat)
    ensures
        c.trace(uniform(steps, false)) =~= Seq::new(
            if steps <= c.remaining {
                steps
            } else {
                c.remaining
            },
            |x: int| (c.front + x) as nat,
        ),
    decreases steps,
{
    if steps > 0 {
        assert(uniform(steps, false).drop_first() =~= uniform((steps - 1) as nat, false));
        lemma_trace_forward(c.after(false), (steps - 1) as nat);
    }
}

/// Steps from the back alone yield the slots in falling order, starting below
/// the back cursor, until none is left.
pub proof fn lemma_trace_backward(c: Cursor, steps: nat)
    ensures
        c.trace(uniform(steps, true)) =~= Seq::new(
            if steps <= c.remaining {
                steps
            } else {
                c.remaining
            },
            |x: int| (c.end() - 1 - x) as nat,
        ),
    decreases steps,
{
    if steps > 0 {
        assert(uniform(steps, true).drop_first() =~= uniform((steps - 1) as nat, true));
        lemma_trace_backward(c.after(true), (steps - 1) as nat);
    }
}

} // verus!
