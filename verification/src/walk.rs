//! The walk of `each_reverse`: from the last item of a sequence to the first,
//! each item under the position it has in the sequence. The walk hands out
//! one item, takes back how the block rendered for it, and goes on to the
//! item before or ends with the block's failure.

use vstd::prelude::*;

verus! {

/// What a walk over `items` hands out while `left` of them are still to be
/// rendered: the last of those, under its position; nothing once none is left.
pub open spec fn visit_at<T>(items: Seq<T>, left: nat) -> Option<(usize, T)> {
    if 0 < left <= items.len() {
        Some(((left - 1) as usize, items[left - 1]))
    } else {
        None
    }
}

/// How many items are still to be rendered after one more block has rendered.
pub open spec fn after_block(left: nat) -> nat {
    if left > 0 {
        (left - 1) as nat
    } else {
        0
    }
}

/// How many of `len` items are still to be rendered after `count` blocks
/// have rendered.
pub open spec fn left_after(len: nat, count: nat) -> nat
    decreases count,
{
    if count == 0 {
        len
    } else {
        after_block(left_after(len, (count - 1) as nat))
    }
}

/// `visit` is what `expected` names: the same position, and the item itself.
pub open spec fn is_visit<T>(visit: Option<(usize, &T)>, expected: Option<(usize, T)>) -> bool {
    match visit {
        Some((index, item)) => expected == Some((index, *item)),
        None => expected is None,
    }
}

/// A walk over the items of a sequence, last item first.
pub struct ReverseWalk<'a, T> {
    items: &'a Vec<T>,
    left: usize,
}

impl<'a, T> ReverseWalk<'a, T> {
    /// The sequence that is walked.
    pub closed spec fn items(&self) -> Seq<T> {
        self.items@
    }

    /// How many items are still to be rendered: those before this position.
    pub closed spec fn left(&self) -> nat {
        self.left as nat
    }

    /// No more items are left than the sequence has.
    #[verifier::type_invariant]
    pub closed spec fn well_formed(&self) -> bool {
        self.left <= self.items@.len()
    }

    /// Starts a walk with every item still to be rendered.
    pub fn begin(items: &'a Vec<T>) -> (walk: Self)
        ensures
            walk.items() == items@,
            walk.left() == items@.len(),
    {
        ReverseWalk { items, left: items.len() }
    }

    /// The item to render next with its position in the sequence, or `None`
    /// at the end of the walk. For an item the caller binds the position to
    /// the local variable, makes the item the block's value, renders the
    /// block, and hands the outcome to `resume`.
    pub fn visit(&self) -> (visit: Option<(usize, &'a T)>)
        ensures
            is_visit(visit, visit_at(self.items(), self.left())),
            visit matches Some(found) ==> found.0 == self.left() - 1 && found.0
                < self.items().len(),
            visit is None ==> self.left() == 0,
    {
        proof {
            use_type_invariant(self);
        }
        if self.left == 0 {
            None
        } else {
            let index: usize = self.left - 1;
            Some((index, &self.items[index]))
        }
    }

    /// Takes the outcome of the block that was rendered last. After a block
    /// that rendered, the walk goes on with one item fewer. A failure ends
    /// the walk at once and is handed back as it came.
    pub fn resume<E>(self, outcome: Result<(), E>) -> (r: Result<Self, E>)
        ensures
            match outcome {
                Ok(()) => match r {
                    Ok(walk) => walk.items() == self.items() && walk.left() == after_block(
                        self.left(),
                    ),
                    Err(_) => false,
                },
                Err(failure) => match r {
                    Ok(_) => false,
                    Err(e) => e == failure,
                },
            },
    {
        proof {
            use_type_invariant(&self);
        }
        match outcome {
            Ok(()) => {
                let left: usize = if self.left > 0 {
                    self.left - 1
                } else {
                    0
                };
                Ok(ReverseWalk { items: self.items, left })
            },
            Err(failure) => Err(failure),
        }
    }
}

/// While every block renders, one item fewer is left after each, down to none.
pub proof fn lemma_left_after(len: nat, count: nat)
    ensures
        count <= len ==> left_after(len, count) == len - count,
        count >= len ==> left_after(len, count) == 0,
    decreases count,
{
    if count > 0 {
        lemma_left_after(len, (count - 1) as nat);
    }
}

/// Reverse walk under the positions of the sequence: while every block
/// renders, what the walk hands out after `count` blocks is the item at
/// `len - 1 - count` of the sequence, under that position; after as many
/// blocks as there are items, and ever after, it hands out nothing.
pub proof fn lemma_walk_visits_in_reverse<T>(items: Seq<T>, count: nat)
    requires
        items.len() <= usize::MAX,
    ensures
        count < items.len() ==> visit_at(items, left_after(items.len(), count)) == Some(
            ((items.len() - 1 - count) as usize, items[items.len() - 1 - count]),
        ),
        count >= items.len() ==> visit_at(items, left_after(items.len(), count)) is None,
{
    lemma_left_after(items.len(), count);
}

} // verus!
