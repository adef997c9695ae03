//! Things that a tick moves and may take out of the session, and the one loop that
//! does so for a whole collection.

use crate::grid::Grid;
use crate::scale::valid_block_size;
use crate::seqs::{
    advance_and_keep, lemma_advance_nothing, lemma_advance_one_more, lemma_take_one_more,
    views_of,
};
use vstd::prelude::*;

verus! {

/// A thing that moves in every tick and leaves the session when it has had its time.
pub trait Transient: View + Copy {
    /// What a tick asks of the thing.
    spec fn steady(v: Self::V) -> bool;

    /// One tick of `dt` microseconds of the thing.
    spec fn mover(grid: Grid, bs: int, dt: nat) -> spec_fn(Self::V) -> Self::V;

    /// The thing stays in the session.
    spec fn keeper(bs: int) -> spec_fn(Self::V) -> bool;

    /// Moves the thing by one tick.
    fn tick(&mut self, grid: &Grid, block_size: i64, dt: u64)
        requires
            Self::steady(old(self)@),
            valid_block_size(block_size as int),
        ensures
            final(self)@ == Self::mover(*grid, block_size as int, dt as nat)(old(self)@),
    ;

    /// Tells whether the thing stays in the session.
    fn stays(&self, block_size: i64) -> (kept: bool)
        requires
            valid_block_size(block_size as int),
        ensures
            kept == Self::keeper(block_size as int)(self@),
    ;
}

/// Every thing of the sequence is fit for a tick.
pub open spec fn all_steady<T: Transient>(things: Seq<T>) -> bool {
    forall|i: int| 0 <= i < things.len() ==> T::steady(#[trigger] views_of(things)[i])
}

/// Moves every thing by one tick and returns those that stay, in their order.
#[verifier::loop_isolation(false)]
pub fn advance_all<T: Transient>(things: &Vec<T>, grid: &Grid, block_size: i64, dt: u64) -> (kept:
    Vec<T>)
    requires
        valid_block_size(block_size as int),
        all_steady(things@),
    ensures
        views_of(kept@) == advance_and_keep(
            views_of(things@),
            T::mover(*grid, block_size as int, dt as nat),
            T::keeper(block_size as int),
        ),
{
    let ghost before = views_of(things@);
    let ghost step = T::mover(*grid, block_size as int, dt as nat);
    let ghost keep = T::keeper(block_size as int);
    let mut kept: Vec<T> = Vec::new();
    let mut i: usize = 0;
    proof {
        lemma_advance_nothing(step, keep);
        assert(before.take(0) =~= Seq::empty());
        assert(views_of(kept@) =~= Seq::empty());
    }
    while i < things.len()
        invariant
            i <= things@.len(),
            views_of(kept@) == advance_and_keep(before.take(i as int), step, keep),
        decreases things@.len() - i,
    {
        let mut thing = things[i];
        assert(before[i as int] == thing@);
        thing.tick(grid, block_size, dt);
        proof {
            lemma_take_one_more(before, i as int);
            lemma_advance_one_more(before.take(i as int), before[i as int], step, keep);
        }
        if thing.stays(block_size) {
            let ghost shorter = kept@;
            kept.push(thing);
            assert(views_of(kept@) =~= views_of(shorter).push(thing@));
        }
        i += 1;
    }
    assert(before.take(i as int) =~= before);
    kept
}

} // verus!
