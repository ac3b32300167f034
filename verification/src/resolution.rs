//! Separating the blocks that collide.
//!
//! Where one of two colliding blocks may move up or down, the collision is
//! left as it is and reported as unresolved: moving blocks vertically is not
//! done yet. Otherwise the block that starts later is locked to begin a
//! quarter of a stave space after the end of the other. The layout is not
//! searched again for collisions that such a move may cause.

use vstd::prelude::*;
use crate::block::{Block, BlockConstraint};
use crate::error::EngravingError;
use crate::layout::LayoutSystem;
use crate::posting::{
    made_then_planned, posts, posts_all, posts_cut_short, posts_none, posts_one_more, Attempt, Owner,
};
use crate::relation::UnknownCounts;
use crate::rules::{block_rule, checked};
use crate::solver::LayoutSolver;
use crate::units::{BlockIndex, StaveSpaces};

verus! {

/// The gap that is put between two blocks that collided: a quarter of a
/// stave space.
pub const MINIMUM_COLLISION_GAP: StaveSpaces = 250;

/// Whether one of the two blocks may move up or down to get out of the way.
pub open spec fn may_move_vertically(blocks: Seq<Block>, pair: (BlockIndex, BlockIndex)) -> bool {
    ||| blocks[pair.0 as int].can_move_up_to_avoid_vertical_collision
    ||| blocks[pair.0 as int].can_move_down_to_avoid_vertical_collision
    ||| blocks[pair.1 as int].can_move_up_to_avoid_vertical_collision
    ||| blocks[pair.1 as int].can_move_down_to_avoid_vertical_collision
}

/// Whether the first block starts later than the second. Of two blocks
/// that start together, the one further down the system's list counts as
/// the later.
pub open spec fn starts_later(starts: Seq<StaveSpaces>, first: BlockIndex, second: BlockIndex) -> bool {
    starts[first as int] > starts[second as int] || (starts[first as int] == starts[second as int] && first
        > second)
}

/// The block of the pair that is moved, followed by the one that stays: the
/// one that starts later is moved.
pub open spec fn moved_and_staying(starts: Seq<StaveSpaces>, pair: (BlockIndex, BlockIndex)) -> (BlockIndex, BlockIndex) {
    if starts_later(starts, pair.0, pair.1) {
        (pair.0, pair.1)
    } else {
        (pair.1, pair.0)
    }
}

/// A pair of different blocks is separated in the same way in whichever
/// order it is named: the same block is moved after the same other block.
pub proof fn separation_ignores_order(starts: Seq<StaveSpaces>, first: BlockIndex, second: BlockIndex)
    requires
        first != second,
    ensures
        moved_and_staying(starts, (first, second)) == moved_and_staying(starts, (second, first)),
{
}

/// The attempt that separates the pair: the moved block is locked to start
/// the minimum gap after the end of the block that stays.
pub open spec fn separation(
    blocks: Seq<Block>,
    starts: Seq<StaveSpaces>,
    pair: (BlockIndex, BlockIndex),
    counts: UnknownCounts,
) -> Attempt {
    let (moved, staying) = moved_and_staying(starts, pair);
    Attempt {
        owner: Owner::Block(moved),
        relation: checked(
            block_rule(
                moved,
                blocks[moved as int],
                BlockConstraint::LockAfterBlockByDistance(staying, MINIMUM_COLLISION_GAP),
            ),
            counts,
        ),
    }
}

/// The attempts that separate the colliding pairs, in order: one for each
/// pair of which neither block may move vertically.
pub open spec fn separations(
    blocks: Seq<Block>,
    starts: Seq<StaveSpaces>,
    collisions: Seq<(BlockIndex, BlockIndex)>,
    counts: UnknownCounts,
) -> Seq<Attempt>
    decreases collisions.len(),
{
    if collisions.len() == 0 {
        Seq::empty()
    } else {
        let earlier = separations(blocks, starts, collisions.drop_last(), counts);
        if may_move_vertically(blocks, collisions.last()) {
            earlier
        } else {
            earlier.push(separation(blocks, starts, collisions.last(), counts))
        }
    }
}

/// The colliding pairs that are left unresolved, in order: those of which
/// one block may move vertically.
pub open spec fn left_unresolved(blocks: Seq<Block>, collisions: Seq<(BlockIndex, BlockIndex)>) -> Seq<
    (BlockIndex, BlockIndex),
>
    decreases collisions.len(),
{
    if collisions.len() == 0 {
        Seq::empty()
    } else {
        let earlier = left_unresolved(blocks, collisions.drop_last());
        if may_move_vertically(blocks, collisions.last()) {
            earlier.push(collisions.last())
        } else {
            earlier
        }
    }
}

/// An answer without what came with its success.
pub open spec fn answer_of<T>(result: Result<T, EngravingError>) -> Result<(), EngravingError> {
    match result {
        Ok(_) => Ok(()),
        Err(error) => Err(error),
    }
}

impl LayoutSystem {
    /// Goes through the colliding pairs in order and separates each
    /// sideways, unless one of its blocks may move vertically. Hands back
    /// the pairs that it left unresolved for that reason.
    pub fn resolve_colliding_blocks(
        blocks: &[Block],
        collisions: &[(BlockIndex, BlockIndex)],
        starts: &[StaveSpaces],
        solver: &mut LayoutSolver,
    ) -> (result: Result<Vec<(BlockIndex, BlockIndex)>, EngravingError>)
        requires
            old(solver).well_formed(),
            starts@.len() == blocks@.len(),
            forall |i: int|
                0 <= i < collisions@.len() ==> (#[trigger] collisions@[i]).0 < blocks@.len() && collisions@[i].1
                    < blocks@.len(),
        ensures
            posts_all(
                *old(solver),
                *final(solver),
                separations(blocks@, starts@, collisions@, old(solver).counts()),
                answer_of(result),
            ),
            result matches Ok(unresolved) ==> unresolved@ == left_unresolved(blocks@, collisions@),
    {
        let ghost counts = solver.counts();
        let mut unresolved: Vec<(BlockIndex, BlockIndex)> = Vec::new();
        let mut i: usize = 0;
        proof {
            posts_none(*solver);
            assert(collisions@.take(0) =~= Seq::<(BlockIndex, BlockIndex)>::empty());
        }
        while i < collisions.len()
            invariant
                i <= collisions@.len(),
                starts@.len() == blocks@.len(),
                counts == old(solver).counts(),
                forall |i: int|
                    0 <= i < collisions@.len() ==> (#[trigger] collisions@[i]).0 < blocks@.len() && collisions@[i].1
                        < blocks@.len(),
                posts_all(
                    *old(solver),
                    *solver,
                    separations(blocks@, starts@, collisions@.take(i as int), counts),
                    Ok(()),
                ),
                unresolved@ == left_unresolved(blocks@, collisions@.take(i as int)),
            decreases collisions@.len() - i,
        {
            let index_a = collisions[i].0;
            let index_b = collisions[i].1;
            let ghost made = separations(blocks@, starts@, collisions@.take(i as int), counts);
            proof {
                assert(collisions@.take(i + 1).drop_last() =~= collisions@.take(i as int));
                assert(collisions@.take(i + 1).last() == collisions@[i as int]);
                assert(collisions@[i as int] == (index_a, index_b));
            }
            if blocks[index_a].get_can_move_up_to_avoid_vertical_collision()
                || blocks[index_a].get_can_move_down_to_avoid_vertical_collision()
                || blocks[index_b].get_can_move_up_to_avoid_vertical_collision()
                || blocks[index_b].get_can_move_down_to_avoid_vertical_collision() {
                match Self::resolve_colliding_blocks_vertically(index_a, index_b) {
                    Ok(pair) => unresolved.push(pair),
                    Err(error) => {
                        return Err(error);
                    },
                }
            } else {
                let ghost between = *solver;
                let answer = Self::resolve_colliding_blocks_horizontally(index_a, index_b, blocks, starts, solver);
                proof {
                    let attempt = separation(blocks@, starts@, (index_a, index_b), counts);
                    posts_one_more(*old(solver), between, *solver, made, attempt, answer);
                    assert(separations(blocks@, starts@, collisions@.take(i + 1), counts) == made.push(attempt));
                }
                if let Err(error) = answer {
                    proof {
                        let all = separations(blocks@, starts@, collisions@, counts);
                        let longer = separations(blocks@, starts@, collisions@.take(i + 1), counts);
                        separations_grow(blocks@, starts@, collisions@, i + 1, counts);
                        let planned = choose |planned: Seq<Attempt>| made_then_planned(all, longer, planned);
                        posts_cut_short(*old(solver), *solver, longer, planned, error);
                    }
                    return Err(error);
                }
            }
            i += 1;
        }
        proof {
            assert(collisions@.take(i as int) =~= collisions@);
        }
        Ok(unresolved)
    }

    /// Leaves a collision unresolved that could be avoided by moving a block
    /// up or down, and hands the pair back to be reported.
    pub fn resolve_colliding_blocks_vertically(index_a: BlockIndex, index_b: BlockIndex) -> (result: Result<
        (BlockIndex, BlockIndex),
        EngravingError,
    >)
        ensures
            result matches Ok(pair) && pair == (index_a, index_b),
    {
        Ok((index_a, index_b))
    }

    /// Separates two colliding blocks sideways: the one that starts later
    /// must begin the minimum gap after the end of the other. Of two blocks
    /// that start together, the one further down the list is moved.
    pub fn resolve_colliding_blocks_horizontally(
        index_a: BlockIndex,
        index_b: BlockIndex,
        blocks: &[Block],
        starts: &[StaveSpaces],
        solver: &mut LayoutSolver,
    ) -> (answer: Result<(), EngravingError>)
        requires
            old(solver).well_formed(),
            index_a < blocks@.len(),
            index_b < blocks@.len(),
            starts@.len() == blocks@.len(),
        ensures
            posts(
                *old(solver),
                *final(solver),
                separation(blocks@, starts@, (index_a, index_b), old(solver).counts()).relation,
                separation(blocks@, starts@, (index_a, index_b), old(solver).counts()).owner,
                answer,
            ),
    {
        if starts[index_a] > starts[index_b] || (starts[index_a] == starts[index_b] && index_a > index_b) {
            Self::add_block_constraint_to_solver(
                index_a,
                &blocks[index_a],
                &BlockConstraint::LockAfterBlockByDistance(index_b, MINIMUM_COLLISION_GAP),
                solver,
            )
        } else {
            Self::add_block_constraint_to_solver(
                index_b,
                &blocks[index_b],
                &BlockConstraint::LockAfterBlockByDistance(index_a, MINIMUM_COLLISION_GAP),
                solver,
            )
        }
    }
}

/// The separations of the first pairs come first among the separations of
/// all the pairs.
pub proof fn separations_grow(
    blocks: Seq<Block>,
    starts: Seq<StaveSpaces>,
    collisions: Seq<(BlockIndex, BlockIndex)>,
    count: int,
    counts: UnknownCounts,
)
    requires
        0 <= count <= collisions.len(),
    ensures
        exists |planned: Seq<Attempt>|
            made_then_planned(
                separations(blocks, starts, collisions, counts),
                separations(blocks, starts, collisions.take(count), counts),
                planned,
            ),
    decreases collisions.len() - count,
{
    let all = separations(blocks, starts, collisions, counts);
    let made = separations(blocks, starts, collisions.take(count), counts);
    if count == collisions.len() {
        assert(collisions.take(count) =~= collisions);
        assert(made + Seq::<Attempt>::empty() =~= made);
        assert(made_then_planned(all, made, Seq::<Attempt>::empty()));
    } else {
        separations_grow(blocks, starts, collisions, count + 1, counts);
        let longer = separations(blocks, starts, collisions.take(count + 1), counts);
        let planned = choose |planned: Seq<Attempt>| made_then_planned(all, longer, planned);
        assert(collisions.take(count + 1).drop_last() =~= collisions.take(count));
        if may_move_vertically(blocks, collisions.take(count + 1).last()) {
            assert(made_then_planned(all, made, planned));
        } else {
            let one = separation(blocks, starts, collisions.take(count + 1).last(), counts);
            assert(made.push(one) + planned =~= made + (seq![one] + planned));
            assert(made_then_planned(all, made, seq![one] + planned));
        }
    }
}

} // verus!
