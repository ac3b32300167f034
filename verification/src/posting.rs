//! Handing the rules of grid lines and blocks to the solver.
//!
//! A rule is first turned into its relation. If the layout lacks an unknown
//! that the relation names, the rule fails with an indexing error and the
//! solver is not touched. Otherwise the relation is posted; if the solver
//! refuses it, the refusal is passed on together with the grid line or block
//! that owns the rule.

use vstd::prelude::*;
use crate::block::{Block, BlockConstraint};
use crate::error::EngravingError;
use crate::grid::{HorizontalGridLineConstraint, VerticalGridLineConstraint};
use crate::layout::LayoutSystem;
use crate::relation::{Relation, RelationView};
use crate::rules::{
    block_relation, block_rule, checked, horizontal_grid_line_relation, horizontal_grid_line_rule,
    vertical_grid_line_relation, vertical_grid_line_rule,
};
use crate::solver::LayoutSolver;
use crate::units::{BlockIndex, HorizontalGridLineIndex, VerticalGridLineIndex};

verus! {

/// The grid line or block that a rule belongs to.
#[derive(Debug, Clone, Copy, PartialEq, Eq, Structural)]
pub enum Owner {
    HorizontalGridLine(HorizontalGridLineIndex),
    VerticalGridLine(VerticalGridLineIndex),
    Block(BlockIndex),
}

impl Owner {
    /// Whether the error passes on a refusal by the solver of a relation of
    /// this owner.
    pub open spec fn refused(self, error: EngravingError) -> bool {
        match self {
            Owner::HorizontalGridLine(index) => error matches EngravingError::AddConstraintErrorOnHorizontalGridLine(
                _,
                at,
            ) && at == index,
            Owner::VerticalGridLine(index) => error matches EngravingError::AddConstraintErrorOnVerticalGridLine(
                _,
                at,
            ) && at == index,
            Owner::Block(index) => error matches EngravingError::AddConstraintErrorOnBlock(_, at) && at == index,
        }
    }

    /// The error that passes on the refusal with the given cause of a
    /// relation of this owner: the cause, and which grid line or block the
    /// relation belongs to.
    pub open spec fn refusal_with(self, cause: cassowary::AddConstraintError) -> EngravingError {
        match self {
            Owner::HorizontalGridLine(index) => EngravingError::AddConstraintErrorOnHorizontalGridLine(cause, index),
            Owner::VerticalGridLine(index) => EngravingError::AddConstraintErrorOnVerticalGridLine(cause, index),
            Owner::Block(index) => EngravingError::AddConstraintErrorOnBlock(cause, index),
        }
    }

    /// Passes on a refusal by the solver of a relation of this owner.
    pub fn refusal(self, cause: cassowary::AddConstraintError) -> (error: EngravingError)
        ensures
            error == self.refusal_with(cause),
            self.refused(error),
    {
        match self {
            Owner::HorizontalGridLine(index) => EngravingError::AddConstraintErrorOnHorizontalGridLine(cause, index),
            Owner::VerticalGridLine(index) => EngravingError::AddConstraintErrorOnVerticalGridLine(cause, index),
            Owner::Block(index) => EngravingError::AddConstraintErrorOnBlock(cause, index),
        }
    }
}

/// What posting an attempted relation does to the solver and answers.
///
/// Where the attempt is an indexing error, that error comes back and the
/// solver has accepted nothing new. Where it is a relation, either the
/// solver has accepted exactly that relation, or it has accepted nothing new
/// and its refusal comes back under the owner's name.
pub open spec fn posts(
    before: LayoutSolver,
    after: LayoutSolver,
    attempt: Result<RelationView, EngravingError>,
    owner: Owner,
    answer: Result<(), EngravingError>,
) -> bool {
    &&& after.well_formed()
    &&& after.counts() == before.counts()
    &&& after.suggested() == before.suggested()
    &&& after.readings() == before.readings()
    &&& match attempt {
        Err(error) => answer == Err::<(), EngravingError>(error) && after.posted() == before.posted()
            && after.intact() == before.intact(),
        Ok(relation) => match answer {
            Ok(_) => after.posted() == before.posted().push(relation) && after.intact() == before.intact(),
            Err(error) => owner.refused(error) && after.posted() == before.posted(),
        },
    }
}

/// Posts an attempted relation for its owner.
pub fn post_for(
    solver: &mut LayoutSolver,
    attempt: Result<Relation, EngravingError>,
    owner: Owner,
) -> (answer: Result<(), EngravingError>)
    requires
        old(solver).well_formed(),
        attempt matches Ok(relation) ==> old(solver).counts().holds_all(relation@),
    ensures
        posts(*old(solver), *final(solver), crate::rules::viewed(attempt), owner, answer),
{
    match attempt {
        Err(error) => Err(error),
        Ok(relation) => match solver.post(&relation) {
            Ok(()) => Ok(()),
            Err(cause) => Err(owner.refusal(cause)),
        },
    }
}

/// A relation, or the indexing error found in its place, on its way to the
/// solver for its owner.
pub struct Attempt {
    pub owner: Owner,
    pub relation: Result<RelationView, EngravingError>,
}

/// The relations of attempts that all are relations.
pub open spec fn relations_of(attempts: Seq<Attempt>) -> Seq<RelationView> {
    Seq::new(
        attempts.len(),
        |i: int|
            match attempts[i].relation {
                Ok(relation) => relation,
                Err(_) => arbitrary(),
            },
    )
}

/// Whether the attempt, made after attempts that all went through, is the
/// one that ends with the error: it is that indexing error itself, or a
/// relation whose refusal by the solver the error passes on.
pub open spec fn fails_with(attempt: Attempt, error: EngravingError) -> bool {
    match attempt.relation {
        Err(found) => error == found,
        Ok(_) => attempt.owner.refused(error),
    }
}

/// What making the attempts one after the other does to the solver and
/// answers.
///
/// On success every attempt was a relation and the solver has accepted them
/// all, in order. On failure some attempt is the first that did not go
/// through: all before it were relations that the solver has accepted, the
/// error is the one of this attempt, and nothing after it was tried.
pub open spec fn posts_all(
    before: LayoutSolver,
    after: LayoutSolver,
    attempts: Seq<Attempt>,
    answer: Result<(), EngravingError>,
) -> bool {
    &&& after.well_formed()
    &&& after.counts() == before.counts()
    &&& after.suggested() == before.suggested()
    &&& after.readings() == before.readings()
    &&& match answer {
        Ok(_) => {
            &&& forall |i: int| 0 <= i < attempts.len() ==> (#[trigger] attempts[i]).relation is Ok
            &&& after.posted() == before.posted() + relations_of(attempts)
            &&& after.intact() == before.intact()
        },
        Err(error) => exists |failed: int|
            {
                &&& 0 <= failed < attempts.len()
                &&& forall |i: int| 0 <= i < failed ==> (#[trigger] attempts[i]).relation is Ok
                &&& after.posted() == before.posted() + relations_of(attempts.take(failed))
                &&& fails_with(#[trigger] attempts[failed], error)
            },
    }
}

/// Whether all the attempts are those made, followed by those planned.
pub open spec fn made_then_planned(all: Seq<Attempt>, made: Seq<Attempt>, planned: Seq<Attempt>) -> bool {
    all == made + planned
}

/// Making no attempt leaves the solver as it is.
pub proof fn posts_none(solver: LayoutSolver)
    requires
        solver.well_formed(),
    ensures
        posts_all(solver, solver, Seq::<Attempt>::empty(), Ok(())),
{
    assert(solver.posted() + relations_of(Seq::<Attempt>::empty()) =~= solver.posted());
}

/// Attempts that went through, followed by one more attempt, are attempts
/// made one after the other.
pub proof fn posts_one_more(
    before: LayoutSolver,
    between: LayoutSolver,
    after: LayoutSolver,
    attempts: Seq<Attempt>,
    attempt: Attempt,
    answer: Result<(), EngravingError>,
)
    requires
        posts_all(before, between, attempts, Ok(())),
        posts(between, after, attempt.relation, attempt.owner, answer),
    ensures
        posts_all(before, after, attempts.push(attempt), answer),
{
    let all = attempts.push(attempt);
    match answer {
        Ok(_) => {
            assert(attempt.relation is Ok);
            assert(relations_of(all) =~= relations_of(attempts).push(attempt.relation->Ok_0));
            assert(before.posted() + relations_of(all) =~= (before.posted() + relations_of(attempts)).push(
                attempt.relation->Ok_0,
            ));
        },
        Err(error) => {
            let failed = attempts.len() as int;
            assert(all.take(failed) =~= attempts);
            assert(all[failed] == attempt);
            assert(fails_with(all[failed], error));
        },
    }
}

/// Attempts that went through, followed by further attempts, are attempts
/// made one after the other.
pub proof fn posts_in_turn(
    before: LayoutSolver,
    between: LayoutSolver,
    after: LayoutSolver,
    first: Seq<Attempt>,
    second: Seq<Attempt>,
    answer: Result<(), EngravingError>,
)
    requires
        posts_all(before, between, first, Ok(())),
        posts_all(between, after, second, answer),
    ensures
        posts_all(before, after, first + second, answer),
{
    let all = first + second;
    match answer {
        Ok(_) => {
            assert(relations_of(all) =~= relations_of(first) + relations_of(second));
            assert(before.posted() + relations_of(all) =~= (before.posted() + relations_of(first)) + relations_of(
                second,
            ));
        },
        Err(error) => {
            let failed = choose |failed: int|
                {
                    &&& 0 <= failed < second.len()
                    &&& forall |i: int| 0 <= i < failed ==> (#[trigger] second[i]).relation is Ok
                    &&& after.posted() == between.posted() + relations_of(second.take(failed))
                    &&& fails_with(#[trigger] second[failed], error)
                };
            let at = first.len() + failed;
            assert(all.take(at) =~= first + second.take(failed));
            assert(relations_of(all.take(at)) =~= relations_of(first) + relations_of(second.take(failed)));
            assert(before.posted() + relations_of(all.take(at)) =~= (before.posted() + relations_of(first))
                + relations_of(second.take(failed)));
            assert(all[at] == second[failed]);
            assert forall |i: int| 0 <= i < at implies (#[trigger] all[i]).relation is Ok by {
                if i >= first.len() {
                    assert(all[i] == second[i - first.len()]);
                } else {
                    assert(all[i] == first[i]);
                }
            }
            assert(fails_with(all[at], error));
        },
    }
}

/// Attempts that ended in failure did so whatever was to follow them.
pub proof fn posts_cut_short(
    before: LayoutSolver,
    after: LayoutSolver,
    made: Seq<Attempt>,
    planned: Seq<Attempt>,
    error: EngravingError,
)
    requires
        posts_all(before, after, made, Err(error)),
    ensures
        posts_all(before, after, made + planned, Err(error)),
{
    let all = made + planned;
    let failed = choose |failed: int|
        {
            &&& 0 <= failed < made.len()
            &&& forall |i: int| 0 <= i < failed ==> (#[trigger] made[i]).relation is Ok
            &&& after.posted() == before.posted() + relations_of(made.take(failed))
            &&& fails_with(#[trigger] made[failed], error)
        };
    assert(all.take(failed) =~= made.take(failed));
    assert(all[failed] == made[failed]);
    assert forall |i: int| 0 <= i < failed implies (#[trigger] all[i]).relation is Ok by {
        assert(all[i] == made[i]);
    }
    assert(fails_with(all[failed], error));
}

/// The first indexing error among the attempts, if there is one.
pub open spec fn first_indexing_error(attempts: Seq<Attempt>) -> Option<EngravingError>
    decreases attempts.len(),
{
    if attempts.len() == 0 {
        None
    } else {
        match attempts[0].relation {
            Err(error) => Some(error),
            Ok(_) => first_indexing_error(attempts.skip(1)),
        }
    }
}

/// Where attempts go through up to one that is an indexing error, that
/// error is the first indexing error among them.
pub proof fn first_indexing_error_found(attempts: Seq<Attempt>, failed: int, error: EngravingError)
    requires
        0 <= failed < attempts.len(),
        forall |i: int| 0 <= i < failed ==> (#[trigger] attempts[i]).relation is Ok,
        attempts[failed].relation == Err::<RelationView, EngravingError>(error),
    ensures
        first_indexing_error(attempts) == Some(error),
    decreases failed,
{
    if failed > 0 {
        let rest = attempts.skip(1);
        assert(attempts[0].relation is Ok);
        assert forall |i: int| 0 <= i < failed - 1 implies (#[trigger] rest[i]).relation is Ok by {
            assert(rest[i] == attempts[i + 1]);
        }
        assert(rest[failed - 1] == attempts[failed]);
        first_indexing_error_found(rest, failed - 1, error);
    }
}

/// There is no indexing error among attempts exactly when all of them are
/// relations.
pub proof fn no_indexing_error(attempts: Seq<Attempt>)
    ensures
        first_indexing_error(attempts) is None <==> forall |i: int|
            0 <= i < attempts.len() ==> (#[trigger] attempts[i]).relation is Ok,
    decreases attempts.len(),
{
    if attempts.len() > 0 {
        let rest = attempts.skip(1);
        no_indexing_error(rest);
        if attempts[0].relation is Ok {
            if first_indexing_error(attempts) is None {
                assert forall |i: int| 0 <= i < attempts.len() implies (#[trigger] attempts[i]).relation is Ok by {
                    if i > 0 {
                        assert(rest[i - 1] == attempts[i]);
                    }
                }
            } else {
                let i = choose |i: int| 0 <= i < rest.len() && !((#[trigger] rest[i]).relation is Ok);
                assert(rest[i] == attempts[i + 1]);
            }
        }
    }
}

/// What the answer to a run of attempts says about indexing errors and
/// refusals: on success there is no indexing error among the attempts; on
/// failure the error is the first indexing error among them, or the refusal
/// by the solver of one of their relations, under the name of its owner.
pub proof fn answer_tells(
    before: LayoutSolver,
    after: LayoutSolver,
    attempts: Seq<Attempt>,
    answer: Result<(), EngravingError>,
)
    requires
        posts_all(before, after, attempts, answer),
    ensures
        answer is Ok ==> first_indexing_error(attempts) is None,
        answer matches Err(error) ==> first_indexing_error(attempts) == Some(error) || exists |i: int|
            0 <= i < attempts.len() && (#[trigger] attempts[i]).relation is Ok && attempts[i].owner.refused(error),
{
    no_indexing_error(attempts);
    if let Err(error) = answer {
        let failed = choose |failed: int|
            {
                &&& 0 <= failed < attempts.len()
                &&& forall |i: int| 0 <= i < failed ==> (#[trigger] attempts[i]).relation is Ok
                &&& after.posted() == before.posted() + relations_of(attempts.take(failed))
                &&& fails_with(#[trigger] attempts[failed], error)
            };
        match attempts[failed].relation {
            Err(found) => {
                first_indexing_error_found(attempts, failed, error);
            },
            Ok(_) => {
                assert(attempts[failed].owner.refused(error));
            },
        }
    }
}

impl LayoutSystem {
    /// Hands one rule of the horizontal grid line `index` to the solver.
    pub fn add_horizontal_grid_line_constraint_to_solver(
        index: HorizontalGridLineIndex,
        constraint: &HorizontalGridLineConstraint,
        solver: &mut LayoutSolver,
    ) -> (answer: Result<(), EngravingError>)
        requires
            old(solver).well_formed(),
        ensures
            posts(
                *old(solver),
                *final(solver),
                checked(horizontal_grid_line_rule(index, *constraint), old(solver).counts()),
                Owner::HorizontalGridLine(index),
                answer,
            ),
    {
        let counts = solver.get_counts();
        let attempt = horizontal_grid_line_relation(index, constraint, &counts);
        proof {
            crate::rules::nothing_missing(horizontal_grid_line_rule(index, *constraint).terms, counts);
        }
        post_for(solver, attempt, Owner::HorizontalGridLine(index))
    }

    /// Hands one rule of the vertical grid line `index` to the solver.
    pub fn add_vertical_grid_line_constraint_to_solver(
        index: VerticalGridLineIndex,
        constraint: &VerticalGridLineConstraint,
        solver: &mut LayoutSolver,
    ) -> (answer: Result<(), EngravingError>)
        requires
            old(solver).well_formed(),
        ensures
            posts(
                *old(solver),
                *final(solver),
                checked(vertical_grid_line_rule(index, *constraint), old(solver).counts()),
                Owner::VerticalGridLine(index),
                answer,
            ),
    {
        let counts = solver.get_counts();
        let attempt = vertical_grid_line_relation(index, constraint, &counts);
        proof {
            crate::rules::nothing_missing(vertical_grid_line_rule(index, *constraint).terms, counts);
        }
        post_for(solver, attempt, Owner::VerticalGridLine(index))
    }

    /// Hands one rule of the block `index` to the solver. Lock rules go in
    /// as strong relations and float rules as weak ones, so that a lock
    /// always wins over a float.
    pub fn add_block_constraint_to_solver(
        index: BlockIndex,
        block: &Block,
        constraint: &BlockConstraint,
        solver: &mut LayoutSolver,
    ) -> (answer: Result<(), EngravingError>)
        requires
            old(solver).well_formed(),
        ensures
            posts(
                *old(solver),
                *final(solver),
                checked(block_rule(index, *block, *constraint), old(solver).counts()),
                Owner::Block(index),
                answer,
            ),
    {
        let counts = solver.get_counts();
        let attempt = block_relation(index, block, constraint, &counts);
        proof {
            crate::rules::nothing_missing(block_rule(index, *block, *constraint).terms, counts);
        }
        post_for(solver, attempt, Owner::Block(index))
    }
}

} // verus!
