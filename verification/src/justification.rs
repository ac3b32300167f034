//! Fitting the laid-out system to its target width.
//!
//! The width that the system takes up before it is justified is its
//! engraved width. Aligning the system at its start or end, or centring it,
//! only moves the aligned start, to which the leading edge of the system is
//! tied. Full justification stretches the spacing blocks instead: each one
//! gets its share of the width that is missing, in proportion to its own
//! width.

use vstd::prelude::*;
use crate::block::Block;
use crate::error::EngravingError;
use crate::layout::{LayoutSystem, SystemJustification};
use crate::posting::{
    first_indexing_error, first_indexing_error_found, made_then_planned, no_indexing_error, post_for, posts_all,
    posts_cut_short, posts_none, posts_one_more, Attempt, Owner,
};
use crate::relation::{offset_from, Operator, Relation, RelationView, Strength, Unknown, UnknownCounts};
use crate::rules::{check_unknowns, checked};
use crate::solver::LayoutSolver;
use crate::units::{BlockIndex, StaveSpaces};

verus! {

/// The largest total of spacing widths, in either direction, that
/// justification works with: more than any system can add up to.
pub const SPACING_LIMIT: i128 = 0x8000_0000_0000_0000_0000_0000;

/// The quotient of the two numbers, rounded towards zero.
pub open spec fn quotient(dividend: int, divisor: int) -> int
    recommends
        divisor != 0,
{
    let size = (if dividend >= 0 {
        dividend
    } else {
        -dividend
    }) / (if divisor >= 0 {
        divisor
    } else {
        -divisor
    });
    if (dividend >= 0) == (divisor >= 0) {
        size
    } else {
        -size
    }
}

/// The width to which full justification stretches a spacing block: its own
/// width times the ratio of the spacing that the target width leaves room
/// for to the spacing that there is.
pub open spec fn stretched_width(width: int, total_spacing: int, target_width: int, engraved_width: int) -> int {
    quotient(width * (total_spacing + target_width - engraved_width), total_spacing)
}

/// The required relation that sets a spacing block to its stretched width:
/// `end == start + stretched width`.
pub open spec fn stretch_rule(
    index: BlockIndex,
    block: Block,
    total_spacing: int,
    target_width: int,
    engraved_width: int,
) -> RelationView {
    offset_from(
        Unknown::BlockEnd(index),
        Operator::Equal,
        Strength::Required,
        Unknown::BlockStart(index),
        stretched_width(block.width as int, total_spacing, target_width, engraved_width),
    )
}

/// The attempts that stretch the named spacing blocks, in order. A name
/// that no block answers to is passed over.
pub open spec fn stretches(
    blocks: Seq<Block>,
    spacing_blocks: Seq<BlockIndex>,
    total_spacing: int,
    target_width: int,
    engraved_width: int,
    counts: UnknownCounts,
) -> Seq<Attempt>
    decreases spacing_blocks.len(),
{
    if spacing_blocks.len() == 0 {
        Seq::empty()
    } else {
        let earlier = stretches(
            blocks,
            spacing_blocks.drop_last(),
            total_spacing,
            target_width,
            engraved_width,
            counts,
        );
        let index = spacing_blocks.last();
        if index < blocks.len() {
            earlier.push(
                Attempt {
                    owner: Owner::Block(index),
                    relation: checked(
                        stretch_rule(index, blocks[index as int], total_spacing, target_width, engraved_width),
                        counts,
                    ),
                },
            )
        } else {
            earlier
        }
    }
}

/// Half the number, rounded towards zero.
pub open spec fn half(number: int) -> int {
    quotient(number, 2)
}

/// The value that the aligned start is told to aim at.
pub open spec fn aligned_start_for(
    justification: SystemJustification,
    target_width: int,
    engraved_width: int,
) -> Option<int> {
    match justification {
        SystemJustification::AlignStart => Some(0int),
        SystemJustification::AlignEnd => Some(target_width - engraved_width),
        SystemJustification::Centered => Some(half(target_width - engraved_width)),
        SystemJustification::Justified => None,
    }
}

/// What full justification does with the attempts that stretch the named
/// spacing blocks.
///
/// Where there is spacing to share out, the attempts are made one after the
/// other. Where the total spacing is zero, no ratio can be formed and
/// nothing is posted: the named blocks are only looked up, and the first of
/// them that the solver has no unknown for is reported.
pub open spec fn stretches_all(
    before: LayoutSolver,
    after: LayoutSolver,
    attempts: Seq<Attempt>,
    total_spacing: int,
    answer: Result<(), EngravingError>,
) -> bool {
    if total_spacing != 0 {
        posts_all(before, after, attempts, answer)
    } else {
        &&& after.well_formed()
        &&& after.counts() == before.counts()
        &&& after.suggested() == before.suggested()
        &&& after.readings() == before.readings()
        &&& after.posted() == before.posted()
        &&& after.intact() == before.intact()
        &&& match first_indexing_error(attempts) {
            Some(error) => answer == Err::<(), EngravingError>(error),
            None => answer is Ok,
        }
    }
}

/// The attempts of justification that go to the solver: those that stretch
/// the spacing blocks where the system is fully justified and has spacing
/// to stretch, none otherwise.
pub open spec fn justifying(
    justification: SystemJustification,
    blocks: Seq<Block>,
    spacing_blocks: Seq<BlockIndex>,
    total_spacing: int,
    target_width: int,
    engraved_width: int,
    counts: UnknownCounts,
) -> Seq<Attempt> {
    if justification == SystemJustification::Justified && spacing_blocks.len() > 0 && total_spacing != 0 {
        stretches(blocks, spacing_blocks, total_spacing, target_width, engraved_width, counts)
    } else {
        Seq::empty()
    }
}

/// The quotient of the two numbers, rounded towards zero.
pub fn divide(dividend: i128, divisor: i128) -> (result: i128)
    requires
        divisor != 0,
        dividend > i128::MIN,
        divisor > i128::MIN,
    ensures
        result == quotient(dividend as int, divisor as int),
{
    let dividend_size: i128 = if dividend >= 0 {
        dividend
    } else {
        -dividend
    };
    let divisor_size: i128 = if divisor >= 0 {
        divisor
    } else {
        -divisor
    };
    let size: i128 = dividend_size / divisor_size;
    assert(0 <= size <= dividend_size) by (nonlinear_arith)
        requires
            size == dividend_size as int / divisor_size as int,
            dividend_size >= 0,
            divisor_size > 0,
    ;
    if (dividend >= 0) == (divisor >= 0) {
        size
    } else {
        -size
    }
}

/// The relation that sets a spacing block to its stretched width.
pub fn stretch_relation(
    index: BlockIndex,
    block: &Block,
    total_rhythmic_spacing: i128,
    target_system_width: StaveSpaces,
    engraved_system_width: StaveSpaces,
) -> (relation: Relation)
    requires
        total_rhythmic_spacing != 0,
        -SPACING_LIMIT <= total_rhythmic_spacing <= SPACING_LIMIT,
    ensures
        relation@ == stretch_rule(
            index,
            *block,
            total_rhythmic_spacing as int,
            target_system_width as int,
            engraved_system_width as int,
        ),
{
    let width: i128 = block.get_fixed_width() as i128;
    let room: i128 = total_rhythmic_spacing + target_system_width as i128 - engraved_system_width as i128;
    assert(-0x7fff_ffff_ffff_ffff_ffff_ffff_ffff_ffff <= width * room <= 0x7fff_ffff_ffff_ffff_ffff_ffff_ffff_ffff)
        by (nonlinear_arith)
        requires
            -0x8000_0000 <= width <= 0x8000_0000,
            -0x8000_0000_0000_0001_0000_0000 <= room <= 0x8000_0000_0000_0001_0000_0000,
    ;
    let stretched = divide(width * room, total_rhythmic_spacing);
    assert(-0x7fff_ffff_ffff_ffff_ffff_ffff_ffff_ffff <= stretched) by (nonlinear_arith)
        requires
            stretched == quotient(width * room, total_rhythmic_spacing as int),
            -0x7fff_ffff_ffff_ffff_ffff_ffff_ffff_ffff <= width * room <= 0x7fff_ffff_ffff_ffff_ffff_ffff_ffff_ffff,
            total_rhythmic_spacing != 0,
    ;
    Relation::offset_from(
        Unknown::BlockEnd(index),
        Operator::Equal,
        Strength::Required,
        Unknown::BlockStart(index),
        stretched,
    )
}

impl LayoutSystem {
    /// Looks up the named spacing blocks where there is no spacing to share
    /// out: reports the first of them that the solver has no unknown for,
    /// and leaves the solver alone.
    pub fn look_up_spacing_blocks(
        target_system_width: StaveSpaces,
        engraved_system_width: StaveSpaces,
        solver: &LayoutSolver,
        blocks: &[Block],
        spacing_blocks: &[BlockIndex],
    ) -> (answer: Result<(), EngravingError>)
        ensures
            match first_indexing_error(
                stretches(
                    blocks@,
                    spacing_blocks@,
                    0,
                    target_system_width as int,
                    engraved_system_width as int,
                    solver.counts(),
                ),
            ) {
                Some(error) => answer == Err::<(), EngravingError>(error),
                None => answer is Ok,
            },
    {
        let counts = solver.get_counts();
        let ghost target = target_system_width as int;
        let ghost engraved = engraved_system_width as int;
        let ghost all = stretches(blocks@, spacing_blocks@, 0, target, engraved, counts);
        let mut i: usize = 0;
        proof {
            assert(spacing_blocks@.take(0) =~= Seq::<BlockIndex>::empty());
        }
        while i < spacing_blocks.len()
            invariant
                i <= spacing_blocks@.len(),
                counts == solver.counts(),
                target == target_system_width,
                engraved == engraved_system_width,
                all == stretches(blocks@, spacing_blocks@, 0, target, engraved, counts),
                forall |j: int|
                    0 <= j < stretches(blocks@, spacing_blocks@.take(i as int), 0, target, engraved, counts).len()
                        ==> (#[trigger] stretches(
                        blocks@,
                        spacing_blocks@.take(i as int),
                        0,
                        target,
                        engraved,
                        counts,
                    )[j]).relation is Ok,
            decreases spacing_blocks@.len() - i,
        {
            let index = spacing_blocks[i];
            let ghost made = stretches(blocks@, spacing_blocks@.take(i as int), 0, target, engraved, counts);
            proof {
                assert(spacing_blocks@.take(i + 1).drop_last() =~= spacing_blocks@.take(i as int));
                assert(spacing_blocks@.take(i + 1).last() == index);
            }
            if index < blocks.len() {
                let probe = Relation::offset_from(
                    Unknown::BlockEnd(index),
                    Operator::Equal,
                    Strength::Required,
                    Unknown::BlockStart(index),
                    0,
                );
                let ghost one = Attempt {
                    owner: Owner::Block(index),
                    relation: checked(stretch_rule(index, blocks@[index as int], 0, target, engraved), counts),
                };
                let looked_up = check_unknowns(probe, &counts);
                proof {
                    assert(probe@.terms == stretch_rule(index, blocks@[index as int], 0, target, engraved).terms);
                    assert(stretches(blocks@, spacing_blocks@.take(i + 1), 0, target, engraved, counts) == made.push(
                        one,
                    ));
                }
                if let Err(error) = looked_up {
                    proof {
                        let longer = made.push(one);
                        stretches_grow(blocks@, spacing_blocks@, i + 1, 0, target, engraved, counts);
                        let planned = choose |planned: Seq<Attempt>| made_then_planned(all, longer, planned);
                        assert forall |j: int| 0 <= j < made.len() implies (#[trigger] all[j]).relation is Ok by {
                            assert(all[j] == made[j]);
                        }
                        assert(all[made.len() as int] == one);
                        first_indexing_error_found(all, made.len() as int, error);
                    }
                    return Err(error);
                }
            }
            i += 1;
        }
        proof {
            assert(spacing_blocks@.take(i as int) =~= spacing_blocks@);
            no_indexing_error(all);
        }
        Ok(())
    }

    /// Makes the aligned start known to the solver as a value that can be
    /// moved later, and tells the solver to keep it at zero for now. This is
    /// to be done before any relation that names the aligned start. Where
    /// the solver will not register the aligned start, nothing has changed;
    /// where it registers it and then will not be told its value, it aims at
    /// zero all the same.
    pub fn define_justification(solver: &mut LayoutSolver) -> (answer: Result<(), EngravingError>)
        requires
            old(solver).well_formed(),
            old(solver).can_register(),
        ensures
            final(solver).well_formed(),
            final(solver).counts() == old(solver).counts(),
            final(solver).posted() == old(solver).posted(),
            final(solver).intact() == old(solver).intact(),
            final(solver).readings() == old(solver).readings(),
            match answer {
                Ok(_) => final(solver).suggested() == Some(0int),
                Err(error) => if error is DefineJustificationError {
                    final(solver).suggested() == old(solver).suggested()
                } else {
                    error is ApplyJustificationError && final(solver).suggested() == Some(0int)
                },
            },
    {
        if let Err(cause) = solver.register_aligned_start() {
            return Err(EngravingError::DefineJustificationError(cause));
        }
        match solver.suggest_aligned_start(0) {
            Ok(()) => Ok(()),
            Err(cause) => Err(EngravingError::ApplyJustificationError(cause)),
        }
    }

    /// Fits the laid-out system to its target width.
    ///
    /// - Aligned at the start, the aligned start is set to zero.
    /// - Aligned at the end, it is set to the target width less the
    ///   engraved width.
    /// - Centred, it is set to half of that.
    /// - Fully justified, every named spacing block is required to be as
    ///   wide as its own width times `(total spacing + target width -
    ///   engraved width) / total spacing`, whatever width it was given
    ///   before. Where no spacing block is named, nothing is done. Where
    ///   the total spacing is zero, nothing is posted, but a named block
    ///   that the solver has no unknown for is reported all the same.
    pub fn apply_justification_to_solver(
        justification: SystemJustification,
        target_system_width: StaveSpaces,
        engraved_system_width: StaveSpaces,
        total_rhythmic_spacing: i128,
        solver: &mut LayoutSolver,
        blocks: &[Block],
        spacing_blocks: &[BlockIndex],
    ) -> (answer: Result<(), EngravingError>)
        requires
            old(solver).well_formed(),
            -SPACING_LIMIT <= total_rhythmic_spacing <= SPACING_LIMIT,
        ensures
            final(solver).well_formed(),
            final(solver).counts() == old(solver).counts(),
            final(solver).readings() == old(solver).readings(),
            match justification {
                SystemJustification::Justified => stretches_all(
                    *old(solver),
                    *final(solver),
                    stretches(
                        blocks@,
                        spacing_blocks@,
                        total_rhythmic_spacing as int,
                        target_system_width as int,
                        engraved_system_width as int,
                        old(solver).counts(),
                    ),
                    total_rhythmic_spacing as int,
                    answer,
                ),
                _ => final(solver).posted() == old(solver).posted() && (match answer {
                    Ok(_) => final(solver).suggested() == aligned_start_for(
                        justification,
                        target_system_width as int,
                        engraved_system_width as int,
                    ),
                    Err(error) => error is ApplyJustificationError
                        && final(solver).suggested() == old(solver).suggested(),
                }),
            },
    {
        match justification {
            SystemJustification::AlignStart => {
                match solver.suggest_aligned_start(0) {
                    Ok(()) => Ok(()),
                    Err(cause) => Err(EngravingError::ApplyJustificationError(cause)),
                }
            },
            SystemJustification::AlignEnd => {
                let shift: i64 = target_system_width as i64 - engraved_system_width as i64;
                match solver.suggest_aligned_start(shift) {
                    Ok(()) => Ok(()),
                    Err(cause) => Err(EngravingError::ApplyJustificationError(cause)),
                }
            },
            SystemJustification::Centered => {
                let room: i128 = target_system_width as i128 - engraved_system_width as i128;
                let shift: i128 = divide(room, 2);
                match solver.suggest_aligned_start(shift as i64) {
                    Ok(()) => Ok(()),
                    Err(cause) => Err(EngravingError::ApplyJustificationError(cause)),
                }
            },
            SystemJustification::Justified => {
                let ghost counts = solver.counts();
                let ghost total = total_rhythmic_spacing as int;
                let ghost target = target_system_width as int;
                let ghost engraved = engraved_system_width as int;
                if total_rhythmic_spacing == 0 {
                    return Self::look_up_spacing_blocks(
                        target_system_width,
                        engraved_system_width,
                        solver,
                        blocks,
                        spacing_blocks,
                    );
                }
                let mut i: usize = 0;
                proof {
                    posts_none(*solver);
                    assert(spacing_blocks@.take(0) =~= Seq::<BlockIndex>::empty());
                }
                while i < spacing_blocks.len()
                    invariant
                        i <= spacing_blocks@.len(),
                        justification == SystemJustification::Justified,
                        counts == old(solver).counts(),
                        total == total_rhythmic_spacing,
                        target == target_system_width,
                        engraved == engraved_system_width,
                        total_rhythmic_spacing != 0,
                        -SPACING_LIMIT <= total_rhythmic_spacing <= SPACING_LIMIT,
                        posts_all(
                            *old(solver),
                            *solver,
                            stretches(blocks@, spacing_blocks@.take(i as int), total, target, engraved, counts),
                            Ok(()),
                        ),
                    decreases spacing_blocks@.len() - i,
                {
                    let index = spacing_blocks[i];
                    let ghost made = stretches(blocks@, spacing_blocks@.take(i as int), total, target, engraved, counts);
                    proof {
                        assert(spacing_blocks@.take(i + 1).drop_last() =~= spacing_blocks@.take(i as int));
                        assert(spacing_blocks@.take(i + 1).last() == index);
                    }
                    if index < blocks.len() {
                        let block = &blocks[index];
                        let relation = stretch_relation(
                            index,
                            block,
                            total_rhythmic_spacing,
                            target_system_width,
                            engraved_system_width,
                        );
                        let ghost between = *solver;
                        let solver_counts = solver.get_counts();
                        let attempt = check_unknowns(relation, &solver_counts);
                        proof {
                            crate::rules::nothing_missing(
                                stretch_rule(index, *block, total, target, engraved).terms,
                                counts,
                            );
                        }
                        let answer = post_for(solver, attempt, Owner::Block(index));
                        let ghost one = Attempt {
                            owner: Owner::Block(index),
                            relation: checked(stretch_rule(index, *block, total, target, engraved), counts),
                        };
                        proof {
                            posts_one_more(*old(solver), between, *solver, made, one, answer);
                            assert(stretches(blocks@, spacing_blocks@.take(i + 1), total, target, engraved, counts)
                                == made.push(one));
                        }
                        if let Err(error) = answer {
                            proof {
                                let all = stretches(blocks@, spacing_blocks@, total, target, engraved, counts);
                                let longer = made.push(one);
                                stretches_grow(blocks@, spacing_blocks@, i + 1, total, target, engraved, counts);
                                let planned = choose |planned: Seq<Attempt>| made_then_planned(all, longer, planned);
                                posts_cut_short(*old(solver), *solver, longer, planned, error);
                            }
                            return Err(error);
                        }
                    }
                    i += 1;
                }
                proof {
                    assert(spacing_blocks@.take(i as int) =~= spacing_blocks@);
                }
                Ok(())
            },
        }
    }
}

/// The stretches of the first named blocks come first among the stretches
/// of all the named blocks.
pub proof fn stretches_grow(
    blocks: Seq<Block>,
    spacing_blocks: Seq<BlockIndex>,
    count: int,
    total_spacing: int,
    target_width: int,
    engraved_width: int,
    counts: UnknownCounts,
)
    requires
        0 <= count <= spacing_blocks.len(),
    ensures
        exists |planned: Seq<Attempt>|
            made_then_planned(
                stretches(blocks, spacing_blocks, total_spacing, target_width, engraved_width, counts),
                stretches(blocks, spacing_blocks.take(count), total_spacing, target_width, engraved_width, counts),
                planned,
            ),
    decreases spacing_blocks.len() - count,
{
    let all = stretches(blocks, spacing_blocks, total_spacing, target_width, engraved_width, counts);
    let made = stretches(blocks, spacing_blocks.take(count), total_spacing, target_width, engraved_width, counts);
    if count == spacing_blocks.len() {
        assert(spacing_blocks.take(count) =~= spacing_blocks);
        assert(made + Seq::<Attempt>::empty() =~= made);
        assert(made_then_planned(all, made, Seq::<Attempt>::empty()));
    } else {
        stretches_grow(blocks, spacing_blocks, count + 1, total_spacing, target_width, engraved_width, counts);
        let longer = stretches(
            blocks,
            spacing_blocks.take(count + 1),
            total_spacing,
            target_width,
            engraved_width,
            counts,
        );
        let planned = choose |planned: Seq<Attempt>| made_then_planned(all, longer, planned);
        assert(spacing_blocks.take(count + 1).drop_last() =~= spacing_blocks.take(count));
        let index = spacing_blocks.take(count + 1).last();
        if index < blocks.len() {
            let one = Attempt {
                owner: Owner::Block(index),
                relation: checked(
                    stretch_rule(index, blocks[index as int], total_spacing, target_width, engraved_width),
                    counts,
                ),
            };
            assert(made.push(one) + planned =~= made + (seq![one] + planned));
            assert(made_then_planned(all, made, seq![one] + planned));
        } else {
            assert(made_then_planned(all, made, planned));
        }
    }
}

} // verus!
