//! From rules to linear relations.
//!
//! Each rule of a grid line or a block stands for one relation between
//! unknowns. The tables below say which. Where a block is fixed in size in
//! an axis, a rule on its trailing edge (bottom, end) is rewritten as a rule
//! on its leading edge (top, start), moved back by the size of the block:
//! the trailing edge of such a block is not free to move by itself. This
//! holds for rules against grid lines and for rules against other blocks
//! alike.
//!
//! A relation is only handed on if the layout has every unknown it names;
//! otherwise the first missing one is reported.

use vstd::prelude::*;
use crate::block::{Block, BlockConstraint};
use crate::error::EngravingError;
use crate::grid::{HorizontalGridLineConstraint, VerticalGridLineConstraint};
use crate::relation::{
    half_offset_from, middles_aligned, midway_between, offset_from, Operator, Relation, RelationView,
    Strength, Term, Unknown, UnknownCounts,
};
use crate::units::{BlockIndex, HorizontalGridLineIndex, VerticalGridLineIndex};

verus! {

/// The error that reports an unknown which the layout does not have. Every
/// layout has an aligned start, so that there is no error for it.
pub open spec fn missing(unknown: Unknown) -> EngravingError
    recommends
        !(unknown is AlignedStart),
{
    match unknown {
        Unknown::HorizontalGridLine(index) => EngravingError::UnknownHorizontalGridLine(index),
        Unknown::VerticalGridLine(index) => EngravingError::UnknownVerticalGridLine(index),
        Unknown::BlockTop(index) => EngravingError::UnknownBlockTopPosition(index),
        Unknown::BlockBottom(index) => EngravingError::UnknownBlockBottomPosition(index),
        Unknown::BlockStart(index) => EngravingError::UnknownBlockStartPosition(index),
        Unknown::BlockEnd(index) => EngravingError::UnknownBlockEndPosition(index),
        Unknown::AlignedStart => arbitrary(),
    }
}

/// The first of the unknowns, in the order of the terms, that a layout of the
/// given size does not have.
pub open spec fn first_missing(terms: Seq<Term>, counts: UnknownCounts) -> Option<Unknown>
    decreases terms.len(),
{
    if terms.len() == 0 {
        None
    } else if !counts.holds(terms[0].unknown) {
        Some(terms[0].unknown)
    } else {
        first_missing(terms.skip(1), counts)
    }
}

/// The relation itself where a layout of the given size has all its
/// unknowns, else the error for the first of its unknowns that is missing.
pub open spec fn checked(relation: RelationView, counts: UnknownCounts) -> Result<RelationView, EngravingError> {
    match first_missing(relation.terms, counts) {
        None => Ok(relation),
        Some(unknown) => Err(missing(unknown)),
    }
}

/// The outcome of building a relation, with the relation seen as its
/// mathematical content.
pub open spec fn viewed(result: Result<Relation, EngravingError>) -> Result<RelationView, EngravingError> {
    match result {
        Ok(relation) => Ok(relation@),
        Err(error) => Err(error),
    }
}

/// Nothing is missing exactly when the layout has every unknown of the terms.
pub proof fn nothing_missing(terms: Seq<Term>, counts: UnknownCounts)
    ensures
        first_missing(terms, counts) is None <==> forall |i: int|
            0 <= i < terms.len() ==> counts.holds(#[trigger] terms[i].unknown),
        first_missing(terms, counts) matches Some(unknown) ==> !counts.holds(unknown),
    decreases terms.len(),
{
    if terms.len() > 0 {
        let rest = terms.skip(1);
        nothing_missing(rest, counts);
        if counts.holds(terms[0].unknown) {
            if first_missing(terms, counts) is None {
                assert forall |i: int| 0 <= i < terms.len() implies counts.holds(#[trigger] terms[i].unknown) by {
                    if i > 0 {
                        assert(rest[i - 1] == terms[i]);
                    }
                }
            } else {
                let i = choose |i: int| 0 <= i < rest.len() && !counts.holds(#[trigger] rest[i].unknown);
                assert(rest[i] == terms[i + 1]);
            }
        }
    }
}

/// The relation that a rule of the horizontal grid line `index` stands for.
pub open spec fn horizontal_grid_line_rule(
    index: HorizontalGridLineIndex,
    constraint: HorizontalGridLineConstraint,
) -> RelationView {
    let line = Unknown::HorizontalGridLine(index);
    match constraint {
        HorizontalGridLineConstraint::LockAboveHorizontalGridLineByDistance(below, distance) => offset_from(
            line,
            Operator::Equal,
            Strength::Strong,
            Unknown::HorizontalGridLine(below),
            -distance,
        ),
        HorizontalGridLineConstraint::FloatAboveHorizontalGridLineByDistance(below, distance) => offset_from(
            line,
            Operator::LessOrEqual,
            Strength::Weak,
            Unknown::HorizontalGridLine(below),
            -distance,
        ),
        HorizontalGridLineConstraint::LockBelowHorizontalGridLineByDistance(above, distance) => offset_from(
            line,
            Operator::Equal,
            Strength::Strong,
            Unknown::HorizontalGridLine(above),
            distance as int,
        ),
        HorizontalGridLineConstraint::FloatBelowHorizontalGridLineByDistance(above, distance) => offset_from(
            line,
            Operator::GreaterOrEqual,
            Strength::Weak,
            Unknown::HorizontalGridLine(above),
            distance as int,
        ),
        HorizontalGridLineConstraint::VerticallyCenterBetweenHorizontalGridLines(above, below) => midway_between(
            line,
            Operator::Equal,
            Strength::Strong,
            Unknown::HorizontalGridLine(above),
            Unknown::HorizontalGridLine(below),
            0,
        ),
    }
}

/// The relation that a rule of the vertical grid line `index` stands for.
pub open spec fn vertical_grid_line_rule(
    index: VerticalGridLineIndex,
    constraint: VerticalGridLineConstraint,
) -> RelationView {
    let line = Unknown::VerticalGridLine(index);
    match constraint {
        VerticalGridLineConstraint::LockBeforeVerticalGridLineByDistance(after, distance) => offset_from(
            line,
            Operator::Equal,
            Strength::Strong,
            Unknown::VerticalGridLine(after),
            -distance,
        ),
        VerticalGridLineConstraint::FloatBeforeVerticalGridLineByDistance(after, distance) => offset_from(
            line,
            Operator::LessOrEqual,
            Strength::Weak,
            Unknown::VerticalGridLine(after),
            -distance,
        ),
        VerticalGridLineConstraint::LockAfterVerticalGridLineByDistance(before, distance) => offset_from(
            line,
            Operator::Equal,
            Strength::Strong,
            Unknown::VerticalGridLine(before),
            distance as int,
        ),
        VerticalGridLineConstraint::FloatAfterVerticalGridLineByDistance(before, distance) => offset_from(
            line,
            Operator::GreaterOrEqual,
            Strength::Weak,
            Unknown::VerticalGridLine(before),
            distance as int,
        ),
    }
}

/// The strong relation that gives a block of fixed width its end edge:
/// `end == start + start padding + width + end padding`.
pub open spec fn fixed_width_rule(index: BlockIndex, block: Block) -> RelationView {
    offset_from(
        Unknown::BlockEnd(index),
        Operator::Equal,
        Strength::Strong,
        Unknown::BlockStart(index),
        block.start_padding + block.width + block.end_padding,
    )
}

/// The strong relation that gives a block of fixed height its bottom edge:
/// `bottom == top + top padding + height + bottom padding`.
pub open spec fn fixed_height_rule(index: BlockIndex, block: Block) -> RelationView {
    offset_from(
        Unknown::BlockBottom(index),
        Operator::Equal,
        Strength::Strong,
        Unknown::BlockTop(index),
        block.top_padding + block.height + block.bottom_padding,
    )
}

/// The relation that a rule of the block `index` stands for.
#[verifier::opaque]
pub open spec fn block_rule(index: BlockIndex, block: Block, constraint: BlockConstraint) -> RelationView {
    let top = Unknown::BlockTop(index);
    let bottom = Unknown::BlockBottom(index);
    let start = Unknown::BlockStart(index);
    let end = Unknown::BlockEnd(index);
    let lock = Operator::Equal;
    let strong = Strength::Strong;
    let weak = Strength::Weak;
    match constraint {
        BlockConstraint::LockTopToHorizontalGridLine(above) => offset_from(
            top,
            lock,
            strong,
            Unknown::HorizontalGridLine(above),
            block.top_padding as int,
        ),
        BlockConstraint::FloatTopAfterHorizontalGridLine(above) => offset_from(
            top,
            Operator::GreaterOrEqual,
            weak,
            Unknown::HorizontalGridLine(above),
            block.top_padding as int,
        ),
        BlockConstraint::FloatBottomBeforeHorizontalGridLine(below) => if block.fixed_height {
            offset_from(
                top,
                Operator::LessOrEqual,
                weak,
                Unknown::HorizontalGridLine(below),
                -block.height - block.bottom_padding,
            )
        } else {
            offset_from(
                bottom,
                Operator::LessOrEqual,
                weak,
                Unknown::HorizontalGridLine(below),
                -block.bottom_padding,
            )
        },
        BlockConstraint::LockBottomToHorizontalGridLine(below) => if block.fixed_height {
            offset_from(
                top,
                lock,
                strong,
                Unknown::HorizontalGridLine(below),
                -block.height - block.bottom_padding,
            )
        } else {
            offset_from(bottom, lock, strong, Unknown::HorizontalGridLine(below), -block.bottom_padding)
        },
        BlockConstraint::LockStartToVerticalGridLine(before) => offset_from(
            start,
            lock,
            strong,
            Unknown::VerticalGridLine(before),
            block.start_padding as int,
        ),
        BlockConstraint::FloatStartAfterVerticalGridLine(before) => offset_from(
            start,
            Operator::GreaterOrEqual,
            weak,
            Unknown::VerticalGridLine(before),
            block.start_padding as int,
        ),
        BlockConstraint::FloatEndBeforeVerticalGridLine(after) => if block.fixed_width {
            offset_from(
                start,
                Operator::LessOrEqual,
                weak,
                Unknown::VerticalGridLine(after),
                -block.width - block.end_padding,
            )
        } else {
            offset_from(end, Operator::LessOrEqual, weak, Unknown::VerticalGridLine(after), -block.end_padding)
        },
        BlockConstraint::LockEndToVerticalGridLine(after) => if block.fixed_width {
            offset_from(start, lock, strong, Unknown::VerticalGridLine(after), -block.width - block.end_padding)
        } else {
            offset_from(end, lock, strong, Unknown::VerticalGridLine(after), -block.end_padding)
        },
        BlockConstraint::LockVerticalCenterHalfwayBetweenHorizontalGridLines(above, below) => midway_between(
            top,
            lock,
            strong,
            Unknown::HorizontalGridLine(above),
            Unknown::HorizontalGridLine(below),
            -2 * block.descent,
        ),
        BlockConstraint::LockVerticalCenterToHorizontalGridLine(center) => offset_from(
            top,
            lock,
            strong,
            Unknown::HorizontalGridLine(center),
            -block.descent,
        ),
        BlockConstraint::LockHorizontalCenterHalfwayBetweenVerticalGridLines(before, after) => midway_between(
            start,
            lock,
            strong,
            Unknown::VerticalGridLine(before),
            Unknown::VerticalGridLine(after),
            -block.width,
        ),
        BlockConstraint::LockHorizontalCenterToVerticalGridLine(center) => half_offset_from(
            start,
            lock,
            strong,
            Unknown::VerticalGridLine(center),
            -block.width,
        ),
        BlockConstraint::PushHorizontalGridLineDownToAccommodateBlockHeight(below) => offset_from(
            Unknown::HorizontalGridLine(below),
            Operator::GreaterOrEqual,
            strong,
            top,
            block.height + block.bottom_padding,
        ),
        BlockConstraint::PushVerticalGridLineSidewaysToAccommodateBlockWidth(after) => offset_from(
            Unknown::VerticalGridLine(after),
            Operator::GreaterOrEqual,
            strong,
            start,
            block.width + block.end_padding,
        ),
        BlockConstraint::FloatAfterBlockByDistance(before, distance) => offset_from(
            start,
            Operator::GreaterOrEqual,
            weak,
            Unknown::BlockEnd(before),
            distance as int,
        ),
        BlockConstraint::FloatBeforeBlockByDistance(after, distance) => if block.fixed_width {
            offset_from(Unknown::BlockStart(after), Operator::GreaterOrEqual, weak, start, block.width + distance)
        } else {
            offset_from(Unknown::BlockStart(after), Operator::GreaterOrEqual, weak, end, distance as int)
        },
        BlockConstraint::FloatAboveBlockByDistance(beneath, distance) => if block.fixed_height {
            offset_from(Unknown::BlockTop(beneath), Operator::GreaterOrEqual, weak, top, block.height + distance)
        } else {
            offset_from(Unknown::BlockTop(beneath), Operator::GreaterOrEqual, weak, bottom, distance as int)
        },
        BlockConstraint::FloatBeneathBlockByDistance(above, distance) => offset_from(
            top,
            Operator::GreaterOrEqual,
            weak,
            Unknown::BlockBottom(above),
            distance as int,
        ),
        BlockConstraint::LockStartToBlockStart(other) => offset_from(
            start,
            lock,
            strong,
            Unknown::BlockStart(other),
            block.start_padding as int,
        ),
        BlockConstraint::LockEndToBlockEnd(other) => if block.fixed_width {
            offset_from(start, lock, strong, Unknown::BlockEnd(other), -block.width - block.end_padding)
        } else {
            offset_from(end, lock, strong, Unknown::BlockEnd(other), -block.end_padding)
        },
        BlockConstraint::LockTopToBlockTop(other) => offset_from(
            top,
            lock,
            strong,
            Unknown::BlockTop(other),
            block.top_padding as int,
        ),
        BlockConstraint::LockBottomToBlockBottom(other) => if block.fixed_height {
            offset_from(top, lock, strong, Unknown::BlockBottom(other), -block.height - block.bottom_padding)
        } else {
            offset_from(bottom, lock, strong, Unknown::BlockBottom(other), -block.bottom_padding)
        },
        BlockConstraint::LockHorizontalCenterBetweenBlocks(before, after) => midway_between(
            start,
            lock,
            strong,
            Unknown::BlockEnd(before),
            Unknown::BlockStart(after),
            -block.width,
        ),
        BlockConstraint::LockVerticalCenterBetweenBlocks(above, beneath) => midway_between(
            top,
            lock,
            strong,
            Unknown::BlockBottom(above),
            Unknown::BlockTop(beneath),
            -block.height,
        ),
        BlockConstraint::LockHorizontalCenterToBlockCenter(other) => middles_aligned(
            start,
            end,
            lock,
            strong,
            Unknown::BlockStart(other),
            Unknown::BlockEnd(other),
        ),
        BlockConstraint::FloatHorizontalCenterToBlockCenter(other) => middles_aligned(
            start,
            end,
            lock,
            weak,
            Unknown::BlockStart(other),
            Unknown::BlockEnd(other),
        ),
        BlockConstraint::LockVerticalCenterToBlockCenter(other) => middles_aligned(
            top,
            bottom,
            lock,
            strong,
            Unknown::BlockTop(other),
            Unknown::BlockBottom(other),
        ),
        BlockConstraint::LockAfterBlockByDistance(before, distance) => offset_from(
            start,
            lock,
            strong,
            Unknown::BlockEnd(before),
            distance as int,
        ),
        BlockConstraint::LockBeforeBlockByDistance(after, distance) => if block.fixed_width {
            offset_from(start, lock, strong, Unknown::BlockStart(after), -block.width - distance)
        } else {
            offset_from(end, lock, strong, Unknown::BlockStart(after), -distance)
        },
        BlockConstraint::LockAboveBlockByDistance(beneath, distance) => if block.fixed_height {
            offset_from(top, lock, strong, Unknown::BlockTop(beneath), -block.height - distance)
        } else {
            offset_from(bottom, lock, strong, Unknown::BlockTop(beneath), -distance)
        },
        BlockConstraint::LockBeneathBlockByDistance(above, distance) => offset_from(
            top,
            lock,
            strong,
            Unknown::BlockBottom(above),
            distance as int,
        ),
        BlockConstraint::LockTopToBlockCenter(other) => midway_between(
            top,
            lock,
            strong,
            Unknown::BlockTop(other),
            Unknown::BlockBottom(other),
            0,
        ),
        BlockConstraint::LockBottomToBlockCenter(other) => if block.fixed_height {
            midway_between(top, lock, strong, Unknown::BlockTop(other), Unknown::BlockBottom(other), -2 * block.height)
        } else {
            midway_between(bottom, lock, strong, Unknown::BlockTop(other), Unknown::BlockBottom(other), 0)
        },
    }
}

/// Reports the unknown as missing.
pub fn missing_unknown(unknown: Unknown) -> (error: EngravingError)
    requires
        !(unknown is AlignedStart),
    ensures
        error == missing(unknown),
{
    match unknown {
        Unknown::HorizontalGridLine(index) => EngravingError::UnknownHorizontalGridLine(index),
        Unknown::VerticalGridLine(index) => EngravingError::UnknownVerticalGridLine(index),
        Unknown::BlockTop(index) => EngravingError::UnknownBlockTopPosition(index),
        Unknown::BlockBottom(index) => EngravingError::UnknownBlockBottomPosition(index),
        Unknown::BlockStart(index) => EngravingError::UnknownBlockStartPosition(index),
        Unknown::BlockEnd(index) => EngravingError::UnknownBlockEndPosition(index),
        Unknown::AlignedStart => vstd::pervasive::unreached(),
    }
}

/// Whether a layout of the given size has the unknown.
pub fn has_unknown(counts: &UnknownCounts, unknown: Unknown) -> (has: bool)
    ensures
        has == counts.holds(unknown),
{
    match unknown {
        Unknown::HorizontalGridLine(index) => index < counts.horizontal_grid_lines,
        Unknown::VerticalGridLine(index) => index < counts.vertical_grid_lines,
        Unknown::BlockTop(index) => index < counts.blocks,
        Unknown::BlockBottom(index) => index < counts.blocks,
        Unknown::BlockStart(index) => index < counts.blocks,
        Unknown::BlockEnd(index) => index < counts.blocks,
        Unknown::AlignedStart => true,
    }
}

/// Hands the relation on if a layout of the given size has all its unknowns,
/// and reports the first missing one otherwise.
pub fn check_unknowns(relation: Relation, counts: &UnknownCounts) -> (result: Result<Relation, EngravingError>)
    ensures
        viewed(result) == checked(relation@, *counts),
        result is Ok <==> counts.holds_all(relation@),
{
    proof {
        nothing_missing(relation@.terms, *counts);
    }
    let mut i: usize = 0;
    proof {
        assert(relation@.terms.skip(0) =~= relation@.terms);
    }
    while i < relation.terms.len()
        invariant
            0 <= i <= relation.terms.len(),
            first_missing(relation@.terms, *counts) == first_missing(relation@.terms.skip(i as int), *counts),
            forall |j: int| 0 <= j < i ==> counts.holds(#[trigger] relation@.terms[j].unknown),
        decreases relation.terms.len() - i,
    {
        let unknown = relation.terms[i].unknown;
        proof {
            let rest = relation@.terms.skip(i as int);
            assert(rest[0] == relation@.terms[i as int]);
            assert(rest.skip(1) =~= relation@.terms.skip(i + 1));
        }
        if !has_unknown(counts, unknown) {
            return Err(missing_unknown(unknown));
        }
        i += 1;
    }
    proof {
        assert(relation@.terms.skip(i as int).len() == 0);
    }
    Ok(relation)
}

/// Turns a rule of the horizontal grid line `index` into its relation,
/// provided the layout has every grid line that the rule names.
pub fn horizontal_grid_line_relation(
    index: HorizontalGridLineIndex,
    constraint: &HorizontalGridLineConstraint,
    counts: &UnknownCounts,
) -> (result: Result<Relation, EngravingError>)
    ensures
        viewed(result) == checked(horizontal_grid_line_rule(index, *constraint), *counts),
        result is Ok <==> counts.holds_all(horizontal_grid_line_rule(index, *constraint)),
{
    let line = Unknown::HorizontalGridLine(index);
    let relation = match constraint {
        HorizontalGridLineConstraint::LockAboveHorizontalGridLineByDistance(below, distance) => {
            Relation::offset_from(
                line,
                Operator::Equal,
                Strength::Strong,
                Unknown::HorizontalGridLine(*below),
                -(*distance as i128),
            )
        },
        HorizontalGridLineConstraint::FloatAboveHorizontalGridLineByDistance(below, distance) => {
            Relation::offset_from(
                line,
                Operator::LessOrEqual,
                Strength::Weak,
                Unknown::HorizontalGridLine(*below),
                -(*distance as i128),
            )
        },
        HorizontalGridLineConstraint::LockBelowHorizontalGridLineByDistance(above, distance) => {
            Relation::offset_from(
                line,
                Operator::Equal,
                Strength::Strong,
                Unknown::HorizontalGridLine(*above),
                *distance as i128,
            )
        },
        HorizontalGridLineConstraint::FloatBelowHorizontalGridLineByDistance(above, distance) => {
            Relation::offset_from(
                line,
                Operator::GreaterOrEqual,
                Strength::Weak,
                Unknown::HorizontalGridLine(*above),
                *distance as i128,
            )
        },
        HorizontalGridLineConstraint::VerticallyCenterBetweenHorizontalGridLines(above, below) => {
            Relation::midway_between(
                line,
                Operator::Equal,
                Strength::Strong,
                Unknown::HorizontalGridLine(*above),
                Unknown::HorizontalGridLine(*below),
                0,
            )
        },
    };
    check_unknowns(relation, counts)
}

/// Turns a rule of the vertical grid line `index` into its relation,
/// provided the layout has every grid line that the rule names.
pub fn vertical_grid_line_relation(
    index: VerticalGridLineIndex,
    constraint: &VerticalGridLineConstraint,
    counts: &UnknownCounts,
) -> (result: Result<Relation, EngravingError>)
    ensures
        viewed(result) == checked(vertical_grid_line_rule(index, *constraint), *counts),
        result is Ok <==> counts.holds_all(vertical_grid_line_rule(index, *constraint)),
{
    let line = Unknown::VerticalGridLine(index);
    let relation = match constraint {
        VerticalGridLineConstraint::LockBeforeVerticalGridLineByDistance(after, distance) => {
            Relation::offset_from(
                line,
                Operator::Equal,
                Strength::Strong,
                Unknown::VerticalGridLine(*after),
                -(*distance as i128),
            )
        },
        VerticalGridLineConstraint::FloatBeforeVerticalGridLineByDistance(after, distance) => {
            Relation::offset_from(
                line,
                Operator::LessOrEqual,
                Strength::Weak,
                Unknown::VerticalGridLine(*after),
                -(*distance as i128),
            )
        },
        VerticalGridLineConstraint::LockAfterVerticalGridLineByDistance(before, distance) => {
            Relation::offset_from(
                line,
                Operator::Equal,
                Strength::Strong,
                Unknown::VerticalGridLine(*before),
                *distance as i128,
            )
        },
        VerticalGridLineConstraint::FloatAfterVerticalGridLineByDistance(before, distance) => {
            Relation::offset_from(
                line,
                Operator::GreaterOrEqual,
                Strength::Weak,
                Unknown::VerticalGridLine(*before),
                *distance as i128,
            )
        },
    };
    check_unknowns(relation, counts)
}

/// Turns a rule of the block `index` into its relation, provided the layout
/// has every grid line and block that the rule names.
pub fn block_relation(
    index: BlockIndex,
    block: &Block,
    constraint: &BlockConstraint,
    counts: &UnknownCounts,
) -> (result: Result<Relation, EngravingError>)
    ensures
        viewed(result) == checked(block_rule(index, *block, *constraint), *counts),
        result is Ok <==> counts.holds_all(block_rule(index, *block, *constraint)),
{
    proof {
        reveal(block_rule);
    }
    let top = Unknown::BlockTop(index);
    let bottom = Unknown::BlockBottom(index);
    let start = Unknown::BlockStart(index);
    let end = Unknown::BlockEnd(index);
    let lock = Operator::Equal;
    let at_least = Operator::GreaterOrEqual;
    let at_most = Operator::LessOrEqual;
    let strong = Strength::Strong;
    let weak = Strength::Weak;
    let width: i128 = block.get_fixed_width() as i128;
    let height: i128 = block.get_fixed_height() as i128;
    let descent: i128 = block.get_descent() as i128;
    let top_padding: i128 = block.get_top_padding() as i128;
    let bottom_padding: i128 = block.get_bottom_padding() as i128;
    let start_padding: i128 = block.get_start_padding() as i128;
    let end_padding: i128 = block.get_end_padding() as i128;
    let relation = match constraint {
        BlockConstraint::LockTopToHorizontalGridLine(above) => {
            Relation::offset_from(top, lock, strong, Unknown::HorizontalGridLine(*above), top_padding)
        },
        BlockConstraint::FloatTopAfterHorizontalGridLine(above) => {
            Relation::offset_from(top, at_least, weak, Unknown::HorizontalGridLine(*above), top_padding)
        },
        BlockConstraint::FloatBottomBeforeHorizontalGridLine(below) => {
            // A block of fixed height cannot stretch: its top has to move.
            if block.is_fixed_height() {
                Relation::offset_from(
                    top,
                    at_most,
                    weak,
                    Unknown::HorizontalGridLine(*below),
                    -height - bottom_padding,
                )
            } else {
                Relation::offset_from(bottom, at_most, weak, Unknown::HorizontalGridLine(*below), -bottom_padding)
            }
        },
        BlockConstraint::LockBottomToHorizontalGridLine(below) => {
            // A block of fixed height cannot stretch: its top has to move.
            if block.is_fixed_height() {
                Relation::offset_from(top, lock, strong, Unknown::HorizontalGridLine(*below), -height - bottom_padding)
            } else {
                Relation::offset_from(bottom, lock, strong, Unknown::HorizontalGridLine(*below), -bottom_padding)
            }
        },
        BlockConstraint::LockStartToVerticalGridLine(before) => {
            Relation::offset_from(start, lock, strong, Unknown::VerticalGridLine(*before), start_padding)
        },
        BlockConstraint::FloatStartAfterVerticalGridLine(before) => {
            Relation::offset_from(start, at_least, weak, Unknown::VerticalGridLine(*before), start_padding)
        },
        BlockConstraint::FloatEndBeforeVerticalGridLine(after) => {
            // A block of fixed width cannot stretch: its start has to move.
            if block.is_fixed_width() {
                Relation::offset_from(start, at_most, weak, Unknown::VerticalGridLine(*after), -width - end_padding)
            } else {
                Relation::offset_from(end, at_most, weak, Unknown::VerticalGridLine(*after), -end_padding)
            }
        },
        BlockConstraint::LockEndToVerticalGridLine(after) => {
            // A block of fixed width cannot stretch: its start has to move.
            if block.is_fixed_width() {
                Relation::offset_from(start, lock, strong, Unknown::VerticalGridLine(*after), -width - end_padding)
            } else {
                Relation::offset_from(end, lock, strong, Unknown::VerticalGridLine(*after), -end_padding)
            }
        },
        BlockConstraint::LockVerticalCenterHalfwayBetweenHorizontalGridLines(above, below) => {
            Relation::midway_between(
                top,
                lock,
                strong,
                Unknown::HorizontalGridLine(*above),
                Unknown::HorizontalGridLine(*below),
                -2 * descent,
            )
        },
        BlockConstraint::LockVerticalCenterToHorizontalGridLine(center) => {
            Relation::offset_from(top, lock, strong, Unknown::HorizontalGridLine(*center), -descent)
        },
        BlockConstraint::LockHorizontalCenterHalfwayBetweenVerticalGridLines(before, after) => {
            Relation::midway_between(
                start,
                lock,
                strong,
                Unknown::VerticalGridLine(*before),
                Unknown::VerticalGridLine(*after),
                -width,
            )
        },
        BlockConstraint::LockHorizontalCenterToVerticalGridLine(center) => {
            Relation::half_offset_from(start, lock, strong, Unknown::VerticalGridLine(*center), -width)
        },
        BlockConstraint::PushHorizontalGridLineDownToAccommodateBlockHeight(below) => {
            Relation::offset_from(
                Unknown::HorizontalGridLine(*below),
                at_least,
                strong,
                top,
                height + bottom_padding,
            )
        },
        BlockConstraint::PushVerticalGridLineSidewaysToAccommodateBlockWidth(after) => {
            Relation::offset_from(Unknown::VerticalGridLine(*after), at_least, strong, start, width + end_padding)
        },
        BlockConstraint::FloatAfterBlockByDistance(before, distance) => {
            Relation::offset_from(start, at_least, weak, Unknown::BlockEnd(*before), *distance as i128)
        },
        BlockConstraint::FloatBeforeBlockByDistance(after, distance) => {
            // A block of fixed width ends where its width ends.
            if block.is_fixed_width() {
                Relation::offset_from(Unknown::BlockStart(*after), at_least, weak, start, width + *distance as i128)
            } else {
                Relation::offset_from(Unknown::BlockStart(*after), at_least, weak, end, *distance as i128)
            }
        },
        BlockConstraint::FloatAboveBlockByDistance(beneath, distance) => {
            // A block of fixed height ends where its height ends.
            if block.is_fixed_height() {
                Relation::offset_from(Unknown::BlockTop(*beneath), at_least, weak, top, height + *distance as i128)
            } else {
                Relation::offset_from(Unknown::BlockTop(*beneath), at_least, weak, bottom, *distance as i128)
            }
        },
        BlockConstraint::FloatBeneathBlockByDistance(above, distance) => {
            Relation::offset_from(top, at_least, weak, Unknown::BlockBottom(*above), *distance as i128)
        },
        BlockConstraint::LockStartToBlockStart(other) => {
            Relation::offset_from(start, lock, strong, Unknown::BlockStart(*other), start_padding)
        },
        BlockConstraint::LockEndToBlockEnd(other) => {
            // A block of fixed width cannot stretch: its start has to move.
            if block.is_fixed_width() {
                Relation::offset_from(start, lock, strong, Unknown::BlockEnd(*other), -width - end_padding)
            } else {
                Relation::offset_from(end, lock, strong, Unknown::BlockEnd(*other), -end_padding)
            }
        },
        BlockConstraint::LockTopToBlockTop(other) => {
            Relation::offset_from(top, lock, strong, Unknown::BlockTop(*other), top_padding)
        },
        BlockConstraint::LockBottomToBlockBottom(other) => {
            // A block of fixed height cannot stretch: its top has to move.
            if block.is_fixed_height() {
                Relation::offset_from(top, lock, strong, Unknown::BlockBottom(*other), -height - bottom_padding)
            } else {
                Relation::offset_from(bottom, lock, strong, Unknown::BlockBottom(*other), -bottom_padding)
            }
        },
        BlockConstraint::LockHorizontalCenterBetweenBlocks(before, after) => {
            Relation::midway_between(
                start,
                lock,
                strong,
                Unknown::BlockEnd(*before),
                Unknown::BlockStart(*after),
                -width,
            )
        },
        BlockConstraint::LockVerticalCenterBetweenBlocks(above, beneath) => {
            Relation::midway_between(
                top,
                lock,
                strong,
                Unknown::BlockBottom(*above),
                Unknown::BlockTop(*beneath),
                -height,
            )
        },
        BlockConstraint::LockHorizontalCenterToBlockCenter(other) => {
            Relation::middles_aligned(
                start,
                end,
                lock,
                strong,
                Unknown::BlockStart(*other),
                Unknown::BlockEnd(*other),
            )
        },
        BlockConstraint::FloatHorizontalCenterToBlockCenter(other) => {
            Relation::middles_aligned(start, end, lock, weak, Unknown::BlockStart(*other), Unknown::BlockEnd(*other))
        },
        BlockConstraint::LockVerticalCenterToBlockCenter(other) => {
            Relation::middles_aligned(
                top,
                bottom,
                lock,
                strong,
                Unknown::BlockTop(*other),
                Unknown::BlockBottom(*other),
            )
        },
        BlockConstraint::LockAfterBlockByDistance(before, distance) => {
            Relation::offset_from(start, lock, strong, Unknown::BlockEnd(*before), *distance as i128)
        },
        BlockConstraint::LockBeforeBlockByDistance(after, distance) => {
            // A block of fixed width cannot stretch: its start has to move.
            if block.is_fixed_width() {
                Relation::offset_from(start, lock, strong, Unknown::BlockStart(*after), -width - *distance as i128)
            } else {
                Relation::offset_from(end, lock, strong, Unknown::BlockStart(*after), -(*distance as i128))
            }
        },
        BlockConstraint::LockAboveBlockByDistance(beneath, distance) => {
            // A block of fixed height cannot stretch: its top has to move.
            if block.is_fixed_height() {
                Relation::offset_from(top, lock, strong, Unknown::BlockTop(*beneath), -height - *distance as i128)
            } else {
                Relation::offset_from(bottom, lock, strong, Unknown::BlockTop(*beneath), -(*distance as i128))
            }
        },
        BlockConstraint::LockBeneathBlockByDistance(above, distance) => {
            Relation::offset_from(top, lock, strong, Unknown::BlockBottom(*above), *distance as i128)
        },
        BlockConstraint::LockTopToBlockCenter(other) => {
            Relation::midway_between(top, lock, strong, Unknown::BlockTop(*other), Unknown::BlockBottom(*other), 0)
        },
        BlockConstraint::LockBottomToBlockCenter(other) => {
            // A block of fixed height cannot stretch: its top has to move.
            if block.is_fixed_height() {
                Relation::midway_between(
                    top,
                    lock,
                    strong,
                    Unknown::BlockTop(*other),
                    Unknown::BlockBottom(*other),
                    -2 * height,
                )
            } else {
                Relation::midway_between(
                    bottom,
                    lock,
                    strong,
                    Unknown::BlockTop(*other),
                    Unknown::BlockBottom(*other),
                    0,
                )
            }
        },
    };
    check_unknowns(relation, counts)
}

/// The relation that gives a block of fixed width its end edge.
pub fn fixed_width_relation(index: BlockIndex, block: &Block) -> (relation: Relation)
    ensures
        relation@ == fixed_width_rule(index, *block),
{
    let extent: i128 = block.get_start_padding() as i128 + block.get_fixed_width() as i128
        + block.get_end_padding() as i128;
    Relation::offset_from(
        Unknown::BlockEnd(index),
        Operator::Equal,
        Strength::Strong,
        Unknown::BlockStart(index),
        extent,
    )
}

/// The relation that gives a block of fixed height its bottom edge.
pub fn fixed_height_relation(index: BlockIndex, block: &Block) -> (relation: Relation)
    ensures
        relation@ == fixed_height_rule(index, *block),
{
    let extent: i128 = block.get_top_padding() as i128 + block.get_fixed_height() as i128
        + block.get_bottom_padding() as i128;
    Relation::offset_from(
        Unknown::BlockBottom(index),
        Operator::Equal,
        Strength::Strong,
        Unknown::BlockTop(index),
        extent,
    )
}

} // verus!
