//! Linear relations between the unknown coordinates of a layout.
//!
//! Every rule of a grid line or a block becomes one relation of the form
//! `c1·u1 + … + cn·un + constant  op  0` with whole coefficients, where `op`
//! is `<=`, `==` or `>=`. A relation has a strength: a required relation must
//! hold, a strong one gives way only to required ones, a weak one to both.

use vstd::prelude::*;
use crate::units::{BlockIndex, HorizontalGridLineIndex, VerticalGridLineIndex};

verus! {

/// One unknown coordinate of a layout.
#[derive(Debug, Clone, Copy, PartialEq, Eq, Structural)]
pub enum Unknown {
    /// The y position of a horizontal grid line.
    HorizontalGridLine(HorizontalGridLineIndex),
    /// The x position of a vertical grid line.
    VerticalGridLine(VerticalGridLineIndex),
    /// The y position of the top edge of a block.
    BlockTop(BlockIndex),
    /// The y position of the bottom edge of a block.
    BlockBottom(BlockIndex),
    /// The x position of the start edge of a block.
    BlockStart(BlockIndex),
    /// The x position of the end edge of a block.
    BlockEnd(BlockIndex),
    /// The x position at which the system starts once it is justified.
    AlignedStart,
}

/// How the left-hand side of a relation compares with zero.
#[derive(Debug, Clone, Copy, PartialEq, Eq, Structural)]
pub enum Operator {
    LessOrEqual,
    Equal,
    GreaterOrEqual,
}

/// How firmly a relation is to be held.
#[derive(Debug, Clone, Copy, PartialEq, Eq, Structural)]
pub enum Strength {
    Required,
    Strong,
    Weak,
}

/// An unknown with its whole coefficient.
#[derive(Debug, Clone, Copy, PartialEq, Eq, Structural)]
pub struct Term {
    pub unknown: Unknown,
    pub coefficient: i32,
}

/// A linear relation as the solver receives it.
#[derive(Debug, Clone)]
pub struct Relation {
    pub terms: Vec<Term>,
    pub constant: i128,
    pub operator: Operator,
    pub strength: Strength,
}

/// The mathematical content of a [`Relation`].
pub struct RelationView {
    pub terms: Seq<Term>,
    pub constant: int,
    pub operator: Operator,
    pub strength: Strength,
}

impl View for Relation {
    type V = RelationView;

    open spec fn view(&self) -> RelationView {
        RelationView {
            terms: self.terms@,
            constant: self.constant as int,
            operator: self.operator,
            strength: self.strength,
        }
    }
}

/// A value for every unknown of a layout.
pub struct Assignment {
    pub horizontal_grid_lines: Seq<int>,
    pub vertical_grid_lines: Seq<int>,
    pub block_tops: Seq<int>,
    pub block_bottoms: Seq<int>,
    pub block_starts: Seq<int>,
    pub block_ends: Seq<int>,
    pub aligned_start: int,
}

/// How many unknowns of each kind a layout has.
#[derive(Debug, Clone, Copy, PartialEq, Eq, Structural)]
pub struct UnknownCounts {
    pub horizontal_grid_lines: usize,
    pub vertical_grid_lines: usize,
    pub blocks: usize,
}

impl UnknownCounts {
    /// Whether a layout of this size has the unknown.
    pub open spec fn holds(self, unknown: Unknown) -> bool {
        match unknown {
            Unknown::HorizontalGridLine(index) => index < self.horizontal_grid_lines,
            Unknown::VerticalGridLine(index) => index < self.vertical_grid_lines,
            Unknown::BlockTop(index) => index < self.blocks,
            Unknown::BlockBottom(index) => index < self.blocks,
            Unknown::BlockStart(index) => index < self.blocks,
            Unknown::BlockEnd(index) => index < self.blocks,
            Unknown::AlignedStart => true,
        }
    }

    /// Whether a layout of this size has every unknown of the relation.
    pub open spec fn holds_all(self, relation: RelationView) -> bool {
        forall |i: int| 0 <= i < relation.terms.len() ==> self.holds(#[trigger] relation.terms[i].unknown)
    }
}

impl Assignment {
    /// Whether the assignment has a value for every unknown of a layout of
    /// the given size.
    pub open spec fn fits(self, counts: UnknownCounts) -> bool {
        &&& self.horizontal_grid_lines.len() == counts.horizontal_grid_lines
        &&& self.vertical_grid_lines.len() == counts.vertical_grid_lines
        &&& self.block_tops.len() == counts.blocks
        &&& self.block_bottoms.len() == counts.blocks
        &&& self.block_starts.len() == counts.blocks
        &&& self.block_ends.len() == counts.blocks
    }

    /// The value of an unknown.
    pub open spec fn value(self, unknown: Unknown) -> int {
        match unknown {
            Unknown::HorizontalGridLine(index) => self.horizontal_grid_lines[index as int],
            Unknown::VerticalGridLine(index) => self.vertical_grid_lines[index as int],
            Unknown::BlockTop(index) => self.block_tops[index as int],
            Unknown::BlockBottom(index) => self.block_bottoms[index as int],
            Unknown::BlockStart(index) => self.block_starts[index as int],
            Unknown::BlockEnd(index) => self.block_ends[index as int],
            Unknown::AlignedStart => self.aligned_start,
        }
    }

    /// The sum of the terms, each unknown weighted by its coefficient.
    pub open spec fn sum(self, terms: Seq<Term>) -> int
        decreases terms.len(),
    {
        if terms.len() == 0 {
            0
        } else {
            self.sum(terms.drop_last()) + terms.last().coefficient * self.value(terms.last().unknown)
        }
    }

    /// Whether the assignment satisfies the relation.
    pub open spec fn satisfies(self, relation: RelationView) -> bool {
        let left = self.sum(relation.terms) + relation.constant;
        match relation.operator {
            Operator::LessOrEqual => left <= 0,
            Operator::Equal => left == 0,
            Operator::GreaterOrEqual => left >= 0,
        }
    }
}

/// Whether `left op right`.
pub open spec fn compares(left: int, operator: Operator, right: int) -> bool {
    match operator {
        Operator::LessOrEqual => left <= right,
        Operator::Equal => left == right,
        Operator::GreaterOrEqual => left >= right,
    }
}

/// The relation `target op 0`.
pub open spec fn pinned(target: Unknown, operator: Operator, strength: Strength) -> RelationView {
    RelationView {
        terms: seq![Term { unknown: target, coefficient: 1 }],
        constant: 0,
        operator,
        strength,
    }
}

/// The relation `target op anchor + offset`.
pub open spec fn offset_from(
    target: Unknown,
    operator: Operator,
    strength: Strength,
    anchor: Unknown,
    offset: int,
) -> RelationView {
    RelationView {
        terms: seq![Term { unknown: target, coefficient: 1 }, Term { unknown: anchor, coefficient: -1i32 }],
        constant: -offset,
        operator,
        strength,
    }
}

/// The relation `2·target op 2·anchor + offset`: the target lies half the
/// offset from the anchor.
pub open spec fn half_offset_from(
    target: Unknown,
    operator: Operator,
    strength: Strength,
    anchor: Unknown,
    offset: int,
) -> RelationView {
    RelationView {
        terms: seq![Term { unknown: target, coefficient: 2 }, Term { unknown: anchor, coefficient: -2i32 }],
        constant: -offset,
        operator,
        strength,
    }
}

/// The relation `2·target op first + second + offset`: the target lies half
/// the offset from the middle of the two anchors.
pub open spec fn midway_between(
    target: Unknown,
    operator: Operator,
    strength: Strength,
    first: Unknown,
    second: Unknown,
    offset: int,
) -> RelationView {
    RelationView {
        terms: seq![
            Term { unknown: target, coefficient: 2 },
            Term { unknown: first, coefficient: -1i32 },
            Term { unknown: second, coefficient: -1i32 },
        ],
        constant: -offset,
        operator,
        strength,
    }
}

/// The relation `low + high op other_low + other_high`: the middle of one
/// pair of edges compares with the middle of the other pair.
pub open spec fn middles_aligned(
    low: Unknown,
    high: Unknown,
    operator: Operator,
    strength: Strength,
    other_low: Unknown,
    other_high: Unknown,
) -> RelationView {
    RelationView {
        terms: seq![
            Term { unknown: low, coefficient: 1 },
            Term { unknown: high, coefficient: 1 },
            Term { unknown: other_low, coefficient: -1i32 },
            Term { unknown: other_high, coefficient: -1i32 },
        ],
        constant: 0,
        operator,
        strength,
    }
}

impl Relation {
    /// Builds [`pinned`].
    pub fn pinned(target: Unknown, operator: Operator, strength: Strength) -> (relation: Relation)
        ensures
            relation@ == pinned(target, operator, strength),
    {
        let mut terms: Vec<Term> = Vec::new();
        terms.push(Term { unknown: target, coefficient: 1 });
        let relation = Relation { terms, constant: 0, operator, strength };
        assert(relation@.terms =~= pinned(target, operator, strength).terms);
        relation
    }

    /// Builds [`offset_from`].
    pub fn offset_from(
        target: Unknown,
        operator: Operator,
        strength: Strength,
        anchor: Unknown,
        offset: i128,
    ) -> (relation: Relation)
        requires
            offset > i128::MIN,
        ensures
            relation@ == offset_from(target, operator, strength, anchor, offset as int),
    {
        let mut terms: Vec<Term> = Vec::new();
        terms.push(Term { unknown: target, coefficient: 1 });
        terms.push(Term { unknown: anchor, coefficient: -1i32 });
        let relation = Relation { terms, constant: -offset, operator, strength };
        assert(relation@.terms =~= offset_from(target, operator, strength, anchor, offset as int).terms);
        relation
    }

    /// Builds [`half_offset_from`].
    pub fn half_offset_from(
        target: Unknown,
        operator: Operator,
        strength: Strength,
        anchor: Unknown,
        offset: i128,
    ) -> (relation: Relation)
        requires
            offset > i128::MIN,
        ensures
            relation@ == half_offset_from(target, operator, strength, anchor, offset as int),
    {
        let mut terms: Vec<Term> = Vec::new();
        terms.push(Term { unknown: target, coefficient: 2 });
        terms.push(Term { unknown: anchor, coefficient: -2i32 });
        let relation = Relation { terms, constant: -offset, operator, strength };
        assert(relation@.terms =~= half_offset_from(target, operator, strength, anchor, offset as int).terms);
        relation
    }

    /// Builds [`midway_between`].
    pub fn midway_between(
        target: Unknown,
        operator: Operator,
        strength: Strength,
        first: Unknown,
        second: Unknown,
        offset: i128,
    ) -> (relation: Relation)
        requires
            offset > i128::MIN,
        ensures
            relation@ == midway_between(target, operator, strength, first, second, offset as int),
    {
        let mut terms: Vec<Term> = Vec::new();
        terms.push(Term { unknown: target, coefficient: 2 });
        terms.push(Term { unknown: first, coefficient: -1i32 });
        terms.push(Term { unknown: second, coefficient: -1i32 });
        let relation = Relation { terms, constant: -offset, operator, strength };
        assert(relation@.terms =~= midway_between(target, operator, strength, first, second, offset as int).terms);
        relation
    }

    /// Builds [`middles_aligned`].
    pub fn middles_aligned(
        low: Unknown,
        high: Unknown,
        operator: Operator,
        strength: Strength,
        other_low: Unknown,
        other_high: Unknown,
    ) -> (relation: Relation)
        ensures
            relation@ == middles_aligned(low, high, operator, strength, other_low, other_high),
    {
        let mut terms: Vec<Term> = Vec::new();
        terms.push(Term { unknown: low, coefficient: 1 });
        terms.push(Term { unknown: high, coefficient: 1 });
        terms.push(Term { unknown: other_low, coefficient: -1i32 });
        terms.push(Term { unknown: other_high, coefficient: -1i32 });
        let relation = Relation { terms, constant: 0, operator, strength };
        assert(relation@.terms =~= middles_aligned(low, high, operator, strength, other_low, other_high).terms);
        relation
    }
}

/// Adding a term to a sum adds the value of its unknown, weighted by its
/// coefficient.
pub proof fn sum_of_push(values: Assignment, terms: Seq<Term>, term: Term)
    ensures
        values.sum(terms.push(term)) == values.sum(terms) + term.coefficient * values.value(term.unknown),
{
    assert(terms.push(term).drop_last() =~= terms);
    assert(terms.push(term).last() == term);
}

/// An assignment satisfies `pinned` exactly when the target compares with
/// zero as the operator says.
pub proof fn pinned_means(values: Assignment, target: Unknown, operator: Operator, strength: Strength)
    ensures
        values.satisfies(pinned(target, operator, strength)) <==> compares(values.value(target), operator, 0),
{
    let none = Seq::<Term>::empty();
    let one = Term { unknown: target, coefficient: 1 };
    sum_of_push(values, none, one);
    assert(pinned(target, operator, strength).terms =~= none.push(one));
}

/// An assignment satisfies `offset_from` exactly when the target compares
/// with the anchor moved by the offset.
pub proof fn offset_from_means(
    values: Assignment,
    target: Unknown,
    operator: Operator,
    strength: Strength,
    anchor: Unknown,
    offset: int,
)
    ensures
        values.satisfies(offset_from(target, operator, strength, anchor, offset))
            <==> compares(values.value(target), operator, values.value(anchor) + offset),
{
    let none = Seq::<Term>::empty();
    let one = Term { unknown: target, coefficient: 1 };
    let two = Term { unknown: anchor, coefficient: -1i32 };
    sum_of_push(values, none, one);
    sum_of_push(values, none.push(one), two);
    assert(offset_from(target, operator, strength, anchor, offset).terms =~= none.push(one).push(two));
}

/// An assignment satisfies `half_offset_from` exactly when twice the target
/// compares with twice the anchor moved by the offset.
pub proof fn half_offset_from_means(
    values: Assignment,
    target: Unknown,
    operator: Operator,
    strength: Strength,
    anchor: Unknown,
    offset: int,
)
    ensures
        values.satisfies(half_offset_from(target, operator, strength, anchor, offset))
            <==> compares(2 * values.value(target), operator, 2 * values.value(anchor) + offset),
{
    let none = Seq::<Term>::empty();
    let one = Term { unknown: target, coefficient: 2 };
    let two = Term { unknown: anchor, coefficient: -2i32 };
    sum_of_push(values, none, one);
    sum_of_push(values, none.push(one), two);
    assert(half_offset_from(target, operator, strength, anchor, offset).terms =~= none.push(one).push(two));
}

/// An assignment satisfies `midway_between` exactly when twice the target
/// compares with the sum of the two anchors moved by the offset.
pub proof fn midway_between_means(
    values: Assignment,
    target: Unknown,
    operator: Operator,
    strength: Strength,
    first: Unknown,
    second: Unknown,
    offset: int,
)
    ensures
        values.satisfies(midway_between(target, operator, strength, first, second, offset))
            <==> compares(2 * values.value(target), operator, values.value(first) + values.value(second) + offset),
{
    let none = Seq::<Term>::empty();
    let one = Term { unknown: target, coefficient: 2 };
    let two = Term { unknown: first, coefficient: -1i32 };
    let three = Term { unknown: second, coefficient: -1i32 };
    sum_of_push(values, none, one);
    sum_of_push(values, none.push(one), two);
    sum_of_push(values, none.push(one).push(two), three);
    assert(midway_between(target, operator, strength, first, second, offset).terms
        =~= none.push(one).push(two).push(three));
}

/// An assignment satisfies `middles_aligned` exactly when the sum of one
/// pair of edges compares with the sum of the other pair.
pub proof fn middles_aligned_means(
    values: Assignment,
    low: Unknown,
    high: Unknown,
    operator: Operator,
    strength: Strength,
    other_low: Unknown,
    other_high: Unknown,
)
    ensures
        values.satisfies(middles_aligned(low, high, operator, strength, other_low, other_high))
            <==> compares(
            values.value(low) + values.value(high),
            operator,
            values.value(other_low) + values.value(other_high),
        ),
{
    let none = Seq::<Term>::empty();
    let one = Term { unknown: low, coefficient: 1 };
    let two = Term { unknown: high, coefficient: 1 };
    let three = Term { unknown: other_low, coefficient: -1i32 };
    let four = Term { unknown: other_high, coefficient: -1i32 };
    sum_of_push(values, none, one);
    sum_of_push(values, none.push(one), two);
    sum_of_push(values, none.push(one).push(two), three);
    sum_of_push(values, none.push(one).push(two).push(three), four);
    assert(middles_aligned(low, high, operator, strength, other_low, other_high).terms
        =~= none.push(one).push(two).push(three).push(four));
}

} // verus!
