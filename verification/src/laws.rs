//! What follows from the rules of a layout, whatever the solver does.
//!
//! The solver is trusted to look for values that satisfy the relations it
//! was given, the stronger ones first. The statements here say what any
//! values that do satisfy a relation look like, and which relations a
//! system hands over in the first place.

use vstd::prelude::*;
use crate::block::{Block, BlockConstraint, BlockLayer};
use crate::collision::Extents;
use crate::engrave::{rules_of_block, rules_of_blocks, sizing_of_block};
use crate::engraving::{drawn_on, layer_of, placed, Engravable};
use crate::grid::{HorizontalGridLine, HorizontalGridLineConstraint, VerticalGridLine, VerticalGridLineConstraint};
use crate::posting::{Attempt, Owner};
use crate::relation::{offset_from_means, Assignment, Operator, Strength, Unknown, UnknownCounts};
use crate::rules::{
    block_rule, fixed_height_rule, fixed_width_rule, horizontal_grid_line_rule, nothing_missing,
    vertical_grid_line_rule,
};
use crate::units::{BlockIndex, HorizontalGridLineIndex, StaveSpaces, VerticalGridLineIndex};

verus! {

/// Whether the rule places its line after the named line, by a distance
/// that is not negative.
pub open spec fn places_after(constraint: VerticalGridLineConstraint, before: VerticalGridLineIndex) -> bool {
    match constraint {
        VerticalGridLineConstraint::LockAfterVerticalGridLineByDistance(named, distance) => named == before
            && distance >= 0,
        VerticalGridLineConstraint::FloatAfterVerticalGridLineByDistance(named, distance) => named == before
            && distance >= 0,
        _ => false,
    }
}

/// Whether the rule places its line below the named line, by a distance
/// that is not negative.
pub open spec fn places_below(constraint: HorizontalGridLineConstraint, above: HorizontalGridLineIndex) -> bool {
    match constraint {
        HorizontalGridLineConstraint::LockBelowHorizontalGridLineByDistance(named, distance) => named == above
            && distance >= 0,
        HorizontalGridLineConstraint::FloatBelowHorizontalGridLineByDistance(named, distance) => named == above
            && distance >= 0,
        _ => false,
    }
}

/// "After" means a larger x: values that satisfy a rule which places a
/// vertical grid line after another give the line an x position that is no
/// smaller than that of the other.
pub proof fn after_means_larger(
    values: Assignment,
    index: VerticalGridLineIndex,
    constraint: VerticalGridLineConstraint,
    before: VerticalGridLineIndex,
)
    requires
        places_after(constraint, before),
        values.satisfies(vertical_grid_line_rule(index, constraint)),
    ensures
        values.vertical_grid_lines[index as int] >= values.vertical_grid_lines[before as int],
{
    match constraint {
        VerticalGridLineConstraint::LockAfterVerticalGridLineByDistance(named, distance) => {
            offset_from_means(
                values,
                Unknown::VerticalGridLine(index),
                Operator::Equal,
                Strength::Strong,
                Unknown::VerticalGridLine(named),
                distance as int,
            );
        },
        VerticalGridLineConstraint::FloatAfterVerticalGridLineByDistance(named, distance) => {
            offset_from_means(
                values,
                Unknown::VerticalGridLine(index),
                Operator::GreaterOrEqual,
                Strength::Weak,
                Unknown::VerticalGridLine(named),
                distance as int,
            );
        },
        _ => {},
    }
}

/// "Below" means a larger y: values that satisfy a rule which places a
/// horizontal grid line below another give the line a y position that is no
/// smaller than that of the other.
pub proof fn below_means_larger(
    values: Assignment,
    index: HorizontalGridLineIndex,
    constraint: HorizontalGridLineConstraint,
    above: HorizontalGridLineIndex,
)
    requires
        places_below(constraint, above),
        values.satisfies(horizontal_grid_line_rule(index, constraint)),
    ensures
        values.horizontal_grid_lines[index as int] >= values.horizontal_grid_lines[above as int],
{
    match constraint {
        HorizontalGridLineConstraint::LockBelowHorizontalGridLineByDistance(named, distance) => {
            offset_from_means(
                values,
                Unknown::HorizontalGridLine(index),
                Operator::Equal,
                Strength::Strong,
                Unknown::HorizontalGridLine(named),
                distance as int,
            );
        },
        HorizontalGridLineConstraint::FloatBelowHorizontalGridLineByDistance(named, distance) => {
            offset_from_means(
                values,
                Unknown::HorizontalGridLine(index),
                Operator::GreaterOrEqual,
                Strength::Weak,
                Unknown::HorizontalGridLine(named),
                distance as int,
            );
        },
        _ => {},
    }
}

/// Whether each line of the chain but the first carries a rule that places
/// it after the line before it in the chain, and the values satisfy that
/// rule.
pub open spec fn chained_after(values: Assignment, lines: Seq<VerticalGridLine>, chain: Seq<VerticalGridLineIndex>) -> bool {
    forall |link: int|
        0 < link < chain.len() ==> chain[link] < lines.len() && exists |rule: int|
            0 <= rule < lines[chain[link] as int].spec_constraints().len() && places_after(
                #[trigger] lines[chain[link] as int].spec_constraints()[rule],
                chain[link - 1],
            ) && values.satisfies(
                vertical_grid_line_rule(chain[link], lines[chain[link] as int].spec_constraints()[rule]),
            )
}

/// Along a chain of vertical grid lines, each placed after the one before
/// it, the x positions never decrease, for any values that satisfy the
/// rules of the chain.
pub proof fn chain_is_ordered(
    values: Assignment,
    lines: Seq<VerticalGridLine>,
    chain: Seq<VerticalGridLineIndex>,
    earlier: int,
    later: int,
)
    requires
        chained_after(values, lines, chain),
        0 <= earlier <= later < chain.len(),
    ensures
        values.vertical_grid_lines[chain[earlier] as int] <= values.vertical_grid_lines[chain[later] as int],
    decreases later - earlier,
{
    if earlier < later {
        chain_is_ordered(values, lines, chain, earlier, later - 1);
        let line = lines[chain[later] as int];
        let rule = choose |rule: int|
            0 <= rule < line.spec_constraints().len() && places_after(
                #[trigger] line.spec_constraints()[rule],
                chain[later - 1],
            ) && values.satisfies(vertical_grid_line_rule(chain[later], line.spec_constraints()[rule]));
        after_means_larger(values, chain[later], line.spec_constraints()[rule], chain[later - 1]);
    }
}

/// A block of fixed width is sized whatever rules it carries: the first
/// thing that the solver is handed about it is the relation
/// `end == start + start padding + width + end padding`, and values that
/// satisfy this relation make the block exactly that wide.
pub proof fn fixed_width_is_handed_over(index: BlockIndex, block: Block, counts: UnknownCounts, values: Assignment)
    requires
        block.fixed_width,
        index < counts.blocks,
    ensures
        rules_of_block(index as int, block, counts).len() > 0,
        rules_of_block(index as int, block, counts)[0] == (Attempt {
            owner: Owner::Block(index),
            relation: Ok(fixed_width_rule(index, block)),
        }),
        values.satisfies(fixed_width_rule(index, block)) <==> values.block_ends[index as int]
            - values.block_starts[index as int] == block.start_padding + block.width + block.end_padding,
{
    nothing_missing(fixed_width_rule(index, block).terms, counts);
    offset_from_means(
        values,
        Unknown::BlockEnd(index),
        Operator::Equal,
        Strength::Strong,
        Unknown::BlockStart(index),
        block.start_padding + block.width + block.end_padding,
    );
    let sizing = sizing_of_block(index as int, block, counts);
    assert(sizing.len() > 0);
}

/// A block of fixed height is sized whatever rules it carries: the solver
/// is handed the relation
/// `bottom == top + top padding + height + bottom padding`, and values that
/// satisfy this relation make the block exactly that high.
pub proof fn fixed_height_is_handed_over(index: BlockIndex, block: Block, counts: UnknownCounts, values: Assignment)
    requires
        block.fixed_height,
        index < counts.blocks,
    ensures
        rules_of_block(index as int, block, counts).contains(
            Attempt { owner: Owner::Block(index), relation: Ok(fixed_height_rule(index, block)) },
        ),
        values.satisfies(fixed_height_rule(index, block)) <==> values.block_bottoms[index as int]
            - values.block_tops[index as int] == block.top_padding + block.height + block.bottom_padding,
{
    nothing_missing(fixed_height_rule(index, block).terms, counts);
    offset_from_means(
        values,
        Unknown::BlockBottom(index),
        Operator::Equal,
        Strength::Strong,
        Unknown::BlockTop(index),
        block.top_padding + block.height + block.bottom_padding,
    );
    let all = rules_of_block(index as int, block, counts);
    let height = Attempt { owner: Owner::Block(index), relation: Ok(fixed_height_rule(index, block)) };
    if block.fixed_width {
        assert(all[1] == height);
    } else {
        assert(all[0] == height);
    }
}

/// Everything that is handed over about one block of a system is among
/// what is handed over about all its blocks.
pub proof fn block_rules_are_system_rules(blocks: Seq<Block>, counts: UnknownCounts, index: int, attempt: Attempt)
    requires
        0 <= index < blocks.len(),
        rules_of_block(index, blocks[index], counts).contains(attempt),
    ensures
        rules_of_blocks(blocks, counts, blocks.len() as int).contains(attempt),
{
    contained_from(blocks, counts, index, blocks.len() as int, attempt);
}

proof fn contained_from(blocks: Seq<Block>, counts: UnknownCounts, index: int, count: int, attempt: Attempt)
    requires
        0 <= index < count <= blocks.len(),
        rules_of_block(index, blocks[index], counts).contains(attempt),
    ensures
        rules_of_blocks(blocks, counts, count).contains(attempt),
    decreases count,
{
    let earlier = rules_of_blocks(blocks, counts, count - 1);
    let last = rules_of_block(count - 1, blocks[count - 1], counts);
    if index == count - 1 {
        let at = choose |at: int| 0 <= at < last.len() && last[at] == attempt;
        assert((earlier + last)[earlier.len() + at] == attempt);
    } else {
        contained_from(blocks, counts, index, count - 1, attempt);
        let at = choose |at: int| 0 <= at < earlier.len() && earlier[at] == attempt;
        assert((earlier + last)[at] == attempt);
    }
}

/// For a block of fixed width, a rule on its end is rewritten as a rule on
/// its start. Where the block has its fixed width, values satisfy the
/// rewritten relation exactly when the end of the block lies where the
/// rule puts it, moved by the padding that the fixed width carries: at the
/// grid line or the end of the other block, or before it for a floating
/// rule, or the distance before the start of the other block.
pub proof fn rule_on_end_is_kept_by_start(
    values: Assignment,
    index: BlockIndex,
    block: Block,
    after: VerticalGridLineIndex,
    other: BlockIndex,
    distance: StaveSpaces,
)
    requires
        block.fixed_width,
        values.satisfies(fixed_width_rule(index, block)),
    ensures
        values.satisfies(block_rule(index, block, BlockConstraint::LockEndToVerticalGridLine(after)))
            <==> values.block_ends[index as int] == values.vertical_grid_lines[after as int] + block.start_padding,
        values.satisfies(block_rule(index, block, BlockConstraint::FloatEndBeforeVerticalGridLine(after)))
            <==> values.block_ends[index as int] <= values.vertical_grid_lines[after as int] + block.start_padding,
        values.satisfies(block_rule(index, block, BlockConstraint::LockEndToBlockEnd(other)))
            <==> values.block_ends[index as int] == values.block_ends[other as int] + block.start_padding,
        values.satisfies(block_rule(index, block, BlockConstraint::LockBeforeBlockByDistance(other, distance)))
            <==> values.block_ends[index as int] == values.block_starts[other as int] - distance
            + block.start_padding + block.end_padding,
        values.satisfies(block_rule(index, block, BlockConstraint::FloatBeforeBlockByDistance(other, distance)))
            <==> values.block_starts[other as int] >= values.block_ends[index as int] + distance
            - block.start_padding - block.end_padding,
{
    reveal(block_rule);
    let start = Unknown::BlockStart(index);
    offset_from_means(
        values,
        Unknown::BlockEnd(index),
        Operator::Equal,
        Strength::Strong,
        start,
        block.start_padding + block.width + block.end_padding,
    );
    offset_from_means(
        values,
        start,
        Operator::Equal,
        Strength::Strong,
        Unknown::VerticalGridLine(after),
        -block.width - block.end_padding,
    );
    offset_from_means(
        values,
        start,
        Operator::LessOrEqual,
        Strength::Weak,
        Unknown::VerticalGridLine(after),
        -block.width - block.end_padding,
    );
    offset_from_means(
        values,
        start,
        Operator::Equal,
        Strength::Strong,
        Unknown::BlockEnd(other),
        -block.width - block.end_padding,
    );
    offset_from_means(
        values,
        start,
        Operator::Equal,
        Strength::Strong,
        Unknown::BlockStart(other),
        -block.width - distance,
    );
    offset_from_means(
        values,
        Unknown::BlockStart(other),
        Operator::GreaterOrEqual,
        Strength::Weak,
        start,
        block.width + distance,
    );
}

/// For a block of fixed height, a rule on its bottom is rewritten as a rule
/// on its top. Where the block has its fixed height, values satisfy the
/// rewritten relation exactly when the bottom of the block lies where the
/// rule puts it, moved by the padding that the fixed height carries.
pub proof fn rule_on_bottom_is_kept_by_top(
    values: Assignment,
    index: BlockIndex,
    block: Block,
    below: HorizontalGridLineIndex,
    other: BlockIndex,
    distance: StaveSpaces,
)
    requires
        block.fixed_height,
        values.satisfies(fixed_height_rule(index, block)),
    ensures
        values.satisfies(block_rule(index, block, BlockConstraint::LockBottomToHorizontalGridLine(below)))
            <==> values.block_bottoms[index as int] == values.horizontal_grid_lines[below as int] + block.top_padding,
        values.satisfies(block_rule(index, block, BlockConstraint::FloatBottomBeforeHorizontalGridLine(below)))
            <==> values.block_bottoms[index as int] <= values.horizontal_grid_lines[below as int] + block.top_padding,
        values.satisfies(block_rule(index, block, BlockConstraint::LockBottomToBlockBottom(other)))
            <==> values.block_bottoms[index as int] == values.block_bottoms[other as int] + block.top_padding,
        values.satisfies(block_rule(index, block, BlockConstraint::LockAboveBlockByDistance(other, distance)))
            <==> values.block_bottoms[index as int] == values.block_tops[other as int] - distance
            + block.top_padding + block.bottom_padding,
        values.satisfies(block_rule(index, block, BlockConstraint::FloatAboveBlockByDistance(other, distance)))
            <==> values.block_tops[other as int] >= values.block_bottoms[index as int] + distance
            - block.top_padding - block.bottom_padding,
{
    reveal(block_rule);
    let top = Unknown::BlockTop(index);
    offset_from_means(
        values,
        Unknown::BlockBottom(index),
        Operator::Equal,
        Strength::Strong,
        top,
        block.top_padding + block.height + block.bottom_padding,
    );
    offset_from_means(
        values,
        top,
        Operator::Equal,
        Strength::Strong,
        Unknown::HorizontalGridLine(below),
        -block.height - block.bottom_padding,
    );
    offset_from_means(
        values,
        top,
        Operator::LessOrEqual,
        Strength::Weak,
        Unknown::HorizontalGridLine(below),
        -block.height - block.bottom_padding,
    );
    offset_from_means(
        values,
        top,
        Operator::Equal,
        Strength::Strong,
        Unknown::BlockBottom(other),
        -block.height - block.bottom_padding,
    );
    offset_from_means(
        values,
        top,
        Operator::Equal,
        Strength::Strong,
        Unknown::BlockTop(other),
        -block.height - distance,
    );
    offset_from_means(
        values,
        Unknown::BlockTop(other),
        Operator::GreaterOrEqual,
        Strength::Weak,
        top,
        block.height + distance,
    );
}

/// Where there are four solved edges for every block, every block is
/// placed, and every block that is drawn on a layer appears there with its
/// own four edges.
pub proof fn every_block_gets_its_edges(
    blocks: Seq<Block>,
    extents: Extents,
    layer: BlockLayer,
    show_rhythmic_spacing: bool,
    index: int,
)
    requires
        extents.fits(blocks.len()),
        0 <= index < blocks.len(),
        drawn_on(blocks[index], layer, show_rhythmic_spacing),
    ensures
        placed(blocks, extents) == blocks.len(),
        layer_of(blocks, layer, extents, show_rhythmic_spacing, blocks.len() as int).contains(
            Engravable::of_block(
                blocks[index],
                extents.tops[index],
                extents.bottoms[index],
                extents.starts[index],
                extents.ends[index],
            ),
        ),
{
    drawn_from(blocks, extents, layer, show_rhythmic_spacing, index, blocks.len() as int);
}

proof fn drawn_from(
    blocks: Seq<Block>,
    extents: Extents,
    layer: BlockLayer,
    show_rhythmic_spacing: bool,
    index: int,
    count: int,
)
    requires
        0 <= index < count <= blocks.len(),
        drawn_on(blocks[index], layer, show_rhythmic_spacing),
    ensures
        layer_of(blocks, layer, extents, show_rhythmic_spacing, count).contains(
            Engravable::of_block(
                blocks[index],
                extents.tops[index],
                extents.bottoms[index],
                extents.starts[index],
                extents.ends[index],
            ),
        ),
    decreases count,
{
    let wanted = Engravable::of_block(
        blocks[index],
        extents.tops[index],
        extents.bottoms[index],
        extents.starts[index],
        extents.ends[index],
    );
    let earlier = layer_of(blocks, layer, extents, show_rhythmic_spacing, count - 1);
    let all = layer_of(blocks, layer, extents, show_rhythmic_spacing, count);
    if index == count - 1 {
        assert(all[earlier.len() as int] == wanted);
    } else {
        drawn_from(blocks, extents, layer, show_rhythmic_spacing, index, count - 1);
        let at = choose |at: int| 0 <= at < earlier.len() && earlier[at] == wanted;
        assert(all[at] == wanted);
    }
}

} // verus!
