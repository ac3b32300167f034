//! Engraving a system: from its description to solved coordinates.

use vstd::prelude::*;
use crate::block::{Block, BlockLayer};
use crate::collision::Extents;
use crate::engraving::{
    horizontal_guides, largest, layer_of, maximum, outlines, placed, vertical_guides, Engravable, EngravedSystem,
    EngravedSystemView,
};
use crate::error::EngravingError;
use crate::grid::{HorizontalGridLine, VerticalGridLine};
use crate::justification::{aligned_start_for, justifying, stretch_rule, stretches, SPACING_LIMIT};
use crate::layout::{LayoutSystem, LayoutSystemView};
use crate::posting::{
    answer_tells, first_indexing_error, made_then_planned, no_indexing_error, post_for, posts_all, posts_cut_short,
    posts_in_turn, posts_none, posts_one_more, relations_of, Attempt, Owner,
};
use crate::relation::{offset_from, pinned, Operator, Relation, RelationView, Strength, Unknown, UnknownCounts};
use crate::resolution::{answer_of, moved_and_staying, separations};
use crate::rules::{
    block_rule, check_unknowns, checked, fixed_height_relation, fixed_height_rule, fixed_width_relation,
    fixed_width_rule, horizontal_grid_line_rule, nothing_missing, vertical_grid_line_rule,
};
use crate::solver::{LayoutSolver, Positions};
use crate::units::{BlockIndex, StaveSpaces};

verus! {

/// The attempts for the rules of one horizontal grid line, in order.
pub open spec fn rules_of_line_across(index: int, line: HorizontalGridLine, counts: UnknownCounts) -> Seq<Attempt> {
    Seq::new(
        line.spec_constraints().len(),
        |k: int|
            Attempt {
                owner: Owner::HorizontalGridLine(index as usize),
                relation: checked(horizontal_grid_line_rule(index as usize, line.spec_constraints()[k]), counts),
            },
    )
}

/// The attempts for the rules of the first `count` horizontal grid lines,
/// line after line.
pub open spec fn rules_across(lines: Seq<HorizontalGridLine>, counts: UnknownCounts, count: int) -> Seq<Attempt>
    decreases count,
{
    if count <= 0 {
        Seq::empty()
    } else {
        rules_across(lines, counts, count - 1) + rules_of_line_across(count - 1, lines[count - 1], counts)
    }
}

/// The attempts for the rules of one vertical grid line, in order.
pub open spec fn rules_of_line_down(index: int, line: VerticalGridLine, counts: UnknownCounts) -> Seq<Attempt> {
    Seq::new(
        line.spec_constraints().len(),
        |k: int|
            Attempt {
                owner: Owner::VerticalGridLine(index as usize),
                relation: checked(vertical_grid_line_rule(index as usize, line.spec_constraints()[k]), counts),
            },
    )
}

/// The attempts for the rules of the first `count` vertical grid lines,
/// line after line.
pub open spec fn rules_down(lines: Seq<VerticalGridLine>, counts: UnknownCounts, count: int) -> Seq<Attempt>
    decreases count,
{
    if count <= 0 {
        Seq::empty()
    } else {
        rules_down(lines, counts, count - 1) + rules_of_line_down(count - 1, lines[count - 1], counts)
    }
}

/// The attempts that give a block its size where that is fixed: first the
/// width, then the height.
pub open spec fn sizing_of_block(index: int, block: Block, counts: UnknownCounts) -> Seq<Attempt> {
    let width = if block.fixed_width {
        seq![
            Attempt {
                owner: Owner::Block(index as usize),
                relation: checked(fixed_width_rule(index as usize, block), counts),
            },
        ]
    } else {
        Seq::empty()
    };
    let height = if block.fixed_height {
        seq![
            Attempt {
                owner: Owner::Block(index as usize),
                relation: checked(fixed_height_rule(index as usize, block), counts),
            },
        ]
    } else {
        Seq::empty()
    };
    width + height
}

/// The attempts for the rules that a block carries, in order.
pub open spec fn carried_by_block(index: int, block: Block, counts: UnknownCounts) -> Seq<Attempt> {
    Seq::new(
        block.constraints@.len(),
        |k: int|
            Attempt {
                owner: Owner::Block(index as usize),
                relation: checked(block_rule(index as usize, block, block.constraints@[k]), counts),
            },
    )
}

/// The attempts for one block: its size, then the rules that it carries.
pub open spec fn rules_of_block(index: int, block: Block, counts: UnknownCounts) -> Seq<Attempt> {
    sizing_of_block(index, block, counts) + carried_by_block(index, block, counts)
}

/// The attempts for the first `count` blocks, block after block.
pub open spec fn rules_of_blocks(blocks: Seq<Block>, counts: UnknownCounts, count: int) -> Seq<Attempt>
    decreases count,
{
    if count <= 0 {
        Seq::empty()
    } else {
        rules_of_blocks(blocks, counts, count - 1) + rules_of_block(count - 1, blocks[count - 1], counts)
    }
}

/// The spacing blocks among the first `count` blocks, in order.
pub open spec fn spacing_blocks_of(blocks: Seq<Block>, count: int) -> Seq<BlockIndex>
    decreases count,
{
    if count <= 0 {
        Seq::empty()
    } else if blocks[count - 1].spacing_block {
        spacing_blocks_of(blocks, count - 1).push((count - 1) as usize)
    } else {
        spacing_blocks_of(blocks, count - 1)
    }
}

/// The widths of the spacing blocks among the first `count` blocks, added up.
pub open spec fn total_spacing_of(blocks: Seq<Block>, count: int) -> int
    decreases count,
{
    if count <= 0 {
        0
    } else if blocks[count - 1].spacing_block {
        total_spacing_of(blocks, count - 1) + blocks[count - 1].width
    } else {
        total_spacing_of(blocks, count - 1)
    }
}

impl LayoutSystemView {
    /// The attempts for everything that the system lays down about its grid
    /// lines and blocks, in the order in which the solver gets it: the rules
    /// of the horizontal grid lines, those of the vertical grid lines, then
    /// block after block its size and its rules.
    pub open spec fn rules(self) -> Seq<Attempt> {
        rules_across(self.horizontal_grid_lines, self.counts(), self.horizontal_grid_lines.len() as int)
            + rules_down(self.vertical_grid_lines, self.counts(), self.vertical_grid_lines.len() as int)
            + rules_of_blocks(self.blocks, self.counts(), self.blocks.len() as int)
    }

    /// The engraved system that results from the given solved coordinates.
    ///
    /// The width and height are the largest end and bottom positions of the
    /// blocks. Each layer holds its blocks in order. The guides that the
    /// system asks for follow the blocks of the background: those of the
    /// horizontal grid lines, those of the vertical grid lines, then the
    /// outlines of the blocks.
    pub open spec fn assembled(
        self,
        lines_across: Seq<StaveSpaces>,
        lines_down: Seq<StaveSpaces>,
        extents: Extents,
        unresolved: Seq<(BlockIndex, BlockIndex)>,
    ) -> EngravedSystemView {
        let width = maximum(extents.ends);
        let height = maximum(extents.bottoms);
        let count = placed(self.blocks, extents);
        let show = self.debug_do_show_rhythmic_spacing;
        EngravedSystemView {
            index_in_movement: self.index_in_movement,
            horizontal_grid_line_positions: lines_across,
            vertical_grid_line_positions: lines_down,
            start_ticks: self.start_ticks,
            end_ticks: self.end_ticks,
            width,
            height,
            foreground: layer_of(self.blocks, BlockLayer::Foreground, extents, show, count),
            midground: layer_of(self.blocks, BlockLayer::Midground, extents, show, count),
            background: layer_of(self.blocks, BlockLayer::Background, extents, show, count) + (
            if self.debug_do_draw_horizontal_grid_lines {
                horizontal_guides(self.horizontal_grid_lines, lines_across, width)
            } else {
                Seq::empty()
            }) + (if self.debug_do_draw_vertical_grid_lines {
                vertical_guides(self.vertical_grid_lines, lines_down, height)
            } else {
                Seq::empty()
            }) + (if self.debug_do_draw_block_outlines {
                outlines(self.blocks, extents, count)
            } else {
                Seq::empty()
            }),
            unresolved_collisions: unresolved,
        }
    }
}

/// The solved edges of the blocks among the positions.
pub open spec fn extents_of(positions: Positions) -> Extents {
    Extents {
        tops: positions.block_tops@,
        bottoms: positions.block_bottoms@,
        starts: positions.block_starts@,
        ends: positions.block_ends@,
    }
}

impl LayoutSystem {
    /// Puts an engraved system together from solved coordinates.
    pub fn assemble(&self, positions: Positions, unresolved: Vec<(BlockIndex, BlockIndex)>) -> (engraved:
        EngravedSystem)
        ensures
            engraved@ == self@.assembled(
                positions.horizontal_grid_lines@,
                positions.vertical_grid_lines@,
                extents_of(positions),
                unresolved@,
            ),
    {
        let width = largest(positions.block_ends.as_slice());
        let height = largest(positions.block_bottoms.as_slice());
        let show = self.get_debug_do_show_rhythmic_spacing();
        let foreground = Self::create_engravables_from_blocks_in_layer(
            self.get_blocks(),
            BlockLayer::Foreground,
            positions.block_tops.as_slice(),
            positions.block_bottoms.as_slice(),
            positions.block_starts.as_slice(),
            positions.block_ends.as_slice(),
            show,
        );
        let midground = Self::create_engravables_from_blocks_in_layer(
            self.get_blocks(),
            BlockLayer::Midground,
            positions.block_tops.as_slice(),
            positions.block_bottoms.as_slice(),
            positions.block_starts.as_slice(),
            positions.block_ends.as_slice(),
            show,
        );
        let mut background = Self::create_engravables_from_blocks_in_layer(
            self.get_blocks(),
            BlockLayer::Background,
            positions.block_tops.as_slice(),
            positions.block_bottoms.as_slice(),
            positions.block_starts.as_slice(),
            positions.block_ends.as_slice(),
            show,
        );
        let ghost blocks_only = background@;
        if self.get_debug_do_draw_horizontal_grid_lines() {
            let mut guides = Self::create_debug_engravables_for_horizontal_grid_lines(
                self.get_horizontal_grid_lines(),
                positions.horizontal_grid_lines.as_slice(),
                width,
            );
            background.append(&mut guides);
        } else {
            assert(background@ + Seq::<Engravable>::empty() =~= background@);
        }
        let ghost with_across = background@;
        if self.get_debug_do_draw_vertical_grid_lines() {
            let mut guides = Self::create_debug_engravables_for_vertical_grid_lines(
                self.get_vertical_grid_lines(),
                positions.vertical_grid_lines.as_slice(),
                height,
            );
            background.append(&mut guides);
        } else {
            assert(background@ + Seq::<Engravable>::empty() =~= background@);
        }
        if self.get_debug_do_draw_block_outlines() {
            let mut guides = Self::create_debug_engravables_for_block_bounding_boxes(
                self.get_blocks(),
                positions.block_tops.as_slice(),
                positions.block_bottoms.as_slice(),
                positions.block_starts.as_slice(),
                positions.block_ends.as_slice(),
            );
            background.append(&mut guides);
        } else {
            assert(background@ + Seq::<Engravable>::empty() =~= background@);
        }
        EngravedSystem::new(
            self.get_index_in_movement(),
            positions.horizontal_grid_lines,
            positions.vertical_grid_lines,
            self.get_start_ticks(),
            self.get_end_ticks(),
            width,
            height,
            foreground,
            midground,
            background,
            unresolved,
        )
    }
}

/// The attempts for the first grid lines come first among those for all.
pub proof fn rules_across_grow(lines: Seq<HorizontalGridLine>, counts: UnknownCounts, count: int)
    requires
        0 <= count <= lines.len(),
    ensures
        exists |planned: Seq<Attempt>|
            made_then_planned(
                rules_across(lines, counts, lines.len() as int),
                rules_across(lines, counts, count),
                planned,
            ),
    decreases lines.len() - count,
{
    let made = rules_across(lines, counts, count);
    if count == lines.len() {
        assert(made + Seq::<Attempt>::empty() =~= made);
        assert(made_then_planned(made, made, Seq::<Attempt>::empty()));
    } else {
        rules_across_grow(lines, counts, count + 1);
        let longer = rules_across(lines, counts, count + 1);
        let planned = choose |planned: Seq<Attempt>|
            made_then_planned(rules_across(lines, counts, lines.len() as int), longer, planned);
        let one = rules_of_line_across(count, lines[count], counts);
        assert((made + one) + planned =~= made + (one + planned));
        assert(made_then_planned(made + one + planned, made, one + planned));
    }
}

/// The attempts for the first grid lines come first among those for all.
pub proof fn rules_down_grow(lines: Seq<VerticalGridLine>, counts: UnknownCounts, count: int)
    requires
        0 <= count <= lines.len(),
    ensures
        exists |planned: Seq<Attempt>|
            made_then_planned(
                rules_down(lines, counts, lines.len() as int),
                rules_down(lines, counts, count),
                planned,
            ),
    decreases lines.len() - count,
{
    let made = rules_down(lines, counts, count);
    if count == lines.len() {
        assert(made + Seq::<Attempt>::empty() =~= made);
        assert(made_then_planned(made, made, Seq::<Attempt>::empty()));
    } else {
        rules_down_grow(lines, counts, count + 1);
        let longer = rules_down(lines, counts, count + 1);
        let planned = choose |planned: Seq<Attempt>|
            made_then_planned(rules_down(lines, counts, lines.len() as int), longer, planned);
        let one = rules_of_line_down(count, lines[count], counts);
        assert((made + one) + planned =~= made + (one + planned));
        assert(made_then_planned(made + one + planned, made, one + planned));
    }
}

/// The attempts for the first blocks come first among those for all.
pub proof fn rules_of_blocks_grow(blocks: Seq<Block>, counts: UnknownCounts, count: int)
    requires
        0 <= count <= blocks.len(),
    ensures
        exists |planned: Seq<Attempt>|
            made_then_planned(
                rules_of_blocks(blocks, counts, blocks.len() as int),
                rules_of_blocks(blocks, counts, count),
                planned,
            ),
    decreases blocks.len() - count,
{
    let made = rules_of_blocks(blocks, counts, count);
    if count == blocks.len() {
        assert(made + Seq::<Attempt>::empty() =~= made);
        assert(made_then_planned(made, made, Seq::<Attempt>::empty()));
    } else {
        rules_of_blocks_grow(blocks, counts, count + 1);
        let longer = rules_of_blocks(blocks, counts, count + 1);
        let planned = choose |planned: Seq<Attempt>|
            made_then_planned(rules_of_blocks(blocks, counts, blocks.len() as int), longer, planned);
        let one = rules_of_block(count, blocks[count], counts);
        assert((made + one) + planned =~= made + (one + planned));
        assert(made_then_planned(made + one + planned, made, one + planned));
    }
}

impl LayoutSystem {
    /// Hands the rules of one horizontal grid line to the solver, in order,
    /// up to the first that does not go through.
    pub fn post_rules_of_line_across(index: usize, line: &HorizontalGridLine, solver: &mut LayoutSolver) -> (answer:
        Result<(), EngravingError>)
        requires
            old(solver).well_formed(),
        ensures
            posts_all(
                *old(solver),
                *final(solver),
                rules_of_line_across(index as int, *line, old(solver).counts()),
                answer,
            ),
    {
        let ghost counts = solver.counts();
        let ghost all = rules_of_line_across(index as int, *line, counts);
        let constraints = line.get_constraints();
        let mut k: usize = 0;
        proof {
            posts_none(*solver);
            assert(all.take(0) =~= Seq::<Attempt>::empty());
        }
        while k < constraints.len()
            invariant
                k <= constraints@.len(),
                constraints@ == line.spec_constraints(),
                counts == old(solver).counts(),
                all == rules_of_line_across(index as int, *line, counts),
                posts_all(*old(solver), *solver, all.take(k as int), Ok(())),
            decreases constraints@.len() - k,
        {
            let ghost between = *solver;
            let answer = Self::add_horizontal_grid_line_constraint_to_solver(index, &constraints[k], solver);
            proof {
                posts_one_more(*old(solver), between, *solver, all.take(k as int), all[k as int], answer);
                assert(all.take(k as int).push(all[k as int]) =~= all.take(k + 1));
            }
            if let Err(error) = answer {
                proof {
                    posts_cut_short(*old(solver), *solver, all.take(k + 1), all.skip(k + 1), error);
                    assert(all.take(k + 1) + all.skip(k + 1) =~= all);
                }
                return Err(error);
            }
            k += 1;
        }
        proof {
            assert(all.take(k as int) =~= all);
        }
        Ok(())
    }

    /// Hands the rules of one vertical grid line to the solver, in order, up
    /// to the first that does not go through.
    pub fn post_rules_of_line_down(index: usize, line: &VerticalGridLine, solver: &mut LayoutSolver) -> (answer:
        Result<(), EngravingError>)
        requires
            old(solver).well_formed(),
        ensures
            posts_all(
                *old(solver),
                *final(solver),
                rules_of_line_down(index as int, *line, old(solver).counts()),
                answer,
            ),
    {
        let ghost counts = solver.counts();
        let ghost all = rules_of_line_down(index as int, *line, counts);
        let constraints = line.get_constraints();
        let mut k: usize = 0;
        proof {
            posts_none(*solver);
            assert(all.take(0) =~= Seq::<Attempt>::empty());
        }
        while k < constraints.len()
            invariant
                k <= constraints@.len(),
                constraints@ == line.spec_constraints(),
                counts == old(solver).counts(),
                all == rules_of_line_down(index as int, *line, counts),
                posts_all(*old(solver), *solver, all.take(k as int), Ok(())),
            decreases constraints@.len() - k,
        {
            let ghost between = *solver;
            let answer = Self::add_vertical_grid_line_constraint_to_solver(index, &constraints[k], solver);
            proof {
                posts_one_more(*old(solver), between, *solver, all.take(k as int), all[k as int], answer);
                assert(all.take(k as int).push(all[k as int]) =~= all.take(k + 1));
            }
            if let Err(error) = answer {
                proof {
                    posts_cut_short(*old(solver), *solver, all.take(k + 1), all.skip(k + 1), error);
                    assert(all.take(k + 1) + all.skip(k + 1) =~= all);
                }
                return Err(error);
            }
            k += 1;
        }
        proof {
            assert(all.take(k as int) =~= all);
        }
        Ok(())
    }

    /// Hands the relations that give one block its size to the solver: the
    /// one for its width where that is fixed, then the one for its height
    /// where that is fixed.
    pub fn post_sizing_of_block(index: BlockIndex, block: &Block, solver: &mut LayoutSolver) -> (answer: Result<
        (),
        EngravingError,
    >)
        requires
            old(solver).well_formed(),
        ensures
            posts_all(
                *old(solver),
                *final(solver),
                sizing_of_block(index as int, *block, old(solver).counts()),
                answer,
            ),
    {
        let ghost counts = solver.counts();
        let solver_counts = solver.get_counts();
        let ghost width = Attempt {
            owner: Owner::Block(index),
            relation: checked(fixed_width_rule(index, *block), counts),
        };
        let ghost height = Attempt {
            owner: Owner::Block(index),
            relation: checked(fixed_height_rule(index, *block), counts),
        };
        let ghost none = Seq::<Attempt>::empty();
        proof {
            posts_none(*solver);
        }
        if block.is_fixed_width() {
            let attempt = check_unknowns(fixed_width_relation(index, block), &solver_counts);
            proof {
                nothing_missing(fixed_width_rule(index, *block).terms, counts);
            }
            let ghost between = *solver;
            let answer = post_for(solver, attempt, Owner::Block(index));
            proof {
                posts_one_more(*old(solver), between, *solver, none, width, answer);
                assert(none.push(width) =~= seq![width]);
            }
            if let Err(error) = answer {
                proof {
                    let planned = if block.fixed_height {
                        seq![height]
                    } else {
                        none
                    };
                    posts_cut_short(*old(solver), *solver, seq![width], planned, error);
                }
                return Err(error);
            }
        }
        let ghost made = if block.fixed_width {
            seq![width]
        } else {
            none
        };
        if block.is_fixed_height() {
            let attempt = check_unknowns(fixed_height_relation(index, block), &solver_counts);
            proof {
                nothing_missing(fixed_height_rule(index, *block).terms, counts);
            }
            let ghost between = *solver;
            let answer = post_for(solver, attempt, Owner::Block(index));
            proof {
                posts_one_more(*old(solver), between, *solver, made, height, answer);
                assert(made.push(height) =~= made + seq![height]);
            }
            answer
        } else {
            proof {
                assert(made + none =~= made);
            }
            Ok(())
        }
    }

    /// Hands the rules that one block carries to the solver, in order, up
    /// to the first that does not go through.
    pub fn post_carried_by_block(index: BlockIndex, block: &Block, solver: &mut LayoutSolver) -> (answer: Result<
        (),
        EngravingError,
    >)
        requires
            old(solver).well_formed(),
        ensures
            posts_all(
                *old(solver),
                *final(solver),
                carried_by_block(index as int, *block, old(solver).counts()),
                answer,
            ),
    {
        let ghost counts = solver.counts();
        let ghost all = carried_by_block(index as int, *block, counts);
        let constraints = block.get_constraints();
        let mut k: usize = 0;
        proof {
            posts_none(*solver);
            assert(all.take(0) =~= Seq::<Attempt>::empty());
        }
        while k < constraints.len()
            invariant
                k <= constraints@.len(),
                constraints@ == block.constraints@,
                counts == old(solver).counts(),
                all == carried_by_block(index as int, *block, counts),
                posts_all(*old(solver), *solver, all.take(k as int), Ok(())),
            decreases constraints@.len() - k,
        {
            let ghost between = *solver;
            let answer = Self::add_block_constraint_to_solver(index, block, &constraints[k], solver);
            proof {
                posts_one_more(*old(solver), between, *solver, all.take(k as int), all[k as int], answer);
                assert(all.take(k as int).push(all[k as int]) =~= all.take(k + 1));
            }
            if let Err(error) = answer {
                proof {
                    posts_cut_short(*old(solver), *solver, all.take(k + 1), all.skip(k + 1), error);
                    assert(all.take(k + 1) + all.skip(k + 1) =~= all);
                }
                return Err(error);
            }
            k += 1;
        }
        proof {
            assert(all.take(k as int) =~= all);
        }
        Ok(())
    }

    /// Hands everything about one block to the solver: the relations that
    /// give it its size, then the rules that it carries.
    pub fn post_rules_of_block(index: BlockIndex, block: &Block, solver: &mut LayoutSolver) -> (answer: Result<
        (),
        EngravingError,
    >)
        requires
            old(solver).well_formed(),
        ensures
            posts_all(*old(solver), *final(solver), rules_of_block(index as int, *block, old(solver).counts()), answer),
    {
        let ghost counts = solver.counts();
        let sized = Self::post_sizing_of_block(index, block, solver);
        if let Err(error) = sized {
            proof {
                posts_cut_short(
                    *old(solver),
                    *solver,
                    sizing_of_block(index as int, *block, counts),
                    carried_by_block(index as int, *block, counts),
                    error,
                );
            }
            return Err(error);
        }
        let ghost between = *solver;
        let answer = Self::post_carried_by_block(index, block, solver);
        proof {
            posts_in_turn(
                *old(solver),
                between,
                *solver,
                sizing_of_block(index as int, *block, counts),
                carried_by_block(index as int, *block, counts),
                answer,
            );
        }
        answer
    }

    /// Hands the rules of all horizontal grid lines to the solver, line
    /// after line, up to the first that does not go through.
    pub fn post_rules_across(lines: &[HorizontalGridLine], solver: &mut LayoutSolver) -> (answer: Result<
        (),
        EngravingError,
    >)
        requires
            old(solver).well_formed(),
        ensures
            posts_all(
                *old(solver),
                *final(solver),
                rules_across(lines@, old(solver).counts(), lines@.len() as int),
                answer,
            ),
    {
        let ghost counts = solver.counts();
        let mut index: usize = 0;
        proof {
            posts_none(*solver);
        }
        while index < lines.len()
            invariant
                index <= lines@.len(),
                counts == old(solver).counts(),
                posts_all(*old(solver), *solver, rules_across(lines@, counts, index as int), Ok(())),
            decreases lines@.len() - index,
        {
            let ghost between = *solver;
            let answer = Self::post_rules_of_line_across(index, &lines[index], solver);
            proof {
                posts_in_turn(
                    *old(solver),
                    between,
                    *solver,
                    rules_across(lines@, counts, index as int),
                    rules_of_line_across(index as int, lines@[index as int], counts),
                    answer,
                );
            }
            if let Err(error) = answer {
                proof {
                    rules_across_grow(lines@, counts, index + 1);
                    let longer = rules_across(lines@, counts, index + 1);
                    let planned = choose |planned: Seq<Attempt>|
                        made_then_planned(rules_across(lines@, counts, lines@.len() as int), longer, planned);
                    posts_cut_short(*old(solver), *solver, rules_across(lines@, counts, index + 1), planned, error);
                }
                return Err(error);
            }
            index += 1;
        }
        Ok(())
    }

    /// Hands the rules of all vertical grid lines to the solver, line after
    /// line, up to the first that does not go through.
    pub fn post_rules_down(lines: &[VerticalGridLine], solver: &mut LayoutSolver) -> (answer: Result<
        (),
        EngravingError,
    >)
        requires
            old(solver).well_formed(),
        ensures
            posts_all(
                *old(solver),
                *final(solver),
                rules_down(lines@, old(solver).counts(), lines@.len() as int),
                answer,
            ),
    {
        let ghost counts = solver.counts();
        let mut index: usize = 0;
        proof {
            posts_none(*solver);
        }
        while index < lines.len()
            invariant
                index <= lines@.len(),
                counts == old(solver).counts(),
                posts_all(*old(solver), *solver, rules_down(lines@, counts, index as int), Ok(())),
            decreases lines@.len() - index,
        {
            let ghost between = *solver;
            let answer = Self::post_rules_of_line_down(index, &lines[index], solver);
            proof {
                posts_in_turn(
                    *old(solver),
                    between,
                    *solver,
                    rules_down(lines@, counts, index as int),
                    rules_of_line_down(index as int, lines@[index as int], counts),
                    answer,
                );
            }
            if let Err(error) = answer {
                proof {
                    rules_down_grow(lines@, counts, index + 1);
                    let longer = rules_down(lines@, counts, index + 1);
                    let planned = choose |planned: Seq<Attempt>|
                        made_then_planned(rules_down(lines@, counts, lines@.len() as int), longer, planned);
                    posts_cut_short(*old(solver), *solver, rules_down(lines@, counts, index + 1), planned, error);
                }
                return Err(error);
            }
            index += 1;
        }
        Ok(())
    }

    /// Hands everything about all blocks to the solver, block after block,
    /// up to the first relation that does not go through. Hands back which
    /// blocks are spacing blocks and what their widths add up to.
    pub fn post_rules_of_blocks(blocks: &[Block], solver: &mut LayoutSolver) -> (result: Result<
        (Vec<BlockIndex>, i128),
        EngravingError,
    >)
        requires
            old(solver).well_formed(),
        ensures
            posts_all(
                *old(solver),
                *final(solver),
                rules_of_blocks(blocks@, old(solver).counts(), blocks@.len() as int),
                answer_of(result),
            ),
            result matches Ok(spacing) ==> spacing.0@ == spacing_blocks_of(blocks@, blocks@.len() as int) && spacing.1
                == total_spacing_of(blocks@, blocks@.len() as int) && -SPACING_LIMIT <= spacing.1 <= SPACING_LIMIT,
    {
        let ghost counts = solver.counts();
        let mut spacing_blocks: Vec<BlockIndex> = Vec::new();
        let mut total_rhythmic_spacing: i128 = 0;
        let count = blocks.len();
        let mut index: usize = 0;
        proof {
            posts_none(*solver);
        }
        while index < count
            invariant
                index <= count == blocks@.len(),
                counts == old(solver).counts(),
                posts_all(*old(solver), *solver, rules_of_blocks(blocks@, counts, index as int), Ok(())),
                spacing_blocks@ == spacing_blocks_of(blocks@, index as int),
                total_rhythmic_spacing == total_spacing_of(blocks@, index as int),
                -0x8000_0000 * index <= total_rhythmic_spacing <= 0x8000_0000 * index,
            decreases count - index,
        {
            let block = &blocks[index];
            if block.is_spacing_block() {
                // Justification needs to know the spacing blocks and how
                // much room they take up between them.
                spacing_blocks.push(index);
                total_rhythmic_spacing = total_rhythmic_spacing + block.get_fixed_width() as i128;
            }
            let ghost between = *solver;
            let answer = Self::post_rules_of_block(index, block, solver);
            proof {
                posts_in_turn(
                    *old(solver),
                    between,
                    *solver,
                    rules_of_blocks(blocks@, counts, index as int),
                    rules_of_block(index as int, blocks@[index as int], counts),
                    answer,
                );
            }
            if let Err(error) = answer {
                proof {
                    rules_of_blocks_grow(blocks@, counts, index + 1);
                    let longer = rules_of_blocks(blocks@, counts, index + 1);
                    let planned = choose |planned: Seq<Attempt>|
                        made_then_planned(rules_of_blocks(blocks@, counts, blocks@.len() as int), longer, planned);
                    posts_cut_short(
                        *old(solver),
                        *solver,
                        rules_of_blocks(blocks@, counts, index + 1),
                        planned,
                        error,
                    );
                }
                return Err(error);
            }
            index += 1;
        }
        Ok((spacing_blocks, total_rhythmic_spacing))
    }
}

/// Whether the attempt belongs to a block of the system that is collidable
/// or a spacing block: the blocks that collisions and justification act on.
pub open spec fn owned_by_block(attempt: Attempt, blocks: Seq<Block>) -> bool {
    attempt.owner matches Owner::Block(block) && block < blocks.len() && (blocks[block as int].collidable
        || blocks[block as int].spacing_block)
}

/// Whether the error passes on a refusal by the solver of something that
/// engraving the system hands to it: the pin of the top edge, the tie of the
/// leading edge, one of the rules of the system, or the separation or the
/// stretch of one of its blocks. The error then names that grid line or
/// block.
pub open spec fn refusal_within(system: LayoutSystemView, error: EngravingError) -> bool {
    ||| system.top_edge < system.horizontal_grid_lines.len() && Owner::HorizontalGridLine(system.top_edge).refused(
        error,
    )
    ||| system.leading_edge < system.vertical_grid_lines.len() && Owner::VerticalGridLine(
        system.leading_edge,
    ).refused(error)
    ||| exists |i: int|
        0 <= i < system.rules().len() && (#[trigger] system.rules()[i]).relation is Ok && system.rules()[i].owner.refused(
            error,
        )
    ||| exists |block: BlockIndex|
        block < system.blocks.len() && (system.blocks[block as int].collidable
            || system.blocks[block as int].spacing_block) && #[trigger] Owner::Block(block).refused(error)
}

/// Every separation of colliding blocks of the system is a relation that
/// belongs to one of its collidable blocks.
pub proof fn separations_are_relations(
    blocks: Seq<Block>,
    starts: Seq<StaveSpaces>,
    collisions: Seq<(BlockIndex, BlockIndex)>,
    counts: UnknownCounts,
)
    requires
        counts.blocks == blocks.len(),
        forall |i: int|
            0 <= i < collisions.len() ==> (#[trigger] collisions[i]).0 < blocks.len() && collisions[i].1 < blocks.len()
                && blocks[collisions[i].0 as int].collidable && blocks[collisions[i].1 as int].collidable,
    ensures
        forall |i: int|
            0 <= i < separations(blocks, starts, collisions, counts).len() ==> (#[trigger] separations(
                blocks,
                starts,
                collisions,
                counts,
            )[i]).relation is Ok && owned_by_block(separations(blocks, starts, collisions, counts)[i], blocks),
    decreases collisions.len(),
{
    if collisions.len() > 0 {
        let earlier = collisions.drop_last();
        assert forall |i: int| 0 <= i < earlier.len() implies (#[trigger] earlier[i]).0 < blocks.len() && earlier[i].1
            < blocks.len() && blocks[earlier[i].0 as int].collidable && blocks[earlier[i].1 as int].collidable by {
            assert(earlier[i] == collisions[i]);
        }
        separations_are_relations(blocks, starts, earlier, counts);
        let pair = collisions.last();
        assert(pair == collisions[collisions.len() - 1]);
        let (moved, staying) = moved_and_staying(starts, pair);
        let rule = block_rule(
            moved,
            blocks[moved as int],
            crate::block::BlockConstraint::LockAfterBlockByDistance(staying, crate::resolution::MINIMUM_COLLISION_GAP),
        );
        reveal(block_rule);
        nothing_missing(rule.terms, counts);
    }
}

/// The spacing blocks among the first blocks are blocks of the system, and
/// spacing blocks.
pub proof fn spacing_blocks_are_spacing(blocks: Seq<Block>, count: int)
    requires
        0 <= count <= blocks.len() <= usize::MAX,
    ensures
        forall |j: int|
            0 <= j < spacing_blocks_of(blocks, count).len() ==> (#[trigger] spacing_blocks_of(blocks, count)[j]) < count
                && blocks[spacing_blocks_of(blocks, count)[j] as int].spacing_block,
    decreases count,
{
    if count > 0 {
        spacing_blocks_are_spacing(blocks, count - 1);
        let earlier = spacing_blocks_of(blocks, count - 1);
        let all = spacing_blocks_of(blocks, count);
        assert forall |j: int| 0 <= j < all.len() implies (#[trigger] all[j]) < count && blocks[all[j] as int].spacing_block by {
            if j < earlier.len() {
                assert(all[j] == earlier[j]);
            }
        }
    }
}

/// Every stretch of a spacing block of the system is a relation that
/// belongs to that block.
pub proof fn stretches_are_relations(
    blocks: Seq<Block>,
    spacing_blocks: Seq<BlockIndex>,
    total_spacing: int,
    target_width: int,
    engraved_width: int,
    counts: UnknownCounts,
)
    requires
        counts.blocks == blocks.len(),
        forall |j: int|
            0 <= j < spacing_blocks.len() && (#[trigger] spacing_blocks[j]) < blocks.len()
                ==> blocks[spacing_blocks[j] as int].spacing_block,
    ensures
        forall |i: int|
            0 <= i < stretches(blocks, spacing_blocks, total_spacing, target_width, engraved_width, counts).len()
                ==> (#[trigger] stretches(
                blocks,
                spacing_blocks,
                total_spacing,
                target_width,
                engraved_width,
                counts,
            )[i]).relation is Ok && owned_by_block(
                stretches(blocks, spacing_blocks, total_spacing, target_width, engraved_width, counts)[i],
                blocks,
            ),
    decreases spacing_blocks.len(),
{
    if spacing_blocks.len() > 0 {
        let earlier = spacing_blocks.drop_last();
        assert forall |j: int| 0 <= j < earlier.len() && (#[trigger] earlier[j]) < blocks.len() implies blocks[earlier[j] as int].spacing_block by {
            assert(earlier[j] == spacing_blocks[j]);
        }
        assert(spacing_blocks.last() == spacing_blocks[spacing_blocks.len() - 1]);
        stretches_are_relations(
            blocks,
            spacing_blocks.drop_last(),
            total_spacing,
            target_width,
            engraved_width,
            counts,
        );
        let index = spacing_blocks.last();
        if index < blocks.len() {
            let rule = stretch_rule(index, blocks[index as int], total_spacing, target_width, engraved_width);
            nothing_missing(rule.terms, counts);
        }
    }
}

/// An error that ends attempts which all are relations of blocks of the
/// system is a refusal by the solver that names one of these blocks.
pub proof fn refusal_names_a_block(
    system: LayoutSystemView,
    before: LayoutSolver,
    after: LayoutSolver,
    attempts: Seq<Attempt>,
    error: EngravingError,
)
    requires
        posts_all(before, after, attempts, Err(error)),
        forall |i: int|
            0 <= i < attempts.len() ==> (#[trigger] attempts[i]).relation is Ok && owned_by_block(
                attempts[i],
                system.blocks,
            ),
    ensures
        refusal_within(system, error),
{
    answer_tells(before, after, attempts, Err(error));
    no_indexing_error(attempts);
    let i = choose |i: int|
        0 <= i < attempts.len() && (#[trigger] attempts[i]).relation is Ok && attempts[i].owner.refused(error);
    assert(owned_by_block(attempts[i], system.blocks));
    let block = attempts[i].owner->Block_0;
    assert(Owner::Block(block).refused(error));
}

/// The relations that fix the origin of the system: its top edge is
/// required to lie at zero, and its leading edge at the aligned start. An
/// edge that names no grid line of the system is left out.
pub open spec fn origin_of(system: LayoutSystemView) -> Seq<RelationView> {
    (if system.top_edge < system.horizontal_grid_lines.len() {
        seq![pinned(Unknown::HorizontalGridLine(system.top_edge), Operator::Equal, Strength::Required)]
    } else {
        Seq::empty()
    }) + (if system.leading_edge < system.vertical_grid_lines.len() {
        seq![
            offset_from(
                Unknown::VerticalGridLine(system.leading_edge),
                Operator::Equal,
                Strength::Required,
                Unknown::AlignedStart,
                0,
            ),
        ]
    } else {
        Seq::empty()
    })
}

/// All the relations that engraving hands to the solver, in order: the
/// origin, the rules of the system, what separates the blocks that collided
/// in the first layout, and what justifies the layout found after that.
pub open spec fn handed_over(
    system: LayoutSystemView,
    first: Positions,
    collisions: Seq<(BlockIndex, BlockIndex)>,
    unjustified: Positions,
) -> Seq<RelationView> {
    origin_of(system) + relations_of(system.rules()) + relations_of(
        separations(system.blocks, first.block_starts@, collisions, system.counts()),
    ) + relations_of(
        justifying(
            system.justification,
            system.blocks,
            spacing_blocks_of(system.blocks, system.blocks.len() as int),
            total_spacing_of(system.blocks, system.blocks.len() as int),
            system.target_system_width as int,
            maximum(unjustified.block_ends@) as int,
            system.counts(),
        ),
    )
}

/// The value that the aligned start is told to aim at in the end: zero
/// unless the system is aligned at its end or centred.
pub open spec fn aimed_at(system: LayoutSystemView, unjustified: Positions) -> int {
    match aligned_start_for(
        system.justification,
        system.target_system_width as int,
        maximum(unjustified.block_ends@) as int,
    ) {
        Some(value) => value,
        None => 0,
    }
}

/// Whether the engraved system is what engraving makes of the system,
/// given what the solver held along the way: the positions after the first
/// solve, the collisions found among them, the positions once these were
/// dealt with, and the positions in the end.
///
/// The three sets of positions are what was read from the solver, in this
/// order, and nothing else was read. The collisions are those of the first
/// positions. The solver has accepted everything that is handed over for
/// these positions, and has been told where the aligned start belongs. The
/// engraved system is put together from the last positions.
pub open spec fn engraves_to(
    system: LayoutSystemView,
    first: Positions,
    collisions: Seq<(BlockIndex, BlockIndex)>,
    unjustified: Positions,
    solver: LayoutSolver,
    last: Positions,
    engraved: EngravedSystemView,
) -> bool {
    &&& first.fits(system.counts())
    &&& unjustified.fits(system.counts())
    &&& last.fits(system.counts())
    &&& forall |one: BlockIndex, other: BlockIndex|
        collisions.contains((one, other)) <==> crate::collision::collides(
            system.blocks,
            extents_of(first),
            one as int,
            other as int,
        )
    &&& solver.counts() == system.counts()
    &&& solver.readings() == seq![first, unjustified, last]
    &&& solver.posted() == handed_over(system, first, collisions, unjustified)
    &&& solver.suggested() == Some(aimed_at(system, unjustified))
    &&& engraved == system.assembled(
        last.horizontal_grid_lines@,
        last.vertical_grid_lines@,
        extents_of(last),
        crate::resolution::left_unresolved(system.blocks, collisions),
    )
}

/// Whether the engraved system is what engraving makes of the system for
/// some positions that the solver held.
pub open spec fn engraved_from(system: LayoutSystemView, engraved: EngravedSystemView) -> bool {
    exists |
        first: Positions,
        collisions: Seq<(BlockIndex, BlockIndex)>,
        unjustified: Positions,
        solver: LayoutSolver,
        last: Positions,
    | #[trigger] engraves_to(system, first, collisions, unjustified, solver, last, engraved)
}

impl LayoutSystem {
    /// Generates a positioned [`EngravedSystem`] from this system.
    ///
    /// Every grid line gets one solver variable and every block four, one
    /// for each edge. The top edge of the system is required to lie at zero
    /// and its leading edge at the aligned start, a value that the solver is
    /// told to keep at zero for now. Then the solver is handed, in this
    /// order: the rules of the horizontal grid lines, the rules of the
    /// vertical grid lines, and block after block its size and its rules.
    /// The blocks that collide in the layout so found are separated, the
    /// system is justified to its target width, and the coordinates that
    /// the solver holds in the end are put together as the result.
    ///
    /// The first rule that names a grid line or block which the system does
    /// not have ends the operation with an indexing error, and so does the
    /// first refusal of the solver, with an error that names the grid line
    /// or block whose relation it refused. The rules before it have then
    /// gone to the solver; nothing is handed back.
    pub fn engrave(&self) -> (result: Result<EngravedSystem, EngravingError>)
        ensures
            result is Ok ==> first_indexing_error(self@.rules()) is None,
            result matches Ok(engraved) ==> engraved@.horizontal_grid_line_positions.len()
                == self@.horizontal_grid_lines.len() && engraved@.vertical_grid_line_positions.len()
                == self@.vertical_grid_lines.len(),
            result matches Ok(engraved) ==> engraved_from(self@, engraved@),
            result matches Err(error) ==> first_indexing_error(self@.rules()) == Some(error)
                || error is DefineJustificationError || error is ApplyJustificationError || refusal_within(
                self@,
                error,
            ),
    {
        let horizontal_grid_lines = self.get_horizontal_grid_lines();
        let vertical_grid_lines = self.get_vertical_grid_lines();
        let blocks = self.get_blocks();
        let counts = UnknownCounts {
            horizontal_grid_lines: horizontal_grid_lines.len(),
            vertical_grid_lines: vertical_grid_lines.len(),
            blocks: blocks.len(),
        };
        assert(counts == self@.counts());
        let mut solver = LayoutSolver::new(counts);
        let ghost none = Seq::<RelationView>::empty();

        // The origin: the top edge lies at zero, the leading edge at the
        // aligned start, which may be moved later to justify the system.
        let top_edge = self.get_top_edge();
        if top_edge < counts.horizontal_grid_lines {
            let pin = Relation::pinned(Unknown::HorizontalGridLine(top_edge), Operator::Equal, Strength::Required);
            if let Err(cause) = solver.post(&pin) {
                return Err(EngravingError::AddConstraintErrorOnHorizontalGridLine(cause, top_edge));
            }
            assert(none.push(pin@) =~= seq![pin@]);
        }
        let ghost pinned_top = solver.posted();
        if let Err(error) = Self::define_justification(&mut solver) {
            return Err(error);
        }
        let leading_edge = self.get_leading_edge();
        if leading_edge < counts.vertical_grid_lines {
            let tie = Relation::offset_from(
                Unknown::VerticalGridLine(leading_edge),
                Operator::Equal,
                Strength::Required,
                Unknown::AlignedStart,
                0,
            );
            if let Err(cause) = solver.post(&tie) {
                return Err(EngravingError::AddConstraintErrorOnVerticalGridLine(cause, leading_edge));
            }
            assert(pinned_top.push(tie@) =~= pinned_top + seq![tie@]);
        } else {
            assert(pinned_top + none =~= pinned_top);
        }
        assert(solver.posted() == origin_of(self@));

        // Everything that the system lays down about its grid lines and
        // blocks.
        let ghost across = rules_across(self@.horizontal_grid_lines, counts, self@.horizontal_grid_lines.len() as int);
        let ghost down = rules_down(self@.vertical_grid_lines, counts, self@.vertical_grid_lines.len() as int);
        let ghost of_blocks = rules_of_blocks(self@.blocks, counts, self@.blocks.len() as int);
        let ghost at_origin = solver;
        if let Err(error) = Self::post_rules_across(horizontal_grid_lines, &mut solver) {
            proof {
                posts_cut_short(at_origin, solver, across, down + of_blocks, error);
                assert(across + (down + of_blocks) =~= self@.rules());
                answer_tells(at_origin, solver, self@.rules(), Err(error));
            }
            return Err(error);
        }
        let ghost after_across = solver;
        let lined = Self::post_rules_down(vertical_grid_lines, &mut solver);
        proof {
            posts_in_turn(at_origin, after_across, solver, across, down, lined);
        }
        if let Err(error) = lined {
            proof {
                posts_cut_short(at_origin, solver, across + down, of_blocks, error);
                answer_tells(at_origin, solver, self@.rules(), Err(error));
            }
            return Err(error);
        }
        let ghost after_down = solver;
        let blocked = Self::post_rules_of_blocks(blocks, &mut solver);
        proof {
            posts_in_turn(at_origin, after_down, solver, across + down, of_blocks, answer_of(blocked));
            answer_tells(at_origin, solver, self@.rules(), answer_of(blocked));
        }
        let (spacing_blocks, total_rhythmic_spacing) = match blocked {
            Ok(spacing) => spacing,
            Err(error) => {
                return Err(error);
            },
        };

        // Collisions between blocks in the layout that the solver has found.
        let first = solver.positions();
        let collisions = Self::detect_colliding_blocks(
            blocks,
            counts.horizontal_grid_lines,
            counts.vertical_grid_lines,
            first.block_tops.as_slice(),
            first.block_bottoms.as_slice(),
            first.block_starts.as_slice(),
            first.block_ends.as_slice(),
        );
        let ghost before_resolution = solver;
        let resolved = Self::resolve_colliding_blocks(
            blocks,
            collisions.as_slice(),
            first.block_starts.as_slice(),
            &mut solver,
        );
        let unresolved = match resolved {
            Ok(unresolved) => unresolved,
            Err(error) => {
                proof {
                    separations_are_relations(blocks@, first.block_starts@, collisions@, counts);
                    refusal_names_a_block(
                        self@,
                        before_resolution,
                        solver,
                        separations(blocks@, first.block_starts@, collisions@, counts),
                        error,
                    );
                }
                return Err(error);
            },
        };

        // The width that the system takes up before it is justified.
        let unjustified = solver.positions();
        let engraved_system_width = largest(unjustified.block_ends.as_slice());
        let ghost before_justification = solver;
        let justified = Self::apply_justification_to_solver(
            self.get_justification(),
            self.get_target_system_width(),
            engraved_system_width,
            total_rhythmic_spacing,
            &mut solver,
            blocks,
            spacing_blocks.as_slice(),
        );
        if let Err(error) = justified {
            proof {
                if self@.justification == crate::layout::SystemJustification::Justified {
                    let attempts = stretches(
                        blocks@,
                        spacing_blocks@,
                        total_rhythmic_spacing as int,
                        self@.target_system_width as int,
                        engraved_system_width as int,
                        counts,
                    );
                    spacing_blocks_are_spacing(blocks@, blocks@.len() as int);
                    stretches_are_relations(
                        blocks@,
                        spacing_blocks@,
                        total_rhythmic_spacing as int,
                        self@.target_system_width as int,
                        engraved_system_width as int,
                        counts,
                    );
                    no_indexing_error(attempts);
                    if total_rhythmic_spacing != 0 {
                        refusal_names_a_block(self@, before_justification, solver, attempts, error);
                    }
                }
            }
            return Err(error);
        }

        proof {
            let separating = separations(blocks@, first.block_starts@, collisions@, counts);
            let stretching = justifying(
                self@.justification,
                blocks@,
                spacing_blocks@,
                total_rhythmic_spacing as int,
                self@.target_system_width as int,
                engraved_system_width as int,
                counts,
            );
            if self@.justification != crate::layout::SystemJustification::Justified {
                assert(before_justification.posted() + relations_of(stretching) =~= before_justification.posted());
            }
            assert(solver.posted() == handed_over(self@, first, collisions@, unjustified));
        }

        // The coordinates that the solver holds in the end.
        let last = solver.positions();
        let ghost held = last;
        let engraved = self.assemble(last, unresolved);
        proof {
            assert(solver.readings() =~= seq![first, unjustified, held]);
            assert(engraves_to(self@, first, collisions@, unjustified, solver, held, engraved@));
            assert(engraved_from(self@, engraved@));
        }
        Ok(engraved)
    }
}

} // verus!
