//! The description of one system: its grid lines, its blocks and how it is
//! to be justified.

use vstd::prelude::*;
use crate::block::Block;
use crate::grid::{HorizontalGridLine, VerticalGridLine};
use crate::relation::UnknownCounts;
use crate::units::{HorizontalGridLineIndex, StaveSpaces, Ticks, VerticalGridLineIndex};

verus! {

/// How a system is fitted to its target width once it has been laid out.
#[derive(Debug, Clone, Copy, PartialEq, Eq, Structural)]
pub enum SystemJustification {
    /// The system starts at zero and keeps its natural width.
    AlignStart,
    /// The system keeps its natural width and ends at the target width.
    AlignEnd,
    /// The system keeps its natural width and sits in the middle of the target width.
    Centered,
    /// The spacing blocks are stretched in proportion until the system fills the target width.
    Justified,
}

/// A two-dimensional layout of blocks on a system, defined by flat vertical
/// and horizontal grid lines. The grid lines have no width or height; each
/// stands for one coordinate that is not known at first. Blocks are placed
/// by rules that tie their edges to grid lines. Engraving the system finds
/// coordinates for all of them.
#[derive(Debug)]
pub struct LayoutSystem {
    pub(crate) index_in_movement: u32,
    pub(crate) start_ticks: Ticks,
    pub(crate) end_ticks: Ticks,
    pub(crate) justification: SystemJustification,
    pub(crate) target_system_width: StaveSpaces,
    pub(crate) horizontal_grid_lines: Vec<HorizontalGridLine>,
    pub(crate) vertical_grid_lines: Vec<VerticalGridLine>,
    pub(crate) top_edge: HorizontalGridLineIndex,
    pub(crate) leading_edge: VerticalGridLineIndex,
    pub(crate) blocks: Vec<Block>,
    pub(crate) debug_do_draw_horizontal_grid_lines: bool,
    pub(crate) debug_do_draw_vertical_grid_lines: bool,
    pub(crate) debug_do_show_rhythmic_spacing: bool,
    pub(crate) debug_do_draw_block_outlines: bool,
}

/// The mathematical content of a [`LayoutSystem`].
pub struct LayoutSystemView {
    pub index_in_movement: u32,
    pub start_ticks: Ticks,
    pub end_ticks: Ticks,
    pub justification: SystemJustification,
    pub target_system_width: StaveSpaces,
    pub horizontal_grid_lines: Seq<HorizontalGridLine>,
    pub vertical_grid_lines: Seq<VerticalGridLine>,
    pub top_edge: HorizontalGridLineIndex,
    pub leading_edge: VerticalGridLineIndex,
    pub blocks: Seq<Block>,
    pub debug_do_draw_horizontal_grid_lines: bool,
    pub debug_do_draw_vertical_grid_lines: bool,
    pub debug_do_show_rhythmic_spacing: bool,
    pub debug_do_draw_block_outlines: bool,
}

impl View for LayoutSystem {
    type V = LayoutSystemView;

    closed spec fn view(&self) -> LayoutSystemView {
        LayoutSystemView {
            index_in_movement: self.index_in_movement,
            start_ticks: self.start_ticks,
            end_ticks: self.end_ticks,
            justification: self.justification,
            target_system_width: self.target_system_width,
            horizontal_grid_lines: self.horizontal_grid_lines@,
            vertical_grid_lines: self.vertical_grid_lines@,
            top_edge: self.top_edge,
            leading_edge: self.leading_edge,
            blocks: self.blocks@,
            debug_do_draw_horizontal_grid_lines: self.debug_do_draw_horizontal_grid_lines,
            debug_do_draw_vertical_grid_lines: self.debug_do_draw_vertical_grid_lines,
            debug_do_show_rhythmic_spacing: self.debug_do_show_rhythmic_spacing,
            debug_do_draw_block_outlines: self.debug_do_draw_block_outlines,
        }
    }
}

impl LayoutSystemView {
    /// How many unknowns of each kind the system has.
    pub open spec fn counts(self) -> UnknownCounts {
        UnknownCounts {
            horizontal_grid_lines: self.horizontal_grid_lines.len() as usize,
            vertical_grid_lines: self.vertical_grid_lines.len() as usize,
            blocks: self.blocks.len() as usize,
        }
    }
}

impl LayoutSystem {
    /// Creates a system from its parts. Nothing is checked here: a rule
    /// that names a grid line or a block which the system does not have is
    /// reported when the system is engraved.
    pub fn new(
        index_in_movement: u32,
        start_ticks: Ticks,
        end_ticks: Ticks,
        justification: SystemJustification,
        target_system_width: StaveSpaces,
        horizontal_grid_lines: Vec<HorizontalGridLine>,
        vertical_grid_lines: Vec<VerticalGridLine>,
        top_edge: HorizontalGridLineIndex,
        leading_edge: VerticalGridLineIndex,
        blocks: Vec<Block>,
        debug_do_draw_horizontal_grid_lines: bool,
        debug_do_draw_vertical_grid_lines: bool,
        debug_do_show_rhythmic_spacing: bool,
        debug_do_draw_block_outlines: bool,
    ) -> (system: Self)
        ensures
            system@ == (LayoutSystemView {
                index_in_movement,
                start_ticks,
                end_ticks,
                justification,
                target_system_width,
                horizontal_grid_lines: horizontal_grid_lines@,
                vertical_grid_lines: vertical_grid_lines@,
                top_edge,
                leading_edge,
                blocks: blocks@,
                debug_do_draw_horizontal_grid_lines,
                debug_do_draw_vertical_grid_lines,
                debug_do_show_rhythmic_spacing,
                debug_do_draw_block_outlines,
            }),
    {
        LayoutSystem {
            index_in_movement,
            start_ticks,
            end_ticks,
            justification,
            target_system_width,
            horizontal_grid_lines,
            vertical_grid_lines,
            top_edge,
            leading_edge,
            blocks,
            debug_do_draw_horizontal_grid_lines,
            debug_do_draw_vertical_grid_lines,
            debug_do_show_rhythmic_spacing,
            debug_do_draw_block_outlines,
        }
    }

    /// Returns how the system is to be fitted to its target width.
    pub fn get_justification(&self) -> (justification: SystemJustification)
        ensures
            justification == self@.justification,
    {
        self.justification
    }

    /// Returns the width that justification aims at.
    pub fn get_target_system_width(&self) -> (width: StaveSpaces)
        ensures
            width == self@.target_system_width,
    {
        self.target_system_width
    }

    /// Returns all the horizontal grid lines of the system.
    pub fn get_horizontal_grid_lines(&self) -> (lines: &[HorizontalGridLine])
        ensures
            lines@ == self@.horizontal_grid_lines,
    {
        self.horizontal_grid_lines.as_slice()
    }

    /// Returns all the vertical grid lines of the system.
    pub fn get_vertical_grid_lines(&self) -> (lines: &[VerticalGridLine])
        ensures
            lines@ == self@.vertical_grid_lines,
    {
        self.vertical_grid_lines.as_slice()
    }

    /// Returns the index of the horizontal grid line that marks the top edge
    /// of the system. Together with the leading edge it defines the origin,
    /// relative to which everything else is placed.
    pub fn get_top_edge(&self) -> (index: HorizontalGridLineIndex)
        ensures
            index == self@.top_edge,
    {
        self.top_edge
    }

    /// Returns the index of the vertical grid line that marks the leading
    /// edge of the system. Together with the top edge it defines the origin,
    /// relative to which everything else is placed.
    pub fn get_leading_edge(&self) -> (index: VerticalGridLineIndex)
        ensures
            index == self@.leading_edge,
    {
        self.leading_edge
    }

    /// Returns the position of the system in its movement.
    pub fn get_index_in_movement(&self) -> (index: u32)
        ensures
            index == self@.index_in_movement,
    {
        self.index_in_movement
    }

    /// Returns the musical time at which the system begins.
    pub fn get_start_ticks(&self) -> (ticks: Ticks)
        ensures
            ticks == self@.start_ticks,
    {
        self.start_ticks
    }

    /// Returns the musical time at which the system ends.
    pub fn get_end_ticks(&self) -> (ticks: Ticks)
        ensures
            ticks == self@.end_ticks,
    {
        self.end_ticks
    }

    /// Returns whether guides for the horizontal grid lines are wanted.
    pub fn get_debug_do_draw_horizontal_grid_lines(&self) -> (wanted: bool)
        ensures
            wanted == self@.debug_do_draw_horizontal_grid_lines,
    {
        self.debug_do_draw_horizontal_grid_lines
    }

    /// Returns whether guides for the vertical grid lines are wanted.
    pub fn get_debug_do_draw_vertical_grid_lines(&self) -> (wanted: bool)
        ensures
            wanted == self@.debug_do_draw_vertical_grid_lines,
    {
        self.debug_do_draw_vertical_grid_lines
    }

    /// Returns whether spacing blocks are to be drawn like other blocks.
    pub fn get_debug_do_show_rhythmic_spacing(&self) -> (wanted: bool)
        ensures
            wanted == self@.debug_do_show_rhythmic_spacing,
    {
        self.debug_do_show_rhythmic_spacing
    }

    /// Returns whether outlines of the blocks are wanted.
    pub fn get_debug_do_draw_block_outlines(&self) -> (wanted: bool)
        ensures
            wanted == self@.debug_do_draw_block_outlines,
    {
        self.debug_do_draw_block_outlines
    }

    /// Returns all the blocks of the system.
    pub fn get_blocks(&self) -> (blocks: &[Block])
        ensures
            blocks@ == self@.blocks,
    {
        self.blocks.as_slice()
    }
}

} // verus!
