//! Blocks: the rectangles that a system lays out.
//!
//! A block has four edges (top, bottom, start, end), each an unknown of its
//! own. In either axis a block is fixed in size, in which case its trailing
//! edge follows from its leading edge, or variable, in which case both edges
//! are free. A block carries rules that tie its edges to grid lines or to
//! other blocks, which it names by their position in the system's lists.

use vstd::prelude::*;
use crate::units::{BlockIndex, HorizontalGridLineIndex, StaveSpaces, Ticks, VerticalGridLineIndex};

verus! {

/// The layer on which a block is painted. Layers paint in the order
/// background, midground, foreground.
#[derive(Debug, Clone, Copy, PartialEq, Eq, Structural)]
pub enum BlockLayer {
    Foreground,
    Midground,
    Background,
}

/// A rule that ties an edge of a block to a grid line or to another block.
///
/// `Lock` rules are strong, `Float` rules are weak and give way to any
/// stronger demand, and `Push` rules are strong one-sided demands on a grid
/// line.
#[derive(Debug, Clone, Copy, PartialEq, Eq, Structural)]
pub enum BlockConstraint {
    /// Top edge on the line, inset by the top padding.
    LockTopToHorizontalGridLine(HorizontalGridLineIndex),
    /// Top edge no higher than the line plus the top padding.
    FloatTopAfterHorizontalGridLine(HorizontalGridLineIndex),
    /// Bottom edge no lower than the line less the bottom padding.
    FloatBottomBeforeHorizontalGridLine(HorizontalGridLineIndex),
    /// Bottom edge on the line, inset by the bottom padding.
    LockBottomToHorizontalGridLine(HorizontalGridLineIndex),
    /// Start edge on the line, inset by the start padding.
    LockStartToVerticalGridLine(VerticalGridLineIndex),
    /// Start edge no earlier than the line plus the start padding.
    FloatStartAfterVerticalGridLine(VerticalGridLineIndex),
    /// End edge no later than the line less the end padding.
    FloatEndBeforeVerticalGridLine(VerticalGridLineIndex),
    /// End edge on the line, inset by the end padding.
    LockEndToVerticalGridLine(VerticalGridLineIndex),
    /// Baseline halfway between the line above and the line below.
    LockVerticalCenterHalfwayBetweenHorizontalGridLines(HorizontalGridLineIndex, HorizontalGridLineIndex),
    /// Baseline on the line.
    LockVerticalCenterToHorizontalGridLine(HorizontalGridLineIndex),
    /// Centre halfway between the two lines.
    LockHorizontalCenterHalfwayBetweenVerticalGridLines(VerticalGridLineIndex, VerticalGridLineIndex),
    /// Centre on the line.
    LockHorizontalCenterToVerticalGridLine(VerticalGridLineIndex),
    /// The line is at least the height and bottom padding below the top edge.
    PushHorizontalGridLineDownToAccommodateBlockHeight(HorizontalGridLineIndex),
    /// The line is at least the width and end padding after the start edge.
    PushVerticalGridLineSidewaysToAccommodateBlockWidth(VerticalGridLineIndex),
    /// Start edge at least the distance after the end of the other block.
    FloatAfterBlockByDistance(BlockIndex, StaveSpaces),
    /// End edge at least the distance before the start of the other block.
    FloatBeforeBlockByDistance(BlockIndex, StaveSpaces),
    /// Bottom edge at least the distance above the top of the other block.
    FloatAboveBlockByDistance(BlockIndex, StaveSpaces),
    /// Top edge at least the distance beneath the bottom of the other block.
    FloatBeneathBlockByDistance(BlockIndex, StaveSpaces),
    /// Start edge on the start of the other block, inset by the start padding.
    LockStartToBlockStart(BlockIndex),
    /// End edge on the end of the other block, inset by the end padding.
    LockEndToBlockEnd(BlockIndex),
    /// Top edge on the top of the other block, inset by the top padding.
    LockTopToBlockTop(BlockIndex),
    /// Bottom edge on the bottom of the other block, inset by the bottom padding.
    LockBottomToBlockBottom(BlockIndex),
    /// Centred in the gap between the end of the first block and the start of the second.
    LockHorizontalCenterBetweenBlocks(BlockIndex, BlockIndex),
    /// Centred in the gap between the bottom of the first block and the top of the second.
    LockVerticalCenterBetweenBlocks(BlockIndex, BlockIndex),
    /// Horizontal centre on that of the other block.
    LockHorizontalCenterToBlockCenter(BlockIndex),
    /// Horizontal centre on that of the other block, unless something stronger objects.
    FloatHorizontalCenterToBlockCenter(BlockIndex),
    /// Vertical centre on that of the other block.
    LockVerticalCenterToBlockCenter(BlockIndex),
    /// Start edge exactly the distance after the end of the other block.
    LockAfterBlockByDistance(BlockIndex, StaveSpaces),
    /// End edge exactly the distance before the start of the other block.
    LockBeforeBlockByDistance(BlockIndex, StaveSpaces),
    /// Bottom edge exactly the distance above the top of the other block.
    LockAboveBlockByDistance(BlockIndex, StaveSpaces),
    /// Top edge exactly the distance beneath the bottom of the other block.
    LockBeneathBlockByDistance(BlockIndex, StaveSpaces),
    /// Top edge on the vertical centre of the other block.
    LockTopToBlockCenter(BlockIndex),
    /// Bottom edge on the vertical centre of the other block.
    LockBottomToBlockCenter(BlockIndex),
}

/// Where a block comes from. Two collidable blocks with the same spine item
/// belong together (a stem and its notehead) and may overlap.
#[derive(Debug, Clone, Copy, PartialEq, Eq, Structural)]
pub struct Source {
    /// The item of the moment spine that the block was made for, if any.
    pub moment_spine_item: Option<u64>,
    /// The part that the block belongs to, if any.
    pub part_index: Option<u32>,
    /// The voice that the block belongs to, if any.
    pub voice_index: Option<u32>,
    /// The onset of the block in musical time, if it has one.
    pub onset: Option<Ticks>,
}

/// A rectangle to be placed on the grid.
#[derive(Debug, Clone)]
pub struct Block {
    /// The layer on which the block is painted.
    pub layer: BlockLayer,
    /// Whether the block is painted at all.
    pub visible: bool,
    /// Whether the width is known upfront.
    pub fixed_width: bool,
    /// The width, meaningful where it is known upfront.
    pub width: StaveSpaces,
    /// Whether the height is known upfront.
    pub fixed_height: bool,
    /// The height, meaningful where it is known upfront.
    pub height: StaveSpaces,
    /// The distance from the top edge down to the baseline.
    pub descent: StaveSpaces,
    pub top_padding: StaveSpaces,
    pub bottom_padding: StaveSpaces,
    pub start_padding: StaveSpaces,
    pub end_padding: StaveSpaces,
    /// The rules of the block, in the order in which they were added.
    pub constraints: Vec<BlockConstraint>,
    /// Whether the block takes part in collision detection.
    pub collidable: bool,
    /// Whether the block only reserves width that justification may stretch.
    pub spacing_block: bool,
    pub can_move_up_to_avoid_vertical_collision: bool,
    pub can_move_down_to_avoid_vertical_collision: bool,
    /// Where the block comes from.
    pub source: Source,
}

impl Source {
    /// A source that names nothing.
    pub fn none() -> (source: Self)
        ensures
            source == (Source { moment_spine_item: None, part_index: None, voice_index: None, onset: None }),
    {
        Source { moment_spine_item: None, part_index: None, voice_index: None, onset: None }
    }

    /// Whether two blocks with these sources were made for the same spine
    /// item. Blocks without a spine item count as one origin.
    pub fn same_spine_item(&self, other: &Source) -> (same: bool)
        ensures
            same == (self.moment_spine_item == other.moment_spine_item),
    {
        match (self.moment_spine_item, other.moment_spine_item) {
            (None, None) => true,
            (Some(mine), Some(theirs)) => mine == theirs,
            _ => false,
        }
    }
}

impl Block {
    /// A visible block of variable size on the given layer, without padding,
    /// rules or source, that takes no part in collision detection.
    pub fn new(layer: BlockLayer) -> (block: Self)
        ensures
            block.layer == layer,
            block.visible,
            !block.fixed_width && block.width == 0,
            !block.fixed_height && block.height == 0,
            block.descent == 0,
            block.top_padding == 0 && block.bottom_padding == 0,
            block.start_padding == 0 && block.end_padding == 0,
            block.constraints@ == Seq::<BlockConstraint>::empty(),
            !block.collidable && !block.spacing_block,
            !block.can_move_up_to_avoid_vertical_collision,
            !block.can_move_down_to_avoid_vertical_collision,
            block.source == (Source { moment_spine_item: None, part_index: None, voice_index: None, onset: None }),
    {
        Block {
            layer,
            visible: true,
            fixed_width: false,
            width: 0,
            fixed_height: false,
            height: 0,
            descent: 0,
            top_padding: 0,
            bottom_padding: 0,
            start_padding: 0,
            end_padding: 0,
            constraints: Vec::new(),
            collidable: false,
            spacing_block: false,
            can_move_up_to_avoid_vertical_collision: false,
            can_move_down_to_avoid_vertical_collision: false,
            source: Source::none(),
        }
    }

    /// A block of the given size on the given layer, otherwise as `new` makes it.
    pub fn new_fixed(layer: BlockLayer, width: StaveSpaces, height: StaveSpaces) -> (block: Self)
        ensures
            block.fixed_width && block.width == width,
            block.fixed_height && block.height == height,
            block.layer == layer,
            block.visible,
            block.descent == 0,
            block.top_padding == 0 && block.bottom_padding == 0,
            block.start_padding == 0 && block.end_padding == 0,
            block.constraints@ == Seq::<BlockConstraint>::empty(),
            !block.collidable && !block.spacing_block,
            !block.can_move_up_to_avoid_vertical_collision,
            !block.can_move_down_to_avoid_vertical_collision,
            block.source == (Source { moment_spine_item: None, part_index: None, voice_index: None, onset: None }),
    {
        let mut block = Block::new(layer);
        block.fixed_width = true;
        block.width = width;
        block.fixed_height = true;
        block.height = height;
        block
    }

    /// A spacing block: a background block of the given width and no height
    /// that reserves room and is left out of the drawn result.
    pub fn new_spacing(width: StaveSpaces) -> (block: Self)
        ensures
            block.spacing_block,
            block.fixed_width && block.width == width,
            block.fixed_height && block.height == 0,
            block.layer == BlockLayer::Background,
            block.visible,
            block.descent == 0,
            block.top_padding == 0 && block.bottom_padding == 0,
            block.start_padding == 0 && block.end_padding == 0,
            block.constraints@ == Seq::<BlockConstraint>::empty(),
            !block.collidable,
            !block.can_move_up_to_avoid_vertical_collision,
            !block.can_move_down_to_avoid_vertical_collision,
            block.source == (Source { moment_spine_item: None, part_index: None, voice_index: None, onset: None }),
    {
        let mut block = Block::new_fixed(BlockLayer::Background, width, 0);
        block.spacing_block = true;
        block
    }

    /// Adds a rule after those the block already has.
    pub fn add_constraint(&mut self, constraint: BlockConstraint)
        ensures
            *final(self) == (Block { constraints: final(self).constraints, ..*old(self) }),
            final(self).constraints@ == old(self).constraints@.push(constraint),
    {
        self.constraints.push(constraint);
    }

    pub fn get_layer(&self) -> (layer: BlockLayer)
        ensures
            layer == self.layer,
    {
        self.layer
    }

    pub fn is_visible(&self) -> (visible: bool)
        ensures
            visible == self.visible,
    {
        self.visible
    }

    pub fn is_fixed_width(&self) -> (fixed: bool)
        ensures
            fixed == self.fixed_width,
    {
        self.fixed_width
    }

    pub fn is_fixed_height(&self) -> (fixed: bool)
        ensures
            fixed == self.fixed_height,
    {
        self.fixed_height
    }

    pub fn get_fixed_width(&self) -> (width: StaveSpaces)
        ensures
            width == self.width,
    {
        self.width
    }

    pub fn get_fixed_height(&self) -> (height: StaveSpaces)
        ensures
            height == self.height,
    {
        self.height
    }

    pub fn get_descent(&self) -> (descent: StaveSpaces)
        ensures
            descent == self.descent,
    {
        self.descent
    }

    pub fn get_top_padding(&self) -> (padding: StaveSpaces)
        ensures
            padding == self.top_padding,
    {
        self.top_padding
    }

    pub fn get_bottom_padding(&self) -> (padding: StaveSpaces)
        ensures
            padding == self.bottom_padding,
    {
        self.bottom_padding
    }

    pub fn get_start_padding(&self) -> (padding: StaveSpaces)
        ensures
            padding == self.start_padding,
    {
        self.start_padding
    }

    pub fn get_end_padding(&self) -> (padding: StaveSpaces)
        ensures
            padding == self.end_padding,
    {
        self.end_padding
    }

    pub fn get_constraints(&self) -> (constraints: &[BlockConstraint])
        ensures
            constraints@ == self.constraints@,
    {
        self.constraints.as_slice()
    }

    pub fn is_collidable(&self) -> (collidable: bool)
        ensures
            collidable == self.collidable,
    {
        self.collidable
    }

    pub fn is_spacing_block(&self) -> (spacing: bool)
        ensures
            spacing == self.spacing_block,
    {
        self.spacing_block
    }

    pub fn get_can_move_up_to_avoid_vertical_collision(&self) -> (can: bool)
        ensures
            can == self.can_move_up_to_avoid_vertical_collision,
    {
        self.can_move_up_to_avoid_vertical_collision
    }

    pub fn get_can_move_down_to_avoid_vertical_collision(&self) -> (can: bool)
        ensures
            can == self.can_move_down_to_avoid_vertical_collision,
    {
        self.can_move_down_to_avoid_vertical_collision
    }

    pub fn get_source(&self) -> (source: Source)
        ensures
            source == self.source,
    {
        self.source
    }
}

} // verus!
