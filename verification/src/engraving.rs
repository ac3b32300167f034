//! The engraved system: what comes out of laying a system out.
//!
//! An engraved system holds the solved coordinate of every grid line, the
//! width and height of the system, and three layers of positioned drawables
//! for a renderer to paint. Guides that show the grid lines and the outlines
//! of the blocks can be added to the background; they are made from the
//! solved coordinates and never feed back into them.

use vstd::prelude::*;
use crate::block::{Block, BlockLayer, Source};
use crate::collision::Extents;
use crate::grid::{HorizontalGridLine, HorizontalGridLineType, VerticalGridLine, VerticalGridLineType};
use crate::layout::LayoutSystem;
use crate::units::{BlockIndex, StaveSpaces, Ticks, STAVE_SPACES_ZERO};

verus! {

/// The colours in which guides are drawn.
#[derive(Debug, Clone, Copy, PartialEq, Eq, Structural)]
pub enum Color {
    Aqua,
    Blue,
    BlueViolet,
    CadetBlue,
    Chocolate,
    CornflowerBlue,
    Cyan,
    DarkViolet,
    DeepPink,
    Firebrick,
    Green,
    GreenYellow,
    LawnGreen,
    Orange,
    Red,
    SandyBrown,
}

/// How a line is stroked.
#[derive(Debug, Clone, Copy, PartialEq, Eq, Structural)]
pub enum StrokeStyle {
    Solid,
    Dashed,
}

/// A point of the system.
#[derive(Debug, Clone, Copy, PartialEq, Eq, Structural)]
pub struct StavePoint {
    pub x: StaveSpaces,
    pub y: StaveSpaces,
}

/// A straight line to be drawn.
#[derive(Debug, Clone, Copy, PartialEq, Eq, Structural)]
pub struct EngravedLine {
    pub source: Source,
    pub from: StavePoint,
    pub to: StavePoint,
    pub thickness: StaveSpaces,
    pub color: Color,
    pub stroke_style: StrokeStyle,
}

/// A block with its four solved edges. The edges of a block of fixed size
/// enclose its padding; what is drawn of it has the size of the block
/// itself.
#[derive(Debug, Clone, Copy, PartialEq, Eq, Structural)]
pub struct EngravedBlock {
    pub source: Source,
    pub top: StaveSpaces,
    pub bottom: StaveSpaces,
    pub start: StaveSpaces,
    pub end: StaveSpaces,
    /// The width of the block where that is fixed.
    pub fixed_width: Option<StaveSpaces>,
    /// The height of the block where that is fixed.
    pub fixed_height: Option<StaveSpaces>,
}

impl EngravedBlock {
    /// The width that is drawn: the fixed width of the block where it has
    /// one, else the distance from its start to its end.
    pub open spec fn drawn_width(self) -> int {
        match self.fixed_width {
            Some(width) => width as int,
            None => self.end - self.start,
        }
    }

    /// The height that is drawn: the fixed height of the block where it has
    /// one, else the distance from its top to its bottom.
    pub open spec fn drawn_height(self) -> int {
        match self.fixed_height {
            Some(height) => height as int,
            None => self.bottom - self.top,
        }
    }
}

/// A positioned drawable.
#[derive(Debug, Clone, Copy, PartialEq, Eq, Structural)]
pub enum Engravable {
    Block(EngravedBlock),
    Line(EngravedLine),
}

/// The thickness of a guide: a tenth of a stave space.
pub const GUIDE_THICKNESS: StaveSpaces = 100;

impl Engravable {
    /// A drawable for a block with the given solved edges.
    pub open spec fn of_block(
        block: Block,
        top: StaveSpaces,
        bottom: StaveSpaces,
        start: StaveSpaces,
        end: StaveSpaces,
    ) -> Engravable {
        Engravable::Block(
            EngravedBlock {
                source: block.source,
                top,
                bottom,
                start,
                end,
                fixed_width: if block.fixed_width {
                    Some(block.width)
                } else {
                    None
                },
                fixed_height: if block.fixed_height {
                    Some(block.height)
                } else {
                    None
                },
            },
        )
    }

    /// Makes a drawable for a block with the given solved edges.
    pub fn new_from_block(
        block: &Block,
        top: StaveSpaces,
        bottom: StaveSpaces,
        start: StaveSpaces,
        end: StaveSpaces,
    ) -> (engravable: Engravable)
        ensures
            engravable == Engravable::of_block(*block, top, bottom, start, end),
    {
        Engravable::Block(
            EngravedBlock {
                source: block.get_source(),
                top,
                bottom,
                start,
                end,
                fixed_width: if block.is_fixed_width() {
                    Some(block.get_fixed_width())
                } else {
                    None
                },
                fixed_height: if block.is_fixed_height() {
                    Some(block.get_fixed_height())
                } else {
                    None
                },
            },
        )
    }

    /// Makes a drawable of a line.
    pub fn new_line(line: EngravedLine) -> (engravable: Engravable)
        ensures
            engravable == Engravable::Line(line),
    {
        Engravable::Line(line)
    }

    /// The x position at which the drawable begins.
    pub fn get_x(&self) -> (x: StaveSpaces)
        ensures
            x == match *self {
                Engravable::Block(block) => block.start,
                Engravable::Line(line) => line.from.x,
            },
    {
        match self {
            Engravable::Block(block) => block.start,
            Engravable::Line(line) => line.from.x,
        }
    }

    /// The y position at which the drawable begins.
    pub fn get_y(&self) -> (y: StaveSpaces)
        ensures
            y == match *self {
                Engravable::Block(block) => block.top,
                Engravable::Line(line) => line.from.y,
            },
    {
        match self {
            Engravable::Block(block) => block.top,
            Engravable::Line(line) => line.from.y,
        }
    }

    /// How far the drawable reaches to the right of where it begins.
    pub fn get_width(&self) -> (width: i64)
        ensures
            width == match *self {
                Engravable::Block(block) => block.drawn_width(),
                Engravable::Line(line) => line.to.x - line.from.x,
            },
    {
        match self {
            Engravable::Block(block) => match block.fixed_width {
                Some(width) => width as i64,
                None => block.end as i64 - block.start as i64,
            },
            Engravable::Line(line) => line.to.x as i64 - line.from.x as i64,
        }
    }

    /// How far the drawable reaches below where it begins.
    pub fn get_height(&self) -> (height: i64)
        ensures
            height == match *self {
                Engravable::Block(block) => block.drawn_height(),
                Engravable::Line(line) => line.to.y - line.from.y,
            },
    {
        match self {
            Engravable::Block(block) => match block.fixed_height {
                Some(height) => height as i64,
                None => block.bottom as i64 - block.top as i64,
            },
            Engravable::Line(line) => line.to.y as i64 - line.from.y as i64,
        }
    }
}

/// A system with everything in its place.
#[derive(Debug, Clone)]
pub struct EngravedSystem {
    pub(crate) index_in_movement: u32,
    pub(crate) horizontal_grid_line_positions: Vec<StaveSpaces>,
    pub(crate) vertical_grid_line_positions: Vec<StaveSpaces>,
    pub(crate) start_ticks: Ticks,
    pub(crate) end_ticks: Ticks,
    pub(crate) width: StaveSpaces,
    pub(crate) height: StaveSpaces,
    pub(crate) foreground: Vec<Engravable>,
    pub(crate) midground: Vec<Engravable>,
    pub(crate) background: Vec<Engravable>,
    pub(crate) unresolved_collisions: Vec<(BlockIndex, BlockIndex)>,
}

/// The mathematical content of an [`EngravedSystem`].
pub struct EngravedSystemView {
    pub index_in_movement: u32,
    /// The y position of every horizontal grid line, in the order of the system's list.
    pub horizontal_grid_line_positions: Seq<StaveSpaces>,
    /// The x position of every vertical grid line, in the order of the system's list.
    pub vertical_grid_line_positions: Seq<StaveSpaces>,
    pub start_ticks: Ticks,
    pub end_ticks: Ticks,
    /// The largest end position of any block, or zero without blocks.
    pub width: StaveSpaces,
    /// The largest bottom position of any block, or zero without blocks.
    pub height: StaveSpaces,
    pub foreground: Seq<Engravable>,
    pub midground: Seq<Engravable>,
    pub background: Seq<Engravable>,
    /// The colliding pairs that were left as they are.
    pub unresolved_collisions: Seq<(BlockIndex, BlockIndex)>,
}

impl View for EngravedSystem {
    type V = EngravedSystemView;

    closed spec fn view(&self) -> EngravedSystemView {
        EngravedSystemView {
            index_in_movement: self.index_in_movement,
            horizontal_grid_line_positions: self.horizontal_grid_line_positions@,
            vertical_grid_line_positions: self.vertical_grid_line_positions@,
            start_ticks: self.start_ticks,
            end_ticks: self.end_ticks,
            width: self.width,
            height: self.height,
            foreground: self.foreground@,
            midground: self.midground@,
            background: self.background@,
            unresolved_collisions: self.unresolved_collisions@,
        }
    }
}

impl EngravedSystem {
    /// Makes an engraved system from its parts.
    pub fn new(
        index_in_movement: u32,
        horizontal_grid_line_positions: Vec<StaveSpaces>,
        vertical_grid_line_positions: Vec<StaveSpaces>,
        start_ticks: Ticks,
        end_ticks: Ticks,
        width: StaveSpaces,
        height: StaveSpaces,
        foreground: Vec<Engravable>,
        midground: Vec<Engravable>,
        background: Vec<Engravable>,
        unresolved_collisions: Vec<(BlockIndex, BlockIndex)>,
    ) -> (system: Self)
        ensures
            system@ == (EngravedSystemView {
                index_in_movement,
                horizontal_grid_line_positions: horizontal_grid_line_positions@,
                vertical_grid_line_positions: vertical_grid_line_positions@,
                start_ticks,
                end_ticks,
                width,
                height,
                foreground: foreground@,
                midground: midground@,
                background: background@,
                unresolved_collisions: unresolved_collisions@,
            }),
    {
        EngravedSystem {
            index_in_movement,
            horizontal_grid_line_positions,
            vertical_grid_line_positions,
            start_ticks,
            end_ticks,
            width,
            height,
            foreground,
            midground,
            background,
            unresolved_collisions,
        }
    }

    pub fn get_index_in_movement(&self) -> (index: u32)
        ensures
            index == self@.index_in_movement,
    {
        self.index_in_movement
    }

    pub fn get_horizontal_grid_line_positions(&self) -> (positions: &[StaveSpaces])
        ensures
            positions@ == self@.horizontal_grid_line_positions,
    {
        self.horizontal_grid_line_positions.as_slice()
    }

    pub fn get_vertical_grid_line_positions(&self) -> (positions: &[StaveSpaces])
        ensures
            positions@ == self@.vertical_grid_line_positions,
    {
        self.vertical_grid_line_positions.as_slice()
    }

    pub fn get_start_ticks(&self) -> (ticks: Ticks)
        ensures
            ticks == self@.start_ticks,
    {
        self.start_ticks
    }

    pub fn get_end_ticks(&self) -> (ticks: Ticks)
        ensures
            ticks == self@.end_ticks,
    {
        self.end_ticks
    }

    pub fn get_width(&self) -> (width: StaveSpaces)
        ensures
            width == self@.width,
    {
        self.width
    }

    pub fn get_height(&self) -> (height: StaveSpaces)
        ensures
            height == self@.height,
    {
        self.height
    }

    pub fn get_foreground(&self) -> (layer: &[Engravable])
        ensures
            layer@ == self@.foreground,
    {
        self.foreground.as_slice()
    }

    pub fn get_midground(&self) -> (layer: &[Engravable])
        ensures
            layer@ == self@.midground,
    {
        self.midground.as_slice()
    }

    pub fn get_background(&self) -> (layer: &[Engravable])
        ensures
            layer@ == self@.background,
    {
        self.background.as_slice()
    }

    /// The colliding pairs that were left as they are because one of their
    /// blocks may move up or down.
    pub fn get_unresolved_collisions(&self) -> (pairs: &[(BlockIndex, BlockIndex)])
        ensures
            pairs@ == self@.unresolved_collisions,
    {
        self.unresolved_collisions.as_slice()
    }
}

/// The largest of the values, or zero where there is none.
pub open spec fn maximum(values: Seq<StaveSpaces>) -> StaveSpaces
    decreases values.len(),
{
    if values.len() == 0 {
        STAVE_SPACES_ZERO
    } else if values.len() == 1 {
        values[0]
    } else if maximum(values.drop_last()) >= values.last() {
        maximum(values.drop_last())
    } else {
        values.last()
    }
}

/// The maximum of values is one of them, and none of them is larger.
pub proof fn maximum_is_largest(values: Seq<StaveSpaces>)
    requires
        values.len() > 0,
    ensures
        values.contains(maximum(values)),
        forall |i: int| 0 <= i < values.len() ==> values[i] <= maximum(values),
    decreases values.len(),
{
    if values.len() == 1 {
        assert(values[0] == maximum(values));
    } else {
        let earlier = values.drop_last();
        maximum_is_largest(earlier);
        if maximum(earlier) >= values.last() {
            let at = choose |at: int| 0 <= at < earlier.len() && earlier[at] == maximum(earlier);
            assert(values[at] == maximum(values));
        } else {
            assert(values[values.len() - 1] == maximum(values));
        }
        assert forall |i: int| 0 <= i < values.len() implies values[i] <= maximum(values) by {
            if i < earlier.len() {
                assert(earlier[i] == values[i]);
            }
        }
    }
}

/// Finds the largest of the values, or zero where there is none.
pub fn largest(values: &[StaveSpaces]) -> (result: StaveSpaces)
    ensures
        result == maximum(values@),
{
    if values.len() == 0 {
        return STAVE_SPACES_ZERO;
    }
    let mut result = values[0];
    let mut i: usize = 1;
    assert(values@.take(1) =~= seq![values@[0]]);
    while i < values.len()
        invariant
            1 <= i <= values@.len(),
            result == maximum(values@.take(i as int)),
        decreases values@.len() - i,
    {
        proof {
            assert(values@.take(i + 1).drop_last() =~= values@.take(i as int));
            assert(values@.take(i + 1).last() == values@[i as int]);
        }
        if values[i] > result {
            result = values[i];
        }
        i += 1;
    }
    assert(values@.take(i as int) =~= values@);
    result
}

/// Whether a block is drawn on the layer: it belongs there, it is visible,
/// and it is no spacing block unless spacing is to be shown.
pub open spec fn drawn_on(block: Block, layer: BlockLayer, show_rhythmic_spacing: bool) -> bool {
    block.layer == layer && block.visible && (show_rhythmic_spacing || !block.spacing_block)
}

/// How many blocks have all four solved edges.
pub open spec fn placed(blocks: Seq<Block>, extents: Extents) -> int {
    let count = blocks.len() as int;
    let count = if extents.tops.len() < count {
        extents.tops.len() as int
    } else {
        count
    };
    let count = if extents.bottoms.len() < count {
        extents.bottoms.len() as int
    } else {
        count
    };
    let count = if extents.starts.len() < count {
        extents.starts.len() as int
    } else {
        count
    };
    if extents.ends.len() < count {
        extents.ends.len() as int
    } else {
        count
    }
}

/// The drawables of the first `count` blocks that are drawn on the layer,
/// in the order of the blocks.
pub open spec fn layer_of(
    blocks: Seq<Block>,
    layer: BlockLayer,
    extents: Extents,
    show_rhythmic_spacing: bool,
    count: int,
) -> Seq<Engravable>
    decreases count,
{
    if count <= 0 {
        Seq::empty()
    } else {
        let earlier = layer_of(blocks, layer, extents, show_rhythmic_spacing, count - 1);
        let last = count - 1;
        if drawn_on(blocks[last], layer, show_rhythmic_spacing) {
            earlier.push(
                Engravable::of_block(
                    blocks[last],
                    extents.tops[last],
                    extents.bottoms[last],
                    extents.starts[last],
                    extents.ends[last],
                ),
            )
        } else {
            earlier
        }
    }
}

/// The colour of the guide for a horizontal grid line.
pub open spec fn horizontal_guide_color(grid_line_type: HorizontalGridLineType) -> Color {
    match grid_line_type {
        HorizontalGridLineType::SystemTop => Color::Red,
        HorizontalGridLineType::SystemBottom => Color::Red,
        _ => Color::Blue,
    }
}

/// The colour of the guide for a vertical grid line.
pub open spec fn vertical_guide_color(grid_line_type: VerticalGridLineType) -> Color {
    match grid_line_type {
        VerticalGridLineType::SystemStart => Color::Red,
        VerticalGridLineType::PartGroupNameStart => Color::GreenYellow,
        VerticalGridLineType::PartGroupNameEnd => Color::GreenYellow,
        VerticalGridLineType::PartNameStart => Color::GreenYellow,
        VerticalGridLineType::PartNameEnd => Color::GreenYellow,
        VerticalGridLineType::PartStaveBraceStart => Color::Chocolate,
        VerticalGridLineType::PartStaveBraceEnd => Color::Chocolate,
        VerticalGridLineType::PartGroupLine => Color::CadetBlue,
        VerticalGridLineType::PartGroupBracketStart => Color::Chocolate,
        VerticalGridLineType::PartGroupBracketEnd => Color::Chocolate,
        VerticalGridLineType::SystemicLine => Color::Aqua,
        VerticalGridLineType::InstrumentLayoutStart => Color::CornflowerBlue,
        VerticalGridLineType::AnteriorStart => Color::Red,
        VerticalGridLineType::AnteriorEnd => Color::Red,
        VerticalGridLineType::InteriorStart => Color::Red,
        VerticalGridLineType::ClefColumnStart => Color::Firebrick,
        VerticalGridLineType::ClefColumnEnd => Color::Firebrick,
        VerticalGridLineType::KeySignatureColumnStart => Color::LawnGreen,
        VerticalGridLineType::KeySignatureColumnEnd => Color::LawnGreen,
        VerticalGridLineType::TimeSignatureColumnStart => Color::SandyBrown,
        VerticalGridLineType::TimeSignatureColumnEnd => Color::SandyBrown,
        VerticalGridLineType::StemColumnStart => Color::Orange,
        VerticalGridLineType::NoteheadLine0AccidentalStackStart => Color::DeepPink,
        VerticalGridLineType::NoteheadLine0AccidentalStackEnd => Color::DeepPink,
        VerticalGridLineType::NoteheadLine0NoteheadStackStart => Color::Cyan,
        VerticalGridLineType::RhythmicSpacingStart => Color::Green,
        VerticalGridLineType::RhythmicSpacingEnd => Color::Green,
        VerticalGridLineType::LyricSyllableEnd => Color::Blue,
        VerticalGridLineType::StemColumnEnd => Color::Orange,
        VerticalGridLineType::BarlineStart => Color::BlueViolet,
        VerticalGridLineType::BarlineEnd => Color::BlueViolet,
        VerticalGridLineType::InteriorEnd => Color::Red,
        VerticalGridLineType::PosteriorStart => Color::Red,
        VerticalGridLineType::PosteriorEnd => Color::Red,
        VerticalGridLineType::InstrumentLayoutEnd => Color::CornflowerBlue,
        VerticalGridLineType::SystemEnd => Color::Red,
    }
}

/// A guide from one point to another.
pub open spec fn guide(
    source: Source,
    from: StavePoint,
    to: StavePoint,
    color: Color,
    stroke_style: StrokeStyle,
) -> Engravable {
    Engravable::Line(EngravedLine { source, from, to, thickness: GUIDE_THICKNESS, color, stroke_style })
}

/// The guide for a horizontal grid line: a dashed line at its position
/// from the left edge to the width of the system.
pub open spec fn horizontal_guide(line: HorizontalGridLine, position: StaveSpaces, width: StaveSpaces) -> Engravable {
    guide(
        Source { moment_spine_item: None, part_index: None, voice_index: None, onset: None },
        StavePoint { x: STAVE_SPACES_ZERO, y: position },
        StavePoint { x: width, y: position },
        horizontal_guide_color(line.get_grid_line_type()),
        StrokeStyle::Dashed,
    )
}

/// The guide for a vertical grid line: a dashed line at its position from
/// the top edge to the height of the system.
pub open spec fn vertical_guide(line: VerticalGridLine, position: StaveSpaces, height: StaveSpaces) -> Engravable {
    guide(
        Source { moment_spine_item: None, part_index: None, voice_index: None, onset: None },
        StavePoint { x: position, y: STAVE_SPACES_ZERO },
        StavePoint { x: position, y: height },
        vertical_guide_color(line.get_grid_line_type()),
        StrokeStyle::Dashed,
    )
}

/// The guides for the horizontal grid lines that have a position.
pub open spec fn horizontal_guides(
    lines: Seq<HorizontalGridLine>,
    positions: Seq<StaveSpaces>,
    width: StaveSpaces,
) -> Seq<Engravable> {
    Seq::new(
        if lines.len() <= positions.len() {
            lines.len()
        } else {
            positions.len()
        },
        |i: int| horizontal_guide(lines[i], positions[i], width),
    )
}

/// The guides for the vertical grid lines that have a position.
pub open spec fn vertical_guides(
    lines: Seq<VerticalGridLine>,
    positions: Seq<StaveSpaces>,
    height: StaveSpaces,
) -> Seq<Engravable> {
    Seq::new(
        if lines.len() <= positions.len() {
            lines.len()
        } else {
            positions.len()
        },
        |i: int| vertical_guide(lines[i], positions[i], height),
    )
}

/// The outline of a block: four solid lines around its solved edges, drawn
/// clockwise from the top left corner.
pub open spec fn outline(
    block: Block,
    top: StaveSpaces,
    bottom: StaveSpaces,
    start: StaveSpaces,
    end: StaveSpaces,
    color: Color,
) -> Seq<Engravable> {
    seq![
        guide(block.source, StavePoint { x: start, y: top }, StavePoint { x: end, y: top }, color, StrokeStyle::Solid),
        guide(block.source, StavePoint { x: end, y: top }, StavePoint { x: end, y: bottom }, color, StrokeStyle::Solid),
        guide(
            block.source,
            StavePoint { x: end, y: bottom },
            StavePoint { x: start, y: bottom },
            color,
            StrokeStyle::Solid,
        ),
        guide(
            block.source,
            StavePoint { x: start, y: bottom },
            StavePoint { x: start, y: top },
            color,
            StrokeStyle::Solid,
        ),
    ]
}

/// The outlines of the first `count` blocks, in dark violet.
pub open spec fn outlines(blocks: Seq<Block>, extents: Extents, count: int) -> Seq<Engravable>
    decreases count,
{
    if count <= 0 {
        Seq::empty()
    } else {
        let last = count - 1;
        outlines(blocks, extents, last) + outline(
            blocks[last],
            extents.tops[last],
            extents.bottoms[last],
            extents.starts[last],
            extents.ends[last],
            Color::DarkViolet,
        )
    }
}

/// How many of the blocks have all four solved edges.
fn count_placed(
    blocks: &[Block],
    tops: &[StaveSpaces],
    bottoms: &[StaveSpaces],
    starts: &[StaveSpaces],
    ends: &[StaveSpaces],
) -> (count: usize)
    ensures
        count == placed(blocks@, Extents { tops: tops@, bottoms: bottoms@, starts: starts@, ends: ends@ }),
{
    let mut count = blocks.len();
    if tops.len() < count {
        count = tops.len();
    }
    if bottoms.len() < count {
        count = bottoms.len();
    }
    if starts.len() < count {
        count = starts.len();
    }
    if ends.len() < count {
        count = ends.len();
    }
    count
}

impl LayoutSystem {
    /// Makes the guides for the horizontal grid lines.
    pub fn create_debug_engravables_for_horizontal_grid_lines(
        horizontal_grid_lines: &[HorizontalGridLine],
        positions: &[StaveSpaces],
        width: StaveSpaces,
    ) -> (engravables: Vec<Engravable>)
        ensures
            engravables@ == horizontal_guides(horizontal_grid_lines@, positions@, width),
    {
        let count = if horizontal_grid_lines.len() <= positions.len() {
            horizontal_grid_lines.len()
        } else {
            positions.len()
        };
        let mut engravables: Vec<Engravable> = Vec::new();
        let mut i: usize = 0;
        while i < count
            invariant
                i <= count,
                count <= horizontal_grid_lines@.len(),
                count <= positions@.len(),
                engravables@.len() == i,
                forall |j: int|
                    0 <= j < i ==> engravables@[j] == horizontal_guide(horizontal_grid_lines@[j], positions@[j], width),
            decreases count - i,
        {
            let position = positions[i];
            let color = match horizontal_grid_lines[i].get_grid_line_type() {
                HorizontalGridLineType::SystemTop => Color::Red,
                HorizontalGridLineType::SystemBottom => Color::Red,
                _ => Color::Blue,
            };
            engravables.push(
                Engravable::new_line(
                    EngravedLine {
                        source: Source::none(),
                        from: StavePoint { x: STAVE_SPACES_ZERO, y: position },
                        to: StavePoint { x: width, y: position },
                        thickness: GUIDE_THICKNESS,
                        color,
                        stroke_style: StrokeStyle::Dashed,
                    },
                ),
            );
            i += 1;
        }
        assert(engravables@ =~= horizontal_guides(horizontal_grid_lines@, positions@, width));
        engravables
    }

    /// Makes the guides for the vertical grid lines.
    pub fn create_debug_engravables_for_vertical_grid_lines(
        vertical_grid_lines: &[VerticalGridLine],
        positions: &[StaveSpaces],
        height: StaveSpaces,
    ) -> (engravables: Vec<Engravable>)
        ensures
            engravables@ == vertical_guides(vertical_grid_lines@, positions@, height),
    {
        let count = if vertical_grid_lines.len() <= positions.len() {
            vertical_grid_lines.len()
        } else {
            positions.len()
        };
        let mut engravables: Vec<Engravable> = Vec::new();
        let mut i: usize = 0;
        while i < count
            invariant
                i <= count,
                count <= vertical_grid_lines@.len(),
                count <= positions@.len(),
                engravables@.len() == i,
                forall |j: int|
                    0 <= j < i ==> engravables@[j] == vertical_guide(vertical_grid_lines@[j], positions@[j], height),
            decreases count - i,
        {
            let position = positions[i];
            let color = match vertical_grid_lines[i].get_grid_line_type() {
                VerticalGridLineType::SystemStart => Color::Red,
                VerticalGridLineType::PartGroupNameStart => Color::GreenYellow,
                VerticalGridLineType::PartGroupNameEnd => Color::GreenYellow,
                VerticalGridLineType::PartNameStart => Color::GreenYellow,
                VerticalGridLineType::PartNameEnd => Color::GreenYellow,
                VerticalGridLineType::PartStaveBraceStart => Color::Chocolate,
                VerticalGridLineType::PartStaveBraceEnd => Color::Chocolate,
                VerticalGridLineType::PartGroupLine => Color::CadetBlue,
                VerticalGridLineType::PartGroupBracketStart => Color::Chocolate,
                VerticalGridLineType::PartGroupBracketEnd => Color::Chocolate,
                VerticalGridLineType::SystemicLine => Color::Aqua,
                VerticalGridLineType::InstrumentLayoutStart => Color::CornflowerBlue,
                VerticalGridLineType::AnteriorStart => Color::Red,
                VerticalGridLineType::AnteriorEnd => Color::Red,
                VerticalGridLineType::InteriorStart => Color::Red,
                VerticalGridLineType::ClefColumnStart => Color::Firebrick,
                VerticalGridLineType::ClefColumnEnd => Color::Firebrick,
                VerticalGridLineType::KeySignatureColumnStart => Color::LawnGreen,
                VerticalGridLineType::KeySignatureColumnEnd => Color::LawnGreen,
                VerticalGridLineType::TimeSignatureColumnStart => Color::SandyBrown,
                VerticalGridLineType::TimeSignatureColumnEnd => Color::SandyBrown,
                VerticalGridLineType::StemColumnStart => Color::Orange,
                VerticalGridLineType::NoteheadLine0AccidentalStackStart => Color::DeepPink,
                VerticalGridLineType::NoteheadLine0AccidentalStackEnd => Color::DeepPink,
                VerticalGridLineType::NoteheadLine0NoteheadStackStart => Color::Cyan,
                VerticalGridLineType::RhythmicSpacingStart => Color::Green,
                VerticalGridLineType::RhythmicSpacingEnd => Color::Green,
                VerticalGridLineType::LyricSyllableEnd => Color::Blue,
                VerticalGridLineType::StemColumnEnd => Color::Orange,
                VerticalGridLineType::BarlineStart => Color::BlueViolet,
                VerticalGridLineType::BarlineEnd => Color::BlueViolet,
                VerticalGridLineType::InteriorEnd => Color::Red,
                VerticalGridLineType::PosteriorStart => Color::Red,
                VerticalGridLineType::PosteriorEnd => Color::Red,
                VerticalGridLineType::InstrumentLayoutEnd => Color::CornflowerBlue,
                VerticalGridLineType::SystemEnd => Color::Red,
            };
            engravables.push(
                Engravable::new_line(
                    EngravedLine {
                        source: Source::none(),
                        from: StavePoint { x: position, y: STAVE_SPACES_ZERO },
                        to: StavePoint { x: position, y: height },
                        thickness: GUIDE_THICKNESS,
                        color,
                        stroke_style: StrokeStyle::Dashed,
                    },
                ),
            );
            i += 1;
        }
        assert(engravables@ =~= vertical_guides(vertical_grid_lines@, positions@, height));
        engravables
    }

    /// Makes the outlines of all blocks that have four solved edges.
    pub fn create_debug_engravables_for_block_bounding_boxes(
        blocks: &[Block],
        block_top_positions: &[StaveSpaces],
        block_bottom_positions: &[StaveSpaces],
        block_start_positions: &[StaveSpaces],
        block_end_positions: &[StaveSpaces],
    ) -> (engravables: Vec<Engravable>)
        ensures
            engravables@ == outlines(
                blocks@,
                Extents {
                    tops: block_top_positions@,
                    bottoms: block_bottom_positions@,
                    starts: block_start_positions@,
                    ends: block_end_positions@,
                },
                placed(
                    blocks@,
                    Extents {
                        tops: block_top_positions@,
                        bottoms: block_bottom_positions@,
                        starts: block_start_positions@,
                        ends: block_end_positions@,
                    },
                ),
            ),
    {
        let ghost extents = Extents {
            tops: block_top_positions@,
            bottoms: block_bottom_positions@,
            starts: block_start_positions@,
            ends: block_end_positions@,
        };
        let count = count_placed(
            blocks,
            block_top_positions,
            block_bottom_positions,
            block_start_positions,
            block_end_positions,
        );
        let mut engravables: Vec<Engravable> = Vec::new();
        let mut i: usize = 0;
        while i < count
            invariant
                i <= count,
                count == placed(blocks@, extents),
                extents == (Extents {
                    tops: block_top_positions@,
                    bottoms: block_bottom_positions@,
                    starts: block_start_positions@,
                    ends: block_end_positions@,
                }),
                engravables@ == outlines(blocks@, extents, i as int),
            decreases count - i,
        {
            let mut sides = Self::create_debug_engravable_for_block_bounding_box(
                &blocks[i],
                &block_top_positions[i],
                &block_bottom_positions[i],
                &block_start_positions[i],
                &block_end_positions[i],
                Color::DarkViolet,
            );
            engravables.append(&mut sides);
            i += 1;
        }
        engravables
    }

    /// Makes the outline of one block.
    pub fn create_debug_engravable_for_block_bounding_box(
        block: &Block,
        top: &StaveSpaces,
        bottom: &StaveSpaces,
        start: &StaveSpaces,
        end: &StaveSpaces,
        color: Color,
    ) -> (engravables: Vec<Engravable>)
        ensures
            engravables@ == outline(*block, *top, *bottom, *start, *end, color),
    {
        let source = block.get_source();
        let mut engravables: Vec<Engravable> = Vec::new();
        engravables.push(
            Engravable::new_line(
                EngravedLine {
                    source,
                    from: StavePoint { x: *start, y: *top },
                    to: StavePoint { x: *end, y: *top },
                    thickness: GUIDE_THICKNESS,
                    color,
                    stroke_style: StrokeStyle::Solid,
                },
            ),
        );
        engravables.push(
            Engravable::new_line(
                EngravedLine {
                    source,
                    from: StavePoint { x: *end, y: *top },
                    to: StavePoint { x: *end, y: *bottom },
                    thickness: GUIDE_THICKNESS,
                    color,
                    stroke_style: StrokeStyle::Solid,
                },
            ),
        );
        engravables.push(
            Engravable::new_line(
                EngravedLine {
                    source,
                    from: StavePoint { x: *end, y: *bottom },
                    to: StavePoint { x: *start, y: *bottom },
                    thickness: GUIDE_THICKNESS,
                    color,
                    stroke_style: StrokeStyle::Solid,
                },
            ),
        );
        engravables.push(
            Engravable::new_line(
                EngravedLine {
                    source,
                    from: StavePoint { x: *start, y: *bottom },
                    to: StavePoint { x: *start, y: *top },
                    thickness: GUIDE_THICKNESS,
                    color,
                    stroke_style: StrokeStyle::Solid,
                },
            ),
        );
        assert(engravables@ =~= outline(*block, *top, *bottom, *start, *end, color));
        engravables
    }

    /// Makes the drawables of one layer: one for each block that belongs to
    /// the layer, is visible and has four solved edges, in the order of the
    /// blocks. Spacing blocks only shape the layout and are left out, unless
    /// they are asked for.
    pub fn create_engravables_from_blocks_in_layer(
        blocks: &[Block],
        layer: BlockLayer,
        block_top_positions: &[StaveSpaces],
        block_bottom_positions: &[StaveSpaces],
        block_start_positions: &[StaveSpaces],
        block_end_positions: &[StaveSpaces],
        debug_do_show_rhythmic_spacing: bool,
    ) -> (engravables: Vec<Engravable>)
        ensures
            engravables@ == layer_of(
                blocks@,
                layer,
                Extents {
                    tops: block_top_positions@,
                    bottoms: block_bottom_positions@,
                    starts: block_start_positions@,
                    ends: block_end_positions@,
                },
                debug_do_show_rhythmic_spacing,
                placed(
                    blocks@,
                    Extents {
                        tops: block_top_positions@,
                        bottoms: block_bottom_positions@,
                        starts: block_start_positions@,
                        ends: block_end_positions@,
                    },
                ),
            ),
    {
        let ghost extents = Extents {
            tops: block_top_positions@,
            bottoms: block_bottom_positions@,
            starts: block_start_positions@,
            ends: block_end_positions@,
        };
        let count = count_placed(
            blocks,
            block_top_positions,
            block_bottom_positions,
            block_start_positions,
            block_end_positions,
        );
        let mut engravables: Vec<Engravable> = Vec::new();
        let mut i: usize = 0;
        while i < count
            invariant
                i <= count,
                count == placed(blocks@, extents),
                extents == (Extents {
                    tops: block_top_positions@,
                    bottoms: block_bottom_positions@,
                    starts: block_start_positions@,
                    ends: block_end_positions@,
                }),
                engravables@ == layer_of(blocks@, layer, extents, debug_do_show_rhythmic_spacing, i as int),
            decreases count - i,
        {
            let block = &blocks[i];
            if block.get_layer() == layer && block.is_visible() && (debug_do_show_rhythmic_spacing
                || !block.is_spacing_block()) {
                engravables.push(
                    Engravable::new_from_block(
                        block,
                        block_top_positions[i],
                        block_bottom_positions[i],
                        block_start_positions[i],
                        block_end_positions[i],
                    ),
                );
            }
            i += 1;
        }
        engravables
    }
}

} // verus!
