//! Grid lines: flat alignment guides with a single coordinate each.
//!
//! A horizontal grid line has a y position, a vertical grid line an x
//! position. A grid line carries rules that place it relative to other grid
//! lines of the same axis, which it names by their position in the system's
//! list.

use vstd::prelude::*;
use crate::units::{HorizontalGridLineIndex, StaveSpaces, VerticalGridLineIndex};

verus! {

/// What a horizontal grid line stands for. The tag only styles diagnostics.
#[derive(Debug, Clone, Copy, PartialEq, Eq, Structural)]
pub enum HorizontalGridLineType {
    SystemTop,
    SystemBottom,
    Staveline1,
    Staveline2,
    Staveline3,
    Staveline4,
    Staveline5,
    LyricBelowStaveLine1Top,
    LyricBelowStaveLine1Bottom,
}

/// A rule that places a horizontal grid line relative to others. "Below"
/// means a larger y.
#[derive(Debug, Clone, Copy, PartialEq, Eq, Structural)]
pub enum HorizontalGridLineConstraint {
    /// Exactly the distance above the named line.
    LockAboveHorizontalGridLineByDistance(HorizontalGridLineIndex, StaveSpaces),
    /// At least the distance above the named line, unless something stronger objects.
    FloatAboveHorizontalGridLineByDistance(HorizontalGridLineIndex, StaveSpaces),
    /// Exactly the distance below the named line.
    LockBelowHorizontalGridLineByDistance(HorizontalGridLineIndex, StaveSpaces),
    /// At least the distance below the named line, unless something stronger objects.
    FloatBelowHorizontalGridLineByDistance(HorizontalGridLineIndex, StaveSpaces),
    /// Halfway between the line above and the line below.
    VerticallyCenterBetweenHorizontalGridLines(HorizontalGridLineIndex, HorizontalGridLineIndex),
}

/// A horizontal alignment guide.
#[derive(Debug, Clone)]
pub struct HorizontalGridLine {
    grid_line_type: HorizontalGridLineType,
    constraints: Vec<HorizontalGridLineConstraint>,
}

impl HorizontalGridLine {
    /// The tag of the line.
    pub closed spec fn spec_grid_line_type(&self) -> HorizontalGridLineType {
        self.grid_line_type
    }

    /// The rules of the line, in the order in which they were added.
    pub closed spec fn spec_constraints(&self) -> Seq<HorizontalGridLineConstraint> {
        self.constraints@
    }

    /// A line with the given tag and no rules.
    pub fn new(grid_line_type: HorizontalGridLineType) -> (line: Self)
        ensures
            line.spec_grid_line_type() == grid_line_type,
            line.spec_constraints() == Seq::<HorizontalGridLineConstraint>::empty(),
    {
        HorizontalGridLine { grid_line_type, constraints: Vec::new() }
    }

    #[verifier::when_used_as_spec(spec_grid_line_type)]
    pub fn get_grid_line_type(&self) -> (grid_line_type: HorizontalGridLineType)
        ensures
            grid_line_type == self.spec_grid_line_type(),
    {
        self.grid_line_type
    }

    pub fn get_constraints(&self) -> (constraints: &[HorizontalGridLineConstraint])
        ensures
            constraints@ == self.spec_constraints(),
    {
        self.constraints.as_slice()
    }

    /// Adds a rule after those the line already has.
    pub fn add_constraint(&mut self, constraint: HorizontalGridLineConstraint)
        ensures
            final(self).spec_grid_line_type() == old(self).spec_grid_line_type(),
            final(self).spec_constraints() == old(self).spec_constraints().push(constraint),
    {
        self.constraints.push(constraint);
    }
}

/// What a vertical grid line stands for. The tag only styles diagnostics.
#[derive(Debug, Clone, Copy, PartialEq, Eq, Structural)]
pub enum VerticalGridLineType {
    SystemStart,
    PartGroupNameStart,
    PartGroupNameEnd,
    PartNameStart,
    PartNameEnd,
    PartStaveBraceStart,
    PartStaveBraceEnd,
    PartGroupLine,
    PartGroupBracketStart,
    PartGroupBracketEnd,
    SystemicLine,
    InstrumentLayoutStart,
    AnteriorStart,
    AnteriorEnd,
    InteriorStart,
    ClefColumnStart,
    ClefColumnEnd,
    KeySignatureColumnStart,
    KeySignatureColumnEnd,
    TimeSignatureColumnStart,
    TimeSignatureColumnEnd,
    StemColumnStart,
    NoteheadLine0AccidentalStackStart,
    NoteheadLine0AccidentalStackEnd,
    NoteheadLine0NoteheadStackStart,
    RhythmicSpacingStart,
    RhythmicSpacingEnd,
    LyricSyllableEnd,
    StemColumnEnd,
    BarlineStart,
    BarlineEnd,
    InteriorEnd,
    PosteriorStart,
    PosteriorEnd,
    InstrumentLayoutEnd,
    SystemEnd,
}

/// A rule that places a vertical grid line relative to others. "After" means
/// a larger x.
#[derive(Debug, Clone, Copy, PartialEq, Eq, Structural)]
pub enum VerticalGridLineConstraint {
    /// Exactly the distance before the named line.
    LockBeforeVerticalGridLineByDistance(VerticalGridLineIndex, StaveSpaces),
    /// At least the distance before the named line, unless something stronger objects.
    FloatBeforeVerticalGridLineByDistance(VerticalGridLineIndex, StaveSpaces),
    /// Exactly the distance after the named line.
    LockAfterVerticalGridLineByDistance(VerticalGridLineIndex, StaveSpaces),
    /// At least the distance after the named line, unless something stronger objects.
    FloatAfterVerticalGridLineByDistance(VerticalGridLineIndex, StaveSpaces),
}

/// A vertical alignment guide.
#[derive(Debug, Clone)]
pub struct VerticalGridLine {
    grid_line_type: VerticalGridLineType,
    constraints: Vec<VerticalGridLineConstraint>,
}

impl VerticalGridLine {
    /// The tag of the line.
    pub closed spec fn spec_grid_line_type(&self) -> VerticalGridLineType {
        self.grid_line_type
    }

    /// The rules of the line, in the order in which they were added.
    pub closed spec fn spec_constraints(&self) -> Seq<VerticalGridLineConstraint> {
        self.constraints@
    }

    /// A line with the given tag and no rules.
    pub fn new(grid_line_type: VerticalGridLineType) -> (line: Self)
        ensures
            line.spec_grid_line_type() == grid_line_type,
            line.spec_constraints() == Seq::<VerticalGridLineConstraint>::empty(),
    {
        VerticalGridLine { grid_line_type, constraints: Vec::new() }
    }

    #[verifier::when_used_as_spec(spec_grid_line_type)]
    pub fn get_grid_line_type(&self) -> (grid_line_type: VerticalGridLineType)
        ensures
            grid_line_type == self.spec_grid_line_type(),
    {
        self.grid_line_type
    }

    pub fn get_constraints(&self) -> (constraints: &[VerticalGridLineConstraint])
        ensures
            constraints@ == self.spec_constraints(),
    {
        self.constraints.as_slice()
    }

    /// Adds a rule after those the line already has.
    pub fn add_constraint(&mut self, constraint: VerticalGridLineConstraint)
        ensures
            final(self).spec_grid_line_type() == old(self).spec_grid_line_type(),
            final(self).spec_constraints() == old(self).spec_constraints().push(constraint),
    {
        self.constraints.push(constraint);
    }
}

} // verus!
