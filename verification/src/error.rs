//! The ways in which engraving a system can fail.

use vstd::prelude::*;
use crate::units::{BlockIndex, HorizontalGridLineIndex, VerticalGridLineIndex};

verus! {

#[verifier::external_type_specification]
#[verifier::external_body]
pub struct ExAddConstraintError(cassowary::AddConstraintError);

#[verifier::external_type_specification]
#[verifier::external_body]
pub struct ExAddEditVariableError(cassowary::AddEditVariableError);

#[verifier::external_type_specification]
#[verifier::external_body]
pub struct ExSuggestValueError(cassowary::SuggestValueError);

/// Why a system could not be engraved. Any of these ends the whole
/// operation: there is no partial result.
#[derive(Debug, Copy, Clone)]
pub enum EngravingError {
    /// A rule names a horizontal grid line that the system does not have.
    UnknownHorizontalGridLine(HorizontalGridLineIndex),
    /// A rule names a vertical grid line that the system does not have.
    UnknownVerticalGridLine(VerticalGridLineIndex),
    /// A rule needs the top edge of a block that the system does not have.
    UnknownBlockTopPosition(BlockIndex),
    /// A rule needs the bottom edge of a block that the system does not have.
    UnknownBlockBottomPosition(BlockIndex),
    /// A rule needs the start edge of a block that the system does not have.
    UnknownBlockStartPosition(BlockIndex),
    /// A rule needs the end edge of a block that the system does not have.
    UnknownBlockEndPosition(BlockIndex),
    /// The solver turned down a relation of the given horizontal grid line.
    AddConstraintErrorOnHorizontalGridLine(cassowary::AddConstraintError, HorizontalGridLineIndex),
    /// The solver turned down a relation of the given vertical grid line.
    AddConstraintErrorOnVerticalGridLine(cassowary::AddConstraintError, VerticalGridLineIndex),
    /// The solver turned down a relation of the given block.
    AddConstraintErrorOnBlock(cassowary::AddConstraintError, BlockIndex),
    /// The solver would not register the aligned start of the system.
    DefineJustificationError(cassowary::AddEditVariableError),
    /// The solver would not take a value for the aligned start of the system.
    ApplyJustificationError(cassowary::SuggestValueError),
}

impl EngravingError {
    /// Whether the error says that a rule points outside the system's lists.
    pub open spec fn is_indexing_error(self) -> bool {
        self is UnknownHorizontalGridLine || self is UnknownVerticalGridLine
            || self is UnknownBlockTopPosition || self is UnknownBlockBottomPosition
            || self is UnknownBlockStartPosition || self is UnknownBlockEndPosition
    }

    /// Whether the error passes on a refusal of the solver.
    pub open spec fn is_solver_error(self) -> bool {
        !self.is_indexing_error()
    }
}

} // verus!
