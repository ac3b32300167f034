//! The Cassowary solver, with one variable for each unknown of a layout.
//!
//! A [`LayoutSolver`] owns a solver of the `cassowary` crate and the solver
//! variables that stand for the unknowns: one for each grid line, four for
//! each block and one for the aligned start of the system. Relations are
//! posted to it in terms of unknowns. What the solver then holds as values
//! is its own business: nothing in this crate says what values it finds,
//! only which relations it was given.

use vstd::prelude::*;
use crate::relation::{Operator, Relation, RelationView, Strength, Unknown, UnknownCounts};
use crate::units::StaveSpaces;

verus! {

#[verifier::external_type_specification]
#[verifier::external_body]
pub struct ExSolver(cassowary::Solver);

#[verifier::external_type_specification]
#[verifier::external_body]
pub struct ExVariable(cassowary::Variable);

/// `cassowary::Solver::new` returns an empty solver. Nothing is claimed of it.
pub assume_specification[ cassowary::Solver::new ]() -> (solver: cassowary::Solver);

/// `cassowary::Variable::new` returns a variable that no earlier call
/// returned. Nothing is claimed of it.
pub assume_specification[ cassowary::Variable::new ]() -> (variable: cassowary::Variable);

/// Calls `cassowary::Solver::add_constraint` with the constraint
/// `c1·v1 + … + cn·vn + constant  op  0` of the given strength, built by
/// `cassowary::Expression::new` and `cassowary::Constraint::new`. Each
/// coefficient is handed over as the double of the same value, the constant
/// as the double nearest to it. Nothing is claimed of the answer: the solver
/// accepts the constraint or refuses it.
#[verifier::external_body]
fn solver_add_constraint(
    solver: &mut cassowary::Solver,
    terms: &Vec<(cassowary::Variable, i32)>,
    constant: i128,
    operator: Operator,
    strength: Strength,
) -> (answer: Result<(), cassowary::AddConstraintError>)
{
    let terms = terms.iter().map(|t| cassowary::Term { variable: t.0, coefficient: t.1.into() }).collect();
    let operator = match operator {
        Operator::LessOrEqual => cassowary::RelationalOperator::LessOrEqual,
        Operator::Equal => cassowary::RelationalOperator::Equal,
        Operator::GreaterOrEqual => cassowary::RelationalOperator::GreaterOrEqual,
    };
    let strength = match strength {
        Strength::Required => cassowary::strength::REQUIRED,
        Strength::Strong => cassowary::strength::STRONG,
        Strength::Weak => cassowary::strength::WEAK,
    };
    solver.add_constraint(cassowary::Constraint::new(cassowary::Expression::new(terms, constant as _), operator, strength))
}

/// Calls `cassowary::Solver::add_edit_variable`, which registers the
/// variable as one whose value can be suggested later. Nothing is claimed of
/// the answer. The call adds a constraint of its own for the variable and
/// panics where that fails, so it is made only where that cannot fail: see
/// [`LayoutSolver::register_aligned_start`].
#[verifier::external_body]
fn solver_add_edit_variable(
    solver: &mut cassowary::Solver,
    variable: cassowary::Variable,
    strength: Strength,
) -> (answer: Result<(), cassowary::AddEditVariableError>)
{
    let strength = match strength {
        Strength::Required => cassowary::strength::REQUIRED,
        Strength::Strong => cassowary::strength::STRONG,
        Strength::Weak => cassowary::strength::WEAK,
    };
    solver.add_edit_variable(variable, strength)
}

/// Calls `cassowary::Solver::suggest_value` with the double nearest to the
/// whole number. Nothing is claimed of the answer.
#[verifier::external_body]
fn solver_suggest_value(
    solver: &mut cassowary::Solver,
    variable: cassowary::Variable,
    value: i64,
) -> (answer: Result<(), cassowary::SuggestValueError>)
{
    solver.suggest_value(variable, value as _)
}

/// Calls `cassowary::Solver::get_value` and hands back the double it
/// returns as the nearest whole number, kept within 32 bits. Nothing is
/// claimed of the value: which solution the solver settles on is not fixed
/// by what it was given.
#[verifier::external_body]
fn solver_get_value(solver: &cassowary::Solver, variable: cassowary::Variable) -> (value: StaveSpaces)
{
    solver.get_value(variable).round() as StaveSpaces
}

/// The coordinates that the solver holds for every grid line and block edge.
#[derive(Debug, Clone)]
pub struct Positions {
    pub horizontal_grid_lines: Vec<StaveSpaces>,
    pub vertical_grid_lines: Vec<StaveSpaces>,
    pub block_tops: Vec<StaveSpaces>,
    pub block_bottoms: Vec<StaveSpaces>,
    pub block_starts: Vec<StaveSpaces>,
    pub block_ends: Vec<StaveSpaces>,
}

impl Positions {
    /// Whether there is one coordinate for every grid line and block edge of
    /// a layout of the given size.
    pub open spec fn fits(&self, counts: UnknownCounts) -> bool {
        &&& self.horizontal_grid_lines@.len() == counts.horizontal_grid_lines
        &&& self.vertical_grid_lines@.len() == counts.vertical_grid_lines
        &&& self.block_tops@.len() == counts.blocks
        &&& self.block_bottoms@.len() == counts.blocks
        &&& self.block_starts@.len() == counts.blocks
        &&& self.block_ends@.len() == counts.blocks
    }
}

/// A Cassowary solver together with the variables of one layout.
pub struct LayoutSolver {
    solver: cassowary::Solver,
    horizontal_grid_lines: Vec<cassowary::Variable>,
    vertical_grid_lines: Vec<cassowary::Variable>,
    block_tops: Vec<cassowary::Variable>,
    block_bottoms: Vec<cassowary::Variable>,
    block_starts: Vec<cassowary::Variable>,
    block_ends: Vec<cassowary::Variable>,
    aligned_start: cassowary::Variable,
    posted: Ghost<Seq<RelationView>>,
    suggested: Ghost<Option<int>>,
    refused: Ghost<bool>,
    readings: Ghost<Seq<Positions>>,
}

/// Whether no term of the relation names the aligned start.
pub open spec fn leaves_aligned_start_alone(relation: RelationView) -> bool {
    forall |i: int| 0 <= i < relation.terms.len() ==> !((#[trigger] relation.terms[i]).unknown is AlignedStart)
}

/// As many fresh solver variables as asked for.
fn new_variables(count: usize) -> (variables: Vec<cassowary::Variable>)
    ensures
        variables@.len() == count,
{
    let mut variables: Vec<cassowary::Variable> = Vec::new();
    let mut i: usize = 0;
    while i < count
        invariant
            i <= count,
            variables@.len() == i,
        decreases count - i,
    {
        variables.push(cassowary::Variable::new());
        i += 1;
    }
    variables
}

impl LayoutSolver {
    /// How many unknowns of each kind the solver has a variable for.
    pub closed spec fn counts(&self) -> UnknownCounts {
        UnknownCounts {
            horizontal_grid_lines: self.horizontal_grid_lines@.len() as usize,
            vertical_grid_lines: self.vertical_grid_lines@.len() as usize,
            blocks: self.block_tops@.len() as usize,
        }
    }

    /// Whether every block has all four of its variables.
    pub closed spec fn well_formed(&self) -> bool {
        &&& self.block_bottoms@.len() == self.block_tops@.len()
        &&& self.block_starts@.len() == self.block_tops@.len()
        &&& self.block_ends@.len() == self.block_tops@.len()
    }

    /// The relations that the solver has accepted, oldest first.
    pub closed spec fn posted(&self) -> Seq<RelationView> {
        self.posted@
    }

    /// The value that the solver aims at for the aligned start: none as
    /// long as the aligned start is not registered with it, zero once it is,
    /// and from then on the value that it was last told and has accepted.
    pub closed spec fn suggested(&self) -> Option<int> {
        self.suggested@
    }

    /// Whether the solver has accepted every relation that was posted to it
    /// so far. Once it has refused one, it is no longer known to be in
    /// order.
    pub closed spec fn intact(&self) -> bool {
        !self.refused@
    }

    /// The positions that were read from the solver so far, oldest first.
    pub closed spec fn readings(&self) -> Seq<Positions> {
        self.readings@
    }

    /// Whether the aligned start can be registered without fail: the solver
    /// is intact, and no relation that it has accepted names the aligned
    /// start. The solver then only has to take in a variable that it has
    /// not seen, which leaves all that it holds as it is.
    pub open spec fn can_register(&self) -> bool {
        &&& self.intact()
        &&& forall |i: int| 0 <= i < self.posted().len() ==> leaves_aligned_start_alone(#[trigger] self.posted()[i])
    }

    /// The solver variable that stands for the unknown.
    pub closed spec fn variable_of(&self, unknown: Unknown) -> cassowary::Variable {
        match unknown {
            Unknown::HorizontalGridLine(index) => self.horizontal_grid_lines@[index as int],
            Unknown::VerticalGridLine(index) => self.vertical_grid_lines@[index as int],
            Unknown::BlockTop(index) => self.block_tops@[index as int],
            Unknown::BlockBottom(index) => self.block_bottoms@[index as int],
            Unknown::BlockStart(index) => self.block_starts@[index as int],
            Unknown::BlockEnd(index) => self.block_ends@[index as int],
            Unknown::AlignedStart => self.aligned_start,
        }
    }

    /// A solver with a variable for each unknown of a layout of the given
    /// size, and no relation yet.
    pub fn new(counts: UnknownCounts) -> (solver: Self)
        ensures
            solver.well_formed(),
            solver.counts() == counts,
            solver.posted() == Seq::<RelationView>::empty(),
            solver.suggested() == None::<int>,
            solver.intact(),
            solver.readings() == Seq::<Positions>::empty(),
    {
        let horizontal_grid_lines = new_variables(counts.horizontal_grid_lines);
        let vertical_grid_lines = new_variables(counts.vertical_grid_lines);
        let block_tops = new_variables(counts.blocks);
        let block_bottoms = new_variables(counts.blocks);
        let block_starts = new_variables(counts.blocks);
        let block_ends = new_variables(counts.blocks);
        LayoutSolver {
            solver: cassowary::Solver::new(),
            horizontal_grid_lines,
            vertical_grid_lines,
            block_tops,
            block_bottoms,
            block_starts,
            block_ends,
            aligned_start: cassowary::Variable::new(),
            posted: Ghost(Seq::empty()),
            suggested: Ghost(None),
            refused: Ghost(false),
            readings: Ghost(Seq::empty()),
        }
    }

    /// How many unknowns of each kind the solver has a variable for.
    pub fn get_counts(&self) -> (counts: UnknownCounts)
        ensures
            counts == self.counts(),
    {
        UnknownCounts {
            horizontal_grid_lines: self.horizontal_grid_lines.len(),
            vertical_grid_lines: self.vertical_grid_lines.len(),
            blocks: self.block_tops.len(),
        }
    }

    /// The solver variable that stands for the unknown.
    fn variable(&self, unknown: Unknown) -> (variable: cassowary::Variable)
        requires
            self.well_formed(),
            self.counts().holds(unknown),
        ensures
            variable == self.variable_of(unknown),
    {
        match unknown {
            Unknown::HorizontalGridLine(index) => self.horizontal_grid_lines[index],
            Unknown::VerticalGridLine(index) => self.vertical_grid_lines[index],
            Unknown::BlockTop(index) => self.block_tops[index],
            Unknown::BlockBottom(index) => self.block_bottoms[index],
            Unknown::BlockStart(index) => self.block_starts[index],
            Unknown::BlockEnd(index) => self.block_ends[index],
            Unknown::AlignedStart => self.aligned_start,
        }
    }

    /// The terms of the relation as the solver takes them: for each term,
    /// in order, the variable that stands for its unknown, with the
    /// coefficient of the term.
    fn terms_for(&self, relation: &Relation) -> (terms: Vec<(cassowary::Variable, i32)>)
        requires
            self.well_formed(),
            self.counts().holds_all(relation@),
        ensures
            terms@.len() == relation@.terms.len(),
            forall |i: int|
                0 <= i < terms@.len() ==> #[trigger] terms@[i] == (
                    self.variable_of(relation@.terms[i].unknown),
                    relation@.terms[i].coefficient,
                ),
    {
        let mut terms: Vec<(cassowary::Variable, i32)> = Vec::new();
        let mut i: usize = 0;
        while i < relation.terms.len()
            invariant
                i <= relation.terms.len(),
                self.well_formed(),
                self.counts().holds_all(relation@),
                terms@.len() == i,
                forall |j: int|
                    0 <= j < i ==> #[trigger] terms@[j] == (
                        self.variable_of(relation@.terms[j].unknown),
                        relation@.terms[j].coefficient,
                    ),
            decreases relation.terms.len() - i,
        {
            let term = relation.terms[i];
            assert(self.counts().holds(relation@.terms[i as int].unknown));
            terms.push((self.variable(term.unknown), term.coefficient));
            i += 1;
        }
        terms
    }

    /// Hands a relation to the solver. The solver accepts it, and from then
    /// on counts it among those it tries to hold, or refuses it and says why.
    pub fn post(&mut self, relation: &Relation) -> (answer: Result<(), cassowary::AddConstraintError>)
        requires
            old(self).well_formed(),
            old(self).counts().holds_all(relation@),
        ensures
            final(self).well_formed(),
            final(self).counts() == old(self).counts(),
            final(self).suggested() == old(self).suggested(),
            final(self).readings() == old(self).readings(),
            answer is Ok ==> final(self).posted() == old(self).posted().push(relation@),
            answer is Ok ==> final(self).intact() == old(self).intact(),
            answer is Err ==> final(self).posted() == old(self).posted(),
            answer is Err ==> !final(self).intact(),
    {
        let terms = self.terms_for(relation);
        let answer = solver_add_constraint(
            &mut self.solver,
            &terms,
            relation.constant,
            relation.operator,
            relation.strength,
        );
        if answer.is_ok() {
            proof {
                self.posted@ = self.posted@.push(relation@);
            }
        } else {
            proof {
                self.refused@ = true;
            }
        }
        answer
    }

    /// Registers the aligned start with the solver as a value that can be
    /// suggested later, held strongly. Where the solver accepts this, it
    /// aims at zero for the aligned start until it is told otherwise; where
    /// it refuses, nothing has changed.
    ///
    /// The solver takes the aligned start in as a relation of its own and
    /// gives up if that goes wrong. It cannot go wrong as long as the solver
    /// is intact and has accepted no relation that names the aligned start.
    pub fn register_aligned_start(&mut self) -> (answer: Result<(), cassowary::AddEditVariableError>)
        requires
            old(self).well_formed(),
            old(self).can_register(),
        ensures
            final(self).well_formed(),
            final(self).counts() == old(self).counts(),
            final(self).posted() == old(self).posted(),
            final(self).intact() == old(self).intact(),
            final(self).readings() == old(self).readings(),
            answer is Ok ==> final(self).suggested() == Some(0int),
            answer is Err ==> final(self).suggested() == old(self).suggested(),
    {
        let answer = solver_add_edit_variable(&mut self.solver, self.aligned_start, Strength::Strong);
        if answer.is_ok() {
            proof {
                self.suggested@ = Some(0int);
            }
        }
        answer
    }

    /// Tells the solver which value to aim at for the aligned start.
    pub fn suggest_aligned_start(&mut self, value: i64) -> (answer: Result<(), cassowary::SuggestValueError>)
        requires
            old(self).well_formed(),
        ensures
            final(self).well_formed(),
            final(self).counts() == old(self).counts(),
            final(self).posted() == old(self).posted(),
            final(self).intact() == old(self).intact(),
            final(self).readings() == old(self).readings(),
            answer is Ok ==> final(self).suggested() == Some(value as int),
            answer is Err ==> final(self).suggested() == old(self).suggested(),
    {
        let answer = solver_suggest_value(&mut self.solver, self.aligned_start, value);
        if answer.is_ok() {
            proof {
                self.suggested@ = Some(value as int);
            }
        }
        answer
    }

    /// The coordinate that the solver holds for the unknown.
    pub fn value(&self, unknown: Unknown) -> (value: StaveSpaces)
        requires
            self.well_formed(),
            self.counts().holds(unknown),
    {
        solver_get_value(&self.solver, self.variable(unknown))
    }

    /// The coordinates that the solver holds for the given variables.
    fn values(&self, variables: &Vec<cassowary::Variable>) -> (values: Vec<StaveSpaces>)
        ensures
            values@.len() == variables@.len(),
    {
        let mut values: Vec<StaveSpaces> = Vec::new();
        let mut i: usize = 0;
        while i < variables.len()
            invariant
                i <= variables.len(),
                values@.len() == i,
            decreases variables.len() - i,
        {
            values.push(solver_get_value(&self.solver, variables[i]));
            i += 1;
        }
        values
    }

    /// Reads the coordinates that the solver holds for every grid line and
    /// block edge, and notes them among the readings.
    pub fn positions(&mut self) -> (positions: Positions)
        requires
            old(self).well_formed(),
        ensures
            positions.fits(old(self).counts()),
            final(self).well_formed(),
            final(self).counts() == old(self).counts(),
            final(self).posted() == old(self).posted(),
            final(self).suggested() == old(self).suggested(),
            final(self).intact() == old(self).intact(),
            final(self).readings() == old(self).readings().push(positions),
    {
        let ghost lines_across = self.horizontal_grid_lines.len();
        let ghost lines_down = self.vertical_grid_lines.len();
        let ghost blocks = self.block_tops.len();
        let horizontal_grid_lines = self.values(&self.horizontal_grid_lines);
        let vertical_grid_lines = self.values(&self.vertical_grid_lines);
        let block_tops = self.values(&self.block_tops);
        let block_bottoms = self.values(&self.block_bottoms);
        let block_starts = self.values(&self.block_starts);
        let block_ends = self.values(&self.block_ends);
        let positions = Positions {
            horizontal_grid_lines,
            vertical_grid_lines,
            block_tops,
            block_bottoms,
            block_starts,
            block_ends,
        };
        proof {
            self.readings@ = self.readings@.push(positions);
        }
        positions
    }
}

} // verus!
