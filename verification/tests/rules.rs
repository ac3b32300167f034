use layout_system::block::{Block, BlockConstraint, BlockLayer};
use layout_system::error::EngravingError;
use layout_system::grid::{HorizontalGridLineConstraint, VerticalGridLineConstraint};
use layout_system::relation::{Operator, Relation, Strength, Term, Unknown, UnknownCounts};
use layout_system::rules::{
    block_relation, check_unknowns, fixed_height_relation, fixed_width_relation,
    horizontal_grid_line_relation, vertical_grid_line_relation,
};

const COUNTS: UnknownCounts = UnknownCounts { horizontal_grid_lines: 4, vertical_grid_lines: 5, blocks: 3 };

fn term(unknown: Unknown, coefficient: i32) -> Term {
    Term { unknown, coefficient }
}

fn expect(relation: &Relation, terms: Vec<Term>, constant: i128, operator: Operator, strength: Strength) {
    assert_eq!(relation.terms, terms);
    assert_eq!(relation.constant, constant);
    assert_eq!(relation.operator, operator);
    assert_eq!(relation.strength, strength);
}

fn padded_block(fixed: bool) -> Block {
    let mut block = Block::new(BlockLayer::Foreground);
    block.fixed_width = fixed;
    block.fixed_height = fixed;
    block.width = 1180;
    block.height = 1000;
    block.descent = 400;
    block.top_padding = 10;
    block.bottom_padding = 20;
    block.start_padding = 30;
    block.end_padding = 40;
    block
}

#[test]
fn horizontal_rules_keep_below_larger() {
    let h = Unknown::HorizontalGridLine;
    let lock_above = horizontal_grid_line_relation(
        1,
        &HorizontalGridLineConstraint::LockAboveHorizontalGridLineByDistance(2, 1500),
        &COUNTS,
    )
    .unwrap();
    // line 1 == line 2 - 1500, written as line 1 - line 2 + 1500 == 0.
    expect(&lock_above, vec![term(h(1), 1), term(h(2), -1)], 1500, Operator::Equal, Strength::Strong);

    let float_above = horizontal_grid_line_relation(
        1,
        &HorizontalGridLineConstraint::FloatAboveHorizontalGridLineByDistance(2, 1500),
        &COUNTS,
    )
    .unwrap();
    expect(&float_above, vec![term(h(1), 1), term(h(2), -1)], 1500, Operator::LessOrEqual, Strength::Weak);

    let lock_below = horizontal_grid_line_relation(
        3,
        &HorizontalGridLineConstraint::LockBelowHorizontalGridLineByDistance(0, 250),
        &COUNTS,
    )
    .unwrap();
    expect(&lock_below, vec![term(h(3), 1), term(h(0), -1)], -250, Operator::Equal, Strength::Strong);

    let float_below = horizontal_grid_line_relation(
        3,
        &HorizontalGridLineConstraint::FloatBelowHorizontalGridLineByDistance(0, 250),
        &COUNTS,
    )
    .unwrap();
    expect(&float_below, vec![term(h(3), 1), term(h(0), -1)], -250, Operator::GreaterOrEqual, Strength::Weak);

    let center = horizontal_grid_line_relation(
        2,
        &HorizontalGridLineConstraint::VerticallyCenterBetweenHorizontalGridLines(1, 3),
        &COUNTS,
    )
    .unwrap();
    // 2 * line 2 == line 1 + line 3.
    expect(&center, vec![term(h(2), 2), term(h(1), -1), term(h(3), -1)], 0, Operator::Equal, Strength::Strong);
}

#[test]
fn vertical_rules_keep_after_larger() {
    let v = Unknown::VerticalGridLine;
    let lock_before = vertical_grid_line_relation(
        0,
        &VerticalGridLineConstraint::LockBeforeVerticalGridLineByDistance(4, 100),
        &COUNTS,
    )
    .unwrap();
    expect(&lock_before, vec![term(v(0), 1), term(v(4), -1)], 100, Operator::Equal, Strength::Strong);

    let float_before = vertical_grid_line_relation(
        0,
        &VerticalGridLineConstraint::FloatBeforeVerticalGridLineByDistance(4, 100),
        &COUNTS,
    )
    .unwrap();
    expect(&float_before, vec![term(v(0), 1), term(v(4), -1)], 100, Operator::LessOrEqual, Strength::Weak);

    let lock_after = vertical_grid_line_relation(
        4,
        &VerticalGridLineConstraint::LockAfterVerticalGridLineByDistance(3, 100),
        &COUNTS,
    )
    .unwrap();
    expect(&lock_after, vec![term(v(4), 1), term(v(3), -1)], -100, Operator::Equal, Strength::Strong);

    let float_after = vertical_grid_line_relation(
        4,
        &VerticalGridLineConstraint::FloatAfterVerticalGridLineByDistance(3, 100),
        &COUNTS,
    )
    .unwrap();
    expect(&float_after, vec![term(v(4), 1), term(v(3), -1)], -100, Operator::GreaterOrEqual, Strength::Weak);
}

#[test]
fn grid_line_rules_report_the_missing_line() {
    assert!(matches!(
        horizontal_grid_line_relation(
            4,
            &HorizontalGridLineConstraint::LockBelowHorizontalGridLineByDistance(0, 0),
            &COUNTS
        ),
        Err(EngravingError::UnknownHorizontalGridLine(4))
    ));
    assert!(matches!(
        horizontal_grid_line_relation(
            1,
            &HorizontalGridLineConstraint::LockAboveHorizontalGridLineByDistance(9, 0),
            &COUNTS
        ),
        Err(EngravingError::UnknownHorizontalGridLine(9))
    ));
    // Where both are missing, the line that owns the rule is reported.
    assert!(matches!(
        horizontal_grid_line_relation(
            7,
            &HorizontalGridLineConstraint::FloatAboveHorizontalGridLineByDistance(9, 0),
            &COUNTS
        ),
        Err(EngravingError::UnknownHorizontalGridLine(7))
    ));
    assert!(matches!(
        horizontal_grid_line_relation(
            1,
            &HorizontalGridLineConstraint::VerticallyCenterBetweenHorizontalGridLines(2, 4),
            &COUNTS
        ),
        Err(EngravingError::UnknownHorizontalGridLine(4))
    ));
    assert!(matches!(
        vertical_grid_line_relation(
            5,
            &VerticalGridLineConstraint::FloatAfterVerticalGridLineByDistance(0, 0),
            &COUNTS
        ),
        Err(EngravingError::UnknownVerticalGridLine(5))
    ));
    assert!(matches!(
        vertical_grid_line_relation(
            0,
            &VerticalGridLineConstraint::LockBeforeVerticalGridLineByDistance(5, 0),
            &COUNTS
        ),
        Err(EngravingError::UnknownVerticalGridLine(5))
    ));
}

#[test]
fn block_rules_on_grid_lines() {
    let block = padded_block(false);
    let top = Unknown::BlockTop(1);
    let bottom = Unknown::BlockBottom(1);
    let start = Unknown::BlockStart(1);
    let end = Unknown::BlockEnd(1);
    let h = Unknown::HorizontalGridLine;
    let v = Unknown::VerticalGridLine;
    let strong = Strength::Strong;
    let weak = Strength::Weak;

    let rule = |constraint: BlockConstraint| block_relation(1, &block, &constraint, &COUNTS).unwrap();

    expect(
        &rule(BlockConstraint::LockTopToHorizontalGridLine(2)),
        vec![term(top, 1), term(h(2), -1)],
        -10,
        Operator::Equal,
        strong,
    );
    expect(
        &rule(BlockConstraint::FloatTopAfterHorizontalGridLine(2)),
        vec![term(top, 1), term(h(2), -1)],
        -10,
        Operator::GreaterOrEqual,
        weak,
    );
    expect(
        &rule(BlockConstraint::FloatBottomBeforeHorizontalGridLine(3)),
        vec![term(bottom, 1), term(h(3), -1)],
        20,
        Operator::LessOrEqual,
        weak,
    );
    expect(
        &rule(BlockConstraint::LockBottomToHorizontalGridLine(3)),
        vec![term(bottom, 1), term(h(3), -1)],
        20,
        Operator::Equal,
        strong,
    );
    expect(
        &rule(BlockConstraint::LockStartToVerticalGridLine(0)),
        vec![term(start, 1), term(v(0), -1)],
        -30,
        Operator::Equal,
        strong,
    );
    expect(
        &rule(BlockConstraint::FloatStartAfterVerticalGridLine(0)),
        vec![term(start, 1), term(v(0), -1)],
        -30,
        Operator::GreaterOrEqual,
        weak,
    );
    expect(
        &rule(BlockConstraint::FloatEndBeforeVerticalGridLine(4)),
        vec![term(end, 1), term(v(4), -1)],
        40,
        Operator::LessOrEqual,
        weak,
    );
    expect(
        &rule(BlockConstraint::LockEndToVerticalGridLine(4)),
        vec![term(end, 1), term(v(4), -1)],
        40,
        Operator::Equal,
        strong,
    );
    // 2 * top == line 0 + line 2 - 2 * descent.
    expect(
        &rule(BlockConstraint::LockVerticalCenterHalfwayBetweenHorizontalGridLines(0, 2)),
        vec![term(top, 2), term(h(0), -1), term(h(2), -1)],
        800,
        Operator::Equal,
        strong,
    );
    expect(
        &rule(BlockConstraint::LockVerticalCenterToHorizontalGridLine(2)),
        vec![term(top, 1), term(h(2), -1)],
        400,
        Operator::Equal,
        strong,
    );
    // 2 * start == line 1 + line 3 - width.
    expect(
        &rule(BlockConstraint::LockHorizontalCenterHalfwayBetweenVerticalGridLines(1, 3)),
        vec![term(start, 2), term(v(1), -1), term(v(3), -1)],
        1180,
        Operator::Equal,
        strong,
    );
    // 2 * start == 2 * line 3 - width.
    expect(
        &rule(BlockConstraint::LockHorizontalCenterToVerticalGridLine(3)),
        vec![term(start, 2), term(v(3), -2)],
        1180,
        Operator::Equal,
        strong,
    );
    // line 3 >= top + height + bottom padding.
    expect(
        &rule(BlockConstraint::PushHorizontalGridLineDownToAccommodateBlockHeight(3)),
        vec![term(h(3), 1), term(top, -1)],
        -1020,
        Operator::GreaterOrEqual,
        strong,
    );
    // line 4 >= start + width + end padding.
    expect(
        &rule(BlockConstraint::PushVerticalGridLineSidewaysToAccommodateBlockWidth(4)),
        vec![term(v(4), 1), term(start, -1)],
        -1220,
        Operator::GreaterOrEqual,
        strong,
    );
}

#[test]
fn rules_on_the_trailing_edge_of_a_fixed_block_move_its_leading_edge() {
    let block = padded_block(true);
    let top = Unknown::BlockTop(1);
    let start = Unknown::BlockStart(1);
    let h = Unknown::HorizontalGridLine;
    let v = Unknown::VerticalGridLine;

    let rule = |constraint: BlockConstraint| block_relation(1, &block, &constraint, &COUNTS).unwrap();

    // top <= line 3 - height - bottom padding.
    expect(
        &rule(BlockConstraint::FloatBottomBeforeHorizontalGridLine(3)),
        vec![term(top, 1), term(h(3), -1)],
        1020,
        Operator::LessOrEqual,
        Strength::Weak,
    );
    expect(
        &rule(BlockConstraint::LockBottomToHorizontalGridLine(3)),
        vec![term(top, 1), term(h(3), -1)],
        1020,
        Operator::Equal,
        Strength::Strong,
    );
    // start <= line 4 - width - end padding.
    expect(
        &rule(BlockConstraint::FloatEndBeforeVerticalGridLine(4)),
        vec![term(start, 1), term(v(4), -1)],
        1220,
        Operator::LessOrEqual,
        Strength::Weak,
    );
    expect(
        &rule(BlockConstraint::LockEndToVerticalGridLine(4)),
        vec![term(start, 1), term(v(4), -1)],
        1220,
        Operator::Equal,
        Strength::Strong,
    );
}

#[test]
fn rules_on_the_trailing_edge_against_another_block_move_the_leading_edge_too() {
    let block = padded_block(true);
    let top = Unknown::BlockTop(1);
    let start = Unknown::BlockStart(1);
    let strong = Strength::Strong;
    let weak = Strength::Weak;

    let rule = |constraint: BlockConstraint| block_relation(1, &block, &constraint, &COUNTS).unwrap();

    // start of block 2 >= start + width + 250.
    expect(
        &rule(BlockConstraint::FloatBeforeBlockByDistance(2, 250)),
        vec![term(Unknown::BlockStart(2), 1), term(start, -1)],
        -1430,
        Operator::GreaterOrEqual,
        weak,
    );
    // top of block 2 >= top + height + 250.
    expect(
        &rule(BlockConstraint::FloatAboveBlockByDistance(2, 250)),
        vec![term(Unknown::BlockTop(2), 1), term(top, -1)],
        -1250,
        Operator::GreaterOrEqual,
        weak,
    );
    // start == end of block 0 - width - end padding.
    expect(
        &rule(BlockConstraint::LockEndToBlockEnd(0)),
        vec![term(start, 1), term(Unknown::BlockEnd(0), -1)],
        1220,
        Operator::Equal,
        strong,
    );
    // top == bottom of block 0 - height - bottom padding.
    expect(
        &rule(BlockConstraint::LockBottomToBlockBottom(0)),
        vec![term(top, 1), term(Unknown::BlockBottom(0), -1)],
        1020,
        Operator::Equal,
        strong,
    );
    // start == start of block 2 - width - 250.
    expect(
        &rule(BlockConstraint::LockBeforeBlockByDistance(2, 250)),
        vec![term(start, 1), term(Unknown::BlockStart(2), -1)],
        1430,
        Operator::Equal,
        strong,
    );
    // top == top of block 2 - height - 250.
    expect(
        &rule(BlockConstraint::LockAboveBlockByDistance(2, 250)),
        vec![term(top, 1), term(Unknown::BlockTop(2), -1)],
        1250,
        Operator::Equal,
        strong,
    );
    // 2 * top == top of block 2 + bottom of block 2 - 2 * height.
    expect(
        &rule(BlockConstraint::LockBottomToBlockCenter(2)),
        vec![term(top, 2), term(Unknown::BlockTop(2), -1), term(Unknown::BlockBottom(2), -1)],
        2000,
        Operator::Equal,
        strong,
    );
    // A fixed block is looked for by its leading edge.
    assert!(matches!(
        block_relation(3, &block, &BlockConstraint::LockEndToBlockEnd(0), &COUNTS),
        Err(EngravingError::UnknownBlockStartPosition(3))
    ));
    assert!(matches!(
        block_relation(3, &block, &BlockConstraint::LockAboveBlockByDistance(0, 0), &COUNTS),
        Err(EngravingError::UnknownBlockTopPosition(3))
    ));
}

#[test]
fn block_rules_on_other_blocks() {
    let block = padded_block(false);
    let top = Unknown::BlockTop(1);
    let bottom = Unknown::BlockBottom(1);
    let start = Unknown::BlockStart(1);
    let end = Unknown::BlockEnd(1);
    let strong = Strength::Strong;
    let weak = Strength::Weak;

    let rule = |constraint: BlockConstraint| block_relation(1, &block, &constraint, &COUNTS).unwrap();

    expect(
        &rule(BlockConstraint::FloatAfterBlockByDistance(0, 250)),
        vec![term(start, 1), term(Unknown::BlockEnd(0), -1)],
        -250,
        Operator::GreaterOrEqual,
        weak,
    );
    expect(
        &rule(BlockConstraint::FloatBeforeBlockByDistance(2, 250)),
        vec![term(Unknown::BlockStart(2), 1), term(end, -1)],
        -250,
        Operator::GreaterOrEqual,
        weak,
    );
    expect(
        &rule(BlockConstraint::FloatAboveBlockByDistance(2, 250)),
        vec![term(Unknown::BlockTop(2), 1), term(bottom, -1)],
        -250,
        Operator::GreaterOrEqual,
        weak,
    );
    expect(
        &rule(BlockConstraint::FloatBeneathBlockByDistance(0, 250)),
        vec![term(top, 1), term(Unknown::BlockBottom(0), -1)],
        -250,
        Operator::GreaterOrEqual,
        weak,
    );
    expect(
        &rule(BlockConstraint::LockStartToBlockStart(0)),
        vec![term(start, 1), term(Unknown::BlockStart(0), -1)],
        -30,
        Operator::Equal,
        strong,
    );
    expect(
        &rule(BlockConstraint::LockEndToBlockEnd(0)),
        vec![term(end, 1), term(Unknown::BlockEnd(0), -1)],
        40,
        Operator::Equal,
        strong,
    );
    expect(
        &rule(BlockConstraint::LockTopToBlockTop(0)),
        vec![term(top, 1), term(Unknown::BlockTop(0), -1)],
        -10,
        Operator::Equal,
        strong,
    );
    expect(
        &rule(BlockConstraint::LockBottomToBlockBottom(0)),
        vec![term(bottom, 1), term(Unknown::BlockBottom(0), -1)],
        20,
        Operator::Equal,
        strong,
    );
    // 2 * start == end of block 0 + start of block 2 - width.
    expect(
        &rule(BlockConstraint::LockHorizontalCenterBetweenBlocks(0, 2)),
        vec![term(start, 2), term(Unknown::BlockEnd(0), -1), term(Unknown::BlockStart(2), -1)],
        1180,
        Operator::Equal,
        strong,
    );
    expect(
        &rule(BlockConstraint::LockVerticalCenterBetweenBlocks(0, 2)),
        vec![term(top, 2), term(Unknown::BlockBottom(0), -1), term(Unknown::BlockTop(2), -1)],
        1000,
        Operator::Equal,
        strong,
    );
    expect(
        &rule(BlockConstraint::LockHorizontalCenterToBlockCenter(2)),
        vec![
            term(start, 1),
            term(end, 1),
            term(Unknown::BlockStart(2), -1),
            term(Unknown::BlockEnd(2), -1),
        ],
        0,
        Operator::Equal,
        strong,
    );
    expect(
        &rule(BlockConstraint::FloatHorizontalCenterToBlockCenter(2)),
        vec![
            term(start, 1),
            term(end, 1),
            term(Unknown::BlockStart(2), -1),
            term(Unknown::BlockEnd(2), -1),
        ],
        0,
        Operator::Equal,
        weak,
    );
    expect(
        &rule(BlockConstraint::LockVerticalCenterToBlockCenter(2)),
        vec![
            term(top, 1),
            term(bottom, 1),
            term(Unknown::BlockTop(2), -1),
            term(Unknown::BlockBottom(2), -1),
        ],
        0,
        Operator::Equal,
        strong,
    );
    expect(
        &rule(BlockConstraint::LockAfterBlockByDistance(0, 250)),
        vec![term(start, 1), term(Unknown::BlockEnd(0), -1)],
        -250,
        Operator::Equal,
        strong,
    );
    expect(
        &rule(BlockConstraint::LockBeforeBlockByDistance(2, 250)),
        vec![term(end, 1), term(Unknown::BlockStart(2), -1)],
        250,
        Operator::Equal,
        strong,
    );
    expect(
        &rule(BlockConstraint::LockAboveBlockByDistance(2, 250)),
        vec![term(bottom, 1), term(Unknown::BlockTop(2), -1)],
        250,
        Operator::Equal,
        strong,
    );
    expect(
        &rule(BlockConstraint::LockBeneathBlockByDistance(0, 250)),
        vec![term(top, 1), term(Unknown::BlockBottom(0), -1)],
        -250,
        Operator::Equal,
        strong,
    );
    expect(
        &rule(BlockConstraint::LockTopToBlockCenter(2)),
        vec![term(top, 2), term(Unknown::BlockTop(2), -1), term(Unknown::BlockBottom(2), -1)],
        0,
        Operator::Equal,
        strong,
    );
    expect(
        &rule(BlockConstraint::LockBottomToBlockCenter(2)),
        vec![term(bottom, 2), term(Unknown::BlockTop(2), -1), term(Unknown::BlockBottom(2), -1)],
        0,
        Operator::Equal,
        strong,
    );
}

#[test]
fn block_rules_report_what_is_missing() {
    let block = padded_block(false);
    let rule = |index: usize, constraint: BlockConstraint| block_relation(index, &block, &constraint, &COUNTS);

    assert!(matches!(
        rule(1, BlockConstraint::LockTopToHorizontalGridLine(4)),
        Err(EngravingError::UnknownHorizontalGridLine(4))
    ));
    assert!(matches!(
        rule(1, BlockConstraint::LockStartToVerticalGridLine(5)),
        Err(EngravingError::UnknownVerticalGridLine(5))
    ));
    assert!(matches!(
        rule(3, BlockConstraint::LockTopToHorizontalGridLine(0)),
        Err(EngravingError::UnknownBlockTopPosition(3))
    ));
    assert!(matches!(
        rule(3, BlockConstraint::LockBottomToHorizontalGridLine(0)),
        Err(EngravingError::UnknownBlockBottomPosition(3))
    ));
    assert!(matches!(
        rule(3, BlockConstraint::LockStartToVerticalGridLine(0)),
        Err(EngravingError::UnknownBlockStartPosition(3))
    ));
    assert!(matches!(
        rule(3, BlockConstraint::LockEndToVerticalGridLine(0)),
        Err(EngravingError::UnknownBlockEndPosition(3))
    ));
    assert!(matches!(
        rule(1, BlockConstraint::LockAfterBlockByDistance(8, 0)),
        Err(EngravingError::UnknownBlockEndPosition(8))
    ));
    assert!(matches!(
        rule(1, BlockConstraint::LockBeneathBlockByDistance(8, 0)),
        Err(EngravingError::UnknownBlockBottomPosition(8))
    ));
    // A push rule looks for its grid line before it looks for its block.
    assert!(matches!(
        rule(3, BlockConstraint::PushVerticalGridLineSidewaysToAccommodateBlockWidth(5)),
        Err(EngravingError::UnknownVerticalGridLine(5))
    ));
    // The other block's start is looked for before this block's end.
    assert!(matches!(
        rule(3, BlockConstraint::FloatBeforeBlockByDistance(8, 0)),
        Err(EngravingError::UnknownBlockStartPosition(8))
    ));
}

#[test]
fn sizing_relations() {
    let block = padded_block(true);
    let width = fixed_width_relation(2, &block);
    // end == start + 30 + 1180 + 40.
    expect(
        &width,
        vec![term(Unknown::BlockEnd(2), 1), term(Unknown::BlockStart(2), -1)],
        -1250,
        Operator::Equal,
        Strength::Strong,
    );
    let height = fixed_height_relation(2, &block);
    // bottom == top + 10 + 1000 + 20.
    expect(
        &height,
        vec![term(Unknown::BlockBottom(2), 1), term(Unknown::BlockTop(2), -1)],
        -1030,
        Operator::Equal,
        Strength::Strong,
    );
}

#[test]
fn arithmetic_at_the_limits_of_the_units() {
    let mut block = Block::new_fixed(BlockLayer::Foreground, i32::MAX, i32::MIN);
    block.start_padding = i32::MAX;
    block.end_padding = i32::MAX;
    block.descent = i32::MIN;
    let width = fixed_width_relation(0, &block);
    assert_eq!(width.constant, -3 * (i32::MAX as i128));
    let centred = block_relation(
        0,
        &block,
        &BlockConstraint::LockVerticalCenterHalfwayBetweenHorizontalGridLines(0, 1),
        &COUNTS,
    )
    .unwrap();
    assert_eq!(centred.constant, 2 * (i32::MIN as i128));
}

#[test]
fn unknowns_are_checked_in_the_order_of_the_terms() {
    let relation = Relation::middles_aligned(
        Unknown::BlockStart(5),
        Unknown::BlockEnd(6),
        Operator::Equal,
        Strength::Weak,
        Unknown::BlockStart(0),
        Unknown::AlignedStart,
    );
    assert!(matches!(
        check_unknowns(relation, &COUNTS),
        Err(EngravingError::UnknownBlockStartPosition(5))
    ));
    let relation = Relation::pinned(Unknown::AlignedStart, Operator::Equal, Strength::Required);
    let checked = check_unknowns(relation, &COUNTS).unwrap();
    expect(&checked, vec![term(Unknown::AlignedStart, 1)], 0, Operator::Equal, Strength::Required);
}
