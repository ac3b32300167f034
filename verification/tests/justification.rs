use layout_system::block::{Block, BlockConstraint, BlockLayer};
use layout_system::grid::{
    HorizontalGridLine, HorizontalGridLineType, VerticalGridLine, VerticalGridLineConstraint,
    VerticalGridLineType,
};
use layout_system::layout::{LayoutSystem, SystemJustification};
use layout_system::units::{
    StaveSpaces, Ticks, VerticalGridLineIndex, STAVE_SPACE, STAVE_SPACES_ZERO,
};

const NOTEHEAD_WIDTH: StaveSpaces = 1180;
const NOTEHEAD_HEIGHT: StaveSpaces = 1000;

const CROTCHET: Ticks = 960;
const MINIM: Ticks = 1920;

fn float_horizontally_between_grid_lines(
    block: &mut Block,
    start: VerticalGridLineIndex,
    end: VerticalGridLineIndex,
) {
    block.add_constraint(BlockConstraint::FloatStartAfterVerticalGridLine(start));
    block.add_constraint(BlockConstraint::FloatEndBeforeVerticalGridLine(end));
    block.add_constraint(BlockConstraint::PushVerticalGridLineSidewaysToAccommodateBlockWidth(end));
}

fn lock_to_grid_line(line: &mut VerticalGridLine, other: VerticalGridLineIndex) {
    line.add_constraint(VerticalGridLineConstraint::LockAfterVerticalGridLineByDistance(
        other,
        STAVE_SPACES_ZERO,
    ));
}

fn notehead(onset: Ticks) -> Block {
    let mut block = Block::new_fixed(BlockLayer::Foreground, NOTEHEAD_WIDTH, NOTEHEAD_HEIGHT);
    block.descent = NOTEHEAD_HEIGHT / 2;
    block.source.onset = Some(onset);
    block
}

/// A spacer: it has a width to begin with, but its end is free to move, so
/// that the grid line behind it follows when it is stretched.
fn spacer(width: StaveSpaces) -> Block {
    let mut block = Block::new_spacing(width);
    block.fixed_width = false;
    block
}

fn create_justification_test(justification: SystemJustification) -> LayoutSystem {
    // Seven blocks on a single horizontal grid line: a stave line behind a
    // glyph, a spacer, a glyph, a spacer, a glyph and a spacer. Each glyph
    // with its spacer is five stave spaces wide, fifteen in all. The target
    // system width is twice that, so that the effect of each alignment
    // shows.

    let h0 = HorizontalGridLine::new(HorizontalGridLineType::Staveline1);

    let v0 = VerticalGridLine::new(VerticalGridLineType::SystemStart);

    let mut v1 = VerticalGridLine::new(VerticalGridLineType::SystemEnd);

    let mut b0 = Block::new(BlockLayer::Background);
    b0.fixed_height = true;

    b0.add_constraint(BlockConstraint::LockVerticalCenterToHorizontalGridLine(0));
    b0.add_constraint(BlockConstraint::LockStartToVerticalGridLine(0));
    b0.add_constraint(BlockConstraint::LockEndToVerticalGridLine(1));

    let mut b1 = notehead(0);

    let notehead_width = b1.get_fixed_width();

    let mut v2 = VerticalGridLine::new(VerticalGridLineType::NoteheadLine0NoteheadStackStart);

    lock_to_grid_line(&mut v2, 0);

    let v3 = VerticalGridLine::new(VerticalGridLineType::NoteheadLine0NoteheadStackStart);

    float_horizontally_between_grid_lines(&mut b1, 2, 3);

    let mut v4 = VerticalGridLine::new(VerticalGridLineType::RhythmicSpacingStart);

    lock_to_grid_line(&mut v4, 3);

    let mut b2 = spacer(5 * STAVE_SPACE - notehead_width);

    let v5 = VerticalGridLine::new(VerticalGridLineType::RhythmicSpacingEnd);

    float_horizontally_between_grid_lines(&mut b2, 4, 5);

    let mut v6 = VerticalGridLine::new(VerticalGridLineType::NoteheadLine0NoteheadStackStart);

    lock_to_grid_line(&mut v6, 5);

    let mut b3 = notehead(CROTCHET);

    let v7 = VerticalGridLine::new(VerticalGridLineType::NoteheadLine0NoteheadStackStart);

    float_horizontally_between_grid_lines(&mut b3, 6, 7);

    let mut v8 = VerticalGridLine::new(VerticalGridLineType::RhythmicSpacingStart);

    lock_to_grid_line(&mut v8, 7);

    let mut b4 = spacer(5 * STAVE_SPACE - notehead_width);

    let v9 = VerticalGridLine::new(VerticalGridLineType::RhythmicSpacingEnd);

    float_horizontally_between_grid_lines(&mut b4, 8, 9);

    let mut v10 = VerticalGridLine::new(VerticalGridLineType::NoteheadLine0NoteheadStackStart);

    lock_to_grid_line(&mut v10, 9);

    let mut b5 = notehead(MINIM);

    let v11 = VerticalGridLine::new(VerticalGridLineType::NoteheadLine0NoteheadStackStart);

    float_horizontally_between_grid_lines(&mut b5, 10, 11);

    let mut v12 = VerticalGridLine::new(VerticalGridLineType::RhythmicSpacingStart);

    lock_to_grid_line(&mut v12, 11);

    let mut b6 = spacer(5 * STAVE_SPACE - notehead_width);

    let v13 = VerticalGridLine::new(VerticalGridLineType::RhythmicSpacingEnd);

    float_horizontally_between_grid_lines(&mut b6, 12, 13);

    lock_to_grid_line(&mut v1, 13);

    LayoutSystem::new(
        0,
        0,
        0,
        justification,
        30 * STAVE_SPACE,
        vec![h0],
        vec![v0, v1, v2, v3, v4, v5, v6, v7, v8, v9, v10, v11, v12, v13],
        0,
        0,
        vec![b0, b1, b2, b3, b4, b5, b6],
        false,
        false,
        false,
        false,
    )
}

#[test]
fn test_system_start_align() {
    let solution = create_justification_test(SystemJustification::AlignStart).engrave();

    assert!(solution.is_ok());

    let solution = solution.unwrap();

    // Start alignment has its leading edge at 0 and, for this layout, its
    // trailing edge at 15. That the target system width is 30 does not
    // matter here.

    assert_eq!(solution.get_vertical_grid_line_positions().get(0).unwrap(), &0);
    assert_eq!(
        solution.get_vertical_grid_line_positions().get(1).unwrap(),
        &(15 * STAVE_SPACE)
    );
}

#[test]
fn test_system_end_align() {
    let solution = create_justification_test(SystemJustification::AlignEnd).engrave();

    assert!(solution.is_ok());

    let solution = solution.unwrap();

    // The layout is 15 stave spaces wide and the target system width is 30,
    // so end alignment has its leading edge at 15 and its trailing edge at 30.

    assert_eq!(
        solution.get_vertical_grid_line_positions().get(0).unwrap(),
        &(15 * STAVE_SPACE)
    );
    assert_eq!(
        solution.get_vertical_grid_line_positions().get(1).unwrap(),
        &(30 * STAVE_SPACE)
    );
}

#[test]
fn test_system_center_align() {
    let solution = create_justification_test(SystemJustification::Centered).engrave();

    assert!(solution.is_ok());

    let solution = solution.unwrap();

    // Centred, the leading edge lies at (30 - 15) / 2 = 7.5 and the
    // trailing edge at 7.5 + 15 = 22.5.

    assert_eq!(solution.get_vertical_grid_line_positions().get(0).unwrap(), &7500);
    assert_eq!(solution.get_vertical_grid_line_positions().get(1).unwrap(), &22500);
}

#[test]
fn test_system_justify() {
    let solution = create_justification_test(SystemJustification::Justified).engrave();

    assert!(solution.is_ok());

    let solution = solution.unwrap();

    // Justifying from 15 to 30 stave spaces gives each of the three spacing
    // blocks (30 - 15) / 3 = 5 more stave spaces. Before, the glyphs stood
    // at 0, 5 and 10; now they stand at 0, 10 and 20. The stave line is in
    // the background and the spacing blocks are not drawn, so the glyphs are
    // the first three drawables of the foreground.

    assert_eq!(solution.get_foreground().get(0).unwrap().get_x(), STAVE_SPACES_ZERO);
    assert_eq!(solution.get_foreground().get(1).unwrap().get_x(), 10 * STAVE_SPACE);
    assert_eq!(solution.get_foreground().get(2).unwrap().get_x(), 20 * STAVE_SPACE);

    // The grid line at the end of the system has moved out to 30.

    assert_eq!(
        solution.get_vertical_grid_line_positions().get(1).unwrap(),
        &(30 * STAVE_SPACE)
    );
}
