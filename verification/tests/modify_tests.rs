use forge::commands::modify::{
    CopyCommand, Displacement, EraseCommand, ExplodeCommand, MirrorCommand, MoveCommand, OffsetCommand,
    OffsetRequest, RotateBy, RotateCommand, ScaleCommand,
};
use forge::commands::{CommandInput, NumberText, Outcome};
use forge::ecs::EntityId;

type P = (f64, f64);
type Input = CommandInput<P, f64>;

fn point(x: f64, y: f64) -> Input {
    CommandInput::Point((x, y))
}

fn text(t: &str) -> Input {
    CommandInput::Text(t.to_string())
}

/// What the caller reads from command-line text as a number.
fn number(t: &str) -> NumberText<f64> {
    match t.parse::<f64>() {
        Ok(v) => NumberText::Number { value: v, zero: v == 0.0, positive: v > 0.0 },
        Err(_) => NumberText::NotANumber,
    }
}

fn no_number() -> NumberText<f64> {
    NumberText::NotANumber
}

fn selection(n: u64) -> Vec<EntityId> {
    (1..=n).map(|i| EntityId((1u64 << 32) | i)).collect()
}

// ---------------------------------------------------------------------------
// ERASE
// ---------------------------------------------------------------------------

#[test]
fn erase_cmd_new_captures_selection() {
    let cmd = EraseCommand::new(selection(2));
    assert_eq!(cmd.selected_entities.len(), 2);
    assert!(!cmd.is_empty());
}

#[test]
fn erase_cmd_new_with_empty_selection_is_empty() {
    let cmd = EraseCommand::new(Vec::new());
    assert!(cmd.is_empty());
    assert_eq!(cmd.selected_entities.len(), 0);
}

#[test]
fn erase_cmd_name_and_prompt() {
    let cmd = EraseCommand::new(Vec::new());
    assert_eq!(cmd.name(), "ERASE");
    assert_eq!(cmd.prompt(), "Select objects to erase:");
    assert_eq!(cmd.steps_remaining(), 1);
}

#[test]
fn erase_confirmed_with_selection_builds_transaction() {
    let mut cmd = EraseCommand::new(selection(2));
    let result = cmd.on_input::<P, f64>(Input::Confirm);
    assert!(matches!(result, Outcome::Done(ref l) if l == "Erase 2 entities"));
}

#[test]
fn erase_with_empty_selection_returns_error() {
    let mut cmd = EraseCommand::new(Vec::new());
    let result = cmd.on_input::<P, f64>(Input::Confirm);
    assert!(matches!(result,
        Outcome::Error(ref m) if m == "No entities selected. Select objects before running ERASE."));
}

#[test]
fn erase_cancel_does_nothing() {
    let mut cmd = EraseCommand::new(selection(1));
    let result = cmd.on_input::<P, f64>(Input::Cancel);
    assert!(matches!(result, Outcome::Cancelled));
    assert_eq!(cmd.selected_entities.len(), 1);
}

#[test]
fn erase_text_input_returns_error() {
    let mut cmd = EraseCommand::new(selection(1));
    let result = cmd.on_input(text("hello"));
    assert!(matches!(result,
        Outcome::Error(ref m) if m == "Press Enter to erase selected objects, or Esc to cancel."));
}

#[test]
fn erase_single_entity_label() {
    let mut cmd = EraseCommand::new(selection(1));
    let result = cmd.on_input::<P, f64>(Input::Confirm);
    assert!(matches!(result, Outcome::Done(ref l) if l == "Erase 1 entity"));
}

// ---------------------------------------------------------------------------
// MOVE
// ---------------------------------------------------------------------------

#[test]
fn move_cmd_new_captures_selection() {
    let cmd: MoveCommand<P> = MoveCommand::new(selection(1));
    assert_eq!(cmd.selected_entities.len(), 1);
    assert!(!cmd.is_empty());
}

#[test]
fn move_cmd_new_with_empty_selection_is_empty() {
    let cmd: MoveCommand<P> = MoveCommand::new(Vec::new());
    assert!(cmd.is_empty());
    assert!(cmd.base_point.is_none());
}

#[test]
fn move_cmd_name_and_prompt() {
    let cmd: MoveCommand<P> = MoveCommand::new(Vec::new());
    assert_eq!(cmd.name(), "MOVE");
    assert_eq!(cmd.prompt(), "Specify base point or displacement:");
    assert_eq!(cmd.steps_remaining(), 2);
}

#[test]
fn move_cmd_prompt_after_base_point() {
    let mut cmd: MoveCommand<P> = MoveCommand::new(selection(1));
    let _ = cmd.on_input(point(5.0, 5.0));
    assert_eq!(cmd.prompt(), "Specify second point or <use first point as displacement>:");
    assert_eq!(cmd.steps_remaining(), 1);
}

#[test]
fn move_command_two_points_displaces_line() {
    let mut cmd: MoveCommand<P> = MoveCommand::new(selection(1));
    let r1 = cmd.on_input(point(1.0, 1.0));
    assert!(matches!(r1, Outcome::Continue));
    let r2 = cmd.on_input(point(2.0, 2.0));
    match r2 {
        Outcome::Done(c) => {
            assert_eq!(c.displacement, Displacement::Between((1.0, 1.0), (2.0, 2.0)));
            assert_eq!(c.label, "Move 1 entity");
        }
        other => panic!("expected Done, got {:?}", other),
    }
}

#[test]
fn move_command_confirm_uses_base_as_displacement() {
    let mut cmd: MoveCommand<P> = MoveCommand::new(selection(1));
    let r1 = cmd.on_input(point(3.0, 4.0));
    assert!(matches!(r1, Outcome::Continue));
    let r2 = cmd.on_input(Input::Confirm);
    assert!(matches!(r2, Outcome::Done(ref c) if c.displacement == Displacement::FromOrigin((3.0, 4.0))));
}

#[test]
fn move_command_with_empty_selection_returns_error() {
    let mut cmd: MoveCommand<P> = MoveCommand::new(Vec::new());
    let result = cmd.on_input(point(0.0, 0.0));
    assert!(matches!(result,
        Outcome::Error(ref m) if m == "No entities selected. Select objects before running MOVE."));
    let result2 = cmd.on_input(Input::Confirm);
    assert!(matches!(result2, Outcome::Error(_)));
}

#[test]
fn move_displaces_all_entity_types() {
    let mut cmd: MoveCommand<P> = MoveCommand::new(selection(4));
    let _ = cmd.on_input(point(0.0, 0.0));
    let r = cmd.on_input(point(100.0, 200.0));
    match r {
        Outcome::Done(c) => {
            assert_eq!(c.displacement, Displacement::Between((0.0, 0.0), (100.0, 200.0)));
            assert_eq!(c.label, "Move 4 entities");
        }
        other => panic!("expected Done, got {:?}", other),
    }
}

#[test]
fn move_cancel_clears_state() {
    let mut cmd: MoveCommand<P> = MoveCommand::new(selection(1));
    let _ = cmd.on_input(point(5.0, 5.0));
    let result = cmd.on_input(Input::Cancel);
    assert!(matches!(result, Outcome::Cancelled));
    assert!(cmd.base_point.is_none());
}

#[test]
fn move_reusable_after_cancel() {
    let mut cmd: MoveCommand<P> = MoveCommand::new(selection(1));
    let _ = cmd.on_input(Input::Cancel);
    assert!(cmd.base_point.is_none());
    assert_eq!(cmd.steps_remaining(), 2);
    let _ = cmd.on_input(point(1.0, 1.0));
    let r = cmd.on_input(point(3.0, 4.0));
    assert!(matches!(r, Outcome::Done(ref c) if c.displacement == Displacement::Between((1.0, 1.0), (3.0, 4.0))));
}

#[test]
fn move_confirm_without_base_point_is_error() {
    let mut cmd: MoveCommand<P> = MoveCommand::new(selection(1));
    let r = cmd.on_input(Input::Confirm);
    assert!(matches!(r, Outcome::Error(ref m) if m == "Specify a base point first."));
    let r = cmd.on_input(text("x"));
    assert!(matches!(r, Outcome::Error(ref m) if m == "Specify a point."));
}

// ---------------------------------------------------------------------------
// COPY
// ---------------------------------------------------------------------------

#[test]
fn copy_cmd_new_captures_selection() {
    let cmd: CopyCommand<P> = CopyCommand::new(selection(1));
    assert_eq!(cmd.selected_entities.len(), 1);
    assert!(!cmd.is_empty());
}

#[test]
fn copy_cmd_new_with_empty_selection_is_empty() {
    let cmd: CopyCommand<P> = CopyCommand::new(Vec::new());
    assert!(cmd.is_empty());
    assert!(cmd.base_point.is_none());
}

#[test]
fn copy_cmd_name_and_prompt() {
    let cmd: CopyCommand<P> = CopyCommand::new(Vec::new());
    assert_eq!(cmd.name(), "COPY");
    assert_eq!(cmd.prompt(), "Specify base point or displacement:");
    assert_eq!(cmd.steps_remaining(), 2);
}

#[test]
fn copy_cmd_prompt_after_base_point() {
    let mut cmd: CopyCommand<P> = CopyCommand::new(selection(1));
    let _ = cmd.on_input(point(5.0, 5.0));
    assert_eq!(cmd.prompt(), "Specify second point or <use first point as displacement>:");
    assert_eq!(cmd.steps_remaining(), 1);
}

#[test]
fn copy_two_points_spawns_new_entity() {
    let mut cmd: CopyCommand<P> = CopyCommand::new(selection(1));
    let r1 = cmd.on_input(point(1.0, 1.0));
    assert!(matches!(r1, Outcome::Continue));
    let r2 = cmd.on_input(point(2.0, 2.0));
    match r2 {
        Outcome::Done(c) => {
            assert_eq!(c.displacement, Displacement::Between((1.0, 1.0), (2.0, 2.0)));
            assert_eq!(c.label, "Copy 1 entity");
        }
        other => panic!("expected Done, got {:?}", other),
    }
}

#[test]
fn copy_confirm_uses_base_as_displacement() {
    let mut cmd: CopyCommand<P> = CopyCommand::new(selection(1));
    let r1 = cmd.on_input(point(3.0, 4.0));
    assert!(matches!(r1, Outcome::Continue));
    let r2 = cmd.on_input(Input::Confirm);
    assert!(matches!(r2, Outcome::Done(ref c) if c.displacement == Displacement::FromOrigin((3.0, 4.0))));
}

#[test]
fn copy_with_empty_selection_returns_error() {
    let mut cmd: CopyCommand<P> = CopyCommand::new(Vec::new());
    let result = cmd.on_input(point(0.0, 0.0));
    assert!(matches!(result,
        Outcome::Error(ref m) if m == "No entities selected. Select objects before running COPY."));
    let result2 = cmd.on_input(Input::Confirm);
    assert!(matches!(result2, Outcome::Error(_)));
}

#[test]
fn copy_cancel_clears_state() {
    let mut cmd: CopyCommand<P> = CopyCommand::new(selection(1));
    let _ = cmd.on_input(point(5.0, 5.0));
    let result = cmd.on_input(Input::Cancel);
    assert!(matches!(result, Outcome::Cancelled));
    assert!(cmd.base_point.is_none());
}

#[test]
fn copy_reusable_after_cancel() {
    let mut cmd: CopyCommand<P> = CopyCommand::new(selection(1));
    let _ = cmd.on_input(Input::Cancel);
    assert!(cmd.base_point.is_none());
    assert_eq!(cmd.steps_remaining(), 2);
    let _ = cmd.on_input(point(1.0, 1.0));
    let r = cmd.on_input(point(3.0, 4.0));
    assert!(matches!(r, Outcome::Done(ref c) if c.displacement == Displacement::Between((1.0, 1.0), (3.0, 4.0))));
}

// ---------------------------------------------------------------------------
// ROTATE
// ---------------------------------------------------------------------------

#[test]
fn rotate_cmd_new_captures_selection() {
    let cmd: RotateCommand<P> = RotateCommand::new(selection(1));
    assert_eq!(cmd.selected_entities.len(), 1);
    assert!(!cmd.is_empty());
}

#[test]
fn rotate_cmd_new_with_empty_selection_is_empty() {
    let cmd: RotateCommand<P> = RotateCommand::new(Vec::new());
    assert!(cmd.is_empty());
    assert!(cmd.base_point.is_none());
}

#[test]
fn rotate_cmd_name_and_prompt() {
    let cmd: RotateCommand<P> = RotateCommand::new(Vec::new());
    assert_eq!(cmd.name(), "ROTATE");
    assert_eq!(cmd.prompt(), "Specify base point:");
    assert_eq!(cmd.steps_remaining(), 2);
}

#[test]
fn rotate_90_degrees_line_around_origin() {
    let mut cmd: RotateCommand<P> = RotateCommand::new(selection(1));
    let _ = cmd.on_input(point(0.0, 0.0), no_number());
    assert_eq!(cmd.prompt(), "Specify rotation angle or second point:");
    let r = cmd.on_input(text("90"), number("90"));
    match r {
        Outcome::Done(c) => {
            assert_eq!(c.center, (0.0, 0.0));
            assert_eq!(c.by, RotateBy::Degrees(90.0));
            assert_eq!(c.label, "Rotate 1 entity");
        }
        other => panic!("expected Done, got {:?}", other),
    }
}

#[test]
fn rotate_via_second_point() {
    let mut cmd: RotateCommand<P> = RotateCommand::new(selection(1));
    let _ = cmd.on_input(point(0.0, 0.0), no_number());
    let r2 = cmd.on_input(point(0.0, 1.0), no_number());
    assert!(matches!(r2, Outcome::Done(ref c) if c.by == RotateBy::TowardPoint((0.0, 1.0)) && c.center == (0.0, 0.0)));
}

#[test]
fn rotate_with_empty_selection_returns_error() {
    let mut cmd: RotateCommand<P> = RotateCommand::new(Vec::new());
    let result = cmd.on_input(point(0.0, 0.0), no_number());
    assert!(matches!(result,
        Outcome::Error(ref m) if m == "No entities selected. Select objects before running ROTATE."));
}

#[test]
fn rotate_invalid_text_returns_error() {
    let mut cmd: RotateCommand<P> = RotateCommand::new(selection(1));
    let _ = cmd.on_input(point(0.0, 0.0), no_number());
    let result = cmd.on_input(text("not_a_number"), number("not_a_number"));
    assert!(matches!(result,
        Outcome::Error(ref m) if m == "Invalid angle: 'not_a_number'. Enter a number in degrees."));
}

#[test]
fn rotate_cancel_clears_state() {
    let mut cmd: RotateCommand<P> = RotateCommand::new(selection(1));
    let _ = cmd.on_input(point(5.0, 5.0), no_number());
    let result = cmd.on_input(Input::Cancel, no_number());
    assert!(matches!(result, Outcome::Cancelled));
    assert!(cmd.base_point.is_none());
}

#[test]
fn rotate_text_before_base_and_confirm_are_errors() {
    let mut cmd: RotateCommand<P> = RotateCommand::new(selection(1));
    let r = cmd.on_input(text("45"), number("45"));
    assert!(matches!(r, Outcome::Error(ref m) if m == "Specify a base point first."));
    let r = cmd.on_input(Input::Confirm, no_number());
    assert!(matches!(r, Outcome::Error(ref m) if m == "Specify a rotation angle or second point."));
}

// ---------------------------------------------------------------------------
// SCALE
// ---------------------------------------------------------------------------

#[test]
fn scale_cmd_new_captures_selection() {
    let cmd: ScaleCommand<P> = ScaleCommand::new(selection(1));
    assert_eq!(cmd.selected_entities.len(), 1);
    assert!(!cmd.is_empty());
}

#[test]
fn scale_cmd_new_with_empty_selection_is_empty() {
    let cmd: ScaleCommand<P> = ScaleCommand::new(Vec::new());
    assert!(cmd.is_empty());
    assert!(cmd.base_point.is_none());
}

#[test]
fn scale_cmd_name_and_prompt() {
    let cmd: ScaleCommand<P> = ScaleCommand::new(Vec::new());
    assert_eq!(cmd.name(), "SCALE");
    assert_eq!(cmd.prompt(), "Specify base point:");
    assert_eq!(cmd.steps_remaining(), 2);
}

#[test]
fn scale_2x_line_around_origin() {
    let mut cmd: ScaleCommand<P> = ScaleCommand::new(selection(1));
    let _ = cmd.on_input(point(0.0, 0.0), no_number());
    let r = cmd.on_input(text("2"), number("2"));
    match r {
        Outcome::Done(c) => {
            assert_eq!(c.center, (0.0, 0.0));
            assert_eq!(c.factor, 2.0);
            assert_eq!(c.label, "Scale 1 entity");
        }
        other => panic!("expected Done, got {:?}", other),
    }
}

#[test]
fn scale_negative_factor_mirrors_line() {
    let mut cmd: ScaleCommand<P> = ScaleCommand::new(selection(1));
    let _ = cmd.on_input(point(0.0, 0.0), no_number());
    let r = cmd.on_input(text("-1"), number("-1"));
    assert!(matches!(r, Outcome::Done(ref c) if c.factor == -1.0));
}

#[test]
fn scale_with_empty_selection_returns_error() {
    let mut cmd: ScaleCommand<P> = ScaleCommand::new(Vec::new());
    let result = cmd.on_input(point(0.0, 0.0), no_number());
    assert!(matches!(result,
        Outcome::Error(ref m) if m == "No entities selected. Select objects before running SCALE."));
}

#[test]
fn scale_invalid_text_returns_error() {
    let mut cmd: ScaleCommand<P> = ScaleCommand::new(selection(1));
    let _ = cmd.on_input(point(0.0, 0.0), no_number());
    let result = cmd.on_input(text("not_a_number"), number("not_a_number"));
    assert!(matches!(result,
        Outcome::Error(ref m) if m == "Invalid scale factor: 'not_a_number'. Enter a number (e.g., 2 for 2x)."));
}

#[test]
fn scale_zero_factor_returns_error() {
    let mut cmd: ScaleCommand<P> = ScaleCommand::new(selection(1));
    let _ = cmd.on_input(point(0.0, 0.0), no_number());
    let result = cmd.on_input(text("0"), number("0"));
    assert!(matches!(result, Outcome::Error(ref m) if m == "Scale factor must be non-zero."));
}

#[test]
fn scale_point_after_base_returns_error() {
    let mut cmd: ScaleCommand<P> = ScaleCommand::new(selection(1));
    let _ = cmd.on_input(point(0.0, 0.0), no_number());
    let result = cmd.on_input(point(5.0, 0.0), no_number());
    assert!(matches!(result, Outcome::Error(ref m) if m == "Enter a numeric scale factor (e.g., 2 for 2x)."));
}

#[test]
fn scale_prompt_after_base_mentions_text_only() {
    let mut cmd: ScaleCommand<P> = ScaleCommand::new(selection(1));
    let _ = cmd.on_input(point(0.0, 0.0), no_number());
    assert!(cmd.prompt().contains("2 for 2x"));
}

#[test]
fn scale_cancel_clears_state() {
    let mut cmd: ScaleCommand<P> = ScaleCommand::new(selection(1));
    let _ = cmd.on_input(point(5.0, 5.0), no_number());
    let result = cmd.on_input(Input::Cancel, no_number());
    assert!(matches!(result, Outcome::Cancelled));
    assert!(cmd.base_point.is_none());
}

// ---------------------------------------------------------------------------
// MIRROR
// ---------------------------------------------------------------------------

#[test]
fn mirror_cmd_new_captures_selection() {
    let cmd: MirrorCommand<P> = MirrorCommand::new(selection(1));
    assert_eq!(cmd.selected_entities.len(), 1);
    assert!(!cmd.is_empty());
}

#[test]
fn mirror_cmd_new_with_empty_selection_is_empty() {
    let cmd: MirrorCommand<P> = MirrorCommand::new(Vec::new());
    assert!(cmd.is_empty());
    assert!(cmd.point1.is_none());
}

#[test]
fn mirror_cmd_name_and_prompt() {
    let cmd: MirrorCommand<P> = MirrorCommand::new(Vec::new());
    assert_eq!(cmd.name(), "MIRROR");
    assert_eq!(cmd.prompt(), "Specify first point of mirror line:");
    assert_eq!(cmd.steps_remaining(), 2);
}

#[test]
fn prompt_after_first_point() {
    let mut cmd: MirrorCommand<P> = MirrorCommand::new(selection(1));
    let _ = cmd.on_input(point(0.0, 0.0));
    assert_eq!(cmd.prompt(), "Specify second point of mirror line:");
    assert_eq!(cmd.steps_remaining(), 1);
}

#[test]
fn mirror_point_across_y_axis() {
    let mut cmd: MirrorCommand<P> = MirrorCommand::new(selection(1));
    let _ = cmd.on_input(point(0.0, 0.0));
    let r = cmd.on_input(point(0.0, 1.0));
    match r {
        Outcome::Done(c) => {
            assert_eq!(c.first, (0.0, 0.0));
            assert_eq!(c.second, (0.0, 1.0));
            assert_eq!(c.label, "Mirror 1 entity");
        }
        other => panic!("expected Done, got {:?}", other),
    }
}

#[test]
fn mirror_with_empty_selection_returns_error() {
    let mut cmd: MirrorCommand<P> = MirrorCommand::new(Vec::new());
    let result = cmd.on_input(point(0.0, 0.0));
    assert!(matches!(result,
        Outcome::Error(ref m) if m == "No entities selected. Select objects before running MIRROR."));
}

#[test]
fn mirror_cancel_clears_state() {
    let mut cmd: MirrorCommand<P> = MirrorCommand::new(selection(1));
    let _ = cmd.on_input(point(5.0, 5.0));
    let result = cmd.on_input(Input::Cancel);
    assert!(matches!(result, Outcome::Cancelled));
    assert!(cmd.point1.is_none());
}

#[test]
fn mirror_confirm_is_error() {
    let mut cmd: MirrorCommand<P> = MirrorCommand::new(selection(1));
    let r = cmd.on_input(Input::Confirm);
    assert!(matches!(r, Outcome::Error(ref m) if m == "Specify two points to define the mirror line."));
}

// ---------------------------------------------------------------------------
// OFFSET
// ---------------------------------------------------------------------------

#[test]
fn offset_cmd_new_captures_selection() {
    let cmd: OffsetCommand<f64> = OffsetCommand::new(selection(1));
    assert_eq!(cmd.selected_entities.len(), 1);
    assert!(!cmd.is_empty());
}

#[test]
fn offset_cmd_new_with_empty_selection_is_empty() {
    let cmd: OffsetCommand<f64> = OffsetCommand::new(Vec::new());
    assert!(cmd.is_empty());
    assert!(cmd.distance.is_none());
}

#[test]
fn offset_cmd_name_and_prompt() {
    let cmd: OffsetCommand<f64> = OffsetCommand::new(Vec::new());
    assert_eq!(cmd.name(), "OFFSET");
    assert_eq!(cmd.prompt(), "Specify offset distance:");
    assert_eq!(cmd.steps_remaining(), 2);
}

#[test]
fn offset_line_at_distance() {
    let mut cmd: OffsetCommand<f64> = OffsetCommand::new(selection(1));
    let r = cmd.on_input(text("5"), number("5"));
    assert!(matches!(r, Outcome::Continue));
    assert_eq!(cmd.prompt(), "Specify side to offset (click on one side):");
    let r = cmd.on_input(point(5.0, 1.0), no_number());
    assert!(matches!(r, Outcome::Done(OffsetRequest { distance, side }) if distance == 5.0 && side == (5.0, 1.0)));
    assert!(matches!(cmd.finish(1), Outcome::Done(ref l) if l == "Offset 1 entity"));
}

#[test]
fn offset_with_empty_selection_returns_error() {
    let mut cmd: OffsetCommand<f64> = OffsetCommand::new(Vec::new());
    let result = cmd.on_input(text("10"), number("10"));
    assert!(matches!(result,
        Outcome::Error(ref m) if m == "No entities selected. Select objects before running OFFSET."));
}

#[test]
fn offset_unsupported_entities_returns_error() {
    let mut cmd: OffsetCommand<f64> = OffsetCommand::new(selection(1));
    let _ = cmd.on_input(text("5"), number("5"));
    let r = cmd.on_input(point(1.0, 0.0), no_number());
    assert!(matches!(r, Outcome::Done(_)));
    let result = cmd.finish(0);
    assert!(matches!(result, Outcome::Error(ref m)
        if m == "No supported entities for OFFSET. Only lines and circles are supported in v0.2.0."));
}

#[test]
fn offset_invalid_text_returns_error() {
    let mut cmd: OffsetCommand<f64> = OffsetCommand::new(selection(1));
    let result = cmd.on_input(text("not_a_number"), number("not_a_number"));
    assert!(matches!(result,
        Outcome::Error(ref m) if m == "Invalid distance: 'not_a_number'. Enter a positive number."));
}

#[test]
fn offset_non_positive_distance_returns_error() {
    let mut cmd: OffsetCommand<f64> = OffsetCommand::new(selection(1));
    let result = cmd.on_input(text("0"), number("0"));
    assert!(matches!(result, Outcome::Error(ref m) if m == "Offset distance must be positive."));
    let result2 = cmd.on_input(text("-5"), number("-5"));
    assert!(matches!(result2, Outcome::Error(_)));
    assert!(cmd.distance.is_none());
}

#[test]
fn offset_click_before_distance_returns_error() {
    let mut cmd: OffsetCommand<f64> = OffsetCommand::new(selection(1));
    let result = cmd.on_input(point(5.0, 1.0), no_number());
    assert!(matches!(result, Outcome::Error(ref m) if m == "Specify an offset distance first."));
}

#[test]
fn offset_cancel_clears_state() {
    let mut cmd: OffsetCommand<f64> = OffsetCommand::new(selection(1));
    let _ = cmd.on_input(text("5"), number("5"));
    let result = cmd.on_input(Input::Cancel, no_number());
    assert!(matches!(result, Outcome::Cancelled));
    assert!(cmd.distance.is_none());
}

#[test]
fn offset_second_distance_is_refused() {
    let mut cmd: OffsetCommand<f64> = OffsetCommand::new(selection(1));
    let _ = cmd.on_input(text("5"), number("5"));
    let r = cmd.on_input(text("7"), number("7"));
    assert!(matches!(r, Outcome::Error(ref m) if m == "Distance already set. Click to pick side."));
    assert_eq!(cmd.distance, Some(5.0));
    let r = cmd.on_input(Input::Confirm, no_number());
    assert!(matches!(r, Outcome::Error(ref m) if m == "Click to pick the offset side."));
}

// ---------------------------------------------------------------------------
// EXPLODE
// ---------------------------------------------------------------------------

#[test]
fn explode_cmd_test_name_and_prompt() {
    let cmd: ExplodeCommand<u32> = ExplodeCommand::new(Vec::new());
    assert_eq!(cmd.name(), "EXPLODE");
    assert_eq!(cmd.prompt(), "Select objects to explode:");
    assert_eq!(cmd.steps_remaining(), 1);
}

#[test]
fn test_new_captures_no_instances_with_empty_selection() {
    let cmd: ExplodeCommand<u32> = ExplodeCommand::new(Vec::new());
    assert!(cmd.is_empty());
}

#[test]
fn test_confirm_explodes_block() {
    let mut cmd: ExplodeCommand<u32> = ExplodeCommand::new(vec![7]);
    let result = cmd.on_input::<P, f64>(Input::Confirm);
    assert!(matches!(result, Outcome::Done(ref l) if l == "Explode Block"));
}

#[test]
fn test_confirm_with_empty_instances_returns_error() {
    let mut cmd: ExplodeCommand<u32> = ExplodeCommand::new(Vec::new());
    let result = cmd.on_input::<P, f64>(Input::Confirm);
    assert!(matches!(result, Outcome::Error(ref m)
        if m == "No block references found in selection. Select blocks before EXPLODE."));
}

#[test]
fn test_cancel_does_nothing() {
    let mut cmd: ExplodeCommand<u32> = ExplodeCommand::new(vec![1]);
    let result = cmd.on_input::<P, f64>(Input::Cancel);
    assert!(matches!(result, Outcome::Cancelled));
    assert_eq!(cmd.instances, vec![1]);
}
