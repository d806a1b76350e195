use forge::commands::match_prop::{MatchPropCommand, PropertyChange};
use forge::commands::{CommandInput, Outcome};
use forge::ecs::{EntityId, LayerRef, PropertySource, Renderable};
use hecs::World;

type P = (f64, f64);
type Input = CommandInput<P, f64>;

fn id(e: hecs::Entity) -> EntityId {
    EntityId(e.to_bits().get())
}

fn source_of(world: &World, e: hecs::Entity) -> Option<PropertySource> {
    world.get::<&PropertySource>(e).ok().map(|p| *p)
}

fn layer_of(world: &World, e: hecs::Entity) -> Option<u32> {
    world.get::<&LayerRef>(e).ok().map(|l| l.0)
}

#[test]
fn match_prop_cmd_test_name_and_prompt() {
    let cmd = MatchPropCommand::new(Vec::new());
    assert_eq!(cmd.name(), "MATCHPROP");
    assert_eq!(cmd.prompt(), "Select source entity (click on geometry):");
    assert_eq!(cmd.steps_remaining(), 2);
}

#[test]
fn test_step0_point_pick_finds_line() {
    let mut world = World::new();
    let line = world.spawn((Renderable, PropertySource::ByLayer, LayerRef(0)));
    let mut cmd = MatchPropCommand::new(Vec::new());
    let result = cmd.on_input(Input::Point((50.0, 2.0)), &mut world, Some(id(line)));
    assert!(matches!(result, Outcome::Continue));
    assert_eq!(cmd.step, 1);
    assert_eq!(cmd.source, Some(id(line)));
}

#[test]
fn test_step0_point_pick_misses_returns_error() {
    let mut world = World::new();
    let _line = world.spawn((Renderable, PropertySource::ByLayer, LayerRef(0)));
    let mut cmd = MatchPropCommand::new(Vec::new());
    let result = cmd.on_input(Input::Point((500.0, 500.0)), &mut world, None);
    assert!(matches!(result, Outcome::Error(ref m) if m == "No entity found at that point."));
    assert_eq!(cmd.step, 0);
    assert_eq!(cmd.source, None);
    assert_eq!(cmd.prompt(), "No entity found at that point. Try again or press Esc to cancel.");
}

#[test]
fn test_confirm_applies_properties_to_targets() {
    let mut world = World::new();
    let source = world.spawn((Renderable, PropertySource::Explicit, LayerRef(5)));
    let target_a = world.spawn((Renderable, PropertySource::ByLayer, LayerRef(0)));
    let target_b = world.spawn((Renderable, PropertySource::ByBlock, LayerRef(1)));

    let mut cmd = MatchPropCommand::new(vec![id(target_a), id(target_b)]);
    cmd.source = Some(id(source));
    cmd.step = 1;
    assert_eq!(cmd.prompt(), "Press Enter to match properties to 2 entity(ies), or Esc to cancel.");

    let result = cmd.on_input(Input::Confirm, &mut world, None);
    match result {
        Outcome::Done(commit) => {
            assert_eq!(commit.label, "Match Properties");
            assert_eq!(commit.changes.len(), 2);
            assert_eq!(
                commit.changes[1],
                PropertyChange {
                    entity: id(target_b),
                    old_source: PropertySource::ByBlock,
                    new_source: PropertySource::Explicit,
                    old_layer: Some(LayerRef(1)),
                    new_layer: Some(LayerRef(5)),
                }
            );
        }
        other => panic!("expected Done, got {:?}", other),
    }

    assert_eq!(source_of(&world, target_a), Some(PropertySource::Explicit));
    assert_eq!(source_of(&world, target_b), Some(PropertySource::Explicit));
    assert_eq!(layer_of(&world, target_a), Some(5));
    assert_eq!(layer_of(&world, target_b), Some(5));
}

#[test]
fn test_confirm_skips_source_if_in_targets() {
    let mut world = World::new();
    let source = world.spawn((Renderable, PropertySource::Explicit, LayerRef(5)));
    let target = world.spawn((Renderable, PropertySource::ByLayer, LayerRef(0)));

    let mut cmd = MatchPropCommand::new(vec![id(source), id(target)]);
    cmd.source = Some(id(source));
    cmd.step = 1;
    assert_eq!(cmd.prompt(), "Press Enter to match properties to 1 entity(ies), or Esc to cancel.");

    let result = cmd.on_input(Input::Confirm, &mut world, None);
    match result {
        Outcome::Done(commit) => {
            assert_eq!(commit.changes.len(), 1);
            assert_eq!(commit.changes[0].entity, id(target));
        }
        other => panic!("expected Done, got {:?}", other),
    }
    assert_eq!(source_of(&world, source), Some(PropertySource::Explicit));
    assert_eq!(layer_of(&world, source), Some(5));
}

#[test]
fn test_cancel_at_step0() {
    let mut world = World::new();
    let mut cmd = MatchPropCommand::new(Vec::new());
    let result = cmd.on_input(Input::Cancel, &mut world, None);
    assert!(matches!(result, Outcome::Cancelled));
}

#[test]
fn test_cancel_at_step1() {
    let mut world = World::new();
    let e = world.spawn((Renderable, PropertySource::ByLayer, LayerRef(0)));
    let mut cmd = MatchPropCommand::new(Vec::new());
    cmd.source = Some(id(e));
    cmd.step = 1;
    let result = cmd.on_input(Input::Cancel, &mut world, None);
    assert!(matches!(result, Outcome::Cancelled));
}

#[test]
fn test_confirm_without_source_returns_error() {
    let mut world = World::new();
    let mut cmd = MatchPropCommand::new(Vec::new());
    cmd.step = 1;
    let result = cmd.on_input(Input::Confirm, &mut world, None);
    assert!(matches!(result, Outcome::Error(ref m) if m == "No source entity selected."));
}

#[test]
fn match_prop_source_without_layer_removes_target_layers() {
    let mut world = World::new();
    let source = world.spawn((Renderable, PropertySource::Explicit));
    let target = world.spawn((Renderable, LayerRef(3)));

    let mut cmd = MatchPropCommand::new(vec![id(target)]);
    cmd.source = Some(id(source));
    cmd.step = 1;
    let result = cmd.on_input(Input::Confirm, &mut world, None);
    match result {
        Outcome::Done(commit) => {
            assert_eq!(
                commit.changes,
                vec![PropertyChange {
                    entity: id(target),
                    old_source: PropertySource::ByLayer,
                    new_source: PropertySource::Explicit,
                    old_layer: Some(LayerRef(3)),
                    new_layer: None,
                }]
            );
        }
        other => panic!("expected Done, got {:?}", other),
    }
    assert_eq!(layer_of(&world, target), None);
    assert_eq!(source_of(&world, target), Some(PropertySource::Explicit));
}

#[test]
fn match_prop_other_inputs_keep_waiting() {
    let mut world = World::new();
    let mut cmd = MatchPropCommand::new(Vec::new());
    let r = cmd.on_input(Input::Text("x".to_string()), &mut world, None);
    assert!(matches!(r, Outcome::Continue));
    assert_eq!(cmd.step, 0);
}
