use dcc_lsystem::renderer::{DataRendererOptions, Renderer, TurtleRenderer};
use dcc_lsystem::turtle::{MovingTurtle, TurtleAction, TurtleContainer, TurtleLSystemState};
use dcc_lsystem::{ArenaId, LSystemBuilder};

#[test]
fn alias_fan_in_applies_the_shared_action_once_per_occurrence() {
    let (a, b, c) = (ArenaId(0), ArenaId(1), ArenaId(2));
    let mut renderer: TurtleRenderer<TurtleLSystemState, TurtleAction> =
        TurtleRenderer::new(TurtleLSystemState::new());
    renderer.register_multiple(&[a, b, c], TurtleAction::Forward(10));
    renderer.compute(&[a, b, c]);
    assert_eq!(
        renderer.state().inner().lines(),
        &[(0, 0, 10, 0), (10, 0, 20, 0), (20, 0, 30, 0)]
    );
}

#[test]
fn unbound_ids_are_skipped_and_empty_groups_bind_nothing() {
    let mut renderer: TurtleRenderer<TurtleLSystemState, TurtleAction> =
        TurtleRenderer::new(TurtleLSystemState::new());
    renderer.register_multiple(&[], TurtleAction::Forward(10));
    renderer.register(ArenaId(3), TurtleAction::Rotate(90));
    renderer.register(ArenaId(4), TurtleAction::Forward(2));
    renderer.compute(&[ArenaId(0), ArenaId(4), ArenaId(9), ArenaId(3), ArenaId(4)]);
    assert_eq!(renderer.state().inner().lines(), &[(0, 0, 2, 0), (2, 0, 2, 2)]);
}

#[test]
fn later_registration_replaces_the_action() {
    let mut renderer: TurtleRenderer<TurtleLSystemState, TurtleAction> =
        TurtleRenderer::new(TurtleLSystemState::new());
    renderer.register(ArenaId(0), TurtleAction::Forward(1));
    renderer.register_multiple(&[ArenaId(5), ArenaId(0)], TurtleAction::Forward(4));
    renderer.compute(&[ArenaId(0)]);
    assert_eq!(renderer.state().inner().lines(), &[(0, 0, 4, 0)]);
}

#[test]
fn push_and_pop_actions_restore_the_angle_too() {
    let (f, l, push, pop) = (ArenaId(0), ArenaId(1), ArenaId(2), ArenaId(3));
    let mut renderer: TurtleRenderer<TurtleLSystemState, TurtleAction> =
        TurtleRenderer::new(TurtleLSystemState::new());
    renderer.register(f, TurtleAction::Forward(5));
    renderer.register(l, TurtleAction::Rotate(90));
    renderer.register(push, TurtleAction::Push);
    renderer.register(pop, TurtleAction::Pop);
    renderer.compute(&[push, l, f, pop, f, pop, f]);
    assert_eq!(
        renderer.state().inner().lines(),
        &[(0, 0, 0, 5), (0, 0, 5, 0), (5, 0, 10, 0)]
    );
    assert_eq!(MovingTurtle::inner(renderer.state().turtle()).x(), 10);
}

#[test]
fn data_renderer_returns_the_segments_of_the_system_state() {
    let mut builder = LSystemBuilder::new();
    let f = builder.token("F").unwrap();
    let p = builder.token("+").unwrap();
    builder.start(vec![f]).unwrap();
    builder.transformation_rule(f, vec![f, p, f]).unwrap();
    let mut system = builder.finish().unwrap();
    system.step();
    let mut renderer: TurtleRenderer<TurtleLSystemState, TurtleAction> =
        TurtleRenderer::new(TurtleLSystemState::new());
    renderer.register(f, TurtleAction::Forward(3));
    renderer.register(p, TurtleAction::Rotate(-90));
    let lines = renderer.render(&system, &DataRendererOptions::default());
    assert_eq!(lines, vec![(0, 0, 3, 0), (3, 0, 3, -3)]);
}
