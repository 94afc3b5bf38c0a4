use dcc_lsystem::renderer::{DataRendererOptions, Renderer};
use dcc_lsystem::turtle::{Distribution, TurtleAction, TurtleContainer, TurtleLSystemBuilder, Uniform};
use dcc_lsystem::words::split_whitespace;
use dcc_lsystem::{LSystemBuilder, LSystemError};

fn dragon() -> TurtleLSystemBuilder {
    let mut builder = TurtleLSystemBuilder::new();
    builder
        .token("X", TurtleAction::Nothing)
        .unwrap()
        .token("Y", TurtleAction::Nothing)
        .unwrap()
        .token("F", TurtleAction::Forward(30))
        .unwrap()
        .token("+", TurtleAction::Rotate(-90))
        .unwrap()
        .token("-", TurtleAction::Rotate(90))
        .unwrap()
        .start("F X")
        .unwrap()
        .rule("X => X + Y F +")
        .unwrap()
        .rule("Y => - F X - Y")
        .unwrap();
    builder
}

#[test]
fn dragon_curve_first_step() {
    let (mut system, renderer) = dragon().finish().unwrap();
    assert_eq!(system.render(), "FX");
    system.step();
    assert_eq!(system.render(), "FX+YF+");
    let lines = renderer.render(&system, &DataRendererOptions::default());
    assert_eq!(lines, vec![(0, 0, 30, 0), (30, 0, 30, -30)]);
}

#[test]
fn dragon_curve_fifteen_steps_draws_one_segment_per_forward() {
    let (mut system, renderer) = dragon().finish().unwrap();
    system.step_by(15);
    let forwards = system.render().chars().filter(|c| *c == 'F').count();
    assert_eq!(forwards, 32768);
    let lines = renderer.render(&system, &DataRendererOptions::default());
    assert_eq!(lines.len(), 32768);
}

#[test]
fn rule_text_errors() {
    let mut builder = dragon();
    assert_eq!(
        builder.rule("nonsense").err(),
        Some(LSystemError::InvalidRule("nonsense".to_string()))
    );
    assert_eq!(
        builder.rule("Q => F").err(),
        Some(LSystemError::UnknownToken("Q".to_string()))
    );
    assert_eq!(
        builder.rule("X => F Z F").err(),
        Some(LSystemError::UnknownToken("Z".to_string()))
    );
    assert_eq!(
        builder.start("F W").err(),
        Some(LSystemError::UnknownToken("W".to_string()))
    );
    assert_eq!(
        builder.token("a b", TurtleAction::Nothing).err(),
        Some(LSystemError::InvalidToken("a b".to_string()))
    );
    assert_eq!(
        builder.rule_from_parts("F", "F G").err(),
        Some(LSystemError::UnknownToken("G".to_string()))
    );
}

#[test]
fn rule_from_parts_adds_the_named_rule() {
    let mut builder = TurtleLSystemBuilder::new();
    builder.token("F", TurtleAction::Forward(1)).unwrap();
    builder.token("G", TurtleAction::Nothing).unwrap();
    builder.start("F").unwrap();
    builder.rule_from_parts("F", "  F G\tF ").unwrap();
    let (mut system, _) = builder.finish().unwrap();
    system.step();
    assert_eq!(system.render(), "FGF");
}

#[test]
fn turtle_builder_without_start_fails() {
    let mut builder = TurtleLSystemBuilder::new();
    builder.token("F", TurtleAction::Forward(1)).unwrap();
    assert_eq!(builder.finish().err(), Some(LSystemError::MissingStart));
}

#[test]
fn global_rotation_turns_every_heading() {
    let mut builder = TurtleLSystemBuilder::new();
    builder.token("F", TurtleAction::Forward(10)).unwrap();
    builder.rotate(90).start("F F").unwrap();
    let (system, renderer) = builder.finish().unwrap();
    let lines = renderer.render(&system, &DataRendererOptions::default());
    assert_eq!(lines, vec![(0, 0, 0, 10), (0, 10, 0, 20)]);
}

fn stochastic(seed: u64) -> Vec<(i64, i64, i64, i64)> {
    let mut builder = TurtleLSystemBuilder::new();
    builder.token("R", TurtleAction::StochasticRotate(Uniform::new(10, 20))).unwrap();
    builder.token("F", TurtleAction::StochasticForward(Uniform::new(1000, 1000))).unwrap();
    builder.seed(seed).start("R F").unwrap();
    let (system, mut renderer) = builder.finish().unwrap();
    renderer.compute(system.get_state());
    renderer.state().inner().lines().to_vec()
}

#[test]
fn stochastic_actions_are_reproducible_and_in_range() {
    for seed in 0..20u64 {
        let lines = stochastic(seed);
        assert_eq!(lines, stochastic(seed));
        assert_eq!(lines.len(), 1);
        let (_, _, x, y) = lines[0];
        let degrees = (y as f64).atan2(x as f64).to_degrees();
        assert!(degrees > 9.9 && degrees < 20.1, "{}", degrees);
    }
}

#[test]
fn uniform_samples_stay_in_range_and_constants_are_constant() {
    let u = Uniform::new(-3, 3);
    for seed in 0..200u64 {
        let s = u.sample(seed);
        assert!((-3..=3).contains(&s));
        assert_eq!(s, u.sample(seed));
    }
    assert_eq!(Uniform::new(7, 7).sample(99), 7);
    assert_eq!(42i32.sample(5), 42);
}

#[test]
fn split_whitespace_finds_maximal_runs() {
    assert_eq!(split_whitespace("  a\tbb  c "), vec!["a", "bb", "c"]);
    assert_eq!(split_whitespace(""), Vec::<String>::new());
    assert_eq!(split_whitespace(" \n "), Vec::<String>::new());
    assert_eq!(split_whitespace("one"), vec!["one"]);
}

#[test]
fn rules_are_written_with_token_names() {
    let mut builder = LSystemBuilder::new();
    let a = builder.token("a").unwrap();
    let b = builder.token("b").unwrap();
    assert_eq!(builder.rules_string(), "");
    builder.transformation_rule(a, vec![a, b]).unwrap();
    assert_eq!(builder.rules_string(), "a => ab");
    builder.transformation_rule(b, vec![a]).unwrap();
    assert_eq!(builder.rules_string(), "a => ab,b => a");
}
