use dcc_lsystem::{LSystemBuilder, LSystemError};

#[test]
fn tests_basic_algae_test() -> Result<(), LSystemError> {
    let mut builder = LSystemBuilder::new();

    let a = builder.token("A")?;
    let b = builder.token("B")?;

    builder.start(vec![a])?;
    builder.transformation_rule(a, vec![a, b])?;
    builder.transformation_rule(b, vec![a])?;

    let mut system = builder.finish()?;

    system.step_by(7);
    assert_eq!(system.render(), "ABAABABAABAABABAABABAABAABABAABAAB");

    Ok(())
}

#[test]
fn tests_fractal_binary_tree() -> Result<(), LSystemError> {
    let mut builder = LSystemBuilder::new();

    let zero = builder.token("0")?;
    let one = builder.token("1")?;
    let left_square_bracket = builder.token("[")?;
    let right_square_bracket = builder.token("]")?;

    builder.start(vec![zero])?;
    builder.transformation_rule(one, vec![one, one])?;
    builder.transformation_rule(
        zero,
        vec![one, left_square_bracket, zero, right_square_bracket, zero],
    )?;

    let mut system = builder.finish()?;

    assert_eq!(system.render(), "0");

    system.step();
    assert_eq!(system.render(), "1[0]0");

    system.step();
    assert_eq!(system.render(), "11[1[0]0]1[0]0");

    system.step();
    assert_eq!(system.render(), "1111[11[1[0]0]1[0]0]11[1[0]0]1[0]0");

    Ok(())
}

#[test]
fn lib_basic_algae_test() {
    let mut builder = LSystemBuilder::new();

    let a = builder.token("A").unwrap();
    let b = builder.token("B").unwrap();

    builder.start(vec![a]).unwrap();
    builder.transformation_rule(a, vec![a, b]).unwrap();
    builder.transformation_rule(b, vec![a]).unwrap();

    let mut system = builder.finish().unwrap();

    system.step_by(7);

    assert_eq!(system.render(), "ABAABABAABAABABAABABAABAABABAABAAB");
}

#[test]
fn lib_fractal_binary_tree() {
    let mut builder = LSystemBuilder::new();

    let zero = builder.token("0").unwrap();
    let one = builder.token("1").unwrap();
    let left_square_bracket = builder.token("[").unwrap();
    let right_square_bracket = builder.token("]").unwrap();

    builder.start(vec![zero]).unwrap();
    builder.transformation_rule(one, vec![one, one]).unwrap();
    builder
        .transformation_rule(
            zero,
            vec![one, left_square_bracket, zero, right_square_bracket, zero],
        )
        .unwrap();

    let mut system = builder.finish().unwrap();

    assert_eq!(system.render(), "0");

    system.step();
    assert_eq!(system.render(), "1[0]0");

    system.step();
    assert_eq!(system.render(), "11[1[0]0]1[0]0");

    system.step();
    assert_eq!(system.render(), "1111[11[1[0]0]1[0]0]11[1[0]0]1[0]0");
}

fn algae() -> dcc_lsystem::LSystem {
    let mut builder = LSystemBuilder::new();
    let a = builder.token("A").unwrap();
    let b = builder.token("B").unwrap();
    builder.start(vec![a]).unwrap();
    builder.transformation_rule(a, vec![a, b]).unwrap();
    builder.transformation_rule(b, vec![a]).unwrap();
    builder.finish().unwrap()
}

#[test]
fn algae_first_steps_and_step_counter() {
    let mut system = algae();
    assert_eq!(system.steps(), 0);
    assert_eq!(system.render(), "A");
    system.step();
    assert_eq!(system.render(), "AB");
    system.step();
    assert_eq!(system.render(), "ABA");
    assert_eq!(system.steps(), 2);
    system.step_by(0);
    assert_eq!(system.steps(), 2);
    assert_eq!(system.render(), "ABA");
}

#[test]
fn reset_then_step_by_is_deterministic() {
    let mut system = algae();
    system.step_by(5);
    let first = system.render();
    system.reset();
    assert_eq!(system.steps(), 0);
    assert_eq!(system.render(), "A");
    system.step_by(5);
    assert_eq!(system.render(), first);
    let mut other = algae();
    other.step_by(3);
    other.reset();
    other.step_by(5);
    assert_eq!(other.render(), first);
    assert_eq!(first, "ABAABABAABAAB");
}

#[test]
fn step_by_is_additive() {
    let mut split = algae();
    split.step_by(3);
    split.step_by(4);
    let mut whole = algae();
    whole.step_by(3);
    whole.reset();
    whole.step_by(7);
    assert_eq!(split.get_state(), whole.get_state());
    assert_eq!(split.steps(), 7);
    assert_eq!(whole.steps(), 7);
}

#[test]
fn token_without_rule_renders_unchanged() {
    let mut builder = LSystemBuilder::new();
    let plus = builder.token("+").unwrap();
    builder.start(vec![plus]).unwrap();
    let mut system = builder.finish().unwrap();
    for _ in 0..10 {
        assert_eq!(system.render(), "+");
        system.step();
    }
    system.step_by(20);
    assert_eq!(system.render(), "+");
}

#[test]
fn last_registered_rule_wins_and_state_ids_are_kept() {
    let mut builder = LSystemBuilder::new();
    let a = builder.token("a").unwrap();
    let b = builder.token("b").unwrap();
    builder.transformation_rule(a, vec![b]).unwrap();
    builder.transformation_rule(a, vec![a, a, b]).unwrap();
    builder.start(vec![a]).unwrap();
    let mut system = builder.finish().unwrap();
    assert_eq!(system.get_state(), &[a]);
    system.step();
    assert_eq!(system.get_state(), &[a, a, b]);
    assert_eq!(system.render(), "aab");
}

#[test]
fn multi_character_names_concatenate() {
    let mut builder = LSystemBuilder::new();
    let k = builder.token("kay").unwrap();
    let g = builder.token("gee").unwrap();
    builder.start(vec![k, g]).unwrap();
    builder.transformation_rule(k, vec![k, g]).unwrap();
    let mut system = builder.finish().unwrap();
    assert_eq!(system.render(), "kaygee");
    system.step();
    assert_eq!(system.render(), "kaygeegee");
}

#[test]
fn bab_grows_linearly() {
    let mut builder = LSystemBuilder::new();
    let a = builder.token("a").unwrap();
    let b = builder.token("b").unwrap();
    builder.start(vec![a]).unwrap();
    builder.transformation_rule(a, vec![b, a, b]).unwrap();
    let mut system = builder.finish().unwrap();
    system.step_by(100);
    assert_eq!(system.steps(), 100);
    assert_eq!(system.render().len(), 201);
}
