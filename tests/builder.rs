use dcc_lsystem::{ArenaId, LSystemBuilder, LSystemError};

#[test]
fn test_builder_invalid_token() -> Result<(), LSystemError> {
    let mut builder = LSystemBuilder::new();

    let _daisy = builder.token("daisy")?;

    // make sure we can't add a token with a space in it
    assert!(builder.token("space cadet").is_err());

    Ok(())
}

#[test]
fn test_builder_axiom_and_transformation_rule_errors() -> Result<(), LSystemError> {
    let mut builder = LSystemBuilder::new();

    let x = builder.token("x")?;
    let y = builder.token("y")?;

    let mut some_other_builder = LSystemBuilder::new();

    // `x` won't be valid for an empty builder
    assert!(some_other_builder.start(vec![x]).is_err());

    let q = some_other_builder.token("q")?;

    // make sure `y` still isn't valid
    assert!(some_other_builder.start(vec![y]).is_err());

    // similarly trying to add a transformation rule should go badly.
    assert!(some_other_builder
        .transformation_rule(q, vec![x, y, q])
        .is_err());
    assert!(some_other_builder
        .transformation_rule(y, vec![q, q])
        .is_err());

    Ok(())
}

#[test]
fn macro_usage() {
    let mut builder = LSystemBuilder::new();

    let x = builder.token("X").unwrap();
    let y = builder.token("Y").unwrap();

    assert_eq!(x, ArenaId(0));
    assert_eq!(y, ArenaId(1));
}

#[test]
fn token_names_reject_every_kind_of_whitespace_and_the_empty_name() {
    let mut builder = LSystemBuilder::new();
    assert_eq!(
        builder.token("space cadet"),
        Err(LSystemError::InvalidToken("space cadet".to_string()))
    );
    assert!(builder.token("tab\there").is_err());
    assert!(builder.token("new\nline").is_err());
    assert!(builder.token("nbsp\u{a0}").is_err());
    assert!(builder.token("ideographic\u{3000}space").is_err());
    assert_eq!(builder.token(""), Err(LSystemError::InvalidToken(String::new())));
    assert_eq!(builder.token("[").unwrap(), ArenaId(0));
    assert_eq!(builder.token("ok").unwrap(), ArenaId(1));
}

#[test]
fn whitespace_test_agrees_with_std_on_every_char() {
    for u in 0u32..=0x10FFFF {
        if let Some(c) = char::from_u32(u) {
            assert_eq!(dcc_lsystem::token::is_whitespace(c), c.is_whitespace(), "{:?}", c);
        }
    }
}

#[test]
fn cross_builder_ids_are_rejected_with_the_offending_id() {
    let mut first = LSystemBuilder::new();
    let t = first.token("T").unwrap();
    let mut second = LSystemBuilder::new();
    assert_eq!(second.start(vec![t]), Err(LSystemError::InvalidArenaId(t)));
    assert_eq!(
        second.transformation_rule(t, vec![]),
        Err(LSystemError::InvalidArenaId(t))
    );
    let u = second.token("U").unwrap();
    assert_eq!(
        second.transformation_rule(u, vec![u, ArenaId(7), ArenaId(9)]),
        Err(LSystemError::InvalidArenaId(ArenaId(7)))
    );
    assert_eq!(second.start(vec![u, ArenaId(4)]), Err(LSystemError::InvalidArenaId(ArenaId(4))));
    assert!(second.start(vec![u]).is_ok());
}

#[test]
fn finish_without_start_sequence_fails() {
    let mut builder = LSystemBuilder::new();
    let a = builder.token("a").unwrap();
    builder.transformation_rule(a, vec![a, a]).unwrap();
    assert_eq!(builder.finish().err(), Some(LSystemError::MissingStart));
}
