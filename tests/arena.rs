use dcc_lsystem::{Arena, ArenaId};

#[test]
fn arena_basic() {
    let mut arena = Arena::new();

    let a = arena.push("Hello!");
    let b = arena.push("World");

    assert_eq!(a.0, 0);
    assert_eq!(b.0, 1);
    assert_eq!(arena.len(), 2);

    let a_ref = arena.get(a).expect("Failed to get a");

    assert_eq!(*a_ref, "Hello!");

    {
        let b_ref_mut = arena.get_mut(b).expect("Failed to get b");
        *b_ref_mut = "Jenkins";
    }

    assert_eq!(arena.get(b).unwrap(), &"Jenkins");
}

#[test]
fn arena_iterator() {
    let mut arena = Arena::new();

    arena.push("my first entry");
    arena.push("my second entry");
    arena.push("my third entry");

    let mut iter = arena.iter();

    assert_eq!(iter.next(), Some(&"my first entry"));
    assert_eq!(iter.next(), Some(&"my second entry"));
    assert_eq!(iter.next(), Some(&"my third entry"));
    assert_eq!(iter.next(), None);
}

#[test]
fn arena_iterator_mut() {
    let mut arena = Arena::new();

    arena.push(1);
    arena.push(3);
    arena.push(-5);
    arena.push(7);

    // Square each entry in our arena
    for entry in arena.iter_mut() {
        *entry = *entry * *entry;
    }

    let mut iter = arena.iter();

    assert_eq!(iter.next(), Some(&1));
    assert_eq!(iter.next(), Some(&9));
    assert_eq!(iter.next(), Some(&25));
    assert_eq!(iter.next(), Some(&49));
}

#[test]
fn arena_enumerate() {
    let mut arena = Arena::new();

    let a = arena.push(1);
    let b = arena.push(3);
    let c = arena.push(4);
    let d = arena.push(8);

    let mut enumerator = arena.enumerate();

    assert_eq!(enumerator.next(), Some((a, &1)));
    assert_eq!(enumerator.next(), Some((b, &3)));
    assert_eq!(enumerator.next(), Some((c, &4)));
    assert_eq!(enumerator.next(), Some((d, &8)));
}

#[test]
fn arena_enumerate_ends_and_out_of_range_lookups() {
    let mut arena = Arena::new();
    assert!(arena.is_empty());
    let x = arena.push(17);
    let y = arena.push(21);
    assert!(!arena.is_empty());
    assert!(arena.is_valid(x));
    assert!(arena.is_valid(y));
    assert!(!arena.is_valid(ArenaId(2)));
    assert!(arena.is_valid_slice(&[x, y]));
    assert!(arena.is_valid_slice(&[]));
    assert!(!arena.is_valid_slice(&[x, y, ArenaId(3)]));
    assert_eq!(arena.get(ArenaId(2)), None);
    assert!(arena.get_mut(ArenaId(5)).is_none());
    let mut e = arena.enumerate();
    assert_eq!(e.next(), Some((x, &17)));
    assert_eq!(e.next(), Some((y, &21)));
    assert_eq!(e.next(), None);
    assert_eq!(e.next(), None);
}
