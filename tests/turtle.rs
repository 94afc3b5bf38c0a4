use dcc_lsystem::angle::{cosine, sine};
use dcc_lsystem::lattice::{Lattice, LatticeTurtle};
use dcc_lsystem::turtle::{BaseTurtle, Heading, MovingTurtle, SimpleTurtle, Stack, TaxiTurtle};

#[test]
fn base_turtle_moves_and_draws() {
    let mut turtle = BaseTurtle::new();
    assert_eq!(turtle.x(), 0);
    assert_eq!(turtle.y(), 0);
    turtle.delta_move(1, 1);
    assert_eq!(turtle.x(), 1);
    assert_eq!(turtle.y(), 1);
    assert_eq!(turtle.lines(), &[(0, 0, 1, 1)]);
    turtle.pen_up();
    turtle.delta_move(1, 0);
    assert_eq!(turtle.x(), 2);
    assert_eq!(turtle.y(), 1);
    assert_eq!(turtle.lines().len(), 1);
}

#[test]
fn base_turtle_records_segments_in_order() {
    let mut turtle = BaseTurtle::new();
    assert!(turtle.lines().is_empty());
    turtle.delta_move(5, -5);
    turtle.delta_move(1, 1);
    assert_eq!(turtle.lines(), &[(0, 0, 5, -5), (5, -5, 6, -4)]);
}

#[test]
fn base_turtle_bounds_are_measured_from_the_origin() {
    let mut turtle = BaseTurtle::new();
    assert_eq!(turtle.bounds(), (0, 0, 0, 0));
    turtle.set_position(5, 5);
    turtle.set_position(-4, -3);
    assert_eq!(turtle.bounds(), (9, 8, -4, -3));
    assert!(turtle.lines().is_empty());
    turtle.set_position(99, 200);
    assert_eq!(turtle.x(), 99);
    assert_eq!(turtle.y(), 200);
    assert_eq!(turtle.bounds(), (103, 203, -4, -3));
}

#[test]
fn pen_up_moves_without_drawing_but_updates_bounds() {
    let mut turtle = BaseTurtle::new();
    turtle.pen_up();
    turtle.delta_move(3, -4);
    assert!(turtle.lines().is_empty());
    assert_eq!((turtle.x(), turtle.y()), (3, -4));
    assert_eq!(turtle.bounds(), (3, 4, 0, -4));
    turtle.pen_down();
    turtle.delta_move(-3, 4);
    assert_eq!(turtle.lines(), &[(3, -4, 0, 0)]);
}

#[test]
fn base_turtle_clamps_at_the_edge_of_the_coordinate_range() {
    let mut turtle = BaseTurtle::new();
    turtle.delta_move(i64::MAX, i64::MIN);
    turtle.delta_move(1, -1);
    assert_eq!((turtle.x(), turtle.y()), (i64::MAX, i64::MIN));
    assert_eq!(turtle.bounds(), (i64::MAX as u64, 1u64 << 63, 0, i64::MIN));
}

#[test]
fn headings_turn_and_step() {
    assert_eq!(Heading::North.left(), Heading::West);
    assert_eq!(Heading::West.left(), Heading::South);
    assert_eq!(Heading::South.left(), Heading::East);
    assert_eq!(Heading::East.left(), Heading::North);
    assert_eq!(Heading::North.right(), Heading::East);
    assert_eq!(Heading::East.right(), Heading::South);
    assert_eq!(Heading::East.dx(), 1);
    assert_eq!(Heading::West.dx(), -1);
    assert_eq!(Heading::North.dx(), 0);
    assert_eq!(Heading::South.dx(), 0);
    assert_eq!(Heading::North.dy(), 1);
    assert_eq!(Heading::South.dy(), -1);
    assert_eq!(Heading::East.dy(), 0);
    assert_eq!(Heading::West.dy(), 0);
}

#[test]
fn straight_line_east() {
    for d in [0, 1, 7, 30, 1000, i32::MAX] {
        let mut turtle = SimpleTurtle::new();
        turtle.set_heading(0);
        turtle.forward(d);
        let base = MovingTurtle::inner(&turtle);
        assert_eq!(base.lines(), &[(0, 0, d as i64, 0)]);
        assert_eq!(base.bounds(), (d as u64, 0, 0, 0));
    }
}

#[test]
fn simple_turtle_starts_north_and_turns_in_degrees() {
    let mut turtle = SimpleTurtle::new();
    turtle.forward(10);
    turtle.left(90);
    turtle.forward(10);
    turtle.right(180);
    turtle.forward(5);
    assert_eq!(
        MovingTurtle::inner(&turtle).lines(),
        &[(0, 0, 0, 10), (0, 10, -10, 10), (-10, 10, -5, 10)]
    );
}

#[test]
fn simple_turtle_rounds_each_move_to_whole_units() {
    let mut turtle = SimpleTurtle::new();
    turtle.set_heading(25);
    turtle.forward(200);
    let expected_x = (200.0f64 * 25f64.to_radians().cos()).round() as i64;
    let expected_y = (200.0f64 * 25f64.to_radians().sin()).round() as i64;
    assert_eq!((expected_x, expected_y), (181, 85));
    assert_eq!(MovingTurtle::inner(&turtle).lines(), &[(0, 0, expected_x, expected_y)]);
    turtle.set_heading(-155);
    turtle.forward(200);
    assert_eq!(MovingTurtle::inner(&turtle).x(), 0);
    assert_eq!(MovingTurtle::inner(&turtle).y(), 0);
}

#[test]
fn push_move_turn_pop_restores_position_and_heading() {
    let mut turtle = SimpleTurtle::new();
    turtle.forward(3);
    turtle.push();
    turtle.left(45);
    turtle.forward(100);
    turtle.right(10);
    turtle.forward(7);
    turtle.pop();
    assert_eq!(MovingTurtle::inner(&turtle).x(), 0);
    assert_eq!(MovingTurtle::inner(&turtle).y(), 3);
    turtle.forward(1);
    assert_eq!(MovingTurtle::inner(&turtle).y(), 4);
    assert_eq!(MovingTurtle::inner(&turtle).x(), 0);
}

#[test]
fn pop_on_an_empty_stack_changes_nothing() {
    let mut turtle = SimpleTurtle::new();
    turtle.forward(2);
    turtle.pop();
    assert_eq!(MovingTurtle::inner(&turtle).y(), 2);
    assert_eq!(MovingTurtle::inner(&turtle).lines().len(), 1);
}

#[test]
fn taxi_turtle_follows_cardinal_directions() {
    let mut turtle = TaxiTurtle::new();
    turtle.forward(4);
    turtle.left();
    turtle.forward(3);
    turtle.right();
    turtle.right();
    turtle.forward(5);
    turtle.set_heading(Heading::West);
    turtle.forward(4);
    assert_eq!(
        MovingTurtle::inner(&turtle).lines(),
        &[(0, 0, 4, 0), (4, 0, 4, 3), (4, 3, 4, -2), (4, -2, 0, -2)]
    );
}

#[test]
fn grid_lattice_turtle_walks_unit_steps() {
    let mut turtle = LatticeTurtle::grid();
    turtle.forward((1, 0));
    turtle.forward((0, 2));
    turtle.push();
    turtle.forward((-3, -3));
    turtle.pop();
    turtle.forward((1, 1));
    assert_eq!(
        turtle.inner().lines(),
        &[(0, 0, 1, 0), (1, 0, 1, 2), (1, 2, -2, -1), (1, 2, 2, 3)]
    );
}

#[test]
fn equiangular_lattice_rounds_its_points() {
    let lattice = Lattice::new((1_000_000, 0), (500_000, 866_025));
    assert_eq!(lattice.point(1, 0), (1, 0));
    assert_eq!(lattice.point(0, 1), (1, 1));
    assert_eq!(lattice.point(0, 2), (1, 2));
    assert_eq!(lattice.point(2, 4), (4, 3));
    let mut turtle = LatticeTurtle::equiangular();
    turtle.forward((2, 0));
    turtle.forward((0, 4));
    assert_eq!(turtle.inner().lines(), &[(0, 0, 2, 0), (2, 0, 4, 3)]);
}

#[test]
fn sine_table_matches_floating_point() {
    for d in 0..360 {
        let exact = (d as f64).to_radians();
        assert!((sine(d) as f64 - exact.sin() * 1e6).abs() <= 0.5 + 1e-6, "sin {}", d);
        assert!((cosine(d) as f64 - exact.cos() * 1e6).abs() <= 0.5 + 1e-6, "cos {}", d);
    }
    assert_eq!(sine(90), 1_000_000);
    assert_eq!(cosine(180), -1_000_000);
    assert_eq!(sine(30), 500_000);
}
