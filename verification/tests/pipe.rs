use rspipes::{parse_map, pipe_connecting, Direction, Pipe, Turn, DEFAULT_MAP};

fn default_map() -> [char; 6] {
    parse_map(DEFAULT_MAP).unwrap()
}

#[test]
fn connector_table_concrete_cases() {
    let map = default_map();
    // pipe_connecting takes the incoming side first, the new heading second.
    assert_eq!(pipe_connecting(Direction::Up, Direction::Up, map), '┃');
    assert_eq!(pipe_connecting(Direction::Right, Direction::Left, map), '━');
    assert_eq!(pipe_connecting(Direction::Left, Direction::Up, map), '┛');
    assert_eq!(pipe_connecting(Direction::Up, Direction::Right, map), '┗');
}

#[test]
fn connector_corners() {
    let map = default_map();
    assert_eq!(pipe_connecting(Direction::Left, Direction::Down, map), '┓');
    assert_eq!(pipe_connecting(Direction::Right, Direction::Down, map), '┏');
    assert_eq!(pipe_connecting(Direction::Down, Direction::Left, map), '┓');
    assert_eq!(pipe_connecting(Direction::Down, Direction::Right, map), '┏');
}

#[test]
fn new_sets_every_field() {
    let p = Pipe::new(4, 7, Direction::Down, 11);
    assert_eq!(p.x, 4);
    assert_eq!(p.y, 7);
    assert_eq!(p.direction, Direction::Down);
    assert_eq!(p.color, 11);
}

#[test]
fn straight_pipe_never_turns() {
    let map = default_map();
    let mut p = Pipe::new(3, 4, Direction::Right, 2);
    for _ in 0..100 {
        let glyph = p.tick(Turn::Straight, 10, 10, map);
        assert_eq!(p.direction, Direction::Right);
        assert_eq!(glyph, '━');
    }
    let mut q = Pipe::new(3, 4, Direction::Down, 2);
    for _ in 0..100 {
        let glyph = q.tick(Turn::Straight, 10, 10, map);
        assert_eq!(q.direction, Direction::Down);
        assert_eq!(glyph, '┃');
    }
}

#[test]
fn turning_pipe_always_changes_direction() {
    let map = default_map();
    let mut p = Pipe::new(5, 5, Direction::Up, 0);
    for i in 0..100 {
        let before = p.direction;
        let turn = if i % 2 == 0 {
            Turn::Clockwise
        } else {
            Turn::Counterclockwise
        };
        p.tick(turn, 10, 10, map);
        assert_ne!(p.direction, before);
    }
}

#[test]
fn scenario_left_across_the_edge() {
    let map = default_map();
    let mut p = Pipe::new(0, 5, Direction::Left, 0);
    let g1 = p.tick(Turn::Straight, 10, 10, map);
    assert_eq!((p.x, p.y), (9, 5));
    assert_eq!(g1, '━');
    let g2 = p.tick(Turn::Straight, 10, 10, map);
    assert_eq!((p.x, p.y), (8, 5));
    assert_eq!(g2, '━');
}

#[test]
fn scenario_up_across_the_edge() {
    let map = default_map();
    let mut p = Pipe::new(5, 0, Direction::Up, 0);
    let g = p.tick(Turn::Straight, 10, 10, map);
    assert_eq!((p.x, p.y), (5, 9));
    assert_eq!(g, '┃');
}

#[test]
fn tick_turns_after_moving() {
    let map = default_map();
    let mut p = Pipe::new(5, 5, Direction::Up, 9);
    let g = p.tick(Turn::Clockwise, 10, 10, map);
    // The move uses the old heading; the glyph joins the old incoming side
    // with the new heading.
    assert_eq!((p.x, p.y), (5, 4));
    assert_eq!(p.direction, Direction::Right);
    assert_eq!(p.color, 9);
    assert_eq!(g, '┏');

    let mut q = Pipe::new(5, 5, Direction::Up, 9);
    let g2 = q.tick(Turn::Counterclockwise, 10, 10, map);
    assert_eq!((q.x, q.y), (5, 4));
    assert_eq!(q.direction, Direction::Left);
    assert_eq!(g2, '┓');
}

#[test]
fn from_bits_is_deterministic() {
    let p = Pipe::from_bits(0, 21, 23, 37, 10, 12);
    assert_eq!(p.direction, Direction::Up);
    assert_eq!(p.color, 5);
    assert_eq!(p.x, 3);
    assert_eq!(p.y, 1);

    assert_eq!(Pipe::from_bits(1, 0, 0, 0, 1, 1).direction, Direction::Down);
    assert_eq!(Pipe::from_bits(2, 0, 0, 0, 1, 1).direction, Direction::Left);
    assert_eq!(Pipe::from_bits(3, 0, 0, 0, 1, 1).direction, Direction::Right);
    assert_eq!(Pipe::from_bits(7, 0, 0, 0, 1, 1).direction, Direction::Right);
}

#[test]
fn tick_keeps_position_inside_the_grid() {
    let map = default_map();
    let turns = [Turn::Straight, Turn::Clockwise, Turn::Counterclockwise];
    let dirs = [
        Direction::Up,
        Direction::Down,
        Direction::Left,
        Direction::Right,
    ];
    for x in 0..3u16 {
        for y in 0..4u16 {
            for d in dirs {
                for t in turns {
                    let mut p = Pipe::new(x, y, d, 0);
                    p.tick(t, 3, 4, map);
                    assert!(p.x < 3 && p.y < 4);
                }
            }
        }
    }
}

#[test]
fn new_random_stays_in_bounds() {
    let mut rng = rand::thread_rng();
    for _ in 0..200 {
        let p = Pipe::new_random(7, 13, &mut rng);
        assert!(p.x < 7);
        assert!(p.y < 13);
        assert!(p.color < 16);
    }
}
