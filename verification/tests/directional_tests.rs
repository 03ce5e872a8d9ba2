use directional::direction::all_dirs;
use directional::directional::directional_dirs;
use directional::{Direction, Directional};

const DIRS: [Direction; 4] = [
    Direction::Right,
    Direction::Left,
    Direction::Up,
    Direction::Down,
];

#[test]
fn opposite_is_an_involution() {
    for d in DIRS {
        assert_eq!(d.opposite().opposite(), d);
    }
}

#[test]
fn opposite_concrete_values() {
    assert_eq!(Direction::Right.opposite(), Direction::Left);
    assert_eq!(Direction::Left.opposite(), Direction::Right);
    assert_eq!(Direction::Up.opposite(), Direction::Down);
    assert_eq!(Direction::Down.opposite(), Direction::Up);
}

#[test]
fn exactly_one_axis_predicate_holds() {
    for d in DIRS {
        assert_ne!(d.is_vertical(), d.is_horizontal());
    }
    assert!(Direction::Up.is_vertical());
    assert!(Direction::Down.is_vertical());
    assert!(Direction::Right.is_horizontal());
    assert!(Direction::Left.is_horizontal());
}

#[test]
fn quarter_turns_are_inverse() {
    for d in DIRS {
        assert_eq!(d.rotated_90_clockwise().rotated_90_anticlockwise(), d);
        assert_eq!(d.rotated_90_anticlockwise().rotated_90_clockwise(), d);
    }
}

#[test]
fn four_clockwise_turns_are_identity() {
    for d in DIRS {
        assert_eq!(
            d.rotated_90_clockwise()
                .rotated_90_clockwise()
                .rotated_90_clockwise()
                .rotated_90_clockwise(),
            d
        );
    }
}

#[test]
fn clockwise_concrete_cycle() {
    assert_eq!(Direction::Right.rotated_90_clockwise(), Direction::Down);
    assert_eq!(Direction::Down.rotated_90_clockwise(), Direction::Left);
    assert_eq!(Direction::Left.rotated_90_clockwise(), Direction::Up);
    assert_eq!(Direction::Up.rotated_90_clockwise(), Direction::Right);
}

#[test]
fn anticlockwise_is_opposite_of_clockwise() {
    for d in DIRS {
        assert_eq!(d.rotated_90_anticlockwise(), d.rotated_90_clockwise().opposite());
    }
}

#[test]
fn new_assigns_slots_in_order() {
    let m = Directional::new(1u8, 2u8, 3u8, 4u8);
    assert_eq!(*m.get(Direction::Right), 1);
    assert_eq!(*m.get(Direction::Left), 2);
    assert_eq!(*m.get(Direction::Up), 3);
    assert_eq!(*m.get(Direction::Down), 4);
}

#[test]
fn scenario_ten_twenty_thirty_forty() {
    let m = Directional::new(10, 20, 30, 40);
    assert_eq!(*m.get(Direction::Up), 30);
    assert_eq!(Direction::Right.opposite(), Direction::Left);
    assert_eq!(Direction::Right.rotated_90_clockwise(), Direction::Down);
}

#[test]
fn new_all_fills_every_slot() {
    let m = Directional::new_all(7u32);
    for d in DIRS {
        assert_eq!(*m.get(d), 7);
    }
}

#[test]
fn new_all_clones_a_string() {
    let m = Directional::new_all(String::from("axis"));
    for d in DIRS {
        assert_eq!(m.get(d).as_str(), "axis");
    }
}

#[test]
fn into_vec_yields_fixed_order() {
    let m = Directional::new(1u8, 2u8, 3u8, 4u8);
    assert_eq!(m.into_vec(), vec![1, 2, 3, 4]);
}

#[test]
fn ref_vec_yields_fixed_order() {
    let m = Directional::new('a', 'b', 'c', 'd');
    let refs = m.ref_vec();
    assert_eq!(refs.len(), 4);
    assert_eq!(*refs[0], 'a');
    assert_eq!(*refs[1], 'b');
    assert_eq!(*refs[2], 'c');
    assert_eq!(*refs[3], 'd');
}

#[test]
fn get_mut_changes_only_the_chosen_slot() {
    for d in DIRS {
        let mut m = Directional::new(1u8, 2u8, 3u8, 4u8);
        let reference = Directional::new(1u8, 2u8, 3u8, 4u8);
        *m.get_mut(d) = 9;
        assert_eq!(*m.get(d), 9);
        for other in DIRS {
            if other != d {
                assert_eq!(*m.get(other), *reference.get(other));
            }
        }
    }
}

#[test]
fn all_dirs_lists_the_four_directions_in_order() {
    assert_eq!(all_dirs(), DIRS);
}

#[test]
fn directional_dirs_is_the_identity_table() {
    let table = directional_dirs();
    for d in DIRS {
        assert_eq!(*table.get(d), d);
    }
}

#[test]
fn unit_offsets_are_axis_unit_steps() {
    assert_eq!(Direction::Right.unit_offset(), (1, 0));
    assert_eq!(Direction::Left.unit_offset(), (-1, 0));
    assert_eq!(Direction::Up.unit_offset(), (0, 1));
    assert_eq!(Direction::Down.unit_offset(), (0, -1));
}

#[test]
fn default_fills_every_slot_with_the_default() {
    let m = Directional::<u32>::default();
    for d in DIRS {
        assert_eq!(*m.get(d), 0);
    }
}
