use snake::Vec2;

#[test]
fn new_keeps_both_coordinates() {
    let v = Vec2::new(7, -3);
    assert_eq!(v.x, 7);
    assert_eq!(v.y, -3);
    assert_eq!(v, Vec2 { x: 7, y: -3 });
}

#[test]
fn steps_are_two_columns_or_one_row() {
    assert_eq!(Vec2::left(), Vec2::new(-2, 0));
    assert_eq!(Vec2::right(), Vec2::new(2, 0));
    assert_eq!(Vec2::up(), Vec2::new(0, -1));
    assert_eq!(Vec2::down(), Vec2::new(0, 1));
}

#[test]
fn add_sums_each_coordinate() {
    assert_eq!(Vec2::new(2, 1).add(Vec2::new(2, 0)), Vec2::new(4, 1));
    assert_eq!(Vec2::new(10, 20).add(Vec2::new(-4, -25)), Vec2::new(6, -5));
    assert_eq!(Vec2::new(0, 0).add(Vec2::new(0, 0)), Vec2::new(0, 0));
}

#[test]
fn add_wraps_at_the_ends_of_the_range() {
    assert_eq!(Vec2::new(32766, 32767).add(Vec2::new(2, 1)), Vec2::new(-32768, -32768));
    assert_eq!(Vec2::new(-32767, -32768).add(Vec2::new(-2, -1)), Vec2::new(32767, 32767));
}

#[test]
fn add_assign_changes_the_left_side() {
    let mut v = Vec2::new(2, 1);
    v.add_assign(Vec2::down());
    assert_eq!(v, Vec2::new(2, 2));
    v.add_assign(Vec2::left());
    assert_eq!(v, Vec2::new(0, 2));
}

#[test]
fn mul_multiplies_each_coordinate() {
    assert_eq!(Vec2::new(3, 5).mul(Vec2::new(2, 1)), Vec2::new(6, 5));
    assert_eq!(Vec2::new(-4, 7).mul(Vec2::new(3, -2)), Vec2::new(-12, -14));
    assert_eq!(Vec2::new(9, 9).mul(Vec2::new(0, 1)), Vec2::new(0, 9));
}

#[test]
fn mul_wraps_at_the_ends_of_the_range() {
    assert_eq!(Vec2::new(16384, -16385).mul(Vec2::new(2, 2)), Vec2::new(-32768, 32766));
}

#[test]
fn opposite_turns_each_step_round() {
    assert_eq!(Vec2::left().opposite(), Vec2::right());
    assert_eq!(Vec2::right().opposite(), Vec2::left());
    assert_eq!(Vec2::up().opposite(), Vec2::down());
    assert_eq!(Vec2::down().opposite(), Vec2::up());
}

#[test]
fn opposite_twice_is_the_vector_itself() {
    for v in [Vec2::new(5, -9), Vec2::new(-32768, 32767), Vec2::new(0, 0)] {
        assert_eq!(v.opposite().opposite(), v);
    }
}

#[test]
fn a_vector_and_its_opposite_sum_to_the_origin() {
    for v in [Vec2::new(5, -9), Vec2::new(-32768, 32767), Vec2::right()] {
        assert_eq!(v.add(v.opposite()), Vec2::new(0, 0));
    }
}

#[test]
fn random_stays_in_its_box() {
    let min = Vec2::new(-3, 10);
    let max = Vec2::new(4, 12);
    for _ in 0..500 {
        let v = Vec2::random(min, max);
        assert!(-3 <= v.x && v.x < 4);
        assert!(10 <= v.y && v.y < 12);
    }
}

#[test]
fn random_of_a_box_of_one_cell_is_that_cell() {
    for _ in 0..50 {
        assert_eq!(Vec2::random(Vec2::new(2, 1), Vec2::new(3, 2)), Vec2::new(2, 1));
    }
}

#[test]
fn random_does_not_hand_back_a_corner_every_time() {
    let min = Vec2::new(0, 0);
    let max = Vec2::new(30000, 30000);
    let first = Vec2::random(min, max);
    let mut differs = false;
    for _ in 0..64 {
        let v = Vec2::random(min, max);
        if v != first {
            differs = true;
        }
    }
    assert!(differs);
}
