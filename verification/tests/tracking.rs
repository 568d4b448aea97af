use trackers::{Access, Added, Archetype, Changed, FetchAdded, FetchChanged, FetchMutated, Mutated, World};

const X: u64 = 1;
const Y: u64 = 2;

/// One archetype storing only component type X, with one row of value 123.
fn world_with_one_x_row() -> World {
    let mut world = World::new();
    let mut archetype = Archetype::new(vec![X]);
    archetype.push_row(&vec![123]);
    world.add_archetype(archetype);
    world
}

fn flags_of(out: &[Option<Vec<bool>>], archetype: usize, row: usize) -> bool {
    out[archetype].as_ref().expect("archetype should match")[row]
}

#[test]
fn scenario_a_fresh_row_is_added_not_mutated() {
    let world = world_with_one_x_row();
    let added = world.query_added(&Added::new(X));
    let mutated = world.query_mutated(&Mutated::new(X));
    let changed = world.query_changed(&Changed::new(X));
    assert_eq!(flags_of(&added, 0, 0), true);
    assert_eq!(flags_of(&mutated, 0, 0), false);
    assert_eq!(flags_of(&changed, 0, 0), true);
    assert_eq!(world.archetypes[0].read_value(0, 0), 123);
}

#[test]
fn scenario_b_reset_clears_all_three() {
    let mut world = world_with_one_x_row();
    world.clear_trackers();
    assert_eq!(flags_of(&world.query_added(&Added::new(X)), 0, 0), false);
    assert_eq!(flags_of(&world.query_mutated(&Mutated::new(X)), 0, 0), false);
    assert_eq!(flags_of(&world.query_changed(&Changed::new(X)), 0, 0), false);
}

#[test]
fn scenario_c_exclusive_write_marks_mutated_only() {
    let mut world = world_with_one_x_row();
    world.clear_trackers();
    world.archetypes[0].write_value(0, 0, 42);
    assert_eq!(world.archetypes[0].read_value(0, 0), 42);
    assert_eq!(flags_of(&world.query_changed(&Changed::new(X)), 0, 0), true);
    assert_eq!(flags_of(&world.query_added(&Added::new(X)), 0, 0), false);
    assert_eq!(flags_of(&world.query_mutated(&Mutated::new(X)), 0, 0), true);
}

#[test]
fn scenario_d_flags_do_not_resurrect_after_reset() {
    let mut world = world_with_one_x_row();
    world.clear_trackers();
    world.archetypes[0].write_value(0, 0, 42);
    world.clear_trackers();
    assert_eq!(flags_of(&world.query_changed(&Changed::new(X)), 0, 0), false);
    assert_eq!(flags_of(&world.query_added(&Added::new(X)), 0, 0), false);
    assert_eq!(flags_of(&world.query_mutated(&Mutated::new(X)), 0, 0), false);
}

#[test]
fn scenario_e_entity_without_component_never_appears() {
    // Entity F lives in an archetype that stores X but not Y.
    let mut world = World::new();
    let mut without_y = Archetype::new(vec![X]);
    without_y.push_row(&vec![7]);
    world.add_archetype(without_y);
    let mut with_y = Archetype::new(vec![Y]);
    with_y.push_row(&vec![8]);
    world.add_archetype(with_y);

    let added_y = world.query_added(&Added::new(Y));
    assert!(added_y[0].is_none(), "F's archetype is skipped, it yields nothing");
    assert_eq!(added_y[1].as_ref().unwrap(), &vec![true]);
}

#[test]
fn mutation_marks_even_when_value_is_unchanged() {
    let mut world = world_with_one_x_row();
    world.clear_trackers();
    world.archetypes[0].write_value(0, 0, 123);
    assert_eq!(world.archetypes[0].read_value(0, 0), 123);
    assert_eq!(flags_of(&world.query_mutated(&Mutated::new(X)), 0, 0), true);
}

#[test]
fn changed_is_added_or_mutated_in_every_state() {
    let mut world = world_with_one_x_row();
    let check = |world: &World| {
        let a = flags_of(&world.query_added(&Added::new(X)), 0, 0);
        let m = flags_of(&world.query_mutated(&Mutated::new(X)), 0, 0);
        let c = flags_of(&world.query_changed(&Changed::new(X)), 0, 0);
        assert_eq!(c, a || m);
        (a, m, c)
    };
    // Freshly added: (true, false).
    assert_eq!(check(&world), (true, false, true));
    // Added and then mutated in the same interval: (true, true).
    world.archetypes[0].write_value(0, 0, 5);
    assert_eq!(check(&world), (true, true, true));
    // After a reset: (false, false).
    world.clear_trackers();
    assert_eq!(check(&world), (false, false, false));
    // Mutated only: (false, true).
    world.archetypes[0].write_value(0, 0, 6);
    assert_eq!(check(&world), (false, true, true));
}

#[test]
fn access_is_shared_read_or_none() {
    let archetype = Archetype::new(vec![X]);
    assert_eq!(Added::new(X).access(&archetype), Some(Access::Read));
    assert_eq!(Mutated::new(X).access(&archetype), Some(Access::Read));
    assert_eq!(Changed::new(X).access(&archetype), Some(Access::Read));
    assert_eq!(Added::new(Y).access(&archetype), None);
    assert_eq!(Mutated::new(Y).access(&archetype), None);
    assert_eq!(Changed::new(Y).access(&archetype), None);
}

#[test]
fn borrows_reports_shared_borrow_of_the_tracked_type() {
    assert_eq!(Added::new(X).borrows(), (X, false));
    assert_eq!(Mutated::new(Y).borrows(), (Y, false));
    assert_eq!(Changed::new(X).borrows(), (X, false));
}

#[test]
fn resolution_is_present_if_and_only_if_stored() {
    let archetype = Archetype::new(vec![X, Y]);
    assert!(archetype.has(X));
    assert!(archetype.has(Y));
    assert!(!archetype.has(3));
    assert_eq!(archetype.get_state(X), Some(0));
    assert_eq!(archetype.get_state(Y), Some(1));
    assert_eq!(archetype.get_state(3), None);
    assert_eq!(Added::new(3).prepare(&archetype), None);
    assert_eq!(Mutated::new(3).run(&archetype), None);
    assert_eq!(Changed::new(3).run(&archetype), None);
}

#[test]
fn dangling_fetches_are_constructible_placeholders() {
    let _a = FetchAdded::dangling();
    let _m = FetchMutated::dangling();
    let _c = FetchChanged::dangling();
}

#[test]
fn protocol_reads_one_row_at_a_time() {
    let mut archetype = Archetype::new(vec![X]);
    archetype.push_row(&vec![10]);
    archetype.push_row(&vec![20]);
    archetype.clear_trackers();
    archetype.write_value(0, 1, 21);

    let query = Mutated::new(X);
    let state = query.prepare(&archetype).unwrap();
    query.borrow(&archetype, state);
    let fetch = query.execute(&archetype, state);
    assert_eq!(fetch.get(0), false);
    assert_eq!(fetch.get(1), true);
    query.release(&archetype, state);

    let changed = Changed::new(X);
    let fetch = changed.execute(&archetype, state);
    assert_eq!(fetch.get(0), false);
    assert_eq!(fetch.get(1), true);
}

#[test]
fn columns_track_independently() {
    let mut archetype = Archetype::new(vec![X, Y]);
    archetype.push_row(&vec![1, 2]);
    archetype.clear_trackers();
    let y_state = archetype.get_state(Y).unwrap();
    archetype.write_value(y_state, 0, 9);
    assert_eq!(Mutated::new(X).run(&archetype), Some(vec![false]));
    assert_eq!(Mutated::new(Y).run(&archetype), Some(vec![true]));
    assert_eq!(Changed::new(X).run(&archetype), Some(vec![false]));
    assert_eq!(Changed::new(Y).run(&archetype), Some(vec![true]));
}

#[test]
fn new_rows_after_reset_read_added_again() {
    let mut archetype = Archetype::new(vec![X]);
    archetype.push_row(&vec![1]);
    archetype.clear_trackers();
    archetype.push_row(&vec![2]);
    assert_eq!(Added::new(X).run(&archetype), Some(vec![false, true]));
    assert_eq!(Mutated::new(X).run(&archetype), Some(vec![false, false]));
}

#[test]
fn reset_preserves_values_and_rows() {
    let mut world = World::new();
    let mut archetype = Archetype::new(vec![X, Y]);
    archetype.push_row(&vec![11, 22]);
    archetype.push_row(&vec![33, 44]);
    world.add_archetype(archetype);
    world.clear_trackers();
    let archetype = &world.archetypes[0];
    assert_eq!(archetype.len(), 2);
    assert_eq!(archetype.read_value(0, 0), 11);
    assert_eq!(archetype.read_value(1, 0), 22);
    assert_eq!(archetype.read_value(0, 1), 33);
    assert_eq!(archetype.read_value(1, 1), 44);
}

#[test]
fn reset_clears_every_archetype_and_column() {
    let mut world = World::new();
    let mut first = Archetype::new(vec![X, Y]);
    first.push_row(&vec![1, 2]);
    world.add_archetype(first);
    let mut second = Archetype::new(vec![Y]);
    second.push_row(&vec![3]);
    second.push_row(&vec![4]);
    world.add_archetype(second);
    world.archetypes[1].write_value(0, 0, 5);
    world.clear_trackers();
    for ty in [X, Y] {
        for result in world.query_changed(&Changed::new(ty)) {
            if let Some(rows) = result {
                assert!(rows.iter().all(|&flag| !flag));
            }
        }
    }
}

#[test]
fn empty_archetype_yields_no_rows() {
    let archetype = Archetype::new(vec![X]);
    assert_eq!(archetype.len(), 0);
    assert_eq!(Added::new(X).run(&archetype), Some(vec![]));
    assert_eq!(Added::new(Y).run(&archetype), None);
}

#[test]
fn obtaining_a_write_accessor_alone_marks_mutated() {
    let mut world = world_with_one_x_row();
    world.clear_trackers();
    // The accessor is obtained and dropped without writing anything.
    let _ = world.archetypes[0].get_value_mut(0, 0);
    assert_eq!(world.archetypes[0].read_value(0, 0), 123);
    assert_eq!(flags_of(&world.query_mutated(&Mutated::new(X)), 0, 0), true);
    assert_eq!(flags_of(&world.query_added(&Added::new(X)), 0, 0), false);
}

#[test]
fn writing_through_the_accessor_updates_the_value() {
    let mut world = world_with_one_x_row();
    world.clear_trackers();
    *world.archetypes[0].get_value_mut(0, 0) = 42;
    assert_eq!(world.archetypes[0].read_value(0, 0), 42);
    assert_eq!(flags_of(&world.query_changed(&Changed::new(X)), 0, 0), true);
}
