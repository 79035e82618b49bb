use opendeck::action::{Action, ActionContext, ActionInstance, ActionState};
use opendeck::error::{Error, Invalid, Unresolved};
use opendeck::profile::ProfileStoreValue;

fn state(name: &str) -> ActionState {
    ActionState { name: name.to_owned(), image: format!("{}.png", name) }
}

fn counter() -> Action {
    Action {
        uuid: "counter".to_owned(),
        name: "Counter".to_owned(),
        category: "Tools".to_owned(),
        states: vec![state("zero"), state("one"), state("two")],
    }
}

fn context(position: u8) -> ActionContext {
    ActionContext { device: "dev-1".to_owned(), profile: "default".to_owned(), position }
}

#[test]
fn new_instance_starts_in_first_state_with_no_settings() {
    let instance = ActionInstance::new(&counter(), &context(2));
    assert_eq!(instance.current_state, 0);
    assert!(instance.settings.is_none());
    assert_eq!(instance.states.len(), 3);
    assert_eq!(instance.states[1].name, "one");
    assert_eq!(instance.action.uuid, "counter");
    assert_eq!(instance.context.position, 2);
}

#[test]
fn advance_cycles_back_to_first_state() {
    let mut instance = ActionInstance::new(&counter(), &context(0));
    assert!(instance.advance().is_ok());
    assert_eq!(instance.current_state, 1);
    assert!(instance.advance().is_ok());
    assert_eq!(instance.current_state, 2);
    assert!(instance.advance().is_ok());
    assert_eq!(instance.current_state, 0);
}

#[test]
fn advance_without_states_is_invalid() {
    let mut action = counter();
    action.states.clear();
    let mut instance = ActionInstance::new(&action, &context(0));
    match instance.advance() {
        Err(Error::InvalidState(Invalid::NoStates)) => {},
        other => panic!("unexpected outcome: {:?}", other),
    }
    assert_eq!(instance.current_state, 0);
}

#[test]
fn bind_then_unbind_leaves_other_slots_alone() {
    let mut grid = ProfileStoreValue::empty(6);
    grid.bind(&counter(), &context(4)).unwrap();
    let bound = grid.bind(&counter(), &context(2)).unwrap();
    assert_eq!(bound.context.position, 2);
    assert!(grid.keys[2].is_some());
    grid.unbind(2).unwrap();
    assert_eq!(grid.keys.len(), 6);
    assert!(grid.keys[2].is_none());
    assert!(grid.keys[4].is_some());
    for other in [0usize, 1, 3, 5] {
        assert!(grid.keys[other].is_none());
    }
}

#[test]
fn bind_outside_the_grid_is_refused() {
    let mut grid = ProfileStoreValue::empty(4);
    match grid.bind(&counter(), &context(4)) {
        Err(Error::Resolution(Unresolved::Position { position: 4, length: 4 })) => {},
        other => panic!("unexpected outcome: {:?}", other),
    }
    assert!(grid.keys.iter().all(|slot| slot.is_none()));
}

#[test]
fn advance_on_the_grid_steps_the_instance_in_place() {
    let mut grid = ProfileStoreValue::empty(3);
    grid.bind(&counter(), &context(1)).unwrap();
    grid.advance(1).unwrap();
    assert_eq!(grid.keys[1].as_ref().unwrap().current_state, 1);
    grid.advance(1).unwrap();
    grid.advance(1).unwrap();
    assert_eq!(grid.keys[1].as_ref().unwrap().current_state, 0);
    assert!(grid.keys[0].is_none() && grid.keys[2].is_none());
}

#[test]
fn advance_of_an_empty_slot_is_invalid() {
    let mut grid = ProfileStoreValue::empty(3);
    assert_eq!(grid.advance(2), Err(Error::InvalidState(Invalid::Unbound(2))));
    assert_eq!(grid, ProfileStoreValue::empty(3));
}

#[test]
fn advance_outside_the_grid_is_refused() {
    let mut grid = ProfileStoreValue::empty(3);
    assert_eq!(
        grid.advance(3),
        Err(Error::Resolution(Unresolved::Position { position: 3, length: 3 }))
    );
}

#[test]
fn advance_of_a_stateless_instance_on_the_grid_is_invalid() {
    let mut action = counter();
    action.states.clear();
    let mut grid = ProfileStoreValue::empty(2);
    grid.bind(&action, &context(0)).unwrap();
    let before = grid.clone();
    assert_eq!(grid.advance(0), Err(Error::InvalidState(Invalid::NoStates)));
    assert_eq!(grid, before);
}

#[test]
fn advance_from_a_state_past_the_last_wraps_by_the_formula() {
    let mut instance = ActionInstance::new(&counter(), &context(0));
    instance.current_state = 7;
    instance.advance().unwrap();
    assert_eq!(instance.current_state, 2);
    instance.current_state = usize::MAX;
    instance.advance().unwrap();
    assert_eq!(instance.current_state, ((usize::MAX % 3) + 1) % 3);
}

#[test]
fn single_state_instance_stays_in_its_state() {
    let mut action = counter();
    action.states.truncate(1);
    let mut instance = ActionInstance::new(&action, &context(0));
    instance.advance().unwrap();
    assert_eq!(instance.current_state, 0);
}

#[test]
fn unbind_outside_the_grid_is_refused() {
    let mut grid = ProfileStoreValue::empty(2);
    assert_eq!(
        grid.unbind(200),
        Err(Error::Resolution(Unresolved::Position { position: 200, length: 2 }))
    );
    assert_eq!(grid.keys.len(), 2);
}

#[test]
fn unbind_of_an_empty_slot_changes_nothing() {
    let mut grid = ProfileStoreValue::empty(2);
    grid.bind(&counter(), &context(0)).unwrap();
    let before = grid.clone();
    grid.unbind(1).unwrap();
    assert_eq!(grid, before);
}

#[test]
fn slot_copies_what_stands_at_a_position() {
    let mut grid = ProfileStoreValue::empty(2);
    let bound = grid.bind(&counter(), &context(1)).unwrap();
    assert_eq!(grid.slot(0), Ok(None));
    assert_eq!(grid.slot(1), Ok(Some(bound)));
    assert_eq!(
        grid.slot(2),
        Err(Error::Resolution(Unresolved::Position { position: 2, length: 2 }))
    );
}

#[test]
fn empty_grid_of_no_positions() {
    let mut grid = ProfileStoreValue::empty(0);
    assert!(grid.keys.is_empty());
    assert_eq!(
        grid.bind(&counter(), &context(0)).err(),
        Some(Error::Resolution(Unresolved::Position { position: 0, length: 0 }))
    );
}

#[test]
fn clones_are_equal_to_what_they_copy() {
    let mut grid = ProfileStoreValue::empty(3);
    let mut instance = grid.bind(&counter(), &context(2)).unwrap();
    instance.settings = Some("{\"step\":2}".to_owned());
    assert_eq!(instance.clone(), instance);
    assert_eq!(counter().clone(), counter());
    assert_eq!(context(9).clone(), context(9));
    assert_eq!(state("x").clone(), state("x"));
    assert_eq!(grid.clone(), grid);
}
