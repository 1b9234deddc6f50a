use std::collections::HashSet;
use voice_lobby::directory::ChannelDirectory;
use voice_lobby::driver::{LifecycleDriver, Outcome};
use voice_lobby::names::NameProvider;
use voice_lobby::reconciler::{Action, MembershipEvent, OccupancyReconciler};

const LOBBY: u64 = 1365567367752716303;
const GUILD: u64 = 42;
const X: u64 = 500;
const Y: u64 = 600;
const Z: u64 = 700;
const A: u64 = 1;
const B: u64 = 2;
const C: u64 = 3;

fn set_of(users: &[u64]) -> HashSet<u64> {
    users.iter().copied().collect()
}

fn den() -> NameProvider {
    NameProvider::new(vec!["Den".to_string()]).unwrap()
}

fn driver() -> LifecycleDriver {
    LifecycleDriver::new(LOBBY, GUILD, den())
}

fn event(user: u64, previous: Option<u64>, new: Option<u64>) -> MembershipEvent {
    MembershipEvent { user, previous_channel: previous, new_channel: new }
}

fn create_for(user: u64) -> Action {
    Action::CreateChannel { guild: GUILD, name: "Den".to_string(), user }
}

/// Lets `user` enter the lobby and has the platform create `channel` for them.
fn open_channel(driver: &mut LifecycleDriver, user: u64, channel: u64) {
    let outcome = driver.handle_event(event(user, None, Some(LOBBY)));
    let create = outcome.actions.last().unwrap();
    driver.handle_outcome(create, &Outcome::Created { channel });
}

#[test]
fn lobby_entry_creates_registers_and_moves() {
    let mut driver = driver();
    assert_eq!(driver.directory().len(), 0);

    let outcome = driver.handle_event(event(A, None, Some(LOBBY)));
    assert_eq!(outcome.effective_previous, None);
    assert_eq!(outcome.actions, vec![create_for(A)]);
    assert_eq!(driver.directory().len(), 0);

    let next = driver.handle_outcome(&outcome.actions[0], &Outcome::Created { channel: X });
    assert_eq!(next, vec![Action::MoveMember { guild: GUILD, user: A, channel: X }]);
    assert_eq!(driver.directory().len(), 1);
    assert!(driver.directory().is_managed(X));
    assert_eq!(driver.directory().occupants(X), set_of(&[A]));
}

#[test]
fn departure_of_one_of_two_keeps_the_channel() {
    let mut driver = driver();
    open_channel(&mut driver, A, X);
    let joined = driver.handle_event(event(B, None, Some(X)));
    assert_eq!(joined.actions, vec![]);
    assert_eq!(driver.directory().occupants(X), set_of(&[A, B]));

    let outcome = driver.handle_event(event(A, Some(X), None));
    assert_eq!(outcome.effective_previous, Some(X));
    assert_eq!(outcome.actions, vec![]);
    assert!(driver.directory().is_managed(X));
    assert_eq!(driver.directory().occupants(X), set_of(&[B]));
}

#[test]
fn departure_of_the_last_occupant_retires_and_deletes() {
    let mut driver = driver();
    open_channel(&mut driver, A, X);

    let outcome = driver.handle_event(event(A, Some(X), None));
    assert_eq!(outcome.actions, vec![Action::DeleteChannel { channel: X }]);
    assert!(!driver.directory().is_managed(X));
    assert_eq!(driver.directory().occupants(X), set_of(&[]));
    assert_eq!(driver.directory().len(), 0);
}

#[test]
fn lobby_entry_of_a_recorded_user_leaves_the_old_channel_first() {
    let mut driver = driver();
    open_channel(&mut driver, C, Y);

    let outcome = driver.handle_event(event(C, None, Some(LOBBY)));
    assert_eq!(outcome.effective_previous, Some(Y));
    assert_eq!(outcome.actions, vec![Action::DeleteChannel { channel: Y }, create_for(C)]);
    assert!(!driver.directory().is_managed(Y));

    let next = driver.handle_outcome(&outcome.actions[1], &Outcome::Created { channel: Z });
    assert_eq!(next, vec![Action::MoveMember { guild: GUILD, user: C, channel: Z }]);
    assert_eq!(driver.directory().occupants(Z), set_of(&[C]));
    assert_eq!(driver.directory().len(), 1);
}

#[test]
fn lobby_entry_of_a_recorded_user_keeps_a_shared_channel() {
    let mut driver = driver();
    open_channel(&mut driver, C, Y);
    driver.handle_event(event(B, None, Some(Y)));

    let outcome = driver.handle_event(event(C, None, Some(LOBBY)));
    assert_eq!(outcome.effective_previous, Some(Y));
    assert_eq!(outcome.actions, vec![create_for(C)]);
    assert_eq!(driver.directory().occupants(Y), set_of(&[B]));
}

#[test]
fn a_departure_delivered_twice_deletes_once() {
    let mut driver = driver();
    open_channel(&mut driver, A, Z);

    let first = driver.handle_event(event(A, Some(Z), None));
    let second = driver.handle_event(event(A, Some(Z), None));
    assert_eq!(first.actions, vec![Action::DeleteChannel { channel: Z }]);
    assert_eq!(second.actions, vec![]);
    assert!(!driver.directory().is_managed(Z));
}

#[test]
fn a_departure_without_origin_delivered_twice_deletes_once() {
    let mut driver = driver();
    open_channel(&mut driver, A, Z);

    let first = driver.handle_event(event(A, None, None));
    let second = driver.handle_event(event(A, None, None));
    assert_eq!(first.effective_previous, Some(Z));
    assert_eq!(first.actions, vec![Action::DeleteChannel { channel: Z }]);
    assert_eq!(second.effective_previous, None);
    assert_eq!(second.actions, vec![]);
}

#[test]
fn failed_creation_registers_nothing_and_moves_nobody() {
    let mut driver = driver();
    let outcome = driver.handle_event(event(A, None, Some(LOBBY)));
    let failed = Outcome::Failed { reason: "missing permissions".to_string() };
    let next = driver.handle_outcome(&outcome.actions[0], &failed);
    assert_eq!(next, vec![]);
    assert_eq!(driver.directory().len(), 0);
    assert_eq!(driver.directory().channel_of(A), None);
}

#[test]
fn failed_move_leaves_the_registration_standing() {
    let mut driver = driver();
    let outcome = driver.handle_event(event(A, None, Some(LOBBY)));
    let next = driver.handle_outcome(&outcome.actions[0], &Outcome::Created { channel: X });
    let failed = Outcome::Failed { reason: "user left".to_string() };
    assert_eq!(driver.handle_outcome(&next[0], &failed), vec![]);
    assert_eq!(driver.directory().occupants(X), set_of(&[A]));
}

#[test]
fn failed_deletion_changes_nothing() {
    let mut driver = driver();
    open_channel(&mut driver, A, X);
    open_channel(&mut driver, B, Y);
    let outcome = driver.handle_event(event(A, Some(X), None));
    let failed = Outcome::Failed { reason: "unknown channel".to_string() };
    assert_eq!(driver.handle_outcome(&outcome.actions[0], &failed), vec![]);
    assert_eq!(driver.handle_outcome(&outcome.actions[0], &Outcome::Completed), vec![]);
    assert!(!driver.directory().is_managed(X));
    assert_eq!(driver.directory().occupants(Y), set_of(&[B]));
}

#[test]
fn outcomes_that_report_no_creation_have_nothing_follow() {
    let mut driver = driver();
    assert_eq!(driver.handle_outcome(&create_for(A), &Outcome::Completed), vec![]);
    let delete = Action::DeleteChannel { channel: X };
    assert_eq!(driver.handle_outcome(&delete, &Outcome::Created { channel: X }), vec![]);
    let moved = Action::MoveMember { guild: GUILD, user: A, channel: X };
    assert_eq!(driver.handle_outcome(&moved, &Outcome::Created { channel: X }), vec![]);
    assert_eq!(driver.directory().len(), 0);
}

#[test]
fn arrival_delivered_twice_leaves_the_occupants_unchanged() {
    let mut driver = driver();
    open_channel(&mut driver, A, X);
    driver.handle_event(event(B, Some(LOBBY), Some(X)));
    let once = driver.directory().occupants(X);
    let outcome = driver.handle_event(event(B, Some(LOBBY), Some(X)));
    assert_eq!(outcome.actions, vec![]);
    assert_eq!(driver.directory().occupants(X), once);
    assert_eq!(once, set_of(&[A, B]));
}

#[test]
fn fallback_takes_the_only_channel_of_the_user() {
    let mut driver = driver();
    open_channel(&mut driver, A, X);
    open_channel(&mut driver, B, Y);
    driver.handle_event(event(C, None, Some(Y)));

    let outcome = driver.handle_event(event(C, None, Some(X)));
    assert_eq!(outcome.effective_previous, Some(Y));
    assert_eq!(outcome.actions, vec![]);
    assert_eq!(driver.directory().occupants(Y), set_of(&[B]));
    assert_eq!(driver.directory().occupants(X), set_of(&[A, C]));
}

#[test]
fn a_named_origin_wins_over_the_record() {
    let mut driver = driver();
    open_channel(&mut driver, A, X);
    let outcome = driver.handle_event(event(A, Some(Y), None));
    assert_eq!(outcome.effective_previous, Some(Y));
    assert_eq!(outcome.actions, vec![]);
    assert_eq!(driver.directory().occupants(X), set_of(&[A]));
}

#[test]
fn staying_in_the_same_channel_is_a_no_op() {
    let mut driver = driver();
    open_channel(&mut driver, A, X);
    let outcome = driver.handle_event(event(A, Some(X), Some(X)));
    assert_eq!(outcome.actions, vec![]);
    assert_eq!(driver.directory().occupants(X), set_of(&[A]));
    assert_eq!(driver.directory().len(), 1);

    let outcome = driver.handle_event(event(A, Some(LOBBY), Some(LOBBY)));
    assert_eq!(outcome.actions, vec![]);
    assert_eq!(driver.directory().occupants(X), set_of(&[A]));
}

#[test]
fn moving_between_unmanaged_channels_changes_nothing() {
    let mut driver = driver();
    open_channel(&mut driver, A, X);
    let outcome = driver.handle_event(event(B, Some(Y), Some(Z)));
    assert_eq!(outcome.effective_previous, Some(Y));
    assert_eq!(outcome.actions, vec![]);
    assert_eq!(driver.directory().len(), 1);
    assert_eq!(driver.directory().occupants(X), set_of(&[A]));
}

#[test]
fn moving_from_one_managed_channel_to_the_lobby_deletes_then_creates() {
    let mut driver = driver();
    open_channel(&mut driver, A, X);
    let outcome = driver.handle_event(event(A, Some(X), Some(LOBBY)));
    assert_eq!(outcome.actions, vec![Action::DeleteChannel { channel: X }, create_for(A)]);
}

#[test]
fn no_channel_lingers_without_occupants() {
    let mut driver = driver();
    let channels = [X, Y, Z];
    open_channel(&mut driver, A, X);
    open_channel(&mut driver, B, Y);
    let events = [
        event(C, None, Some(X)),
        event(A, Some(X), Some(Y)),
        event(C, None, Some(Z)),
        event(B, Some(Y), None),
        event(A, None, None),
        event(C, Some(X), Some(X)),
        event(B, None, Some(Y)),
        event(A, Some(Z), Some(X)),
    ];
    for step in events {
        let managed_before: Vec<u64> =
            channels.iter().copied().filter(|c| driver.directory().is_managed(*c)).collect();
        let outcome = driver.handle_event(step);
        for channel in channels {
            let dir = driver.directory();
            assert_eq!(dir.is_managed(channel), !dir.occupants(channel).is_empty());
            assert!(!dir.is_managed(channel) || managed_before.contains(&channel));
            let deleted = outcome.actions.contains(&Action::DeleteChannel { channel });
            assert_eq!(deleted, managed_before.contains(&channel) && !dir.is_managed(channel));
        }
    }
    assert_eq!(driver.directory().len(), 0);
}

#[test]
fn driver_keeps_its_configuration() {
    let driver = driver();
    assert_eq!(driver.lobby(), LOBBY);
    assert_eq!(driver.guild(), GUILD);
}

#[test]
fn reconciler_steps_can_be_taken_one_by_one() {
    let rules = OccupancyReconciler { lobby: LOBBY, guild: GUILD };
    let mut dir = ChannelDirectory::new();
    dir.register_created(X, A);
    dir.add_occupant(X, B);

    let named = event(A, Some(Y), None);
    assert_eq!(rules.effective_previous(&dir, &named), Some(Y));
    let unnamed = event(A, None, None);
    assert_eq!(rules.effective_previous(&dir, &unnamed), Some(X));
    assert_eq!(rules.effective_previous(&dir, &event(C, None, None)), None);

    assert_eq!(rules.depart(&mut dir, A, Some(X), Some(X)), None);
    assert_eq!(dir.occupants(X), set_of(&[A, B]));
    assert_eq!(rules.depart(&mut dir, A, Some(X), Some(Y)), None);
    assert_eq!(dir.occupants(X), set_of(&[B]));
    assert_eq!(rules.depart(&mut dir, B, None, Some(Y)), None);
    assert_eq!(rules.depart(&mut dir, B, Some(X), None), Some(X));
    assert!(!dir.is_managed(X));

    rules.arrive(&mut dir, A, Some(X));
    assert!(!dir.is_managed(X));
    dir.register_created(Y, B);
    rules.arrive(&mut dir, A, Some(Y));
    rules.arrive(&mut dir, A, None);
    assert_eq!(dir.occupants(Y), set_of(&[A, B]));

    assert!(rules.enters_lobby(None, Some(LOBBY)));
    assert!(rules.enters_lobby(Some(X), Some(LOBBY)));
    assert!(!rules.enters_lobby(Some(LOBBY), Some(LOBBY)));
    assert!(!rules.enters_lobby(None, Some(X)));
    assert!(!rules.enters_lobby(None, None));
}

#[test]
fn plan_orders_deletion_before_creation() {
    let rules = OccupancyReconciler { lobby: LOBBY, guild: GUILD };
    assert_eq!(rules.plan(A, None, None), vec![]);
    assert_eq!(rules.plan(A, Some(X), None), vec![Action::DeleteChannel { channel: X }]);
    assert_eq!(rules.plan(A, None, Some("Den".to_string())), vec![create_for(A)]);
    assert_eq!(
        rules.plan(A, Some(X), Some("Den".to_string())),
        vec![Action::DeleteChannel { channel: X }, create_for(A)]
    );
}

#[test]
fn settle_creation_pairs_registration_with_one_move() {
    let rules = OccupancyReconciler { lobby: LOBBY, guild: GUILD };
    let mut dir = ChannelDirectory::new();
    assert_eq!(rules.settle_creation(&mut dir, A, None), vec![]);
    assert_eq!(dir.len(), 0);
    assert_eq!(
        rules.settle_creation(&mut dir, A, Some(X)),
        vec![Action::MoveMember { guild: GUILD, user: A, channel: X }]
    );
    assert_eq!(dir.len(), 1);
    assert_eq!(dir.occupants(X), set_of(&[A]));
}

#[test]
fn reconcile_names_the_new_channel_from_the_pool() {
    let rules = OccupancyReconciler { lobby: LOBBY, guild: GUILD };
    let pool = vec!["Den".to_string(), "Loft".to_string()];
    let names = NameProvider::new(pool.clone()).unwrap();
    let mut dir = ChannelDirectory::new();
    for _ in 0..50 {
        let outcome = rules.reconcile(&mut dir, &names, event(A, None, Some(LOBBY)));
        assert_eq!(outcome.actions.len(), 1);
        match &outcome.actions[0] {
            Action::CreateChannel { guild, name, user } => {
                assert_eq!(*guild, GUILD);
                assert_eq!(*user, A);
                assert!(pool.contains(name));
            }
            other => panic!("unexpected action {:?}", other),
        }
    }
    assert_eq!(dir.len(), 0);
}
