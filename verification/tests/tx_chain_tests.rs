//! The accumulator shape, driven end to end against the instrumented store.

use tx_chainable::store::{Handle, Pool, Store, TxError};
use tx_chainable::tx_chain::Begin;
use tx_chainable::{Event, EventsRepository, User, UsersRepository};

#[test]
fn tx_chain_tests_test_single_repository_transaction() {
    let mut store = Store::new();
    let pool = Pool::new();
    let events_repo = EventsRepository::new(pool);
    let event_id: u128 = 0xA2;

    // Start a transaction, perform an operation, and commit explicitly.
    events_repo
        .begin(&mut store, |mut events: EventsRepository<Handle>| {
            let _event = events.create_event(
                event_id,
                "single_repo_test".to_string(),
                "{\"message\":\"Single repository test\"}".to_string(),
            );
            Ok(events)
        })
        .unwrap()
        .end(&mut store)
        .unwrap();

    // The event was created.
    let events = EventsRepository::new(pool).get_events(&store, 10);
    assert_eq!(
        vec![Event {
            id: event_id,
            name: "single_repo_test".to_string(),
            payload: "{\"message\":\"Single repository test\"}".to_string(),
        }],
        events
    );
}

#[test]
fn test_and_steps_share_one_commit() {
    let mut store = Store::new();
    let pool = Pool::new();
    let events_repo = EventsRepository::new(pool);
    let users_repo = UsersRepository::new(pool);

    let chain = events_repo
        .clone()
        .begin(&mut store, |mut events: EventsRepository<Handle>| {
            let _event = events.create_event(
                0x21,
                "first_step".to_string(),
                "{\"n\":1}".to_string(),
            );
            Ok(events)
        })
        .unwrap();

    // Nothing is durable and nothing is committed before `end`.
    assert!(EventsRepository::new(pool).get_events(&store, 10).is_empty());
    assert_eq!(0, store.commit_count());

    let chain = chain
        .and(&users_repo, |mut users: UsersRepository<Handle>| {
            let _user = users.create_user(0x22, "Second Step".to_string());
            Ok(users)
        })
        .unwrap();

    let chain = chain
        .and(&events_repo, |mut events: EventsRepository<Handle>| {
            let _event = events.create_event(
                0x23,
                "third_step".to_string(),
                "{\"n\":3}".to_string(),
            );
            Ok(events)
        })
        .unwrap();

    chain.end(&mut store).unwrap();

    // All three writes became durable through exactly one commit.
    assert_eq!(1, store.commit_count());
    assert_eq!(1, store.begin_count());
    let events = EventsRepository::new(pool).get_events(&store, 10);
    assert_eq!(2, events.len());
    assert_eq!("first_step", events[0].name);
    assert_eq!("third_step", events[1].name);
    let users = UsersRepository::new(pool).get_users(&store, 10);
    assert_eq!(
        vec![User { id: 0x22, name: "Second Step".to_string() }],
        users
    );
}

#[test]
fn test_and_error_short_circuits_before_end() {
    let mut store = Store::new();
    let pool = Pool::new();
    let events_repo = EventsRepository::new(pool);
    let users_repo = UsersRepository::new(pool);

    let chain = events_repo
        .begin(&mut store, |mut events: EventsRepository<Handle>| {
            let _event = events.create_event(
                0x31,
                "doomed_step".to_string(),
                "{\"n\":1}".to_string(),
            );
            Ok(events)
        })
        .unwrap();

    // The failing step consumes the session: `end` can never run.
    let result = chain.and(&users_repo, |mut users: UsersRepository<Handle>| {
        let _user = users.create_user(0x32, "Doomed User".to_string());
        Err(TxError::Store(500))
    });
    assert_eq!(Some(TxError::Store(500)), result.err());

    // Nothing was committed and nothing became durable.
    assert_eq!(0, store.commit_count());
    assert!(EventsRepository::new(pool).get_events(&store, 10).is_empty());
    assert!(UsersRepository::new(pool).get_users(&store, 10).is_empty());
}

#[test]
fn test_end_commit_failure_leaves_no_trace() {
    let mut store = Store::new();
    let pool = Pool::new();
    let events_repo = EventsRepository::new(pool);

    let chain = events_repo
        .begin(&mut store, |mut events: EventsRepository<Handle>| {
            let _event = events.create_event(
                0x41,
                "never_lands".to_string(),
                "{\"n\":1}".to_string(),
            );
            Ok(events)
        })
        .unwrap();

    store.inject_commit_failure(true);
    assert_eq!(Err(TxError::Commit), chain.end(&mut store));

    // The failed commit recorded nothing.
    assert_eq!(0, store.commit_count());
    assert!(EventsRepository::new(pool).get_events(&store, 10).is_empty());
}
