//! The session guarantees observed through the instrumented store: one
//! begin and one commit per successful session, zero commits for a failed
//! one, and the error kinds on the inputs that cause them.

use tx_chainable::store::{Handle, Pool, Store, TxError};
use tx_chainable::{Begin, Chainable, Event, EventsRepository, MyError, User, UsersRepository};

#[test]
fn test_example_scenario_commits_once() {
    let mut store = Store::new();
    let pool = Pool::new();
    let events_repo = EventsRepository::new(pool);
    let users_repo = UsersRepository::new(pool);

    // Begin on repository A, chain into repository B creating record X,
    // then back in A create record Y.
    events_repo
        .begin(&mut store, |events: EventsRepository<Handle>| {
            let mut events = events.chain(&users_repo, |mut users: UsersRepository<Handle>| {
                let _x = users.create_user(0x51, "Record X".to_string());
                Ok(users)
            })?;
            let _y = events.create_event(0x52, "record_y".to_string(), "{}".to_string());
            Ok(events)
        })
        .unwrap();

    // Both X and Y are durably visible, and exactly one transaction was
    // begun and exactly one commit occurred.
    assert_eq!(
        vec![User { id: 0x51, name: "Record X".to_string() }],
        UsersRepository::new(pool).get_users(&store, 10)
    );
    assert_eq!(
        vec![Event { id: 0x52, name: "record_y".to_string(), payload: "{}".to_string() }],
        EventsRepository::new(pool).get_events(&store, 10)
    );
    assert_eq!(1, store.begin_count());
    assert_eq!(1, store.commit_count());
}

#[test]
fn test_example_scenario_failure_leaves_nothing() {
    let mut store = Store::new();
    let pool = Pool::new();
    let events_repo = EventsRepository::new(pool);
    let users_repo = UsersRepository::new(pool);

    // The same scenario with a failure injected during B's step.
    let result = events_repo.begin(&mut store, |events: EventsRepository<Handle>| {
        let mut events = events.chain(&users_repo, |mut users: UsersRepository<Handle>| {
            let _x = users.create_user(0x51, "Record X".to_string());
            Err(TxError::Store(1))
        })?;
        let _y = events.create_event(0x52, "record_y".to_string(), "{}".to_string());
        Ok(events)
    });

    // The step's own error comes back unchanged; neither X nor Y is
    // visible and no commit occurred.
    assert_eq!(Some(TxError::Store(1)), result.err());
    assert!(UsersRepository::new(pool).get_users(&store, 10).is_empty());
    assert!(EventsRepository::new(pool).get_events(&store, 10).is_empty());
    assert_eq!(0, store.commit_count());
}

#[test]
fn test_empty_session_commits_once() {
    let mut store = Store::new();
    let pool = Pool::new();

    // A session with zero steps commits successfully, with zero durable
    // writes.
    let result = UsersRepository::new(pool)
        .begin(&mut store, |users: UsersRepository<Handle>| Ok(users));
    assert_eq!(Ok(()), result);
    assert_eq!(1, store.begin_count());
    assert_eq!(1, store.commit_count());
    assert!(UsersRepository::new(pool).get_users(&store, 10).is_empty());
    assert!(EventsRepository::new(pool).get_events(&store, 10).is_empty());
}

#[test]
fn test_acquisition_failure_runs_nothing() {
    let mut store = Store::new();
    let pool = Pool::new();
    store.inject_begin_failure(true);

    let result = EventsRepository::new(pool).begin(&mut store, |mut events: EventsRepository<
        Handle,
    >| {
        let _e = events.create_event(0x61, "never".to_string(), "{}".to_string());
        Ok(events)
    });

    // The begin itself failed: no transaction was opened at all.
    assert_eq!(Err(TxError::Acquisition), result);
    assert_eq!(0, store.begin_count());
    assert_eq!(0, store.commit_count());
    assert!(EventsRepository::new(pool).get_events(&store, 10).is_empty());
}

#[test]
fn test_commit_failure_surfaces_distinctly() {
    let mut store = Store::new();
    let pool = Pool::new();
    store.inject_commit_failure(true);

    let result = EventsRepository::new(pool).begin(&mut store, |mut events: EventsRepository<
        Handle,
    >| {
        let _e = events.create_event(0x62, "lost".to_string(), "{}".to_string());
        Ok(events)
    });

    // Every step succeeded, the commit failed: the distinct error kind
    // surfaces and the session is effectively rolled back.
    assert_eq!(Err(TxError::Commit), result);
    assert_eq!(1, store.begin_count());
    assert_eq!(0, store.commit_count());
    assert!(EventsRepository::new(pool).get_events(&store, 10).is_empty());
}

#[test]
fn test_transaction_reads_its_own_writes() {
    let mut store = Store::new();
    let pool = Pool::new();
    let mut durable_before: Vec<Event> = Vec::new();

    // A durable row exists before the session.
    let mut setup = EventsRepository::new(pool);
    let first = setup.create_event(&mut store, 0x71, "already_there".to_string(), "{}".to_string());
    durable_before.push(first);

    EventsRepository::new(pool)
        .begin(&mut store, |mut events: EventsRepository<Handle>| {
            // The transaction sees its snapshot plus its own pending write,
            // in that order, before anything new is durable.
            let _e = events.create_event(0x72, "pending".to_string(), "{}".to_string());
            let seen = events.get_events(10);
            assert_eq!(2, seen.len());
            assert_eq!("already_there", seen[0].name);
            assert_eq!("pending", seen[1].name);
            Ok(events)
        })
        .unwrap();

    let all = EventsRepository::new(pool).get_events(&store, 10);
    assert_eq!(2, all.len());
}

#[test]
fn test_pool_create_is_durable_at_once() {
    let mut store = Store::new();
    let pool = Pool::new();

    let mut users = UsersRepository::new(pool);
    let u = users.create_user(&mut store, 0x81, "Direct".to_string());
    assert_eq!(User { id: 0x81, name: "Direct".to_string() }, u);

    // Durable immediately, and no transaction or commit was recorded.
    assert_eq!(
        vec![User { id: 0x81, name: "Direct".to_string() }],
        UsersRepository::new(pool).get_users(&store, 10)
    );
    assert_eq!(0, store.begin_count());
    assert_eq!(0, store.commit_count());
}

#[test]
fn test_read_limit_takes_prefix() {
    let mut store = Store::new();
    let pool = Pool::new();
    let mut users = UsersRepository::new(pool);
    let _ = users.create_user(&mut store, 1, "a".to_string());
    let _ = users.create_user(&mut store, 2, "b".to_string());
    let _ = users.create_user(&mut store, 3, "c".to_string());

    let two = UsersRepository::new(pool).get_users(&store, 2);
    assert_eq!(2, two.len());
    assert_eq!(1, two[0].id);
    assert_eq!(2, two[1].id);
    assert_eq!(0, UsersRepository::new(pool).get_users(&store, 0).len());
    assert_eq!(3, UsersRepository::new(pool).get_users(&store, 10).len());
}

#[test]
fn test_my_error_wraps_unchanged() {
    let wrapped = MyError::from(TxError::Store(7));
    assert_eq!(MyError::StoreFailure(TxError::Store(7)), wrapped);
    let commit: MyError = TxError::Commit.into();
    assert_eq!(MyError::StoreFailure(TxError::Commit), commit);
}
