use demo_things::clock::Span;
use demo_things::door::{
    action_lock, action_unlock, handle_event, handle_message, Action, Door, DoorConfig, DoorError,
    DoorSimulation, Event, LockError, LockNormalStatus, LockStatus, Message, Reply,
    SimulationStreamItem,
};
use demo_things::simulation::Simulation;

#[test]
fn door_starts_closed_and_unlocked() {
    let door = Door::default();
    assert!(!door.is_open());
    assert_eq!(door.lock(), LockStatus::Unlocked);
    assert_eq!(LockStatus::default(), LockStatus::Unlocked);
    assert_eq!(LockNormalStatus::default(), LockNormalStatus::Unlocked);
}

#[test]
fn unlocking_undoes_locking() {
    let mut door = Door::new(false, LockStatus::Unlocked);
    assert_eq!(door.do_lock().unwrap().lock(), LockStatus::Locked);
    assert_eq!(door.lock(), LockStatus::Locked);
    assert_eq!(door.do_unlock().unwrap().lock(), LockStatus::Unlocked);
    assert_eq!(door.lock(), LockStatus::Unlocked);
    assert!(!door.is_open());
}

#[test]
fn locking_twice_is_refused() {
    let mut door = Door::new(false, LockStatus::Unlocked);
    assert!(door.do_lock().is_ok());
    assert_eq!(
        door.do_lock().err(),
        Some(DoorError::Lock(LockError::AlreadyInStatus(
            LockNormalStatus::Locked
        )))
    );
    assert_eq!(door.lock(), LockStatus::Locked);
}

#[test]
fn unlocking_an_unlocked_door_is_refused() {
    let mut door = Door::new(false, LockStatus::Unlocked);
    assert_eq!(
        door.do_unlock().err(),
        Some(DoorError::Lock(LockError::AlreadyInStatus(
            LockNormalStatus::Unlocked
        )))
    );
    assert_eq!(door.lock(), LockStatus::Unlocked);
}

#[test]
fn open_door_refuses_both() {
    let mut door = Door::new(true, LockStatus::Locked);
    assert_eq!(door.do_lock().err(), Some(DoorError::OpenDoor));
    assert_eq!(door.do_unlock().err(), Some(DoorError::OpenDoor));
    assert_eq!(door.lock(), LockStatus::Locked);
    assert!(door.is_open());
}

#[test]
fn jammed_lock_refuses_both() {
    let mut door = Door::new(false, LockStatus::Jammed);
    assert_eq!(
        door.do_lock().err(),
        Some(DoorError::Lock(LockError::Jammed))
    );
    assert_eq!(
        door.do_unlock().err(),
        Some(DoorError::Lock(LockError::Jammed))
    );
    assert_eq!(door.lock(), LockStatus::Jammed);
}

#[test]
fn lock_status_turns_by_itself() {
    let mut lock = LockStatus::Unlocked;
    assert_eq!(lock.lock(), Ok(&mut LockStatus::Locked));
    assert_eq!(
        lock.lock(),
        Err(LockError::AlreadyInStatus(LockNormalStatus::Locked))
    );
    assert_eq!(lock.unlock(), Ok(&mut LockStatus::Unlocked));
    assert_eq!(
        lock.unlock(),
        Err(LockError::AlreadyInStatus(LockNormalStatus::Unlocked))
    );
    lock = LockStatus::Jammed;
    assert_eq!(lock.lock(), Err(LockError::Jammed));
    assert_eq!(lock.unlock(), Err(LockError::Jammed));
}

#[test]
fn simulation_overrides_everything() {
    let mut door = Door::new(false, LockStatus::Locked);
    door.simulate_open(true).simulate_lock(LockStatus::Jammed);
    assert!(door.is_open());
    assert_eq!(door.lock(), LockStatus::Jammed);
    assert_eq!(LockStatus::from(LockNormalStatus::Locked), LockStatus::Locked);
    assert_eq!(
        LockStatus::from(LockNormalStatus::Unlocked),
        LockStatus::Unlocked
    );
}

#[test]
fn door_texts() {
    assert_eq!(
        DoorError::OpenDoor.to_text(),
        "cannot lock or unlock an open door"
    );
    assert_eq!(
        DoorError::Lock(LockError::Jammed).to_text(),
        "lock is jammed"
    );
    assert_eq!(
        LockError::AlreadyInStatus(LockNormalStatus::Locked).to_text(),
        "Lock status is already locked and it is not being changed"
    );
    assert_eq!(
        LockError::AlreadyInStatus(LockNormalStatus::Unlocked).to_text(),
        "Lock status is already unlocked and it is not being changed"
    );
    assert_eq!(LockStatus::Unlocked.to_text(), "unlocked");
    assert_eq!(LockStatus::Locked.to_text(), "locked");
    assert_eq!(LockStatus::Jammed.to_text(), "jammed");
}

#[test]
fn door_responses() {
    let (status, problem) = action_lock(Ok(()));
    assert_eq!(status, 200);
    assert!(problem.is_none());

    let (status, problem) = action_lock(Err(DoorError::OpenDoor));
    assert_eq!(status, 400);
    let problem = problem.unwrap();
    assert_eq!(
        problem.title.as_deref(),
        Some("cannot lock door: cannot lock or unlock an open door")
    );
    assert_eq!(problem.status.map(|status| status.as_u16()), Some(400));
    assert!(problem.detail.is_none());

    let (status, problem) = action_unlock(Err(DoorError::Lock(LockError::Jammed)));
    assert_eq!(status, 400);
    assert_eq!(
        problem.unwrap().title.as_deref(),
        Some("cannot unlock door: lock is jammed")
    );
    assert!(action_unlock(Ok(())).1.is_none());
}

#[test]
fn door_messages() {
    let mut door = Door::new(false, LockStatus::Unlocked);
    assert_eq!(handle_message(Message::GetOpen, &mut door), Reply::Open(false));
    assert_eq!(
        handle_message(Message::GetLock, &mut door),
        Reply::Lock(LockStatus::Unlocked)
    );
    assert_eq!(
        handle_message(Message::Lock, &mut door),
        Reply::Turned(Ok(()))
    );
    assert_eq!(
        handle_message(Message::GetLock, &mut door),
        Reply::Lock(LockStatus::Locked)
    );
    assert_eq!(
        handle_message(Message::Unlock, &mut door),
        Reply::Turned(Ok(()))
    );
    assert_eq!(
        handle_message(Message::Unlock, &mut door),
        Reply::Turned(Err(DoorError::Lock(LockError::AlreadyInStatus(
            LockNormalStatus::Unlocked
        ))))
    );
}

#[test]
fn door_events() {
    let mut door = Door::new(false, LockStatus::Unlocked);
    let step = SimulationStreamItem {
        open: Some(true),
        lock: None,
    };
    assert!(matches!(
        handle_event(Event::NextStatus(step), &mut door),
        Action::Continue
    ));
    assert!(door.is_open());
    assert_eq!(door.lock(), LockStatus::Unlocked);

    let step = SimulationStreamItem {
        open: None,
        lock: Some(LockStatus::Jammed),
    };
    handle_event(Event::NextStatus(step), &mut door);
    assert!(door.is_open());
    assert_eq!(door.lock(), LockStatus::Jammed);

    assert!(matches!(
        handle_event(Event::Message(Message::Lock), &mut door),
        Action::Reply(Reply::Turned(Err(DoorError::OpenDoor)))
    ));

    match handle_event(Event::Config(DoorConfig::example()), &mut door) {
        Action::Restart(simulation) => assert_eq!(simulation.len(), 4),
        other => panic!("{other:?}"),
    }
    assert!(!door.is_open());
    assert_eq!(door.lock(), LockStatus::Unlocked);
    assert!(matches!(handle_event(Event::Stop, &mut door), Action::Stop));
}

#[test]
fn door_example_configuration() {
    let config = DoorConfig::example();
    assert!(!config.initial.is_open());
    let steps: Vec<_> = config
        .simulation
        .iter()
        .map(|step| (step.wait, step.open, step.lock))
        .collect();
    let wait = Span::from_secs(5);
    assert_eq!(
        steps,
        vec![
            (wait, Some(true), None),
            (wait, Some(false), Some(LockStatus::Locked)),
            (wait, None, Some(LockStatus::Jammed)),
            (wait, Some(true), None),
        ]
    );
}

#[test]
fn door_steps_carry_their_wait() {
    let step = DoorSimulation {
        wait: Span::from_secs(2),
        open: Some(true),
        lock: Some(LockStatus::Locked),
    };
    assert_eq!(
        step.output_and_wait(),
        (
            SimulationStreamItem {
                open: Some(true),
                lock: Some(LockStatus::Locked)
            },
            Span::from_secs(2)
        )
    );
}
