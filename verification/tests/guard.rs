use shackle::sole_instance::{
    join, lock_sole_instance, Acquisition, Guard, GuardAction, LOCK_DIR_NAME, LOCK_FILE_NAME,
    SEPARATOR,
};

fn bytes(text: &str) -> Vec<u8> {
    text.as_bytes().to_vec()
}

#[test]
fn lock_file_lies_below_the_runtime_directory() {
    let (state, action) = lock_sole_instance(Some(bytes("/run/user/1000")));
    assert_eq!(action, GuardAction::CreateDir(bytes("/run/user/1000/shackle")));
    assert_eq!(state, Guard::Creating { file: bytes("/run/user/1000/shackle/shackle.lock") });
}

#[test]
fn trailing_separator_is_not_doubled() {
    let (state, action) = lock_sole_instance(Some(bytes("/run/user/1000/")));
    assert_eq!(action, GuardAction::CreateDir(bytes("/run/user/1000/shackle")));
    assert_eq!(state, Guard::Creating { file: bytes("/run/user/1000/shackle/shackle.lock") });
}

#[test]
fn empty_runtime_directory_gives_a_relative_path() {
    let (state, action) = lock_sole_instance(Some(Vec::new()));
    assert_eq!(action, GuardAction::CreateDir(bytes("shackle")));
    assert_eq!(state, Guard::Creating { file: bytes("shackle/shackle.lock") });
}

#[test]
fn runtime_directory_need_not_be_text() {
    let (_, action) = lock_sole_instance(Some(vec![0x2f, 0xff, 0xfe]));
    assert_eq!(
        action,
        GuardAction::CreateDir(vec![0x2f, 0xff, 0xfe, 0x2f, b's', b'h', b'a', b'c', b'k', b'l', b'e'])
    );
}

#[test]
fn names_are_fixed() {
    assert_eq!(LOCK_DIR_NAME, "shackle");
    assert_eq!(LOCK_FILE_NAME, "shackle.lock");
    assert_eq!(SEPARATOR, b'/');
}

#[test]
fn join_adds_one_separator() {
    assert_eq!(join(&bytes("/a"), "b"), bytes("/a/b"));
    assert_eq!(join(&bytes("/a/"), "b"), bytes("/a/b"));
    assert_eq!(join(&bytes("/"), "b"), bytes("/b"));
    assert_eq!(join(&bytes(""), "b"), bytes("b"));
    assert_eq!(join(&bytes("a"), ""), bytes("a/"));
}

#[test]
fn name_with_a_leading_separator_stands_alone() {
    assert_eq!(join(&bytes("/a"), "/b"), bytes("/b"));
    assert_eq!(join(&bytes("/a/"), "/b/c"), bytes("/b/c"));
    assert_eq!(join(&bytes(""), "/"), bytes("/"));
}

#[test]
fn missing_runtime_directory_is_an_environment_error() {
    let (state, action) = lock_sole_instance(None);
    assert_eq!(state, Guard::Finished);
    assert_eq!(action, GuardAction::Finish(Acquisition::EnvironmentError));
    assert_eq!(state.step(true), (Guard::Finished, GuardAction::Halt));
}

#[test]
fn lock_is_acquired_step_by_step() {
    let (state, _) = lock_sole_instance(Some(bytes("/run/user/1000")));
    // The directory may be there already: a failure to create it is passed over.
    let (state, action) = state.step(false);
    assert_eq!(state, Guard::Opening);
    assert_eq!(action, GuardAction::OpenLockFile(bytes("/run/user/1000/shackle/shackle.lock")));
    let (state, action) = state.step(true);
    assert_eq!((&state, &action), (&Guard::Locking, &GuardAction::Lock));
    let (state, action) = state.step(true);
    assert_eq!((&state, &action), (&Guard::Confirming, &GuardAction::Confirm));
    let (state, action) = state.step(true);
    assert_eq!(state, Guard::Finished);
    assert_eq!(action, GuardAction::Finish(Acquisition::Acquired));
    assert_eq!(state.step(true), (Guard::Finished, GuardAction::Halt));
}

#[test]
fn held_lock_refuses_the_second_locker() {
    let (state, action) = Guard::Locking.step(false);
    assert_eq!(state, Guard::Finished);
    assert_eq!(action, GuardAction::Finish(Acquisition::Refused));
}

#[test]
fn unopened_file_and_unconfirmed_lock_refuse() {
    assert_eq!(
        Guard::Opening.step(false),
        (Guard::Finished, GuardAction::Finish(Acquisition::Refused))
    );
    assert_eq!(
        Guard::Confirming.step(false),
        (Guard::Finished, GuardAction::Finish(Acquisition::Refused))
    );
}

#[test]
fn only_the_holder_may_proceed() {
    assert!(Acquisition::Acquired.may_proceed());
    assert!(!Acquisition::Refused.may_proceed());
    assert!(!Acquisition::EnvironmentError.may_proceed());
}

/// Runs a guard against a lock file that is held or free, and tells whether
/// the guard acquired the lock.
fn acquire(held: &mut bool) -> Acquisition {
    let (mut guard, mut action) = lock_sole_instance(Some(bytes("/run/user/1000")));
    loop {
        let ok = match action {
            GuardAction::CreateDir(_) | GuardAction::OpenLockFile(_) => true,
            GuardAction::Lock => {
                let free = !*held;
                *held = true;
                free
            }
            GuardAction::Confirm => true,
            GuardAction::Finish(acquisition) => return acquisition,
            GuardAction::Halt => panic!("the guard halted without an answer"),
        };
        let (next, asked) = guard.step(ok);
        guard = next;
        action = asked;
    }
}

#[test]
fn second_locker_is_refused_until_the_first_lets_go() {
    let mut held = false;
    assert_eq!(acquire(&mut held), Acquisition::Acquired);
    assert_eq!(acquire(&mut held), Acquisition::Refused);
    assert_eq!(acquire(&mut held), Acquisition::Refused);
    // The first locker ends, and its lock with it.
    held = false;
    assert_eq!(acquire(&mut held), Acquisition::Acquired);
}
