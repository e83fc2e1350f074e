//! The single-instance guard: one locker per session.
//!
//! The guard takes an exclusive lock on a file below the session's runtime
//! directory.  The file system work stays with the owner of the [`Guard`];
//! the guard names the paths and says what to do after each step.

use vstd::prelude::*;
use vstd::string::*;

verus! {

/// Name of the directory that holds the lock file, below the runtime directory.
pub const LOCK_DIR_NAME: &'static str = "shackle";

/// Name of the lock file.
pub const LOCK_FILE_NAME: &'static str = "shackle.lock";

/// The byte that separates the parts of a path.
pub const SEPARATOR: u8 = 0x2f;

/// How an attempt to become the session's only locker ended.
#[derive(Clone, Copy, Debug, PartialEq, Eq, Structural)]
pub enum Acquisition {
    /// The lock is held; this process is the session's locker.
    Acquired,
    /// The lock could not be had, as when another locker holds it.
    Refused,
    /// The session has no runtime directory.
    EnvironmentError,
}

/// What the guard asks its owner to do next.
#[derive(Debug, PartialEq, Eq)]
pub enum GuardAction {
    /// Create this directory and the ones above it; a failure is of no consequence.
    CreateDir(Vec<u8>),
    /// Open this file for reading and writing, creating it if it is not there.
    OpenLockFile(Vec<u8>),
    /// Take an exclusive lock on the open file without waiting for it.
    Lock,
    /// Try the lock once more on the file now held.
    Confirm,
    /// The attempt is over.
    Finish(Acquisition),
    /// Nothing is left to do.
    Halt,
}

/// The guard's state.
#[derive(Debug, PartialEq, Eq)]
pub enum Guard {
    /// The directory is being created; `file` is the lock file to open next.
    Creating { file: Vec<u8> },
    /// The lock file is being opened.
    Opening,
    /// The lock is being taken.
    Locking,
    /// The lock is being confirmed.
    Confirming,
    /// The attempt is over.
    Finished,
}

/// The path `name` below the path `base`: `base` and `name` with a
/// separator between them, unless `base` is empty or ends in one.  A name
/// that begins with a separator names a place of its own and stands alone.
pub open spec fn joined(base: Seq<u8>, name: Seq<u8>) -> Seq<u8> {
    if name.len() > 0 && name[0] == SEPARATOR {
        name
    } else if base.len() == 0 || base.last() == SEPARATOR {
        base + name
    } else {
        base + seq![SEPARATOR] + name
    }
}

/// The directory of the lock file for a runtime directory.
pub open spec fn lock_dir(runtime_dir: Seq<u8>) -> Seq<u8> {
    joined(runtime_dir, LOCK_DIR_NAME.spec_bytes())
}

/// The lock file for a runtime directory.
pub open spec fn lock_file(runtime_dir: Seq<u8>) -> Seq<u8> {
    joined(lock_dir(runtime_dir), LOCK_FILE_NAME.spec_bytes())
}

/// The guard's transition function; `ok` tells whether the step last asked
/// for succeeded.
pub open spec fn next(state: Guard, ok: bool) -> (Guard, GuardAction) {
    let refused = (Guard::Finished, GuardAction::Finish(Acquisition::Refused));
    match state {
        Guard::Creating { file } => (Guard::Opening, GuardAction::OpenLockFile(file)),
        Guard::Opening => if ok {
            (Guard::Locking, GuardAction::Lock)
        } else {
            refused
        },
        Guard::Locking => if ok {
            (Guard::Confirming, GuardAction::Confirm)
        } else {
            refused
        },
        Guard::Confirming => if ok {
            (Guard::Finished, GuardAction::Finish(Acquisition::Acquired))
        } else {
            refused
        },
        Guard::Finished => (Guard::Finished, GuardAction::Halt),
    }
}

fn append(path: &mut Vec<u8>, bytes: &[u8])
    ensures
        final(path)@ == old(path)@ + bytes@,
{
    let mut i: usize = 0;
    while i < bytes.len()
        invariant
            i <= bytes.len(),
            path@ == old(path)@ + bytes@.take(i as int),
        decreases bytes.len() - i,
    {
        path.push(bytes[i]);
        assert(bytes@.take(i + 1) =~= bytes@.take(i as int).push(bytes@[i as int]));
        i += 1;
    }
    assert(bytes@.take(i as int) =~= bytes@);
}

/// Gives the path `name` below the path `base`.
pub fn join(base: &Vec<u8>, name: &str) -> (path: Vec<u8>)
    ensures
        path@ == joined(base@, name.spec_bytes()),
{
    let name = name.as_bytes();
    let mut path: Vec<u8> = Vec::new();
    if name.len() > 0 && name[0] == SEPARATOR {
        append(&mut path, name);
        assert(path@ =~= name@);
        return path;
    }
    append(&mut path, base.as_slice());
    assert(path@ =~= base@);
    if base.len() > 0 && base[base.len() - 1] != SEPARATOR {
        path.push(SEPARATOR);
    }
    append(&mut path, name);
    path
}

/// Begins an attempt to become the session's only locker.  `runtime_dir` is
/// the session's runtime directory, where it has one.  Without one the
/// attempt is over at once; with one the guard asks for the lock file's
/// directory first.
pub fn lock_sole_instance(runtime_dir: Option<Vec<u8>>) -> (start: (Guard, GuardAction))
    ensures
        runtime_dir is None ==> start == (
            Guard::Finished,
            GuardAction::Finish(Acquisition::EnvironmentError),
        ),
        runtime_dir matches Some(base) ==> {
            &&& start.0 matches Guard::Creating { file }
            &&& file@ == lock_file(base@)
            &&& start.1 matches GuardAction::CreateDir(dir)
            &&& dir@ == lock_dir(base@)
        },
{
    match runtime_dir {
        None => (Guard::Finished, GuardAction::Finish(Acquisition::EnvironmentError)),
        Some(base) => {
            let dir = join(&base, LOCK_DIR_NAME);
            let file = join(&dir, LOCK_FILE_NAME);
            (Guard::Creating { file }, GuardAction::CreateDir(dir))
        },
    }
}

impl Guard {
    /// Takes the guard one step; `ok` tells whether the step last asked for
    /// succeeded.
    pub fn step(self, ok: bool) -> (moved: (Guard, GuardAction))
        ensures
            moved == next(self, ok),
    {
        let refused = (Guard::Finished, GuardAction::Finish(Acquisition::Refused));
        match self {
            Guard::Creating { file } => (Guard::Opening, GuardAction::OpenLockFile(file)),
            Guard::Opening => if ok {
                (Guard::Locking, GuardAction::Lock)
            } else {
                refused
            },
            Guard::Locking => if ok {
                (Guard::Confirming, GuardAction::Confirm)
            } else {
                refused
            },
            Guard::Confirming => if ok {
                (Guard::Finished, GuardAction::Finish(Acquisition::Acquired))
            } else {
                refused
            },
            Guard::Finished => (Guard::Finished, GuardAction::Halt),
        }
    }
}

impl Acquisition {
    /// Whether the process may go on to lock the session: only the holder of
    /// the lock may.
    pub fn may_proceed(&self) -> (proceed: bool)
        ensures
            proceed == (*self == Acquisition::Acquired),
    {
        matches!(self, Acquisition::Acquired)
    }
}

/// The lock is acquired only if the file was opened, locked and confirmed,
/// each in its turn; the creation of the directory does not count.
pub proof fn lemma_acquired_needs_every_step(
    file: Vec<u8>,
    created: bool,
    opened: bool,
    locked: bool,
    confirmed: bool,
)
    ensures
        ({
            let acquired = GuardAction::Finish(Acquisition::Acquired);
            let (s1, a1) = next(Guard::Creating { file }, created);
            let (s2, a2) = next(s1, opened);
            let (s3, a3) = next(s2, locked);
            let (s4, a4) = next(s3, confirmed);
            &&& a1 == GuardAction::OpenLockFile(file)
            &&& a1 != acquired && a2 != acquired && a3 != acquired
            &&& a4 == acquired <==> opened && locked && confirmed
            &&& s4 == Guard::Finished
        }),
{
}

} // verus!
