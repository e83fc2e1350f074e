//! What the locker was told on its command line.

use vstd::prelude::*;
use crate::app::Flags;

verus! {

/// The locker's settings.
#[derive(Clone, Debug, PartialEq, Eq)]
pub struct Args {
    /// Fork off the locker process.
    pub daemonize: bool,
    /// Start fingerprint verification only after the device wakes up.
    pub await_wakeup: bool,
    /// Image, video or directory to show behind the controls.
    pub background: Option<String>,
}

/// Puts the settings together.
pub fn config(daemonize: bool, await_wakeup: bool, background: Option<String>) -> (args: Args)
    ensures
        args == (Args { daemonize, await_wakeup, background }),
{
    Args { daemonize, await_wakeup, background }
}

impl Args {
    /// The part of the settings that the session's arbiter starts with.
    pub fn flags(&self) -> (flags: Flags)
        ensures
            flags == (Flags { await_wakeup: self.await_wakeup }),
    {
        Flags { await_wakeup: self.await_wakeup }
    }
}

} // verus!
