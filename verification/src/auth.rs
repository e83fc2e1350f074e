//! The authentication paths that may unlock the session.

use vstd::prelude::*;

pub mod fprint;
pub mod pam;

verus! {

/// What an authentication path tells the session when it is done.
#[derive(Clone, Copy, Debug, PartialEq, Eq, Structural)]
pub enum UnlockDecision {
    /// The session is to be unlocked.
    Unlock,
    /// Nothing is to be done; the other paths stay in charge.
    Ignore,
}

} // verus!
