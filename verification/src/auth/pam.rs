//! Password authentication against the system's authentication stack.
//!
//! A password check is a short state machine.  Its owner opens the
//! transaction and runs the authentication; the machine says what to do next
//! and whether the password is accepted in the end.

use vstd::prelude::*;

verus! {

/// Service name under which every authentication transaction is opened.
pub const PAM_SERVICE: &'static str = "shackle";

/// A user name with the password typed for it.  It lives for one check.
#[derive(PartialEq, Eq)]
pub struct Credential {
    pub username: String,
    pub password: String,
}

/// What the authentication stack may ask in its conversation.
#[derive(Clone, Copy, Debug, PartialEq, Eq, Structural)]
pub enum Prompt {
    /// A question whose answer may be shown while it is typed.
    Echoed,
    /// A question whose answer is hidden while it is typed.
    Masked,
    /// Any other kind of question.
    Other,
}

/// What a password check asks its owner to do next.
#[derive(PartialEq, Eq)]
pub enum PamAction {
    /// Open a transaction for [`PAM_SERVICE`] and the credential's user,
    /// with the credential answering the conversation.
    Open(Credential),
    /// Ask the open transaction to authenticate, with no flags set.
    Authenticate,
    /// The password check is over; `true` says that the password was accepted.
    Return(bool),
    /// Nothing is left to do.
    Halt,
}

/// The state of a password check.
#[derive(Clone, Copy, Debug, PartialEq, Eq, Structural)]
pub enum PasswordCheck {
    /// The transaction is being opened.
    Opening,
    /// The authentication is running.
    Authenticating,
    /// The password check is over.
    Done,
}

/// How a password check begins for a user name, if one was found, and a
/// password: without a user it is over at once and no transaction is opened.
pub open spec fn opening(username: Option<String>, password: String) -> (PasswordCheck, PamAction) {
    match username {
        Some(username) => (
            PasswordCheck::Opening,
            PamAction::Open(Credential { username, password }),
        ),
        None => (PasswordCheck::Done, PamAction::Return(false)),
    }
}

/// The transition function of a password check; `ok` tells whether the
/// operation last asked for succeeded.  Only an authentication that succeeded accepts the
/// password.
pub open spec fn next(state: PasswordCheck, ok: bool) -> (PasswordCheck, PamAction) {
    match state {
        PasswordCheck::Opening => if ok {
            (PasswordCheck::Authenticating, PamAction::Authenticate)
        } else {
            (PasswordCheck::Done, PamAction::Return(false))
        },
        PasswordCheck::Authenticating => (PasswordCheck::Done, PamAction::Return(ok)),
        PasswordCheck::Done => (PasswordCheck::Done, PamAction::Halt),
    }
}

/// The actions that a password check asks for when it starts in `state` and
/// is told `results` in order.
pub open spec fn actions(state: PasswordCheck, results: Seq<bool>) -> Seq<PamAction>
    decreases results.len(),
{
    if results.len() == 0 {
        Seq::empty()
    } else {
        let (mid, action) = next(state, results[0]);
        seq![action] + actions(mid, results.drop_first())
    }
}

impl Credential {
    /// What the credential answers to a prompt of the given kind.
    pub open spec fn reply(self, prompt: Prompt) -> Option<String> {
        match prompt {
            Prompt::Echoed => Some(self.username),
            Prompt::Masked => Some(self.password),
            Prompt::Other => None,
        }
    }

    /// Answers a prompt of the conversation: the user name where the answer
    /// may be shown, the password where it is hidden, and nothing to any
    /// other kind of prompt.
    pub fn answer(&self, prompt: Prompt) -> (reply: Option<String>)
        ensures
            reply == self.reply(prompt),
    {
        match prompt {
            Prompt::Echoed => Some(self.username.clone()),
            Prompt::Masked => Some(self.password.clone()),
            Prompt::Other => None,
        }
    }
}

/// The name of the user who runs the process, where the system knows one.
///
/// Calls `users::get_current_username`, which looks the process's user id up
/// in the system's user database.  Nothing is claimed of the result: it
/// depends on the system.  A name that is not valid UTF-8 has its invalid
/// parts replaced.
#[verifier::external_body]
fn current_username() -> (username: Option<String>) {
    users::get_current_username().map(|name| name.to_string_lossy().into_owned())
}

impl PasswordCheck {
    /// Begins a password check for `username`.
    pub fn begin(username: Option<String>, password: String) -> (start: (PasswordCheck, PamAction))
        ensures
            start == opening(username, password),
    {
        match username {
            Some(username) => (
                PasswordCheck::Opening,
                PamAction::Open(Credential { username, password }),
            ),
            None => (PasswordCheck::Done, PamAction::Return(false)),
        }
    }

    /// Takes the password check one step; `ok` tells whether the operation
    /// last asked for succeeded.
    pub fn step(self, ok: bool) -> (moved: (PasswordCheck, PamAction))
        ensures
            moved == next(self, ok),
    {
        match self {
            PasswordCheck::Opening => if ok {
                (PasswordCheck::Authenticating, PamAction::Authenticate)
            } else {
                (PasswordCheck::Done, PamAction::Return(false))
            },
            PasswordCheck::Authenticating => (PasswordCheck::Done, PamAction::Return(ok)),
            PasswordCheck::Done => (PasswordCheck::Done, PamAction::Halt),
        }
    }
}

/// Begins a password check for the user who runs the process.  Where the
/// system knows no such user it is over at once, with the password refused.
pub fn check_password(password: String) -> (start: (PasswordCheck, PamAction))
    ensures
        start == opening(None, password) || exists|username: String|
            start == #[trigger] opening(Some(username), password),
{
    let username = current_username();
    PasswordCheck::begin(username, password)
}

/// A password check that has come to its end asks for nothing more: no
/// transaction is opened and no authentication is run.
pub proof fn lemma_done_check_halts(results: Seq<bool>)
    ensures
        actions(PasswordCheck::Done, results).len() == results.len(),
        forall|i: int|
            0 <= i < results.len() ==> actions(PasswordCheck::Done, results)[i] == PamAction::Halt,
    decreases results.len(),
{
    if results.len() > 0 {
        let later = results.drop_first();
        let tail = actions(PasswordCheck::Done, later);
        let trace = actions(PasswordCheck::Done, results);
        lemma_done_check_halts(later);
        assert(trace == seq![PamAction::Halt] + tail);
        assert forall|i: int| 0 <= i < results.len() implies trace[i] == PamAction::Halt by {
            if i > 0 {
                assert(trace[i] == tail[i - 1]);
            }
        }
    }
}

/// Without a user the password is refused and no transaction is ever
/// opened, whatever the password is and whatever is reported later.
pub proof fn lemma_no_user_no_transaction(password: String, results: Seq<bool>)
    ensures
        ({
            let (state, first) = opening(None, password);
            &&& first == PamAction::Return(false)
            &&& forall|i: int|
                0 <= i < results.len() ==> actions(state, results)[i] == PamAction::Halt
        }),
{
    lemma_done_check_halts(results);
}

/// The password is accepted only if the transaction was opened and the
/// authentication after it succeeded.
pub proof fn lemma_accepted_only_after_success(opened: bool, authenticated: bool)
    ensures
        ({
            let (state, first) = next(PasswordCheck::Opening, opened);
            let second = next(state, authenticated).1;
            (first == PamAction::Return(true) || second == PamAction::Return(true)) <==> (opened
                && authenticated)
        }),
{
}

} // verus!
