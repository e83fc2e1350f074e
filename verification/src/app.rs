//! The unlock arbiter.
//!
//! The arbiter owns the password field and is the only one to ask the
//! session for an unlock.  Fingerprint, password and signal report to it with
//! a [`Message`]; it answers every message with a [`Command`] for its owner.

use vstd::prelude::*;
use crate::auth::UnlockDecision;

verus! {

/// Settings that the arbiter starts with.
#[derive(Clone, Copy, Debug, PartialEq, Eq, Structural)]
pub struct Flags {
    /// Start fingerprint verification only after the device wakes up.
    pub await_wakeup: bool,
}

impl Default for Flags {
    fn default() -> (flags: Flags)
        ensures
            flags == (Flags { await_wakeup: false }),
    {
        Flags { await_wakeup: false }
    }
}

/// What happens in the password field.
#[derive(Debug, Clone)]
pub enum PasswordInput {
    /// The field now holds this text.
    Value(String),
    /// The user asked for the text to be checked.
    Submit,
}

/// What the session's lock surface reports.
#[derive(Clone, Copy, Debug, PartialEq, Eq, Structural)]
pub enum WaylandEvent {
    /// A new output appeared and wants a lock surface.
    OutputCreated,
    /// The session is locked.
    SessionLocked,
    /// The session is unlocked.
    SessionUnlocked,
    /// A lock surface got the focus.
    SessionFocused,
    /// Anything else.
    Other,
}

/// What the arbiter is told.
#[derive(Debug, Clone)]
pub enum Message {
    /// The lock surface reported something.
    WaylandEvent(WaylandEvent),
    /// Something happened in the password field.
    PasswordInput(PasswordInput),
    /// The user's picture was read.
    UserImageLoaded(Vec<u8>),
    /// The fingerprint engine or the signal listener vouches for the user.
    Unlock,
    /// The password was checked and accepted.
    PasswordAccepted,
    /// The password was checked and refused.
    WrongPassword,
    /// An authentication path ended without a say.
    Ignore,
}

/// What the arbiter asks its owner to do.
#[derive(Debug, Clone, PartialEq, Eq)]
pub enum Command {
    /// Nothing.
    Idle,
    /// Lock the session.
    Lock,
    /// Give the new output a lock surface.
    GetLockSurface,
    /// Start the fingerprint engine, the signal listener and the loading of
    /// the user's picture.
    Launch { await_wakeup: bool },
    /// Leave the process.
    Exit,
    /// Put the focus into the password field.
    FocusPasswordInput,
    /// Check this password, away from the event loop.
    CheckPassword(String),
    /// Unlock the session.
    Unlock,
}

/// The arbiter's state.
#[derive(Debug, Clone)]
pub struct App {
    /// The text in the password field.
    pub password: String,
    /// Whether a password check is running; the field is closed meanwhile.
    pub validating_password: bool,
    /// The user's picture, once read.
    pub user_image: Option<Vec<u8>>,
    /// The settings that the arbiter was made with.
    pub flags: Flags,
    /// Whether the authentication paths have been started.
    pub launched: bool,
    /// Whether the session has been asked to unlock.
    pub unlocking: bool,
}

/// A command as contracts see it.
pub enum CommandView {
    Idle,
    Lock,
    GetLockSurface,
    Launch { await_wakeup: bool },
    Exit,
    FocusPasswordInput,
    CheckPassword(Seq<char>),
    Unlock,
}

/// The arbiter's state as contracts see it.
pub struct AppView {
    pub password: Seq<char>,
    pub validating_password: bool,
    pub user_image: Option<Seq<u8>>,
    pub flags: Flags,
    pub launched: bool,
    pub unlocking: bool,
}

impl View for Command {
    type V = CommandView;

    open spec fn view(&self) -> CommandView {
        match *self {
            Command::Idle => CommandView::Idle,
            Command::Lock => CommandView::Lock,
            Command::GetLockSurface => CommandView::GetLockSurface,
            Command::Launch { await_wakeup } => CommandView::Launch { await_wakeup },
            Command::Exit => CommandView::Exit,
            Command::FocusPasswordInput => CommandView::FocusPasswordInput,
            Command::CheckPassword(password) => CommandView::CheckPassword(password@),
            Command::Unlock => CommandView::Unlock,
        }
    }
}

impl View for App {
    type V = AppView;

    open spec fn view(&self) -> AppView {
        AppView {
            password: self.password@,
            validating_password: self.validating_password,
            user_image: match self.user_image {
                Some(image) => Some(image@),
                None => None,
            },
            flags: self.flags,
            launched: self.launched,
            unlocking: self.unlocking,
        }
    }
}

/// The arbiter before anything has happened.
pub open spec fn initial(flags: Flags) -> AppView {
    AppView {
        password: Seq::empty(),
        validating_password: false,
        user_image: None,
        flags,
        launched: false,
        unlocking: false,
    }
}

/// Whether `message` vouches for the user.
pub open spec fn vouches(message: Message) -> bool {
    message is Unlock || message is PasswordAccepted
}

/// The arbiter's transition function: the state after `message` and the
/// command that answers it.  A voucher unlocks the session if it has not
/// been asked to unlock before, and opens the password field.  The end of a
/// password check, accepted or refused, empties the field and opens it; a
/// voucher of another path leaves the text in the field as it is.
pub open spec fn update(app: AppView, message: Message) -> (AppView, CommandView) {
    match message {
        Message::WaylandEvent(event) => match event {
            WaylandEvent::OutputCreated => (app, CommandView::GetLockSurface),
            WaylandEvent::SessionLocked => if app.launched {
                (app, CommandView::Idle)
            } else {
                (
                    AppView { launched: true, ..app },
                    CommandView::Launch { await_wakeup: app.flags.await_wakeup },
                )
            },
            WaylandEvent::SessionUnlocked => (app, CommandView::Exit),
            WaylandEvent::SessionFocused => (app, CommandView::FocusPasswordInput),
            WaylandEvent::Other => (app, CommandView::Idle),
        },
        Message::PasswordInput(input) => match input {
            PasswordInput::Value(value) => if app.validating_password {
                (app, CommandView::Idle)
            } else {
                (AppView { password: value@, ..app }, CommandView::Idle)
            },
            PasswordInput::Submit => (
                AppView { validating_password: true, ..app },
                CommandView::CheckPassword(app.password),
            ),
        },
        Message::UserImageLoaded(image) => (
            AppView { user_image: Some(image@), ..app },
            CommandView::Idle,
        ),
        Message::Unlock => if app.unlocking {
            (AppView { validating_password: false, ..app }, CommandView::Idle)
        } else {
            (AppView { validating_password: false, unlocking: true, ..app }, CommandView::Unlock)
        },
        Message::PasswordAccepted => {
            let reopened = AppView { password: Seq::empty(), validating_password: false, ..app };
            if app.unlocking {
                (reopened, CommandView::Idle)
            } else {
                (AppView { unlocking: true, ..reopened }, CommandView::Unlock)
            }
        },
        Message::WrongPassword => (
            AppView { password: Seq::empty(), validating_password: false, ..app },
            CommandView::Idle,
        ),
        Message::Ignore => (app, CommandView::Idle),
    }
}

/// The commands that answer `messages`, one for each, from the state `app` on.
pub open spec fn commands(app: AppView, messages: Seq<Message>) -> Seq<CommandView>
    decreases messages.len(),
{
    if messages.len() == 0 {
        Seq::empty()
    } else {
        let (mid, command) = update(app, messages[0]);
        seq![command] + commands(mid, messages.drop_first())
    }
}

/// How often `command` stands in `trace`.
pub open spec fn occurrences(trace: Seq<CommandView>, command: CommandView) -> nat
    decreases trace.len(),
{
    if trace.len() == 0 {
        0
    } else {
        (if trace[0] == command { 1nat } else { 0nat }) + occurrences(trace.drop_first(), command)
    }
}

impl Message {
    /// The message by which the fingerprint engine reports its decision.
    pub fn from_decision(decision: UnlockDecision) -> (message: Message)
        ensures
            decision == UnlockDecision::Unlock ==> message is Unlock,
            decision == UnlockDecision::Ignore ==> message is Ignore,
    {
        match decision {
            UnlockDecision::Unlock => Message::Unlock,
            UnlockDecision::Ignore => Message::Ignore,
        }
    }

    /// The message by which a password check reports whether the password
    /// was accepted.  A check that could not be run counts as a refusal.
    pub fn from_password(accepted: bool) -> (message: Message)
        ensures
            accepted ==> message is PasswordAccepted,
            !accepted ==> message is WrongPassword,
    {
        if accepted {
            Message::PasswordAccepted
        } else {
            Message::WrongPassword
        }
    }

    /// The message by which the reader of the user's picture reports: the
    /// picture's bytes where it could be read.
    pub fn from_image(image: Option<Vec<u8>>) -> (message: Message)
        ensures
            match image {
                Some(bytes) => message == Message::UserImageLoaded(bytes),
                None => message is Ignore,
            },
    {
        match image {
            Some(bytes) => Message::UserImageLoaded(bytes),
            None => Message::Ignore,
        }
    }

    /// The message by which the signal listener reports: `received` tells
    /// that the signal came, its absence that the listener could not be set up.
    pub fn from_signal(received: bool) -> (message: Message)
        ensures
            received ==> message is Unlock,
            !received ==> message is Ignore,
    {
        if received {
            Message::Unlock
        } else {
            Message::Ignore
        }
    }
}

impl App {
    /// Makes the arbiter for a session that is yet to be locked, together
    /// with the command that locks it.
    pub fn new(flags: Flags) -> (start: (App, Command))
        ensures
            start.0@ == initial(flags),
            start.1@ == CommandView::Lock,
    {
        (
            App {
                password: String::new(),
                validating_password: false,
                user_image: None,
                flags,
                launched: false,
                unlocking: false,
            },
            Command::Lock,
        )
    }

    /// The title of the lock surface.
    pub fn title(&self) -> (title: String)
        ensures
            title@ == "shackle"@,
    {
        "shackle".to_owned()
    }

    /// Takes in `message` and answers it with a command.
    pub fn update(&mut self, message: Message) -> (command: Command)
        ensures
            final(self)@ == update(old(self)@, message).0,
            command@ == update(old(self)@, message).1,
    {
        match message {
            Message::WaylandEvent(event) => match event {
                WaylandEvent::OutputCreated => Command::GetLockSurface,
                WaylandEvent::SessionLocked => if self.launched {
                    Command::Idle
                } else {
                    self.launched = true;
                    Command::Launch { await_wakeup: self.flags.await_wakeup }
                },
                WaylandEvent::SessionUnlocked => Command::Exit,
                WaylandEvent::SessionFocused => Command::FocusPasswordInput,
                WaylandEvent::Other => Command::Idle,
            },
            Message::PasswordInput(input) => match input {
                PasswordInput::Value(value) => {
                    if !self.validating_password {
                        self.password = value;
                    }
                    Command::Idle
                },
                PasswordInput::Submit => {
                    self.validating_password = true;
                    Command::CheckPassword(self.password.clone())
                },
            },
            Message::UserImageLoaded(image) => {
                self.user_image = Some(image);
                Command::Idle
            },
            Message::Unlock => {
                self.validating_password = false;
                if self.unlocking {
                    Command::Idle
                } else {
                    self.unlocking = true;
                    Command::Unlock
                }
            },
            Message::PasswordAccepted => {
                self.password = String::new();
                self.validating_password = false;
                if self.unlocking {
                    Command::Idle
                } else {
                    self.unlocking = true;
                    Command::Unlock
                }
            },
            Message::WrongPassword => {
                self.password = String::new();
                self.validating_password = false;
                Command::Idle
            },
            Message::Ignore => Command::Idle,
        }
    }
}

proof fn lemma_occurrences_unfold(first: CommandView, rest: Seq<CommandView>, command: CommandView)
    ensures
        occurrences(seq![first] + rest, command) == (if first == command {
            1nat
        } else {
            0nat
        }) + occurrences(rest, command),
{
    let trace = seq![first] + rest;
    assert(trace[0] == first);
    assert(trace.drop_first() =~= rest);
}

/// The session is asked to unlock at most once, whatever the arbiter is
/// told, and never again once it has been asked.
pub proof fn lemma_unlocks_at_most_once(app: AppView, messages: Seq<Message>)
    ensures
        occurrences(commands(app, messages), CommandView::Unlock) <= (if app.unlocking {
            0nat
        } else {
            1nat
        }),
    decreases messages.len(),
{
    if messages.len() > 0 {
        let (mid, first) = update(app, messages[0]);
        lemma_unlocks_at_most_once(mid, messages.drop_first());
        lemma_occurrences_unfold(first, commands(mid, messages.drop_first()), CommandView::Unlock);
    }
}

/// The session is asked to unlock only when an authentication path has
/// vouched for the user.
pub proof fn lemma_unlock_needs_voucher(app: AppView, messages: Seq<Message>)
    requires
        occurrences(commands(app, messages), CommandView::Unlock) > 0,
    ensures
        exists|i: int| 0 <= i < messages.len() && #[trigger] vouches(messages[i]),
    decreases messages.len(),
{
    if messages.len() > 0 {
        let (mid, first) = update(app, messages[0]);
        let later = messages.drop_first();
        lemma_occurrences_unfold(first, commands(mid, later), CommandView::Unlock);
        if first == CommandView::Unlock {
            assert(vouches(messages[0]));
        } else {
            lemma_unlock_needs_voucher(mid, later);
            let j: int = choose|j: int| 0 <= j < later.len() && #[trigger] vouches(later[j]);
            assert(vouches(messages[j + 1]));
        }
    }
}

/// The authentication paths are started at most once, with the arbiter's
/// own setting, and never again once they have been started.
pub proof fn lemma_launches_at_most_once(app: AppView, messages: Seq<Message>, await_wakeup: bool)
    ensures
        occurrences(commands(app, messages), CommandView::Launch { await_wakeup }) <= (
        if app.launched || app.flags.await_wakeup != await_wakeup {
            0nat
        } else {
            1nat
        }),
    decreases messages.len(),
{
    if messages.len() > 0 {
        let (mid, first) = update(app, messages[0]);
        lemma_launches_at_most_once(mid, messages.drop_first(), await_wakeup);
        lemma_occurrences_unfold(
            first,
            commands(mid, messages.drop_first()),
            CommandView::Launch { await_wakeup },
        );
    }
}

/// A path that ends without a say leaves the arbiter as it was, so that the
/// other paths can still unlock the session.
pub proof fn lemma_ignore_changes_nothing(app: AppView)
    ensures
        update(app, Message::Ignore) == (app, CommandView::Idle),
{
}

/// The first voucher unlocks the session, whichever path it comes from and
/// whatever the arbiter was told before; later ones are passed over.  Every
/// voucher leaves the password field open.
pub proof fn lemma_first_voucher_unlocks(app: AppView, message: Message)
    requires
        vouches(message),
    ensures
        update(app, message).1 == CommandView::Unlock <==> !app.unlocking,
        update(app, message).1 == CommandView::Idle <==> app.unlocking,
        update(app, message).0.unlocking,
        !update(app, message).0.validating_password,
{
}

/// A voucher of the fingerprint engine or of the signal listener leaves the
/// text in the password field as it is, and changes nothing but the two
/// marks of a running check and of the unlock asked for.
pub proof fn lemma_other_voucher_leaves_field(app: AppView)
    ensures
        update(app, Message::Unlock).0 == (AppView {
            validating_password: false,
            unlocking: true,
            ..app
        }),
        update(app, Message::Unlock).0.password == app.password,
{
}

/// An accepted password empties the field and opens it again, as a refused
/// one does, and unlocks the session if it has not been asked to unlock
/// before.
pub proof fn lemma_accepted_password_reopens_field(app: AppView)
    ensures
        update(app, Message::PasswordAccepted) == (
            AppView {
                password: Seq::empty(),
                validating_password: false,
                unlocking: true,
                ..app
            },
            if app.unlocking {
                CommandView::Idle
            } else {
                CommandView::Unlock
            },
        ),
{
}

/// A refused password empties the field and opens it again; it asks for
/// nothing and touches nothing else, so the other paths go on as they were.
pub proof fn lemma_wrong_password_reopens_field(app: AppView)
    ensures
        update(app, Message::WrongPassword) == (
            AppView { password: Seq::empty(), validating_password: false, ..app },
            CommandView::Idle,
        ),
{
}

/// While a password is being checked, typing does not change the field.
pub proof fn lemma_field_closed_during_check(app: AppView, value: String)
    requires
        app.validating_password,
    ensures
        update(app, Message::PasswordInput(PasswordInput::Value(value))) == (
            app,
            CommandView::Idle,
        ),
{
}

} // verus!
