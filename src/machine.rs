//! The session-launch state machine. The interactive loop around it reads a
//! line (as `read_request` asks), hands the outcome of each interaction to
//! `step` as an `Event`, and carries out the `Action` it returns.

use vstd::prelude::*;
use crate::hints::{command_words, commands, hint_words};
use crate::launch::{launch_line_for, launch_line_of};
use crate::remember::{recall, recalled, recalled_file, stored};
use crate::text::{is_ws, lemma_blank_has_no_tokens, same_text, tokenize, tokens, trimmed};

verus! {

/// How the next line read is interpreted.
#[derive(Clone, Copy, Debug, PartialEq, Eq, Structural)]
pub enum InputMode {
    ChoosingCommand,
    EnteringUsernameForSession,
    EnteringUsernameForShell,
    AwaitingLaunchLine,
}

/// The prompt shown before a line is read.
#[derive(Clone, Copy, Debug, PartialEq, Eq, Structural)]
pub enum Prompt {
    /// The host's name followed by ` >> `.
    Host,
    /// `UserName: `
    UserName,
    /// `Command:`
    Command,
    /// `Shell: `
    Shell,
}

/// What the machine waits for next.
#[derive(Clone, Copy, Debug, PartialEq, Eq, Structural)]
pub enum Awaiting {
    Line,
    CommandPick,
    SessionPick,
    Password,
    IdentityFile,
    LoginOutcome,
}

/// An installed graphical session.
#[derive(Clone, Debug)]
pub struct DesktopEntry {
    pub name: String,
    pub exec_command: String,
    pub comment: Option<String>,
}

/// What the authentication backend answered.
#[derive(Clone, Debug)]
pub enum LoginOutcome {
    Success,
    Failure(String),
    Error(String),
}

/// The outcome of the interaction that the last action asked for.
#[derive(Clone, Debug)]
pub enum Event {
    /// A line was read.
    Line(String),
    /// The read was interrupted by the user.
    Interrupted,
    /// The input ended.
    EndOfInput,
    /// The read failed otherwise.
    ReadFailed(String),
    /// The command selector returned an index, or was cancelled.
    CommandPicked(Option<usize>),
    /// The session selector returned an index, or was cancelled.
    SessionPicked(Option<usize>),
    /// A password was read.
    Password(String),
    /// The remembered-identity file was read (`None`: missing or unreadable).
    IdentityFile(Option<String>),
    /// The authentication backend answered.
    LoginDone(LoginOutcome),
}

/// A short fixed message.
#[derive(Clone, Copy, Debug, PartialEq, Eq, Structural)]
pub enum Notice {
    NoSuchCommand,
    Cancelled,
    NoSessionChosen,
    Interrupted,
    MissingCommand,
}

/// The text printed for a notice.
pub open spec fn notice_text(n: Notice) -> Seq<char> {
    match n {
        Notice::NoSuchCommand => "no such command"@,
        Notice::Cancelled => "cancel"@,
        Notice::NoSessionChosen => "You have not choose a wm"@,
        Notice::Interrupted => "CTRL-C\nCancel to select"@,
        Notice::MissingCommand => "Miss Shell Command"@,
    }
}

impl Notice {
    /// The text printed for this notice.
    pub fn message(&self) -> (r: &'static str)
        ensures
            r@ == notice_text(*self),
    {
        match self {
            Notice::NoSuchCommand => "no such command",
            Notice::Cancelled => "cancel",
            Notice::NoSessionChosen => "You have not choose a wm",
            Notice::Interrupted => "CTRL-C\nCancel to select",
            Notice::MissingCommand => "Miss Shell Command",
        }
    }
}

/// The text that `help_text` returns.
pub open spec fn help_message() -> Seq<char> {
    "use 'clear' to clear terminal\nuse 'loginwm' to login the wm\nuse 'loginshell' to login with the command you want\nuse 'showinfo' to show the wm info\nuse 'exit' to exit\nuse 's' to fuzzle select commands"@
}

/// The list of commands printed by `help`, one per line.
pub fn help_text() -> (r: &'static str)
    ensures
        r@ == help_message(),
{
    "use 'clear' to clear terminal\nuse 'loginwm' to login the wm\nuse 'loginshell' to login with the command you want\nuse 'showinfo' to show the wm info\nuse 'exit' to exit\nuse 's' to fuzzle select commands"
}

/// Why the program ends.
#[derive(Clone, Debug)]
pub enum Farewell {
    Requested,
    EndOfInput,
    LoggedIn,
    LoginError(String),
    ReadError(String),
}

/// What is handed to the authentication backend, together with the
/// environment that the configuration gives for `session`.
#[derive(Clone, Debug)]
pub struct LaunchPlan {
    pub username: String,
    pub password: String,
    pub command: Vec<String>,
    pub session: String,
}

/// What the loop does next.
#[derive(Clone, Debug)]
pub enum Action {
    /// Read the next line, as `read_request` says.
    ReadLine,
    /// Print the notice, then read the next line.
    Notify(Notice),
    /// Clear the terminal.
    ClearScreen,
    /// Print the list of commands.
    ShowHelp,
    /// Print a session's description.
    ShowDescription(String),
    /// Run the command selector; answer with `CommandPicked`.
    PickCommand,
    /// Run the session selector; answer with `SessionPicked`.
    PickSession,
    /// Read a password without echo; answer with `Password`.
    AskPassword,
    /// Read the remembered-identity file; answer with `IdentityFile`.
    LoadIdentity,
    /// Remember the name, then print the missing-command notice.
    MissingCommand(String),
    /// Remember the plan's user name, then log in; answer with `LoginDone`.
    Launch(LaunchPlan),
    /// Print the backend's failure message, then read the next line.
    LoginFailed(String),
    /// End the program.
    Exit(Farewell),
}

/// How the next line is read.
#[derive(Clone, Debug)]
pub struct ReadRequest {
    pub prompt: Prompt,
    /// Text the line starts with, for the user to edit.
    pub initial: Option<String>,
    /// Whether command hints are offered.
    pub hints: bool,
}

/// The machine's state.
#[derive(Clone, Debug)]
pub struct Greeter {
    pub mode: InputMode,
    pub prompt: Prompt,
    pub awaiting: Awaiting,
    pub username: Option<String>,
    pub password: Option<String>,
    pub session: String,
    pub launch_line: String,
    pub prefill: Option<String>,
}

/// The state in terms of character sequences.
pub struct GreeterModel {
    pub mode: InputMode,
    pub prompt: Prompt,
    pub awaiting: Awaiting,
    pub username: Option<Seq<char>>,
    pub password: Option<Seq<char>>,
    pub session: Seq<char>,
    pub launch_line: Seq<char>,
    pub prefill: Option<Seq<char>>,
}

pub open spec fn opt_view(o: Option<String>) -> Option<Seq<char>> {
    match o {
        Some(s) => Some(s@),
        None => None,
    }
}

pub open spec fn words_view(v: Seq<String>) -> Seq<Seq<char>> {
    v.map_values(|w: String| w@)
}

impl Greeter {
    pub open spec fn view(&self) -> GreeterModel {
        GreeterModel {
            mode: self.mode,
            prompt: self.prompt,
            awaiting: self.awaiting,
            username: opt_view(self.username),
            password: opt_view(self.password),
            session: self.session@,
            launch_line: self.launch_line@,
            prefill: opt_view(self.prefill),
        }
    }
}

/// The state a run starts in.
pub open spec fn initial_model() -> GreeterModel {
    GreeterModel {
        mode: InputMode::ChoosingCommand,
        prompt: Prompt::Host,
        awaiting: Awaiting::Line,
        username: None,
        password: None,
        session: Seq::empty(),
        launch_line: Seq::empty(),
        prefill: None,
    }
}

/// `s` back at the top-level menu, with the attempt's data dropped.
pub open spec fn reset_model(s: GreeterModel) -> GreeterModel {
    GreeterModel {
        mode: InputMode::ChoosingCommand,
        prompt: Prompt::Host,
        awaiting: Awaiting::Line,
        username: None,
        password: None,
        launch_line: Seq::empty(),
        prefill: None,
        ..s
    }
}

pub open spec fn name_or_empty(u: Option<Seq<char>>) -> Seq<char> {
    match u {
        Some(n) => n,
        None => Seq::empty(),
    }
}

/// The top-level command `w`, typed at the menu of `s`.
pub open spec fn command_step(s: GreeterModel, w: Seq<char>, t: GreeterModel, a: Action) -> bool {
    if w == "clear"@ {
        t == s && a is ClearScreen
    } else if w == "loginwm"@ {
        t == (GreeterModel {
            mode: InputMode::EnteringUsernameForSession,
            prompt: Prompt::UserName,
            awaiting: Awaiting::IdentityFile,
            ..s
        }) && a is LoadIdentity
    } else if w == "loginshell"@ {
        t == (GreeterModel {
            mode: InputMode::EnteringUsernameForShell,
            prompt: Prompt::UserName,
            awaiting: Awaiting::IdentityFile,
            session: Seq::empty(),
            ..s
        }) && a is LoadIdentity
    } else if w == "showinfo"@ {
        t == (GreeterModel { awaiting: Awaiting::SessionPick, ..s }) && a is PickSession
    } else if w == "exit"@ {
        t == s && a == Action::Exit(Farewell::Requested)
    } else if w == "help"@ {
        t == s && a is ShowHelp
    } else {
        t == s && a == Action::Notify(Notice::NoSuchCommand)
    }
}

/// The line `l`, read in `s`.
pub open spec fn line_step(s: GreeterModel, l: Seq<char>, t: GreeterModel, a: Action) -> bool {
    match s.mode {
        InputMode::ChoosingCommand => if l == "s"@ {
            t == (GreeterModel { awaiting: Awaiting::CommandPick, ..s }) && a is PickCommand
        } else {
            command_step(s, l, t, a)
        },
        InputMode::EnteringUsernameForSession | InputMode::EnteringUsernameForShell => {
            t == (GreeterModel { username: Some(l), awaiting: Awaiting::Password, ..s })
                && a is AskPassword
        },
        InputMode::AwaitingLaunchLine => if tokens(l).len() == 0 {
            t == s && (a matches Action::MissingCommand(n) && n@ == name_or_empty(s.username))
        } else {
            t == (GreeterModel { awaiting: Awaiting::LoginOutcome, ..s }) && (a matches Action::Launch(
                p,
            ) && p.username@ == name_or_empty(s.username) && p.password@ == name_or_empty(
                s.password,
            ) && words_view(p.command@) == tokens(l) && p.session@ == s.session)
        },
    }
}

/// One transition: in state `s`, the event `e` (with the installed sessions
/// `entries`) leads to state `t` and the action `a`. An event that does not
/// answer what `s` waits for leaves the state as it is.
pub open spec fn transition(
    s: GreeterModel,
    e: Event,
    entries: Seq<DesktopEntry>,
    t: GreeterModel,
    a: Action,
) -> bool {
    match (s.awaiting, e) {
        (Awaiting::Line, Event::Line(l)) => line_step(s, l@, t, a),
        (Awaiting::Line, Event::Interrupted) => t == reset_model(s) && a == Action::Notify(
            Notice::Interrupted,
        ),
        (Awaiting::Line, Event::EndOfInput) => t == s && a == Action::Exit(Farewell::EndOfInput),
        (Awaiting::Line, Event::ReadFailed(m)) => t == s && (a matches Action::Exit(
            Farewell::ReadError(n),
        ) && n@ == m@),
        (Awaiting::CommandPick, Event::CommandPicked(None)) => t == (GreeterModel {
            awaiting: Awaiting::Line,
            ..s
        }) && a == Action::Notify(Notice::Cancelled),
        (Awaiting::CommandPick, Event::CommandPicked(Some(i))) => command_step(
            GreeterModel { awaiting: Awaiting::Line, ..s },
            command_words()[i as int],
            t,
            a,
        ),
        (Awaiting::SessionPick, Event::SessionPicked(None)) => t == (GreeterModel {
            awaiting: Awaiting::Line,
            ..s
        }) && a == Action::Notify(Notice::NoSessionChosen),
        (Awaiting::SessionPick, Event::SessionPicked(Some(i))) => {
            let d = entries[i as int];
            if s.mode == InputMode::ChoosingCommand {
                t == (GreeterModel { awaiting: Awaiting::Line, ..s }) && (a matches Action::ShowDescription(
                    c,
                ) && c@ == name_or_empty(opt_view(d.comment)))
            } else {
                t == (GreeterModel {
                    mode: InputMode::AwaitingLaunchLine,
                    prompt: Prompt::Command,
                    awaiting: Awaiting::Line,
                    session: d.name@,
                    launch_line: launch_line_of(d.name@, d.exec_command@),
                    ..s
                }) && a is ReadLine
            }
        },
        (Awaiting::Password, Event::Password(p)) => if s.mode
            == InputMode::EnteringUsernameForSession {
            t == (GreeterModel {
                password: Some(p@),
                awaiting: Awaiting::SessionPick,
                ..s
            }) && a is PickSession
        } else {
            t == (GreeterModel {
                password: Some(p@),
                mode: InputMode::AwaitingLaunchLine,
                prompt: Prompt::Shell,
                awaiting: Awaiting::Line,
                launch_line: Seq::empty(),
                ..s
            }) && a is ReadLine
        },
        (Awaiting::IdentityFile, Event::IdentityFile(c)) => t == (GreeterModel {
            prefill: recalled_file(opt_view(c)),
            awaiting: Awaiting::Line,
            ..s
        }) && a is ReadLine,
        (Awaiting::LoginOutcome, Event::LoginDone(LoginOutcome::Success)) => t == s && a
            == Action::Exit(Farewell::LoggedIn),
        (Awaiting::LoginOutcome, Event::LoginDone(LoginOutcome::Failure(m))) => t == reset_model(s)
            && (a matches Action::LoginFailed(n) && n@ == m@),
        (Awaiting::LoginOutcome, Event::LoginDone(LoginOutcome::Error(m))) => t == s && (a matches Action::Exit(
            Farewell::LoginError(n),
        ) && n@ == m@),
        _ => t == s && a is ReadLine,
    }
}

/// Indices carried by `e` are in range.
pub open spec fn event_ok(e: Event, entries: Seq<DesktopEntry>) -> bool {
    match e {
        Event::CommandPicked(Some(i)) => i < command_words().len(),
        Event::SessionPicked(Some(i)) => i < entries.len(),
        _ => true,
    }
}

impl Greeter {
    /// A machine at the top-level menu, with nothing entered yet.
    pub fn new() -> (r: Greeter)
        ensures
            r@ == initial_model(),
    {
        Greeter {
            mode: InputMode::ChoosingCommand,
            prompt: Prompt::Host,
            awaiting: Awaiting::Line,
            username: None,
            password: None,
            session: String::new(),
            launch_line: String::new(),
            prefill: None,
        }
    }

    /// How to read the next line. At the launch line the line offered is
    /// the launch line; elsewhere the pending pre-fill, which is used up.
    /// Hints are offered at the top-level menu only.
    pub fn read_request(&mut self) -> (r: ReadRequest)
        ensures
            r.prompt == old(self).prompt,
            r.hints == (old(self).mode == InputMode::ChoosingCommand),
            opt_view(r.initial) == if old(self).mode == InputMode::AwaitingLaunchLine {
                Some(old(self).launch_line@)
            } else {
                opt_view(old(self).prefill)
            },
            final(self)@ == (GreeterModel { prefill: None, ..old(self)@ }),
    {
        let pending = self.prefill.take();
        let initial = if self.mode == InputMode::AwaitingLaunchLine {
            Some(self.launch_line.clone())
        } else {
            pending
        };
        ReadRequest {
            prompt: self.prompt,
            initial,
            hints: self.mode == InputMode::ChoosingCommand,
        }
    }

    fn reset(&mut self)
        ensures
            final(self)@ == reset_model(old(self)@),
    {
        self.mode = InputMode::ChoosingCommand;
        self.prompt = Prompt::Host;
        self.awaiting = Awaiting::Line;
        self.username = None;
        self.password = None;
        self.launch_line = String::new();
        self.prefill = None;
    }

    fn command(&mut self, w: &str) -> (a: Action)
        ensures
            command_step(old(self)@, w@, final(self)@, a),
    {
        if same_text(w, "clear") {
            Action::ClearScreen
        } else if same_text(w, "loginwm") {
            self.mode = InputMode::EnteringUsernameForSession;
            self.prompt = Prompt::UserName;
            self.awaiting = Awaiting::IdentityFile;
            Action::LoadIdentity
        } else if same_text(w, "loginshell") {
            self.mode = InputMode::EnteringUsernameForShell;
            self.prompt = Prompt::UserName;
            self.awaiting = Awaiting::IdentityFile;
            self.session = String::new();
            Action::LoadIdentity
        } else if same_text(w, "showinfo") {
            self.awaiting = Awaiting::SessionPick;
            Action::PickSession
        } else if same_text(w, "exit") {
            Action::Exit(Farewell::Requested)
        } else if same_text(w, "help") {
            Action::ShowHelp
        } else {
            Action::Notify(Notice::NoSuchCommand)
        }
    }

    fn name_entered(&self) -> (r: String)
        ensures
            r@ == name_or_empty(opt_view(self.username)),
    {
        match &self.username {
            Some(n) => n.clone(),
            None => String::new(),
        }
    }

    fn password_entered(&self) -> (r: String)
        ensures
            r@ == name_or_empty(opt_view(self.password)),
    {
        match &self.password {
            Some(p) => p.clone(),
            None => String::new(),
        }
    }

    fn line(&mut self, l: String) -> (a: Action)
        ensures
            line_step(old(self)@, l@, final(self)@, a),
    {
        match self.mode {
            InputMode::ChoosingCommand => {
                if same_text(l.as_str(), "s") {
                    self.awaiting = Awaiting::CommandPick;
                    Action::PickCommand
                } else {
                    self.command(l.as_str())
                }
            },
            InputMode::EnteringUsernameForSession | InputMode::EnteringUsernameForShell => {
                self.username = Some(l);
                self.awaiting = Awaiting::Password;
                Action::AskPassword
            },
            InputMode::AwaitingLaunchLine => {
                let command = tokenize(l.as_str());
                if command.len() == 0 {
                    Action::MissingCommand(self.name_entered())
                } else {
                    let plan = LaunchPlan {
                        username: self.name_entered(),
                        password: self.password_entered(),
                        command,
                        session: self.session.clone(),
                    };
                    self.awaiting = Awaiting::LoginOutcome;
                    Action::Launch(plan)
                }
            },
        }
    }

    /// Takes the machine one transition further.
    pub fn step(&mut self, e: Event, entries: &Vec<DesktopEntry>) -> (a: Action)
        requires
            event_ok(e, entries@),
        ensures
            transition(old(self)@, e, entries@, final(self)@, a),
    {
        match e {
            Event::Line(l) => {
                if self.awaiting == Awaiting::Line {
                    self.line(l)
                } else {
                    Action::ReadLine
                }
            },
            Event::Interrupted => {
                if self.awaiting == Awaiting::Line {
                    self.reset();
                    Action::Notify(Notice::Interrupted)
                } else {
                    Action::ReadLine
                }
            },
            Event::EndOfInput => {
                if self.awaiting == Awaiting::Line {
                    Action::Exit(Farewell::EndOfInput)
                } else {
                    Action::ReadLine
                }
            },
            Event::ReadFailed(m) => {
                if self.awaiting == Awaiting::Line {
                    Action::Exit(Farewell::ReadError(m))
                } else {
                    Action::ReadLine
                }
            },
            Event::CommandPicked(pick) => {
                if self.awaiting == Awaiting::CommandPick {
                    self.awaiting = Awaiting::Line;
                    match pick {
                        None => Action::Notify(Notice::Cancelled),
                        Some(i) => {
                            let words = commands();
                            assert(words@[i as int]@ == command_words()[i as int]);
                            self.command(words[i].as_str())
                        },
                    }
                } else {
                    Action::ReadLine
                }
            },
            Event::SessionPicked(pick) => {
                if self.awaiting == Awaiting::SessionPick {
                    self.awaiting = Awaiting::Line;
                    match pick {
                        None => Action::Notify(Notice::NoSessionChosen),
                        Some(i) => {
                            let d = &entries[i];
                            if self.mode == InputMode::ChoosingCommand {
                                let c = match &d.comment {
                                    Some(c) => c.clone(),
                                    None => String::new(),
                                };
                                Action::ShowDescription(c)
                            } else {
                                self.mode = InputMode::AwaitingLaunchLine;
                                self.prompt = Prompt::Command;
                                self.session = d.name.clone();
                                self.launch_line = launch_line_for(
                                    d.name.as_str(),
                                    d.exec_command.as_str(),
                                );
                                Action::ReadLine
                            }
                        },
                    }
                } else {
                    Action::ReadLine
                }
            },
            Event::Password(p) => {
                if self.awaiting == Awaiting::Password {
                    self.password = Some(p);
                    if self.mode == InputMode::EnteringUsernameForSession {
                        self.awaiting = Awaiting::SessionPick;
                        Action::PickSession
                    } else {
                        self.mode = InputMode::AwaitingLaunchLine;
                        self.prompt = Prompt::Shell;
                        self.awaiting = Awaiting::Line;
                        self.launch_line = String::new();
                        Action::ReadLine
                    }
                } else {
                    Action::ReadLine
                }
            },
            Event::IdentityFile(c) => {
                if self.awaiting == Awaiting::IdentityFile {
                    self.prefill = match c {
                        Some(text) => recall(text.as_str()),
                        None => None,
                    };
                    self.awaiting = Awaiting::Line;
                    Action::ReadLine
                } else {
                    Action::ReadLine
                }
            },
            Event::LoginDone(outcome) => {
                if self.awaiting == Awaiting::LoginOutcome {
                    match outcome {
                        LoginOutcome::Success => Action::Exit(Farewell::LoggedIn),
                        LoginOutcome::Failure(m) => {
                            self.reset();
                            Action::LoginFailed(m)
                        },
                        LoginOutcome::Error(m) => Action::Exit(Farewell::LoginError(m)),
                    }
                } else {
                    Action::ReadLine
                }
            },
        }
    }
}

/// At the top-level menu, a line that is none of the command keywords (nor
/// the selector shortcut `s`) is answered with the no-such-command notice,
/// and the state does not change.
pub proof fn lemma_unknown_command(
    s: GreeterModel,
    line: String,
    entries: Seq<DesktopEntry>,
    t: GreeterModel,
    a: Action,
)
    requires
        s.mode == InputMode::ChoosingCommand,
        s.awaiting == Awaiting::Line,
        !hint_words().contains(line@),
        transition(s, Event::Line(line), entries, t, a),
    ensures
        t == s,
        a == Action::Notify(Notice::NoSuchCommand),
{
    assert(hint_words()[0] == "help"@);
    assert(hint_words()[1] == "loginwm"@);
    assert(hint_words()[2] == "loginshell"@);
    assert(hint_words()[3] == "showinfo"@);
    assert(hint_words()[4] == "clear"@);
    assert(hint_words()[5] == "exit"@);
    assert(hint_words()[6] == "s"@);
}

/// Cancelling the session selector, whether it was opened to log in or to
/// show a session's description, leaves the input mode as it was and never
/// starts a login.
pub proof fn lemma_session_cancel(
    s: GreeterModel,
    entries: Seq<DesktopEntry>,
    t: GreeterModel,
    a: Action,
)
    requires
        s.awaiting == Awaiting::SessionPick,
        transition(s, Event::SessionPicked(None), entries, t, a),
    ensures
        t.mode == s.mode,
        !(a is Launch),
        a == Action::Notify(Notice::NoSessionChosen),
{
}

/// A launch line of whitespace alone starts no login: the missing-command
/// notice comes, and the state stays where it was.
pub proof fn lemma_blank_launch_line(
    s: GreeterModel,
    line: String,
    entries: Seq<DesktopEntry>,
    t: GreeterModel,
    a: Action,
)
    requires
        s.mode == InputMode::AwaitingLaunchLine,
        s.awaiting == Awaiting::Line,
        forall|k: int| 0 <= k < line@.len() ==> is_ws(#[trigger] line@[k]),
        transition(s, Event::Line(line), entries, t, a),
    ensures
        t == s,
        a is MissingCommand,
{
    lemma_blank_has_no_tokens(line@);
}

/// Whatever the launch line, once a user name `name` was entered the
/// action at the launch line hands `name` over to be remembered; and when
/// the remembered file holds what was written for it, a fresh run's
/// `loginwm` pre-fills the name (trimmed) at the user name prompt.
pub proof fn lemma_identity_remembered(
    s: GreeterModel,
    name: Seq<char>,
    line: String,
    entries: Seq<DesktopEntry>,
    t: GreeterModel,
    a: Action,
    loginwm: String,
    t1: GreeterModel,
    a1: Action,
    contents: String,
    t2: GreeterModel,
    a2: Action,
)
    requires
        s.mode == InputMode::AwaitingLaunchLine,
        s.awaiting == Awaiting::Line,
        s.username == Some(name),
        transition(s, Event::Line(line), entries, t, a),
        trimmed(name).len() > 0,
        loginwm@ == "loginwm"@,
        transition(initial_model(), Event::Line(loginwm), entries, t1, a1),
        contents@ == stored(name),
        transition(t1, Event::IdentityFile(Some(contents)), entries, t2, a2),
    ensures
        (a matches Action::Launch(p) && p.username@ == name) || (a matches Action::MissingCommand(
            n,
        ) && n@ == name),
        a1 is LoadIdentity,
        t2.mode == InputMode::EnteringUsernameForSession,
        t2.prompt == Prompt::UserName,
        t2.prefill == Some(trimmed(name)),
{
    reveal_strlit("loginwm");
    reveal_strlit("s");
    reveal_strlit("clear");
    assert("loginwm"@.len() == 7 && "s"@.len() == 1 && "clear"@.len() == 5);
    assert(recalled(stored(name)) == Some(trimmed(name)));
}

/// The states the machine can reach: at the menu no attempt's data is
/// held; a name is held while a password is asked for; a name and a
/// password are held from the session choice on; and each pending
/// interaction belongs to the mode that asked for it.
pub open spec fn wf(s: GreeterModel) -> bool {
    &&& s.mode == InputMode::ChoosingCommand ==> s.username is None && s.password is None
        && s.launch_line.len() == 0
    &&& s.mode == InputMode::AwaitingLaunchLine ==> s.username is Some && s.password is Some
    &&& s.awaiting == Awaiting::CommandPick ==> s.mode == InputMode::ChoosingCommand
    &&& s.awaiting == Awaiting::IdentityFile || s.awaiting == Awaiting::Password ==> s.mode
        == InputMode::EnteringUsernameForSession || s.mode == InputMode::EnteringUsernameForShell
    &&& s.awaiting == Awaiting::Password ==> s.username is Some
    &&& s.awaiting == Awaiting::SessionPick ==> s.mode == InputMode::ChoosingCommand || (s.mode
        == InputMode::EnteringUsernameForSession && s.username is Some && s.password is Some)
    &&& s.awaiting == Awaiting::LoginOutcome ==> s.mode == InputMode::AwaitingLaunchLine
}

/// A run starts in a reachable state.
pub proof fn lemma_initial_wf()
    ensures
        wf(initial_model()),
{
}

/// Every transition from a reachable state leads to a reachable state.
pub proof fn lemma_transition_keeps_wf(
    s: GreeterModel,
    e: Event,
    entries: Seq<DesktopEntry>,
    t: GreeterModel,
    a: Action,
)
    requires
        wf(s),
        event_ok(e, entries),
        transition(s, e, entries, t, a),
    ensures
        wf(t),
{
}

} // verus!
