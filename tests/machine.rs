use marine_cli::machine::{
    help_text, Action, Awaiting, DesktopEntry, Event, Farewell, Greeter, InputMode, LoginOutcome,
    Notice, Prompt,
};

fn entries() -> Vec<DesktopEntry> {
    vec![
        DesktopEntry {
            name: "Sway".to_string(),
            exec_command: "sway".to_string(),
            comment: Some("An i3-compatible Wayland compositor".to_string()),
        },
        DesktopEntry {
            name: "GNOME Classic".to_string(),
            exec_command: "gnome-session --session=gnome-classic".to_string(),
            comment: None,
        },
    ]
}

fn line(s: &str) -> Event {
    Event::Line(s.to_string())
}

fn same_state(a: &Greeter, b: &Greeter) -> bool {
    a.mode == b.mode
        && a.prompt == b.prompt
        && a.awaiting == b.awaiting
        && a.username == b.username
        && a.password == b.password
        && a.session == b.session
        && a.launch_line == b.launch_line
        && a.prefill == b.prefill
}

/// Drives `loginwm` up to the launch line, choosing the session at `index`.
fn to_launch_line(g: &mut Greeter, es: &Vec<DesktopEntry>, index: usize) {
    assert!(matches!(g.step(line("loginwm"), es), Action::LoadIdentity));
    assert!(matches!(g.step(Event::IdentityFile(None), es), Action::ReadLine));
    assert!(matches!(g.step(line("bob"), es), Action::AskPassword));
    assert!(matches!(g.step(Event::Password("pw".to_string()), es), Action::PickSession));
    assert!(matches!(g.step(Event::SessionPicked(Some(index)), es), Action::ReadLine));
}

#[test]
fn starts_at_menu() {
    let g = Greeter::new();
    assert_eq!(g.mode, InputMode::ChoosingCommand);
    assert_eq!(g.prompt, Prompt::Host);
    assert_eq!(g.awaiting, Awaiting::Line);
    assert_eq!(g.username, None);
    assert_eq!(g.launch_line, "");
}

#[test]
fn unknown_command_is_reported() {
    let es = entries();
    for input in ["foo", "", "Exit", "loginwm ", "ss"] {
        let mut g = Greeter::new();
        let before = g.clone();
        let a = g.step(line(input), &es);
        assert!(matches!(a, Action::Notify(Notice::NoSuchCommand)));
        assert!(same_state(&g, &before));
    }
    assert_eq!(Notice::NoSuchCommand.message(), "no such command");
}

#[test]
fn simple_commands() {
    let es = entries();
    let mut g = Greeter::new();
    assert!(matches!(g.step(line("clear"), &es), Action::ClearScreen));
    assert!(matches!(g.step(line("help"), &es), Action::ShowHelp));
    assert!(matches!(g.step(line("exit"), &es), Action::Exit(Farewell::Requested)));
    assert_eq!(g.mode, InputMode::ChoosingCommand);
    assert!(help_text().contains("use 'loginwm' to login the wm"));
}

#[test]
fn hints_only_at_menu() {
    let es = entries();
    let mut g = Greeter::new();
    assert!(g.read_request().hints);
    g.step(line("loginshell"), &es);
    assert!(!g.read_request().hints);
}

#[test]
fn shortcut_cancel_changes_nothing() {
    let es = entries();
    let mut g = Greeter::new();
    let before = g.clone();
    assert!(matches!(g.step(line("s"), &es), Action::PickCommand));
    let a = g.step(Event::CommandPicked(None), &es);
    assert!(matches!(a, Action::Notify(Notice::Cancelled)));
    assert_eq!(Notice::Cancelled.message(), "cancel");
    assert!(same_state(&g, &before));
}

#[test]
fn shortcut_pick_runs_command() {
    let es = entries();
    let mut g = Greeter::new();
    g.step(line("s"), &es);
    let a = g.step(Event::CommandPicked(Some(1)), &es);
    assert!(matches!(a, Action::LoadIdentity));
    assert_eq!(g.mode, InputMode::EnteringUsernameForShell);
    assert_eq!(g.prompt, Prompt::UserName);
}

#[test]
fn showinfo_prints_description() {
    let es = entries();
    let mut g = Greeter::new();
    assert!(matches!(g.step(line("showinfo"), &es), Action::PickSession));
    match g.step(Event::SessionPicked(Some(0)), &es) {
        Action::ShowDescription(d) => assert_eq!(d, "An i3-compatible Wayland compositor"),
        other => panic!("unexpected {:?}", other),
    }
    g.step(line("showinfo"), &es);
    match g.step(Event::SessionPicked(Some(1)), &es) {
        Action::ShowDescription(d) => assert_eq!(d, ""),
        other => panic!("unexpected {:?}", other),
    }
    assert_eq!(g.mode, InputMode::ChoosingCommand);
}

#[test]
fn showinfo_cancel_stays_at_menu() {
    let es = entries();
    let mut g = Greeter::new();
    g.step(line("showinfo"), &es);
    let a = g.step(Event::SessionPicked(None), &es);
    assert!(matches!(a, Action::Notify(Notice::NoSessionChosen)));
    assert_eq!(g.mode, InputMode::ChoosingCommand);
    assert_eq!(g.awaiting, Awaiting::Line);
}

#[test]
fn login_session_cancel_does_not_advance() {
    let es = entries();
    let mut g = Greeter::new();
    g.step(line("loginwm"), &es);
    g.step(Event::IdentityFile(None), &es);
    g.step(line("bob"), &es);
    g.step(Event::Password("pw".to_string()), &es);
    let a = g.step(Event::SessionPicked(None), &es);
    assert!(matches!(a, Action::Notify(Notice::NoSessionChosen)));
    assert_eq!(g.mode, InputMode::EnteringUsernameForSession);
    assert_eq!(g.awaiting, Awaiting::Line);
}

#[test]
fn loginwm_prefills_remembered_name_once() {
    let es = entries();
    let mut g = Greeter::new();
    g.step(line("loginwm"), &es);
    g.step(Event::IdentityFile(Some(" alice\n".to_string())), &es);
    let r = g.read_request();
    assert_eq!(r.prompt, Prompt::UserName);
    assert_eq!(r.initial, Some("alice".to_string()));
    assert_eq!(g.read_request().initial, None);
}

#[test]
fn blank_identity_file_gives_no_prefill() {
    let es = entries();
    let mut g = Greeter::new();
    g.step(line("loginwm"), &es);
    g.step(Event::IdentityFile(Some("  \n".to_string())), &es);
    assert_eq!(g.read_request().initial, None);
}

#[test]
fn sway_scenario_then_retry() {
    let es = entries();
    let mut g = Greeter::new();
    to_launch_line(&mut g, &es, 0);
    assert_eq!(g.mode, InputMode::AwaitingLaunchLine);
    assert_eq!(g.prompt, Prompt::Command);
    assert_eq!(g.session, "Sway");
    assert_eq!(g.read_request().initial, Some("sway".to_string()));
    match g.step(line("sway"), &es) {
        Action::Launch(p) => {
            assert_eq!(p.username, "bob");
            assert_eq!(p.password, "pw");
            assert_eq!(p.command, vec!["sway".to_string()]);
            assert_eq!(p.session, "Sway");
        }
        other => panic!("unexpected {:?}", other),
    }
    let a = g.step(Event::LoginDone(LoginOutcome::Failure("bad password".to_string())), &es);
    match a {
        Action::LoginFailed(m) => assert_eq!(m, "bad password"),
        other => panic!("unexpected {:?}", other),
    }
    assert_eq!(g.mode, InputMode::ChoosingCommand);
    assert_eq!(g.prompt, Prompt::Host);
    assert_eq!(g.username, None);
    assert_eq!(g.password, None);
    assert_eq!(g.launch_line, "");
    to_launch_line(&mut g, &es, 0);
    assert!(matches!(g.step(line("sway"), &es), Action::Launch(_)));
    let a = g.step(Event::LoginDone(LoginOutcome::Success), &es);
    assert!(matches!(a, Action::Exit(Farewell::LoggedIn)));
}

#[test]
fn gnome_session_launch_line_is_wrapped() {
    let es = entries();
    let mut g = Greeter::new();
    to_launch_line(&mut g, &es, 1);
    assert_eq!(
        g.launch_line,
        "env XDG_SESSION_TYPE=wayland dbus-run-session gnome-session --session=gnome-classic"
    );
    match g.step(line(&g.launch_line.clone()), &es) {
        Action::Launch(p) => assert_eq!(
            p.command,
            vec!["env", "XDG_SESSION_TYPE=wayland", "dbus-run-session", "gnome-session", "--session=gnome-classic"]
        ),
        other => panic!("unexpected {:?}", other),
    }
}

#[test]
fn loginshell_runs_typed_command() {
    let es = entries();
    let mut g = Greeter::new();
    g.step(line("loginshell"), &es);
    g.step(Event::IdentityFile(None), &es);
    g.step(line("carol"), &es);
    let a = g.step(Event::Password("secret".to_string()), &es);
    assert!(matches!(a, Action::ReadLine));
    assert_eq!(g.mode, InputMode::AwaitingLaunchLine);
    assert_eq!(g.prompt, Prompt::Shell);
    assert_eq!(g.read_request().initial, Some(String::new()));
    match g.step(line("  bash   -l "), &es) {
        Action::Launch(p) => {
            assert_eq!(p.username, "carol");
            assert_eq!(p.password, "secret");
            assert_eq!(p.command, vec!["bash", "-l"]);
            assert_eq!(p.session, "");
        }
        other => panic!("unexpected {:?}", other),
    }
}

#[test]
fn blank_launch_line_reports_missing_command() {
    let es = entries();
    let mut g = Greeter::new();
    to_launch_line(&mut g, &es, 0);
    let before = g.clone();
    match g.step(line("    "), &es) {
        Action::MissingCommand(n) => assert_eq!(n, "bob"),
        other => panic!("unexpected {:?}", other),
    }
    assert!(same_state(&g, &before));
    assert_eq!(Notice::MissingCommand.message(), "Miss Shell Command");
}

#[test]
fn double_spaces_give_same_command() {
    let es = entries();
    let mut g1 = Greeter::new();
    to_launch_line(&mut g1, &es, 0);
    let mut g2 = g1.clone();
    let c1 = match g1.step(line("sway  --debug"), &es) {
        Action::Launch(p) => p.command,
        other => panic!("unexpected {:?}", other),
    };
    let c2 = match g2.step(line("sway --debug"), &es) {
        Action::Launch(p) => p.command,
        other => panic!("unexpected {:?}", other),
    };
    assert_eq!(c1, c2);
}

#[test]
fn login_error_ends_program() {
    let es = entries();
    let mut g = Greeter::new();
    to_launch_line(&mut g, &es, 0);
    g.step(line("sway"), &es);
    match g.step(Event::LoginDone(LoginOutcome::Error("no socket".to_string())), &es) {
        Action::Exit(Farewell::LoginError(m)) => assert_eq!(m, "no socket"),
        other => panic!("unexpected {:?}", other),
    }
}

#[test]
fn interrupt_resets_to_menu() {
    let es = entries();
    let mut g = Greeter::new();
    to_launch_line(&mut g, &es, 0);
    let a = g.step(Event::Interrupted, &es);
    assert!(matches!(a, Action::Notify(Notice::Interrupted)));
    assert_eq!(Notice::Interrupted.message(), "CTRL-C\nCancel to select");
    assert_eq!(g.mode, InputMode::ChoosingCommand);
    assert_eq!(g.prompt, Prompt::Host);
    assert_eq!(g.username, None);
    assert_eq!(g.password, None);
    assert_eq!(g.launch_line, "");
}

#[test]
fn end_of_input_and_read_failure_end_program() {
    let es = entries();
    let mut g = Greeter::new();
    assert!(matches!(g.step(Event::EndOfInput, &es), Action::Exit(Farewell::EndOfInput)));
    match g.step(Event::ReadFailed("tty gone".to_string()), &es) {
        Action::Exit(Farewell::ReadError(m)) => assert_eq!(m, "tty gone"),
        other => panic!("unexpected {:?}", other),
    }
}

#[test]
fn unexpected_event_is_ignored() {
    let es = entries();
    let mut g = Greeter::new();
    let before = g.clone();
    assert!(matches!(g.step(Event::Password("x".to_string()), &es), Action::ReadLine));
    assert!(matches!(g.step(Event::SessionPicked(Some(0)), &es), Action::ReadLine));
    assert!(same_state(&g, &before));
}

#[test]
fn remembered_name_prefills_next_run() {
    let es = entries();
    let mut g = Greeter::new();
    to_launch_line(&mut g, &es, 0);
    let written = match g.step(line("sway"), &es) {
        Action::Launch(p) => marine_cli::remember::contents_for(&p.username),
        other => panic!("unexpected {:?}", other),
    };
    g.step(Event::LoginDone(LoginOutcome::Failure("denied".to_string())), &es);
    let mut fresh = Greeter::new();
    assert!(matches!(fresh.step(line("loginwm"), &es), Action::LoadIdentity));
    fresh.step(Event::IdentityFile(Some(written)), &es);
    let r = fresh.read_request();
    assert_eq!(r.prompt, Prompt::UserName);
    assert_eq!(r.initial, Some("bob".to_string()));
}

#[test]
fn launch_line_offered_again_after_blank_line() {
    let es = entries();
    let mut g = Greeter::new();
    to_launch_line(&mut g, &es, 0);
    g.step(line(""), &es);
    let r = g.read_request();
    assert_eq!(r.prompt, Prompt::Command);
    assert_eq!(r.initial, Some("sway".to_string()));
    assert!(!r.hints);
}
