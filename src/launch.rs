//! How the command run for a chosen desktop session is assembled.

use vstd::prelude::*;
use crate::text::{starts_with_ignore_case, starts_with_ignoring_case};

verus! {

/// The prefix of a GNOME session's launch line: a Wayland session inside a
/// fresh message-bus session.
pub open spec fn gnome_wrapper() -> Seq<char> {
    "env XDG_SESSION_TYPE=wayland dbus-run-session "@
}

/// A session is a GNOME one when its name begins with `gnome`, in any case.
pub open spec fn is_gnome(name: Seq<char>) -> bool {
    starts_with_ignore_case(name, "gnome"@)
}

/// The launch line for the session `name` whose command is `command`.
pub open spec fn launch_line_of(name: Seq<char>, command: Seq<char>) -> Seq<char> {
    if is_gnome(name) {
        gnome_wrapper() + command
    } else {
        command
    }
}

/// The launch line offered for the session `name` whose command is `command`:
/// GNOME sessions are wrapped, any other runs its command as it stands.
/// The test is on the first five characters, each compared in ASCII case;
/// no other character lowers to one of `gnome`.
pub fn launch_line_for(name: &str, command: &str) -> (r: String)
    ensures
        r@ == launch_line_of(name@, command@),
{
    if starts_with_ignoring_case(name, "gnome") {
        let mut r = "env XDG_SESSION_TYPE=wayland dbus-run-session ".to_owned();
        r.append(command);
        r
    } else {
        command.to_owned()
    }
}

} // verus!
