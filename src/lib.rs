//! Verified core of an interactive login greeter: the session-selection
//! state machine, the launch-line policy, the remembered-identity format and
//! the command hint table.

pub mod text;
pub mod hints;
pub mod remember;
pub mod launch;
pub mod machine;
