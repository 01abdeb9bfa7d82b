//! The container's network, set up by an outside script that is given the
//! process id of the container's first process.
use vstd::prelude::*;
use crate::decimal::{decimal, signed_decimal, render_i32, render_u32};
use crate::syscall::texts;

verus! {

/// `{:?}` of an optional exit code: `Some(<code>)` or `None`.
pub open spec fn debug_exit_code(code: Option<i32>) -> Seq<char> {
    match code {
        Some(c) => "Some("@ + signed_decimal(c as int) + ")"@,
        None => "None"@,
    }
}

/// What the network set-up yields once the script ran: nothing when it
/// succeeded, else the message that names its exit code.
pub open spec fn network_outcome(success: bool, code: Option<i32>) -> Result<(), Seq<char>> {
    if success {
        Ok(())
    } else {
        Err("Network setup failed with exit code: "@ + debug_exit_code(code))
    }
}

/// The arguments that the network script is run with: the child's process id.
pub fn network_setup_args(child_pid: u32) -> (args: Vec<String>)
    ensures
        texts(args@) == seq![decimal(child_pid as nat)],
{
    let mut args: Vec<String> = Vec::new();
    args.push(render_u32(child_pid));
    assert(texts(args@) =~= seq![decimal(child_pid as nat)]);
    args
}

/// The result of the network set-up, given whether the script's exit status
/// was a success and the exit code it had, if any.
pub fn setup_network_outcome(success: bool, code: Option<i32>) -> (r: Result<(), String>)
    ensures
        match (r, network_outcome(success, code)) {
            (Ok(()), Ok(())) => true,
            (Err(m), Err(n)) => m@ == n,
            _ => false,
        },
{
    if success {
        Ok(())
    } else {
        let shown = match code {
            Some(c) => String::from_str("Some(").concat(render_i32(c).as_str()).concat(")"),
            None => String::from_str("None"),
        };
        Err(String::from_str("Network setup failed with exit code: ").concat(shown.as_str()))
    }
}

/// The message when the network script could not be run at all.
pub fn network_spawn_failure(error: &str) -> (m: String)
    ensures
        m@ == "Failed to execute network setup script: "@ + error@,
{
    String::from_str("Failed to execute network setup script: ").concat(error)
}

} // verus!
