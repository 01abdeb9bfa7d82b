//! The namespaces of a container, and the process handling in them: the
//! fork that enters the new PID namespace, the exit status that the waiting
//! parent passes on, and the reaping of orphaned children.
use vstd::prelude::*;
use crate::syscall::{
    Step, StepView, Syscall, SyscallView, c_str, c_string, silent, silent_step, texts,
    clone_newuts, clone_newns, clone_newpid, clone_newnet, clone_newuts_bits, clone_newns_bits,
    clone_newpid_bits, clone_newnet_bits,
};

verus! {

/// Creating new UTS, mount, PID and network namespaces.
pub open spec fn create_namespaces_spec() -> StepView {
    silent(
        SyscallView::Unshare {
            flags: clone_newuts_bits() | clone_newns_bits() | clone_newpid_bits()
                | clone_newnet_bits(),
        },
    )
}

/// Setting the host name of the UTS namespace to `hostname`, whose UTF-8
/// length in bytes is `len`.
pub open spec fn set_hostname_spec(hostname: Seq<char>, len: usize) -> StepView {
    StepView {
        call: SyscallView::SetHostname { name: c_str(hostname), len },
        before: seq![],
        on_success: seq!["sethostname successful"@],
        on_failure: None,
    }
}

/// The step that creates the container's namespaces.
pub fn create_namespaces() -> (s: Step)
    ensures
        s@ == create_namespaces_spec(),
{
    let flags = clone_newuts() | clone_newns() | clone_newpid() | clone_newnet();
    silent_step(Syscall::Unshare { flags })
}

/// The step that sets the host name of the current UTS namespace.
pub fn set_hostname(hostname: &str) -> (s: Step)
    ensures
        s@ == set_hostname_spec(hostname@, hostname.len()),
{
    let call = Syscall::SetHostname { name: c_string(hostname), len: hostname.len() };
    let mut on_success: Vec<String> = Vec::new();
    on_success.push(String::from_str("sethostname successful"));
    let s = Step { call, before: Vec::new(), on_success, on_failure: None };
    assert(texts(s.before@) =~= seq![]);
    assert(texts(s.on_success@) =~= seq!["sethostname successful"@]);
    s
}

/// Which process a `fork` left us in.
#[derive(Debug, PartialEq, Eq)]
pub enum ForkRole {
    /// The fork failed.
    Failed,
    /// The parent, with the child's process id.
    Parent(i32),
    /// The child.
    Child,
}

/// The role that `fork` returning `ret` gives.
pub open spec fn fork_role_spec(ret: i32) -> ForkRole {
    if ret < 0 {
        ForkRole::Failed
    } else if ret > 0 {
        ForkRole::Parent(ret)
    } else {
        ForkRole::Child
    }
}

/// The role of the current process after `fork` returned `ret`.
pub fn fork_role(ret: i32) -> (r: ForkRole)
    ensures
        r == fork_role_spec(ret),
{
    if ret < 0 {
        ForkRole::Failed
    } else if ret > 0 {
        ForkRole::Parent(ret)
    } else {
        ForkRole::Child
    }
}

/// Whether the status word of `waitpid` says that the process exited
/// normally (`WIFEXITED`).
pub open spec fn exited_normally(status: i32) -> bool {
    (status & 0x7f) == 0
}

/// The exit code in the status word of `waitpid` (`WEXITSTATUS`).
pub open spec fn exit_status(status: i32) -> i32 {
    (status >> 8) & 0xff
}

/// `libc::WIFEXITED`, which the crate defines for Linux as
/// `(status & 0x7f) == 0`.
#[verifier::external_body]
fn wifexited(status: i32) -> (r: bool)
    ensures
        r == exited_normally(status),
{
    libc::WIFEXITED(status)
}

/// `libc::WEXITSTATUS`, which the crate defines for Linux as
/// `(status >> 8) & 0xff`.
#[verifier::external_body]
fn wexitstatus(status: i32) -> (r: i32)
    ensures
        r == exit_status(status),
{
    libc::WEXITSTATUS(status)
}

/// The code that a child with the status word `status` exited with: its
/// exit code if it exited normally, 1 if it ended otherwise.
pub open spec fn parent_exit_code(status: i32) -> i32 {
    if exited_normally(status) {
        exit_status(status)
    } else {
        1
    }
}

/// The code with which the waiting parent exits, given what `waitpid`
/// returned, `waited`, and the status word it filled in: 1 when the wait
/// failed (`waitpid` returns -1, and the status word then says nothing), else
/// the exit status of the child that the status word describes.
pub open spec fn wait_result_code(waited: i32, status: i32) -> i32 {
    if waited < 0 {
        1
    } else {
        parent_exit_code(status)
    }
}

/// The exit code that waiting for a child yields, given what `waitpid`
/// returned and the status word it filled in.
pub fn wait_status_code(waited: i32, status: i32) -> (code: i32)
    ensures
        code == wait_result_code(waited, status),
        0 <= code <= 255,
{
    assert((status >> 8) & 0xff <= 255) by (bit_vector);
    assert(0 <= (status >> 8) & 0xff) by (bit_vector);
    if waited < 0 {
        1
    } else if wifexited(status) {
        wexitstatus(status)
    } else {
        1
    }
}

/// Whether the reaper of orphaned children goes on after `waitpid` with
/// `WNOHANG` returned `ret`: only a reaped child (`ret > 0`) lets it go on;
/// 0 (no zombie left) and -1 (an error) end it.
pub fn keep_reaping(ret: i32) -> (more: bool)
    ensures
        more == (ret > 0),
{
    ret > 0
}

/// The value of `libc::SIGCHLD`.
pub open spec fn sigchld_bits() -> i32 {
    17
}

/// The value of `libc::SA_RESTART`.
pub open spec fn sa_restart_bits() -> i32 {
    0x1000_0000
}

/// The value of `libc::SA_NOCLDSTOP`.
pub open spec fn sa_nocldstop_bits() -> i32 {
    1
}

/// The value of `libc::WNOHANG`.
pub open spec fn wnohang_bits() -> i32 {
    1
}

/// `libc::SIGCHLD`: the crate defines it as `17` for Linux with glibc
/// (`src/new/glibc/sysdeps/unix/linux/bits/signum_arch.rs`).
#[verifier::external_body]
fn sigchld() -> (r: i32)
    ensures
        r == sigchld_bits(),
{
    libc::SIGCHLD
}

/// `libc::SA_RESTART`: the crate defines it as `0x10000000` for Linux with
/// glibc (`src/new/glibc/sysdeps/unix/linux/bits/sigaction.rs`).
#[verifier::external_body]
fn sa_restart() -> (r: i32)
    ensures
        r == sa_restart_bits(),
{
    libc::SA_RESTART
}

/// `libc::SA_NOCLDSTOP`: the crate defines it as `0x00000001` for Linux with
/// glibc (`src/new/glibc/sysdeps/unix/linux/bits/sigaction.rs`).
#[verifier::external_body]
fn sa_nocldstop() -> (r: i32)
    ensures
        r == sa_nocldstop_bits(),
{
    libc::SA_NOCLDSTOP
}

/// `libc::WNOHANG`: the crate defines it as `0x00000001` for Linux.
#[verifier::external_body]
fn wnohang() -> (r: i32)
    ensures
        r == wnohang_bits(),
{
    libc::WNOHANG
}

/// How the reaper of orphaned children is installed: the signal it handles
/// (`SIGCHLD`), the flags of its `sigaction` (`SA_RESTART`, so that
/// interrupted calls go on, and `SA_NOCLDSTOP`, so that stopped children do
/// not call it), and the signals blocked while it runs (its `sa_mask`).
#[derive(Debug, PartialEq, Eq)]
pub struct ReaperSetup {
    pub signal: i32,
    pub flags: i32,
    pub blocked: Vec<i32>,
}

/// The installation of the reaper: for `SIGCHLD`, with `SA_RESTART` and
/// `SA_NOCLDSTOP`, and with an empty signal mask, so that no signal is
/// blocked while it runs.
pub fn reaper_setup() -> (r: ReaperSetup)
    ensures
        r.signal == sigchld_bits(),
        r.flags == sa_restart_bits() | sa_nocldstop_bits(),
        r.blocked@ == Seq::<i32>::empty(),
{
    ReaperSetup { signal: sigchld(), flags: sa_restart() | sa_nocldstop(), blocked: Vec::new() }
}

/// The arguments of the reaper's `waitpid`: any child (`-1`), without
/// blocking (`WNOHANG`).
pub fn reap_wait_args() -> (r: (i32, i32))
    ensures
        r == (-1i32, wnohang_bits()),
{
    (-1, wnohang())
}

} // verus!
