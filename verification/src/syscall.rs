//! The operations on the host that a container's set-up and tear-down are
//! made of, described as plain values, and the steps that report them.
//!
//! Text handed to the C library is held with its terminating NUL character,
//! exactly as the bytes that the call reads.
use vstd::prelude::*;

verus! {

/// `Some(s@)` for `Some(s)`.
pub open spec fn opt_view(o: Option<String>) -> Option<Seq<char>> {
    match o {
        Some(s) => Some(s@),
        None => None,
    }
}

/// The texts of a list of strings.
pub open spec fn texts(v: Seq<String>) -> Seq<Seq<char>> {
    v.map_values(|s: String| s@)
}

/// One operation on the host.
#[derive(Debug, PartialEq, Eq)]
pub enum Syscall {
    /// `mount(2)`; `None` stands for a null pointer.
    Mount {
        source: Option<String>,
        target: String,
        fstype: Option<String>,
        mountflags: u64,
        data: Option<String>,
    },
    /// `mkdir(2)`.
    Mkdir { path: String, mode: u32 },
    /// `chdir(2)`.
    Chdir { path: String },
    /// The `pivot_root(2)` system call.
    PivotRoot { new_root: String, put_old: String },
    /// `umount2(2)`.
    Umount2 { target: String, flags: i32 },
    /// `rmdir(2)`.
    Rmdir { path: String },
    /// `unshare(2)`.
    Unshare { flags: i32 },
    /// `sethostname(2)` with the name and the byte length passed.
    SetHostname { name: String, len: usize },
    /// Replace the contents of a file (`std::fs::write`).
    WriteFile { path: String, contents: String },
    /// Create a directory and its parents (`std::fs::create_dir_all`).
    CreateDirAll { path: String },
    /// Create a directory and its parents unless the path exists already.
    EnsureDir { path: String },
    /// Remove a directory tree if it exists (`std::fs::remove_dir_all`).
    RemoveTreeIfExists { tree: String },
}

/// What a [`Syscall`] is, with its text as characters.
pub enum SyscallView {
    Mount {
        source: Option<Seq<char>>,
        target: Seq<char>,
        fstype: Option<Seq<char>>,
        mountflags: u64,
        data: Option<Seq<char>>,
    },
    Mkdir { path: Seq<char>, mode: u32 },
    Chdir { path: Seq<char> },
    PivotRoot { new_root: Seq<char>, put_old: Seq<char> },
    Umount2 { target: Seq<char>, flags: i32 },
    Rmdir { path: Seq<char> },
    Unshare { flags: i32 },
    SetHostname { name: Seq<char>, len: usize },
    WriteFile { path: Seq<char>, contents: Seq<char> },
    CreateDirAll { path: Seq<char> },
    EnsureDir { path: Seq<char> },
    RemoveTreeIfExists { tree: Seq<char> },
}

impl View for Syscall {
    type V = SyscallView;

    open spec fn view(&self) -> SyscallView {
        match self {
            Syscall::Mount { source, target, fstype, mountflags, data } => SyscallView::Mount {
                source: opt_view(*source),
                target: target@,
                fstype: opt_view(*fstype),
                mountflags: *mountflags,
                data: opt_view(*data),
            },
            Syscall::Mkdir { path, mode } => SyscallView::Mkdir { path: path@, mode: *mode },
            Syscall::Chdir { path } => SyscallView::Chdir { path: path@ },
            Syscall::PivotRoot { new_root, put_old } => SyscallView::PivotRoot {
                new_root: new_root@,
                put_old: put_old@,
            },
            Syscall::Umount2 { target, flags } => SyscallView::Umount2 {
                target: target@,
                flags: *flags,
            },
            Syscall::Rmdir { path } => SyscallView::Rmdir { path: path@ },
            Syscall::Unshare { flags } => SyscallView::Unshare { flags: *flags },
            Syscall::SetHostname { name, len } => SyscallView::SetHostname {
                name: name@,
                len: *len,
            },
            Syscall::WriteFile { path, contents } => SyscallView::WriteFile {
                path: path@,
                contents: contents@,
            },
            Syscall::CreateDirAll { path } => SyscallView::CreateDirAll { path: path@ },
            Syscall::EnsureDir { path } => SyscallView::EnsureDir { path: path@ },
            Syscall::RemoveTreeIfExists { tree } => SyscallView::RemoveTreeIfExists {
                tree: tree@,
            },
        }
    }
}

/// An operation together with what is printed around it: `before` on
/// standard output ahead of the call, `on_success` on standard output when
/// the call did its work, and, when it fails, `on_failure` followed by `": "`
/// and the error on standard error (nothing when `on_failure` is `None`).
#[derive(Debug, PartialEq, Eq)]
pub struct Step {
    pub call: Syscall,
    pub before: Vec<String>,
    pub on_success: Vec<String>,
    pub on_failure: Option<String>,
}

pub struct StepView {
    pub call: SyscallView,
    pub before: Seq<Seq<char>>,
    pub on_success: Seq<Seq<char>>,
    pub on_failure: Option<Seq<char>>,
}

impl View for Step {
    type V = StepView;

    open spec fn view(&self) -> StepView {
        StepView {
            call: self.call@,
            before: texts(self.before@),
            on_success: texts(self.on_success@),
            on_failure: opt_view(self.on_failure),
        }
    }
}

/// A step that prints nothing.
pub open spec fn silent(call: SyscallView) -> StepView {
    StepView { call, before: seq![], on_success: seq![], on_failure: None }
}

/// The step that makes a C library call and reports it as `operation`:
/// `"<operation> successful"` when it returns 0, `"<operation> failed: <error>"`
/// otherwise.
pub open spec fn checked(call: SyscallView, operation: Seq<char>) -> StepView {
    StepView {
        call,
        before: seq![],
        on_success: seq![operation + " successful"@],
        on_failure: Some(operation + " failed"@),
    }
}

/// A step that prints nothing.
pub fn silent_step(call: Syscall) -> (s: Step)
    ensures
        s@ == silent(call@),
{
    let s = Step { call, before: Vec::new(), on_success: Vec::new(), on_failure: None };
    assert(texts(s.before@) =~= seq![]);
    assert(texts(s.on_success@) =~= seq![]);
    s
}

/// The step that makes `call` and reports it under the name `operation`, as
/// a C library call whose result is checked.
pub fn check_libc_result(call: Syscall, operation: &str) -> (s: Step)
    ensures
        s@ == checked(call@, operation@),
{
    let success = String::from_str(operation).concat(" successful");
    let failure = String::from_str(operation).concat(" failed");
    let mut on_success: Vec<String> = Vec::new();
    on_success.push(success);
    let s = Step { call, before: Vec::new(), on_success, on_failure: Some(failure) };
    assert(texts(s.before@) =~= seq![]);
    assert(texts(s.on_success@) =~= seq![operation@ + " successful"@]);
    s
}

/// Whether a C library call that returned `result` succeeded: 0 is success,
/// any other value a failure whose cause is in `errno`.
pub fn call_succeeded(result: i32) -> (ok: bool)
    ensures
        ok == (result == 0),
{
    result == 0
}

/// `s` followed by a NUL character: the bytes of a C string.
pub open spec fn c_str(s: Seq<char>) -> Seq<char> {
    s + "\0"@
}

/// `s` as a C string.
pub fn c_string(s: &str) -> (r: String)
    ensures
        r@ == c_str(s@),
{
    String::from_str(s).concat("\0")
}

/// The value of `libc::MS_REC`.
pub open spec fn ms_rec_bits() -> u64 {
    0x4000
}

/// The value of `libc::MS_PRIVATE`.
pub open spec fn ms_private_bits() -> u64 {
    0x40000
}

/// The value of `libc::MS_BIND`.
pub open spec fn ms_bind_bits() -> u64 {
    0x1000
}

/// The value of `libc::MNT_DETACH`.
pub open spec fn mnt_detach_bits() -> i32 {
    2
}

/// The value of `libc::CLONE_NEWUTS`.
pub open spec fn clone_newuts_bits() -> i32 {
    0x0400_0000
}

/// The value of `libc::CLONE_NEWNS`.
pub open spec fn clone_newns_bits() -> i32 {
    0x2_0000
}

/// The value of `libc::CLONE_NEWPID`.
pub open spec fn clone_newpid_bits() -> i32 {
    0x2000_0000
}

/// The value of `libc::CLONE_NEWNET`.
pub open spec fn clone_newnet_bits() -> i32 {
    0x4000_0000
}

/// `libc::MS_REC`: the crate defines it as `0x4000` for Linux.
#[verifier::external_body]
pub(crate) fn ms_rec() -> (r: u64)
    ensures
        r == ms_rec_bits(),
{
    libc::MS_REC
}

/// `libc::MS_PRIVATE`: the crate defines it as `0x040000` for Linux.
#[verifier::external_body]
pub(crate) fn ms_private() -> (r: u64)
    ensures
        r == ms_private_bits(),
{
    libc::MS_PRIVATE
}

/// `libc::MS_BIND`: the crate defines it as `0x1000` for Linux.
#[verifier::external_body]
pub(crate) fn ms_bind() -> (r: u64)
    ensures
        r == ms_bind_bits(),
{
    libc::MS_BIND
}

/// `libc::MNT_DETACH`: the crate defines it as `0x2` for Linux.
#[verifier::external_body]
pub(crate) fn mnt_detach() -> (r: i32)
    ensures
        r == mnt_detach_bits(),
{
    libc::MNT_DETACH
}

/// `libc::CLONE_NEWUTS`: the crate defines it as `0x04000000` for Linux.
#[verifier::external_body]
pub(crate) fn clone_newuts() -> (r: i32)
    ensures
        r == clone_newuts_bits(),
{
    libc::CLONE_NEWUTS
}

/// `libc::CLONE_NEWNS`: the crate defines it as `0x20000` for Linux.
#[verifier::external_body]
pub(crate) fn clone_newns() -> (r: i32)
    ensures
        r == clone_newns_bits(),
{
    libc::CLONE_NEWNS
}

/// `libc::CLONE_NEWPID`: the crate defines it as `0x20000000` for Linux.
#[verifier::external_body]
pub(crate) fn clone_newpid() -> (r: i32)
    ensures
        r == clone_newpid_bits(),
{
    libc::CLONE_NEWPID
}

/// `libc::CLONE_NEWNET`: the crate defines it as `0x40000000` for Linux.
#[verifier::external_body]
pub(crate) fn clone_newnet() -> (r: i32)
    ensures
        r == clone_newnet_bits(),
{
    libc::CLONE_NEWNET
}

} // verus!
