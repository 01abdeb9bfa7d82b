//! A cgroup (version 2) of the container: the writes to its control files
//! that limit memory, CPU time and the number of processes, or add a process
//! to it, and the reading of its process list when it is released.
use vstd::prelude::*;
use crate::decimal::{decimal, signed_decimal, render_i32, render_u32};
use crate::syscall::{Syscall, SyscallView};
use crate::text::{listed_numbers, numbers_listed, listed_numbers_of_decimal};

verus! {

/// A cgroup under `/sys/fs/cgroup`.
#[derive(Debug, PartialEq, Eq)]
pub struct Cgroup {
    pub name: String,
    pub path: String,
}

/// The directory of the cgroup called `name`.
pub open spec fn cgroup_dir(name: Seq<char>) -> Seq<char> {
    "/sys/fs/cgroup/"@ + name
}

/// The control file `file` of the cgroup at `path`.
pub open spec fn control_file(path: Seq<char>, file: Seq<char>) -> Seq<char> {
    path + "/"@ + file
}

/// The write of `contents` to the control file `file` of the cgroup at `path`.
pub open spec fn control_write(path: Seq<char>, file: Seq<char>, contents: Seq<char>) -> SyscallView {
    SyscallView::WriteFile { path: control_file(path, file), contents }
}

/// The write that adds the process `pid` to the cgroup at `path`.
pub open spec fn add_process_write(path: Seq<char>, pid: u32) -> SyscallView {
    control_write(path, "cgroup.procs"@, decimal(pid as nat))
}

impl Cgroup {
    /// The cgroup called `name`, at `/sys/fs/cgroup/<name>`. The directory is
    /// made with [`Cgroup::directory`].
    pub fn new(name: &str) -> (c: Cgroup)
        ensures
            c.name@ == name@,
            c.path@ == cgroup_dir(name@),
    {
        let path = String::from_str("/sys/fs/cgroup/").concat(name);
        Cgroup { name: String::from_str(name), path }
    }

    /// Creating the cgroup's directory unless it exists, so that a cgroup can
    /// be taken up again by another process.
    pub fn directory(&self) -> (s: Syscall)
        ensures
            s@ == (SyscallView::EnsureDir { path: self.path@ }),
    {
        Syscall::EnsureDir { path: self.path.clone() }
    }

    fn control_file(&self, file: &str) -> (p: String)
        ensures
            p@ == control_file(self.path@, file@),
    {
        self.path.clone().concat("/").concat(file)
    }

    /// The write that limits the cgroup's memory to `limit_in_bytes`
    /// (`memory.max`).
    pub fn set_memory_limits(&self, limit_in_bytes: i32) -> (s: Syscall)
        ensures
            s@ == control_write(self.path@, "memory.max"@, signed_decimal(limit_in_bytes as int)),
    {
        Syscall::WriteFile {
            path: self.control_file("memory.max"),
            contents: render_i32(limit_in_bytes),
        }
    }

    /// The write that gives the cgroup `quota` microseconds of CPU time in
    /// each `period` microseconds (`cpu.max`); 50000 of 100000 is half of one
    /// core.
    pub fn set_cpu_limits(&self, quota: i32, period: i32) -> (s: Syscall)
        ensures
            s@ == control_write(
                self.path@,
                "cpu.max"@,
                signed_decimal(quota as int) + " "@ + signed_decimal(period as int),
            ),
    {
        let contents = render_i32(quota).concat(" ").concat(render_i32(period).as_str());
        Syscall::WriteFile { path: self.control_file("cpu.max"), contents }
    }

    /// The write that limits the number of processes in the cgroup to `pid`
    /// (`pids.max`).
    pub fn set_pid_limit(&self, pid: &u32) -> (s: Syscall)
        ensures
            s@ == control_write(self.path@, "pids.max"@, decimal(*pid as nat)),
    {
        Syscall::WriteFile { path: self.control_file("pids.max"), contents: render_u32(*pid) }
    }

    /// The write that adds the process `pid` to the cgroup (`cgroup.procs`).
    pub fn add_process_cgroup(&self, pid: u32) -> (s: Syscall)
        ensures
            s@ == add_process_write(self.path@, pid),
    {
        Syscall::WriteFile { path: self.control_file("cgroup.procs"), contents: render_u32(pid) }
    }

    /// The file that lists the processes of the cgroup, one per line.
    pub fn procs_file(&self) -> (p: String)
        ensures
            p@ == control_file(self.path@, "cgroup.procs"@),
    {
        self.control_file("cgroup.procs")
    }

    /// The processes to kill when the cgroup is released, read from the text
    /// of its `cgroup.procs`: each line that, trimmed, is an `i32`.
    pub fn pids_to_kill(procs_content: &str) -> (pids: Vec<i32>)
        ensures
            pids@ == listed_numbers(procs_content@),
    {
        numbers_listed(procs_content)
    }
}

/// The value of `libc::SIGKILL`.
pub open spec fn sigkill_bits() -> i32 {
    9
}

/// `libc::SIGKILL`: the crate defines it as `9` for Linux with glibc
/// (`src/new/glibc/bits/signum_generic.rs`).
#[verifier::external_body]
fn sigkill() -> (r: i32)
    ensures
        r == sigkill_bits(),
{
    libc::SIGKILL
}

/// What releasing a cgroup does: send `signal` to each process of `kill`,
/// pause for `pause_ms` milliseconds so that the kernel can clean up, then
/// remove the directory `dir`, printing `removed_note` when that worked, else
/// `failure_prefix`, `": "` and the error on standard error.
#[derive(Debug, PartialEq, Eq)]
pub struct CgroupRelease {
    pub kill: Vec<i32>,
    pub signal: i32,
    pub pause_ms: u64,
    pub dir: String,
    pub removed_note: String,
    pub failure_prefix: String,
}

impl Cgroup {
    /// The release of the cgroup, given the text of its `cgroup.procs` (empty
    /// when it could not be read): every process still listed there is
    /// killed with `SIGKILL`, then, after 100 ms, the directory is removed.
    pub fn release(&self, procs_content: &str) -> (r: CgroupRelease)
        ensures
            r.kill@ == listed_numbers(procs_content@),
            r.signal == sigkill_bits(),
            r.pause_ms == 100,
            r.dir@ == self.path@,
            r.removed_note@ == "Cleaned up cgroup: "@ + self.name@,
            r.failure_prefix@ == "Warning: Failed to remove cgroup directory "@ + self.path@,
    {
        CgroupRelease {
            kill: Cgroup::pids_to_kill(procs_content),
            signal: sigkill(),
            pause_ms: 100,
            dir: self.path.clone(),
            removed_note: String::from_str("Cleaned up cgroup: ").concat(self.name.as_str()),
            failure_prefix: String::from_str("Warning: Failed to remove cgroup directory ").concat(
                self.path.as_str(),
            ),
        }
    }
}

/// Law: a process added to a cgroup is read back from the cgroup's process
/// list, and so killed when the cgroup is released, provided its id fits in
/// an `i32`: the write goes to the file that the release reads, and its text
/// lists exactly that process.
pub proof fn added_process_is_listed(path: Seq<char>, pid: u32)
    requires
        pid <= i32::MAX,
    ensures
        add_process_write(path, pid) matches SyscallView::WriteFile { path: file, contents }
            && file == control_file(path, "cgroup.procs"@)
            && listed_numbers(contents) == seq![pid as i32],
{
    listed_numbers_of_decimal(pid as nat);
}

} // verus!
