//! The runtime's top level: which role a command line asks for, and the two
//! roles as machines that decide the next action from what the previous one
//! gave. `run` sets up the container around a child process; `child`, inside
//! the new namespaces, forks once more and prepares the container before it
//! runs the user's command.
use vstd::prelude::*;
use crate::cgroups::{Cgroup, cgroup_dir, control_file, control_write, add_process_write};
use crate::decimal::{decimal, signed_decimal, render_u32};
use crate::text::{listed_numbers, listed_numbers_of_decimal};
use crate::filesystem::{setup_container_filesystem, container_filesystem_steps};
use crate::namespace::{
    create_namespaces, create_namespaces_spec,
    ForkRole, fork_role, set_hostname, set_hostname_spec, wait_result_code, wait_status_code,
    parent_exit_code,
    ReaperSetup, reaper_setup, sigchld_bits, sa_restart_bits, sa_nocldstop_bits,
};
use crate::overlayfs::{
    OverlayFs, container_dir, overlay_setup_order, overlay_teardown_order, sets_up_overlay,
    tears_down_overlay,
};
use crate::plan::{Plan, PlanView};
use crate::syscall::{Step, StepView, Syscall, SyscallView, silent, texts, opt_view};

verus! {

/// What a command line asks for.
#[derive(Debug, PartialEq, Eq)]
pub enum Invocation {
    /// `run <command>...`: start a container running the command.
    Run(Vec<String>),
    /// `child <command>...`: the container's side, started by `run`.
    Child(Vec<String>),
    /// Anything else: print the usage and exit with status 1.
    Usage,
}

/// The arguments of `v` from index `from` on.
pub fn tail(v: &Vec<String>, from: usize) -> (r: Vec<String>)
    requires
        from <= v@.len(),
    ensures
        texts(r@) == texts(v@).skip(from as int),
{
    let mut r: Vec<String> = Vec::new();
    let mut i = from;
    while i < v.len()
        invariant
            from <= i <= v@.len(),
            texts(r@) == texts(v@).subrange(from as int, i as int),
        decreases v@.len() - i,
    {
        let item = v[i].clone();
        assert(item@ == v@[i as int]@);
        let ghost before = r@;
        r.push(item);
        assert(r@ == before.push(item));
        assert(texts(r@) =~= texts(before).push(item@));
        assert(texts(r@) =~= texts(v@).subrange(from as int, i + 1));
        i = i + 1;
    }
    assert(texts(v@).subrange(from as int, i as int) =~= texts(v@).skip(from as int));
    r
}

/// What the command line `args` (program name first) asks for.
pub open spec fn invocation_spec(args: Seq<Seq<char>>) -> (Seq<char>, Seq<Seq<char>>) {
    if args.len() >= 2 && (args[1] == "run"@ || args[1] == "child"@) {
        (args[1], args.skip(2))
    } else {
        ("usage"@, seq![])
    }
}

/// Reads the command line `args`: `run` or `child` as the first argument,
/// with the command after it.
pub fn parse_invocation(args: &Vec<String>) -> (r: Invocation)
    ensures
        match r {
            Invocation::Run(cmd) => args@.len() >= 2 && args@[1]@ == "run"@ && texts(cmd@)
                == texts(args@).skip(2),
            Invocation::Child(cmd) => args@.len() >= 2 && args@[1]@ == "child"@ && texts(cmd@)
                == texts(args@).skip(2),
            Invocation::Usage => args@.len() < 2 || (args@[1]@ != "run"@ && args@[1]@
                != "child"@),
        },
{
    if args.len() < 2 {
        return Invocation::Usage;
    }
    if args[1] == String::from_str("run") {
        Invocation::Run(tail(args, 2))
    } else if args[1] == String::from_str("child") {
        Invocation::Child(tail(args, 2))
    } else {
        Invocation::Usage
    }
}

/// The id of the container started by the process `process_id`.
pub open spec fn container_id_spec(process_id: u32) -> Seq<char> {
    "mycontainer-"@ + decimal(process_id as nat)
}

/// The id of the container, used for its cgroup and its overlay directories.
pub fn container_id(process_id: u32) -> (id: String)
    ensures
        id@ == container_id_spec(process_id),
{
    String::from_str("mycontainer-").concat(render_u32(process_id).as_str())
}

/// The base file system that every container's overlay is layered over.
pub open spec fn rootfs_dir() -> Seq<char> {
    "/home/abc/Documents/cor/rootfs"@
}

/// The directory under which each container has its own directory.
pub open spec fn containers_dir() -> Seq<char> {
    "/home/abc/Documents/cor/containers"@
}

/// The script that sets up a container's network.
pub open spec fn network_script() -> Seq<char> {
    "/home/abc/Documents/cor/setup-network.sh"@
}

/// The memory limit of a container: 100 MiB.
pub const MEMORY_LIMIT_BYTES: i32 = 104857600;

/// The CPU time a container may use in each period: 50 ms of 100 ms, half a core.
pub const CPU_QUOTA_US: i32 = 50000;

/// The CPU period, in microseconds.
pub const CPU_PERIOD_US: i32 = 100000;

/// The most processes a container may hold.
pub const PID_LIMIT: u32 = 10;


/// The text of an optional result.
pub open spec fn result_view(r: Result<(), String>) -> Result<(), Seq<char>> {
    match r {
        Ok(()) => Ok(()),
        Err(e) => Err(e@),
    }
}

/// `prefix` followed by `": "` and the error of `r`, if it failed.
pub open spec fn with_context(prefix: Seq<char>, r: Result<(), Seq<char>>) -> Result<(), Seq<char>> {
    match r {
        Ok(()) => Ok(()),
        Err(e) => Err(ctx(prefix, e)),
    }
}

/// `prefix`, `": "` and `e`: an error given its context.
pub open spec fn ctx(prefix: Seq<char>, e: Seq<char>) -> Seq<char> {
    prefix + ": "@ + e
}

fn context(prefix: &str, e: &String) -> (m: String)
    ensures
        m@ == ctx(prefix@, e@),
{
    String::from_str(prefix).concat(": ").concat(e.as_str())
}

/// Where `run` stands.
#[derive(Debug, PartialEq, Eq)]
pub enum RunStage {
    /// The overlay is being set up.
    SettingUpOverlay,
    /// The child is being spawned in new namespaces.
    Spawning,
    /// The cgroup's directory is being made; `child_pid` was spawned.
    CreatingCgroup { child_pid: u32 },
    /// The memory limit is being set.
    LimitingMemory { child_pid: u32 },
    /// The CPU limit is being set.
    LimitingCpu { child_pid: u32 },
    /// The process limit is being set.
    LimitingPids { child_pid: u32 },
    /// The network script is being run for `child_pid`.
    SettingUpNetwork { child_pid: u32 },
    /// The child is being waited for.
    Waiting,
    /// The overlay is being torn down.
    TearingDown,
    /// The cgroup is being released; `result` is what `run` then returns.
    Releasing { result: Result<(), String> },
    /// `run` returns `result`.
    Finished { result: Result<(), String> },
    /// The process panics with `message`.
    Aborted { message: String },
}

/// A [`RunStage`], with its text as characters.
pub enum RunStageView {
    SettingUpOverlay,
    Spawning,
    CreatingCgroup { child_pid: u32 },
    LimitingMemory { child_pid: u32 },
    LimitingCpu { child_pid: u32 },
    LimitingPids { child_pid: u32 },
    SettingUpNetwork { child_pid: u32 },
    Waiting,
    TearingDown,
    Releasing { result: Result<(), Seq<char>> },
    Finished { result: Result<(), Seq<char>> },
    Aborted { message: Seq<char> },
}

impl View for RunStage {
    type V = RunStageView;

    open spec fn view(&self) -> RunStageView {
        match self {
            RunStage::SettingUpOverlay => RunStageView::SettingUpOverlay,
            RunStage::Spawning => RunStageView::Spawning,
            RunStage::CreatingCgroup { child_pid } => RunStageView::CreatingCgroup {
                child_pid: *child_pid,
            },
            RunStage::LimitingMemory { child_pid } => RunStageView::LimitingMemory {
                child_pid: *child_pid,
            },
            RunStage::LimitingCpu { child_pid } => RunStageView::LimitingCpu {
                child_pid: *child_pid,
            },
            RunStage::LimitingPids { child_pid } => RunStageView::LimitingPids {
                child_pid: *child_pid,
            },
            RunStage::SettingUpNetwork { child_pid } => RunStageView::SettingUpNetwork {
                child_pid: *child_pid,
            },
            RunStage::Waiting => RunStageView::Waiting,
            RunStage::TearingDown => RunStageView::TearingDown,
            RunStage::Releasing { result } => RunStageView::Releasing {
                result: result_view(*result),
            },
            RunStage::Finished { result } => RunStageView::Finished {
                result: result_view(*result),
            },
            RunStage::Aborted { message } => RunStageView::Aborted { message: message@ },
        }
    }
}

/// The stage that `run` reaches from `s` when the action of `s` gave
/// `outcome`. A spawn is answered through [`run_after_spawn`]; the stages
/// that do not wait for such an outcome stay as they are.
pub open spec fn run_after(s: RunStageView, outcome: Result<(), Seq<char>>) -> RunStageView {
    match s {
        RunStageView::SettingUpOverlay => match outcome {
            Ok(()) => RunStageView::Spawning,
            Err(e) => RunStageView::Finished { result: Err(ctx("OverlayFS setup failed"@, e)) },
        },
        RunStageView::CreatingCgroup { child_pid } => match outcome {
            Ok(()) => RunStageView::LimitingMemory { child_pid },
            Err(e) => RunStageView::Aborted { message: ctx("failed to create cgroup path"@, e) },
        },
        RunStageView::LimitingMemory { child_pid } => RunStageView::LimitingCpu { child_pid },
        RunStageView::LimitingCpu { child_pid } => RunStageView::LimitingPids { child_pid },
        RunStageView::LimitingPids { child_pid } => RunStageView::SettingUpNetwork { child_pid },
        RunStageView::SettingUpNetwork { child_pid } => RunStageView::Waiting,
        RunStageView::Waiting => match outcome {
            Ok(()) => RunStageView::TearingDown,
            Err(e) => RunStageView::Releasing { result: Err(ctx("Failed to wait for child"@, e)) },
        },
        RunStageView::TearingDown => RunStageView::Releasing {
            result: with_context("OverlayFS cleanup failed"@, outcome),
        },
        RunStageView::Releasing { result } => RunStageView::Finished { result },
        _ => s,
    }
}

/// The stage that `run` reaches from `s` when spawning the child gave
/// `outcome`; only the spawning stage waits for it.
pub open spec fn run_after_spawn(s: RunStageView, outcome: Result<u32, Seq<char>>) -> RunStageView {
    match s {
        RunStageView::Spawning => match outcome {
            Ok(child_pid) => RunStageView::CreatingCgroup { child_pid },
            Err(e) => RunStageView::Finished { result: Err(ctx("Failed to spawn child"@, e)) },
        },
        _ => s,
    }
}

/// What `run` does next.
#[derive(Debug, PartialEq, Eq)]
pub enum RunAction {
    /// Carry out a plan, answering `Ok` if it completes, else the failing
    /// step's error.
    RunPlan(Plan),
    /// Spawn `program` with `args` and the environment variables `env` added;
    /// the spawned process makes the step `namespaces` (which creates its new
    /// namespaces) before it runs `program`. Answered through `report_spawn`.
    Spawn { program: String, args: Vec<String>, env: Vec<(String, String)>, namespaces: Step },
    /// Carry out a single step.
    Perform(Step),
    /// Run the network script for the child `child_pid`.
    SetUpNetwork { child_pid: u32, script: String },
    /// Wait for the child to exit.
    WaitForChild,
    /// Release the cgroup: kill the processes still in it, wait a moment,
    /// and remove its directory.
    ReleaseCgroup(Cgroup),
    /// Return `result` from `run`.
    Finish(Result<(), String>),
    /// Panic with the message.
    Abort(String),
}

/// A [`RunAction`], with its text as characters.
pub enum RunActionView {
    RunPlan(PlanView),
    Spawn {
        program: Seq<char>,
        args: Seq<Seq<char>>,
        env: Seq<(Seq<char>, Seq<char>)>,
        namespaces: StepView,
    },
    Perform(StepView),
    SetUpNetwork { child_pid: u32, script: Seq<char> },
    WaitForChild,
    ReleaseCgroup { name: Seq<char>, path: Seq<char> },
    Finish(Result<(), Seq<char>>),
    Abort(Seq<char>),
}

/// The texts of a list of pairs of strings.
pub open spec fn text_pairs(v: Seq<(String, String)>) -> Seq<(Seq<char>, Seq<char>)> {
    v.map_values(|p: (String, String)| (p.0@, p.1@))
}

impl View for RunAction {
    type V = RunActionView;

    open spec fn view(&self) -> RunActionView {
        match self {
            RunAction::RunPlan(p) => RunActionView::RunPlan(p@),
            RunAction::Spawn { program, args, env, namespaces } => RunActionView::Spawn {
                program: program@,
                args: texts(args@),
                env: text_pairs(env@),
                namespaces: namespaces@,
            },
            RunAction::Perform(s) => RunActionView::Perform(s@),
            RunAction::SetUpNetwork { child_pid, script } => RunActionView::SetUpNetwork {
                child_pid: *child_pid,
                script: script@,
            },
            RunAction::WaitForChild => RunActionView::WaitForChild,
            RunAction::ReleaseCgroup(c) => RunActionView::ReleaseCgroup {
                name: c.name@,
                path: c.path@,
            },
            RunAction::Finish(r) => RunActionView::Finish(result_view(*r)),
            RunAction::Abort(m) => RunActionView::Abort(m@),
        }
    }
}

/// The step that sets one limit of the cgroup named `name`: `write`,
/// reported as `"Set <what> limit for cgroup <name>"`, or on failure as
/// `"Failed to set <what> limit: <error>"`.
pub open spec fn limit_step(write: SyscallView, what: Seq<char>, name: Seq<char>) -> StepView {
    StepView {
        call: write,
        before: seq![],
        on_success: seq!["Set "@ + what + " limit for cgroup "@ + name],
        on_failure: Some("Failed to set "@ + what + " limit"@),
    }
}

/// The `run` side of the runtime: it sets up the overlay, spawns the child
/// in new namespaces, puts the container's cgroup in place with its limits,
/// sets up the network, waits for the child, and tears it all down.
#[derive(Debug, PartialEq, Eq)]
pub struct RunMachine {
    pub overlay: OverlayFs,
    pub cgroup: Cgroup,
    pub command: Vec<String>,
    pub stage: RunStage,
}

impl RunMachine {
    /// What the machine does in its current stage.
    pub open spec fn action_spec(&self) -> RunActionView {
        let name = self.cgroup.name@;
        let path = self.cgroup.path@;
        match self.stage@ {
            RunStageView::SettingUpOverlay => RunActionView::RunPlan(
                PlanView {
                    steps: self.overlay.create_directories_spec() + seq![self.overlay.mount_spec()],
                    completed: 0,
                    failed: false,
                },
            ),
            RunStageView::Spawning => RunActionView::Spawn {
                program: "/proc/self/exe"@,
                args: seq!["child"@] + texts(self.command@),
                env: seq![
                    ("CGROUP_NAME"@, name),
                    ("OVERLAY_MERGED"@, self.overlay.merged_dir@),
                ],
                namespaces: create_namespaces_spec(),
            },
            RunStageView::CreatingCgroup { child_pid } => RunActionView::Perform(
                StepView {
                    call: SyscallView::EnsureDir { path },
                    before: seq!["Child process PID: "@ + decimal(child_pid as nat)],
                    on_success: seq![],
                    on_failure: None,
                },
            ),
            RunStageView::LimitingMemory { .. } => RunActionView::Perform(
                limit_step(
                    control_write(path, "memory.max"@, signed_decimal(MEMORY_LIMIT_BYTES as int)),
                    "memory"@,
                    name,
                ),
            ),
            RunStageView::LimitingCpu { .. } => RunActionView::Perform(
                limit_step(
                    control_write(
                        path,
                        "cpu.max"@,
                        signed_decimal(CPU_QUOTA_US as int) + " "@ + signed_decimal(
                            CPU_PERIOD_US as int,
                        ),
                    ),
                    "CPU"@,
                    name,
                ),
            ),
            RunStageView::LimitingPids { .. } => RunActionView::Perform(
                limit_step(control_write(path, "pids.max"@, decimal(PID_LIMIT as nat)), "PID"@, name),
            ),
            RunStageView::SettingUpNetwork { child_pid } => RunActionView::SetUpNetwork {
                child_pid,
                script: network_script(),
            },
            RunStageView::Waiting => RunActionView::WaitForChild,
            RunStageView::TearingDown => RunActionView::RunPlan(
                PlanView {
                    steps: seq![self.overlay.unmount_spec()] + self.overlay.cleanup_spec(),
                    completed: 0,
                    failed: false,
                },
            ),
            RunStageView::Releasing { .. } => RunActionView::ReleaseCgroup { name, path },
            RunStageView::Finished { result } => RunActionView::Finish(result),
            RunStageView::Aborted { message } => RunActionView::Abort(message),
        }
    }

    /// The machine of the container started by the process `process_id`,
    /// to run `command`; nothing has been done yet.
    pub fn new(process_id: u32, command: Vec<String>) -> (m: RunMachine)
        ensures
            m.overlay.container_id@ == container_id_spec(process_id),
            m.overlay.lower_dir@ == rootfs_dir(),
            m.overlay.upper_dir@ == container_dir(containers_dir(), container_id_spec(process_id))
                + "/upper"@,
            m.overlay.work_dir@ == container_dir(containers_dir(), container_id_spec(process_id))
                + "/work"@,
            m.overlay.merged_dir@ == container_dir(containers_dir(), container_id_spec(process_id))
                + "/merged"@,
            m.cgroup.name@ == container_id_spec(process_id),
            m.cgroup.path@ == cgroup_dir(container_id_spec(process_id)),
            m.command@ == command@,
            m.stage@ == RunStageView::SettingUpOverlay,
    {
        let id = container_id(process_id);
        let overlay = OverlayFs::new(
            id.as_str(),
            "/home/abc/Documents/cor/rootfs",
            "/home/abc/Documents/cor/containers",
        );
        let cgroup = Cgroup::new(id.as_str());
        RunMachine { overlay, cgroup, command, stage: RunStage::SettingUpOverlay }
    }

    /// What to do next.
    pub fn action(&self) -> (a: RunAction)
        ensures
            a@ == self.action_spec(),
    {
        match &self.stage {
            RunStage::SettingUpOverlay => RunAction::RunPlan(self.overlay.setup()),
            RunStage::Spawning => {
                let mut args: Vec<String> = Vec::new();
                args.push(String::from_str("child"));
                let mut rest = tail(&self.command, 0);
                assert(texts(self.command@).skip(0) =~= texts(self.command@));
                let ghost first = args@;
                args.append(&mut rest);
                assert(texts(args@) =~= texts(first) + texts(self.command@));
                let mut env: Vec<(String, String)> = Vec::new();
                env.push((String::from_str("CGROUP_NAME"), self.cgroup.name.clone()));
                env.push((String::from_str("OVERLAY_MERGED"), self.overlay.merged_dir.clone()));
                let a = RunAction::Spawn {
                    program: String::from_str("/proc/self/exe"),
                    args,
                    env,
                    namespaces: create_namespaces(),
                };
                assert(text_pairs(env@) =~= seq![
                    ("CGROUP_NAME"@, self.cgroup.name@),
                    ("OVERLAY_MERGED"@, self.overlay.merged_dir@),
                ]);
                assert(texts(args@) =~= seq!["child"@] + texts(self.command@));
                a
            },
            RunStage::CreatingCgroup { child_pid } => {
                let mut before: Vec<String> = Vec::new();
                before.push(String::from_str("Child process PID: ").concat(render_u32(*child_pid).as_str()));
                let step = Step {
                    call: self.cgroup.directory(),
                    before,
                    on_success: Vec::new(),
                    on_failure: None,
                };
                assert(texts(step.before@) =~= seq!["Child process PID: "@ + decimal(*child_pid as nat)]);
                assert(texts(step.on_success@) =~= seq![]);
                RunAction::Perform(step)
            },
            RunStage::LimitingMemory { .. } => {
                let write = self.cgroup.set_memory_limits(MEMORY_LIMIT_BYTES);
                RunAction::Perform(self.limit(write, "memory"))
            },
            RunStage::LimitingCpu { .. } => {
                let write = self.cgroup.set_cpu_limits(CPU_QUOTA_US, CPU_PERIOD_US);
                RunAction::Perform(self.limit(write, "CPU"))
            },
            RunStage::LimitingPids { .. } => {
                let write = self.cgroup.set_pid_limit(&PID_LIMIT);
                RunAction::Perform(self.limit(write, "PID"))
            },
            RunStage::SettingUpNetwork { child_pid } => RunAction::SetUpNetwork {
                child_pid: *child_pid,
                script: String::from_str("/home/abc/Documents/cor/setup-network.sh"),
            },
            RunStage::Waiting => RunAction::WaitForChild,
            RunStage::TearingDown => RunAction::RunPlan(self.overlay.teardown()),
            RunStage::Releasing { .. } => RunAction::ReleaseCgroup(
                Cgroup { name: self.cgroup.name.clone(), path: self.cgroup.path.clone() },
            ),
            RunStage::Finished { result } => RunAction::Finish(copy_result(result)),
            RunStage::Aborted { message } => RunAction::Abort(message.clone()),
        }
    }

    fn limit(&self, write: Syscall, what: &str) -> (s: Step)
        ensures
            s@ == limit_step(write@, what@, self.cgroup.name@),
    {
        let mut on_success: Vec<String> = Vec::new();
        on_success.push(
            String::from_str("Set ").concat(what).concat(" limit for cgroup ").concat(
                self.cgroup.name.as_str(),
            ),
        );
        let failure = String::from_str("Failed to set ").concat(what).concat(" limit");
        let s = Step { call: write, before: Vec::new(), on_success, on_failure: Some(failure) };
        assert(texts(s.before@) =~= seq![]);
        assert(texts(s.on_success@) =~= seq![
            "Set "@ + what@ + " limit for cgroup "@ + self.cgroup.name@,
        ]);
        s
    }

    /// Whether a failure of the current action makes the process panic (the
    /// cgroup's directory could not be made); its error is then shown as
    /// `expect` shows it, with `{:?}`.
    pub fn failure_aborts(&self) -> (b: bool)
        ensures
            b == self.stage@ is CreatingCgroup,
    {
        match self.stage {
            RunStage::CreatingCgroup { .. } => true,
            _ => false,
        }
    }

    /// Takes in what the current action gave, `outcome`, for any action but a
    /// spawn.
    pub fn report(&mut self, outcome: Result<(), String>)
        ensures
            final(self).stage@ == run_after(old(self).stage@, result_view(outcome)),
            final(self).overlay == old(self).overlay,
            final(self).cgroup == old(self).cgroup,
            final(self).command == old(self).command,
    {
        let next = match &self.stage {
            RunStage::SettingUpOverlay => match &outcome {
                Ok(()) => RunStage::Spawning,
                Err(e) => RunStage::Finished { result: Err(context("OverlayFS setup failed", e)) },
            },
            RunStage::CreatingCgroup { child_pid } => match &outcome {
                Ok(()) => RunStage::LimitingMemory { child_pid: *child_pid },
                Err(e) => RunStage::Aborted { message: context("failed to create cgroup path", e) },
            },
            RunStage::LimitingMemory { child_pid } => RunStage::LimitingCpu { child_pid: *child_pid },
            RunStage::LimitingCpu { child_pid } => RunStage::LimitingPids { child_pid: *child_pid },
            RunStage::LimitingPids { child_pid } => RunStage::SettingUpNetwork {
                child_pid: *child_pid,
            },
            RunStage::SettingUpNetwork { .. } => RunStage::Waiting,
            RunStage::Waiting => match &outcome {
                Ok(()) => RunStage::TearingDown,
                Err(e) => RunStage::Releasing { result: Err(context("Failed to wait for child", e)) },
            },
            RunStage::TearingDown => match &outcome {
                Ok(()) => RunStage::Releasing { result: Ok(()) },
                Err(e) => RunStage::Releasing { result: Err(context("OverlayFS cleanup failed", e)) },
            },
            RunStage::Releasing { result } => RunStage::Finished { result: copy_result(result) },
            RunStage::Spawning => RunStage::Spawning,
            RunStage::Finished { result } => RunStage::Finished { result: copy_result(result) },
            RunStage::Aborted { message } => RunStage::Aborted { message: message.clone() },
        };
        self.stage = next;
    }

    /// Takes in what spawning the child gave: its process id, or the error.
    pub fn report_spawn(&mut self, outcome: Result<u32, String>)
        ensures
            final(self).stage@ == run_after_spawn(
                old(self).stage@,
                match outcome {
                    Ok(p) => Ok(p),
                    Err(e) => Err(e@),
                },
            ),
            final(self).overlay == old(self).overlay,
            final(self).cgroup == old(self).cgroup,
            final(self).command == old(self).command,
    {
        match &self.stage {
            RunStage::Spawning => {
                self.stage = match &outcome {
                    Ok(p) => RunStage::CreatingCgroup { child_pid: *p },
                    Err(e) => RunStage::Finished { result: Err(context("Failed to spawn child", e)) },
                };
            },
            _ => {},
        }
    }
}

/// Where `child` stands.
#[derive(Debug, PartialEq, Eq)]
pub enum ChildStage {
    /// Forking, so that a process is born inside the new PID namespace.
    Forking,
    /// The parent waits for the child `pid`.
    WaitingForChild { child: i32 },
    /// The parent exits with `code`.
    Exiting { code: i32 },
    /// The forked process `pid` reads the name of its cgroup.
    ReadingCgroupName { pid: u32 },
    /// The cgroup's directory is made unless it exists.
    CreatingCgroup { pid: u32, name: String },
    /// The process `pid` adds itself to the cgroup `name`.
    JoiningCgroup { pid: u32, name: String },
    /// The host name is set.
    SettingHostname,
    /// The merged directory of the overlay is read.
    ReadingMergedDir,
    /// The container's filesystem is set up with `merged` as its root.
    SettingUpFilesystem { merged: String },
    /// The reaper of orphaned children is installed.
    InstallingReaper,
    /// The user's command is run.
    RunningCommand,
    /// `child` returns `result`.
    Finished { result: Result<(), String> },
    /// The process panics with `message`.
    Aborted { message: String },
    /// The process panics with `message` while it holds the cgroup `name`,
    /// which is released as the panic unwinds.
    AbortedInCgroup { message: String, name: String },
}

/// A [`ChildStage`], with its text as characters.
pub enum ChildStageView {
    Forking,
    WaitingForChild { child: i32 },
    Exiting { code: i32 },
    ReadingCgroupName { pid: u32 },
    CreatingCgroup { pid: u32, name: Seq<char> },
    JoiningCgroup { pid: u32, name: Seq<char> },
    SettingHostname,
    ReadingMergedDir,
    SettingUpFilesystem { merged: Seq<char> },
    InstallingReaper,
    RunningCommand,
    Finished { result: Result<(), Seq<char>> },
    Aborted { message: Seq<char> },
    AbortedInCgroup { message: Seq<char>, name: Seq<char> },
}

impl View for ChildStage {
    type V = ChildStageView;

    open spec fn view(&self) -> ChildStageView {
        match self {
            ChildStage::Forking => ChildStageView::Forking,
            ChildStage::WaitingForChild { child } => ChildStageView::WaitingForChild { child: *child },
            ChildStage::Exiting { code } => ChildStageView::Exiting { code: *code },
            ChildStage::ReadingCgroupName { pid } => ChildStageView::ReadingCgroupName {
                pid: *pid,
            },
            ChildStage::CreatingCgroup { pid, name } => ChildStageView::CreatingCgroup {
                pid: *pid,
                name: name@,
            },
            ChildStage::JoiningCgroup { pid, name } => ChildStageView::JoiningCgroup {
                pid: *pid,
                name: name@,
            },
            ChildStage::SettingHostname => ChildStageView::SettingHostname,
            ChildStage::ReadingMergedDir => ChildStageView::ReadingMergedDir,
            ChildStage::SettingUpFilesystem { merged } => ChildStageView::SettingUpFilesystem {
                merged: merged@,
            },
            ChildStage::InstallingReaper => ChildStageView::InstallingReaper,
            ChildStage::RunningCommand => ChildStageView::RunningCommand,
            ChildStage::Finished { result } => ChildStageView::Finished {
                result: result_view(*result),
            },
            ChildStage::Aborted { message } => ChildStageView::Aborted { message: message@ },
            ChildStage::AbortedInCgroup { message, name } => ChildStageView::AbortedInCgroup {
                message: message@,
                name: name@,
            },
        }
    }
}

/// The stage that `child` reaches from `s` when `fork` returned `ret`; the
/// process's own id is then `self_pid`, and `os_error` is the text of the
/// error that the system reports. Only the forking stage waits for it.
pub open spec fn child_after_fork(
    s: ChildStageView,
    ret: i32,
    self_pid: u32,
    os_error: Seq<char>,
) -> ChildStageView {
    match s {
        ChildStageView::Forking => if ret < 0 {
            ChildStageView::Finished { result: Err(os_error) }
        } else if ret > 0 {
            ChildStageView::WaitingForChild { child: ret }
        } else {
            ChildStageView::ReadingCgroupName { pid: self_pid }
        },
        _ => s,
    }
}

/// The stage that `child` reaches from `s` when `waitpid` returned `waited`
/// and filled in the status word `status`; only the waiting parent waits for
/// it. A failed wait gives the exit code 1.
pub open spec fn child_after_wait(s: ChildStageView, waited: i32, status: i32) -> ChildStageView {
    match s {
        ChildStageView::WaitingForChild { child } => ChildStageView::Exiting {
            code: wait_result_code(waited, status),
        },
        _ => s,
    }
}

/// The stage that `child` reaches from `s` when reading an environment
/// variable gave `value`, or the error's text.
pub open spec fn child_after_env(s: ChildStageView, value: Result<Seq<char>, Seq<char>>) -> ChildStageView {
    match s {
        ChildStageView::ReadingCgroupName { pid } => match value {
            Ok(name) => ChildStageView::CreatingCgroup { pid, name },
            Err(e) => ChildStageView::Aborted {
                message: ctx("CGROUP_NAME environment variable not set"@, e),
            },
        },
        ChildStageView::ReadingMergedDir => match value {
            Ok(merged) => ChildStageView::SettingUpFilesystem { merged },
            Err(e) => ChildStageView::Aborted {
                message: ctx("OVERLAY_MERGED environment variable not set"@, e),
            },
        },
        _ => s,
    }
}

/// The stage that `child` reaches from `s` when the action of `s` gave
/// `outcome`, for the actions that give no value.
pub open spec fn child_after(s: ChildStageView, outcome: Result<(), Seq<char>>) -> ChildStageView {
    match s {
        ChildStageView::CreatingCgroup { pid, name } => match outcome {
            Ok(()) => ChildStageView::JoiningCgroup { pid, name },
            Err(e) => ChildStageView::Aborted { message: ctx("failed to create cgroup path"@, e) },
        },
        ChildStageView::JoiningCgroup { name, .. } => match outcome {
            Ok(()) => ChildStageView::SettingHostname,
            Err(e) => ChildStageView::AbortedInCgroup {
                message: ctx("Failed to add process to cgroup"@, e),
                name,
            },
        },
        ChildStageView::SettingHostname => match outcome {
            Ok(()) => ChildStageView::ReadingMergedDir,
            Err(e) => ChildStageView::Finished { result: Err(e) },
        },
        ChildStageView::SettingUpFilesystem { .. } => match outcome {
            Ok(()) => ChildStageView::InstallingReaper,
            Err(e) => ChildStageView::Finished { result: Err(ctx("Filesystem setup failed"@, e)) },
        },
        ChildStageView::InstallingReaper => match outcome {
            Ok(()) => ChildStageView::RunningCommand,
            Err(e) => ChildStageView::Finished {
                result: Err(ctx("Failed to setup zombie reaper"@, e)),
            },
        },
        ChildStageView::RunningCommand => match outcome {
            Ok(()) => ChildStageView::Finished { result: Ok(()) },
            Err(e) => ChildStageView::Finished { result: Err(ctx("Failed to run command"@, e)) },
        },
        _ => s,
    }
}

/// What `child` does next.
#[derive(Debug, PartialEq, Eq)]
pub enum ChildAction {
    /// Fork; answered through `report_fork`.
    Fork,
    /// Wait for the process `pid`; answered through `report_wait`.
    WaitFor(i32),
    /// Exit the process with the code.
    Exit(i32),
    /// Print the lines `before`, then read the environment variable `name`;
    /// answered through `report_env`.
    ReadEnv { name: String, before: Vec<String> },
    /// Carry out a single step.
    Perform(Step),
    /// Carry out a plan.
    RunPlan(Plan),
    /// Install the reaper of orphaned children for the signal and with the
    /// `sigaction` flags of `setup`.
    InstallReaper(ReaperSetup),
    /// Run `program` with `args` and wait for it.
    RunCommand { program: String, args: Vec<String> },
    /// Return `result` from `child`.
    Finish(Result<(), String>),
    /// Panic with the message.
    Abort(String),
    /// Panic with the message, and release the cgroup as the panic unwinds.
    AbortReleasing { message: String, cgroup: Cgroup },
}

/// A [`ChildAction`], with its text as characters.
pub enum ChildActionView {
    Fork,
    WaitFor(i32),
    Exit(i32),
    ReadEnv { name: Seq<char>, before: Seq<Seq<char>> },
    Perform(StepView),
    RunPlan(PlanView),
    InstallReaper { signal: i32, flags: i32, blocked: Seq<i32> },
    RunCommand { program: Seq<char>, args: Seq<Seq<char>> },
    Finish(Result<(), Seq<char>>),
    Abort(Seq<char>),
    AbortReleasing { message: Seq<char>, name: Seq<char>, path: Seq<char> },
}

impl View for ChildAction {
    type V = ChildActionView;

    open spec fn view(&self) -> ChildActionView {
        match self {
            ChildAction::Fork => ChildActionView::Fork,
            ChildAction::WaitFor(p) => ChildActionView::WaitFor(*p),
            ChildAction::Exit(c) => ChildActionView::Exit(*c),
            ChildAction::ReadEnv { name, before } => ChildActionView::ReadEnv {
                name: name@,
                before: texts(before@),
            },
            ChildAction::Perform(s) => ChildActionView::Perform(s@),
            ChildAction::RunPlan(p) => ChildActionView::RunPlan(p@),
            ChildAction::InstallReaper(r) => ChildActionView::InstallReaper {
                signal: r.signal,
                flags: r.flags,
                blocked: r.blocked@,
            },
            ChildAction::RunCommand { program, args } => ChildActionView::RunCommand {
                program: program@,
                args: texts(args@),
            },
            ChildAction::Finish(r) => ChildActionView::Finish(result_view(*r)),
            ChildAction::Abort(m) => ChildActionView::Abort(m@),
            ChildAction::AbortReleasing { message, cgroup } => ChildActionView::AbortReleasing {
                message: message@,
                name: cgroup.name@,
                path: cgroup.path@,
            },
        }
    }
}

/// The message of the panic that indexing an empty list raises.
pub open spec fn empty_command_message() -> Seq<char> {
    "index out of bounds: the len is 0 but the index is 0"@
}

/// The `child` side of the runtime, started by `run` in the new
/// namespaces: it forks once more, so that the process doing the work is born
/// inside the PID namespace, and that process joins the container's cgroup,
/// sets its host name, isolates its filesystem, installs a reaper for
/// orphaned processes and runs the user's command.
#[derive(Debug, PartialEq, Eq)]
pub struct ChildMachine {
    pub command: Vec<String>,
    pub stage: ChildStage,
}

impl ChildMachine {
    /// What the machine does in its current stage.
    pub open spec fn action_spec(&self) -> ChildActionView {
        match self.stage@ {
            ChildStageView::Forking => ChildActionView::Fork,
            ChildStageView::WaitingForChild { child } => ChildActionView::WaitFor(child),
            ChildStageView::Exiting { code } => ChildActionView::Exit(code),
            ChildStageView::ReadingCgroupName { pid } => ChildActionView::ReadEnv {
                name: "CGROUP_NAME"@,
                before: seq!["After fork, PID is now: "@ + decimal(pid as nat)],
            },
            ChildStageView::CreatingCgroup { name, .. } => ChildActionView::Perform(
                StepView {
                    call: SyscallView::EnsureDir { path: cgroup_dir(name) },
                    before: seq![],
                    on_success: seq![],
                    on_failure: None,
                },
            ),
            ChildStageView::JoiningCgroup { pid, name } => ChildActionView::Perform(
                StepView {
                    call: add_process_write(cgroup_dir(name), pid),
                    before: seq![],
                    on_success: seq![
                        "Added PID "@ + decimal(pid as nat) + " to cgroup "@ + name,
                    ],
                    on_failure: None,
                },
            ),
            ChildStageView::SettingHostname => ChildActionView::Perform(
                set_hostname_spec("container"@, 9),
            ),
            ChildStageView::ReadingMergedDir => ChildActionView::ReadEnv {
                name: "OVERLAY_MERGED"@,
                before: seq![],
            },
            ChildStageView::SettingUpFilesystem { merged } => ChildActionView::RunPlan(
                PlanView { steps: container_filesystem_steps(merged), completed: 0, failed: false },
            ),
            ChildStageView::InstallingReaper => ChildActionView::InstallReaper {
                signal: sigchld_bits(),
                flags: sa_restart_bits() | sa_nocldstop_bits(),
                blocked: seq![],
            },
            ChildStageView::RunningCommand => if self.command@.len() == 0 {
                ChildActionView::Abort(empty_command_message())
            } else {
                ChildActionView::RunCommand {
                    program: self.command@[0]@,
                    args: texts(self.command@).skip(1),
                }
            },
            ChildStageView::Finished { result } => ChildActionView::Finish(result),
            ChildStageView::Aborted { message } => ChildActionView::Abort(message),
            ChildStageView::AbortedInCgroup { message, name } => ChildActionView::AbortReleasing {
                message,
                name,
                path: cgroup_dir(name),
            },
        }
    }

    /// The machine of the container side, to run `command`; nothing has been
    /// done yet.
    pub fn new(command: Vec<String>) -> (m: ChildMachine)
        ensures
            m.command@ == command@,
            m.stage@ == ChildStageView::Forking,
    {
        ChildMachine { command, stage: ChildStage::Forking }
    }

    /// What to do next.
    pub fn action(&self) -> (a: ChildAction)
        ensures
            a@ == self.action_spec(),
    {
        match &self.stage {
            ChildStage::Forking => ChildAction::Fork,
            ChildStage::WaitingForChild { child } => ChildAction::WaitFor(*child),
            ChildStage::Exiting { code } => ChildAction::Exit(*code),
            ChildStage::ReadingCgroupName { pid } => {
                let mut before: Vec<String> = Vec::new();
                before.push(String::from_str("After fork, PID is now: ").concat(render_u32(*pid).as_str()));
                assert(texts(before@) =~= seq!["After fork, PID is now: "@ + decimal(*pid as nat)]);
                ChildAction::ReadEnv { name: String::from_str("CGROUP_NAME"), before }
            },
            ChildStage::CreatingCgroup { name, .. } => {
                let cgroup = Cgroup::new(name.as_str());
                let step = Step {
                    call: cgroup.directory(),
                    before: Vec::new(),
                    on_success: Vec::new(),
                    on_failure: None,
                };
                assert(texts(step.before@) =~= seq![]);
                assert(texts(step.on_success@) =~= seq![]);
                ChildAction::Perform(step)
            },
            ChildStage::JoiningCgroup { pid, name } => {
                let cgroup = Cgroup::new(name.as_str());
                let mut on_success: Vec<String> = Vec::new();
                on_success.push(
                    String::from_str("Added PID ").concat(render_u32(*pid).as_str()).concat(
                        " to cgroup ",
                    ).concat(name.as_str()),
                );
                let step = Step {
                    call: cgroup.add_process_cgroup(*pid),
                    before: Vec::new(),
                    on_success,
                    on_failure: None,
                };
                assert(texts(step.before@) =~= seq![]);
                assert(texts(step.on_success@) =~= seq![
                    "Added PID "@ + decimal(*pid as nat) + " to cgroup "@ + name@,
                ]);
                ChildAction::Perform(step)
            },
            ChildStage::SettingHostname => {
                proof {
                    reveal_strlit("container");
                    assert(vstd::utf8::is_ascii_chars("container"@));
                    vstd::utf8::is_ascii_chars_encode_utf8("container"@);
                }
                ChildAction::Perform(set_hostname("container"))
            },
            ChildStage::ReadingMergedDir => {
                let before: Vec<String> = Vec::new();
                assert(texts(before@) =~= seq![]);
                ChildAction::ReadEnv { name: String::from_str("OVERLAY_MERGED"), before }
            },
            ChildStage::SettingUpFilesystem { merged } => ChildAction::RunPlan(
                setup_container_filesystem(merged.as_str()),
            ),
            ChildStage::InstallingReaper => ChildAction::InstallReaper(reaper_setup()),
            ChildStage::RunningCommand => {
                if self.command.len() == 0 {
                    ChildAction::Abort(
                        String::from_str("index out of bounds: the len is 0 but the index is 0"),
                    )
                } else {
                    ChildAction::RunCommand {
                        program: self.command[0].clone(),
                        args: tail(&self.command, 1),
                    }
                }
            },
            ChildStage::Finished { result } => ChildAction::Finish(copy_result(result)),
            ChildStage::Aborted { message } => ChildAction::Abort(message.clone()),
            ChildStage::AbortedInCgroup { message, name } => ChildAction::AbortReleasing {
                message: message.clone(),
                cgroup: Cgroup::new(name.as_str()),
            },
        }
    }

    /// Whether a failure of the current action makes the process panic (the
    /// cgroup could not be made or joined); its error is then shown as
    /// `expect` shows it, with `{:?}`.
    pub fn failure_aborts(&self) -> (b: bool)
        ensures
            b == (self.stage@ is CreatingCgroup || self.stage@ is JoiningCgroup),
    {
        match self.stage {
            ChildStage::CreatingCgroup { .. } => true,
            ChildStage::JoiningCgroup { .. } => true,
            _ => false,
        }
    }

    /// Takes in what `fork` returned, `ret`, with the process's own id after
    /// the fork and the text of the system's last error.
    pub fn report_fork(&mut self, ret: i32, self_pid: u32, os_error: String)
        ensures
            final(self).stage@ == child_after_fork(old(self).stage@, ret, self_pid, os_error@),
            final(self).command == old(self).command,
    {
        match &self.stage {
            ChildStage::Forking => {
                self.stage = match fork_role(ret) {
                    ForkRole::Failed => ChildStage::Finished { result: Err(os_error) },
                    ForkRole::Parent(child) => ChildStage::WaitingForChild { child },
                    ForkRole::Child => ChildStage::ReadingCgroupName { pid: self_pid },
                };
            },
            _ => {},
        }
    }

    /// Takes in what `waitpid` returned and the status word it filled in.
    pub fn report_wait(&mut self, waited: i32, status: i32)
        ensures
            final(self).stage@ == child_after_wait(old(self).stage@, waited, status),
            final(self).command == old(self).command,
    {
        match &self.stage {
            ChildStage::WaitingForChild { .. } => {
                self.stage = ChildStage::Exiting { code: wait_status_code(waited, status) };
            },
            _ => {},
        }
    }

    /// Takes in the value of the environment variable that was read, or the
    /// text of the error.
    pub fn report_env(&mut self, value: Result<String, String>)
        ensures
            final(self).stage@ == child_after_env(
                old(self).stage@,
                match value {
                    Ok(v) => Ok(v@),
                    Err(e) => Err(e@),
                },
            ),
            final(self).command == old(self).command,
    {
        let next = match (&self.stage, value) {
            (ChildStage::ReadingCgroupName { pid }, Ok(name)) => Some(
                ChildStage::CreatingCgroup { pid: *pid, name },
            ),
            (ChildStage::ReadingCgroupName { .. }, Err(e)) => Some(
                ChildStage::Aborted {
                    message: context("CGROUP_NAME environment variable not set", &e),
                },
            ),
            (ChildStage::ReadingMergedDir, Ok(merged)) => Some(
                ChildStage::SettingUpFilesystem { merged },
            ),
            (ChildStage::ReadingMergedDir, Err(e)) => Some(
                ChildStage::Aborted {
                    message: context("OVERLAY_MERGED environment variable not set", &e),
                },
            ),
            _ => None,
        };
        match next {
            Some(n) => {
                self.stage = n;
            },
            None => {},
        }
    }

    /// Takes in what the current action gave, for the actions that give no
    /// value.
    pub fn report(&mut self, outcome: Result<(), String>)
        ensures
            final(self).stage@ == child_after(old(self).stage@, result_view(outcome)),
            final(self).command == old(self).command,
    {
        let next = match (&self.stage, outcome) {
            (ChildStage::CreatingCgroup { pid, name }, Ok(())) => Some(
                ChildStage::JoiningCgroup { pid: *pid, name: name.clone() },
            ),
            (ChildStage::CreatingCgroup { .. }, Err(e)) => Some(
                ChildStage::Aborted { message: context("failed to create cgroup path", &e) },
            ),
            (ChildStage::JoiningCgroup { .. }, Ok(())) => Some(ChildStage::SettingHostname),
            (ChildStage::JoiningCgroup { name, .. }, Err(e)) => Some(
                ChildStage::AbortedInCgroup {
                    message: context("Failed to add process to cgroup", &e),
                    name: name.clone(),
                },
            ),
            (ChildStage::SettingHostname, Ok(())) => Some(ChildStage::ReadingMergedDir),
            (ChildStage::SettingHostname, Err(e)) => Some(ChildStage::Finished { result: Err(e) }),
            (ChildStage::SettingUpFilesystem { .. }, Ok(())) => Some(ChildStage::InstallingReaper),
            (ChildStage::SettingUpFilesystem { .. }, Err(e)) => Some(
                ChildStage::Finished { result: Err(context("Filesystem setup failed", &e)) },
            ),
            (ChildStage::InstallingReaper, Ok(())) => Some(ChildStage::RunningCommand),
            (ChildStage::InstallingReaper, Err(e)) => Some(
                ChildStage::Finished { result: Err(context("Failed to setup zombie reaper", &e)) },
            ),
            (ChildStage::RunningCommand, Ok(())) => Some(ChildStage::Finished { result: Ok(()) }),
            (ChildStage::RunningCommand, Err(e)) => Some(
                ChildStage::Finished { result: Err(context("Failed to run command", &e)) },
            ),
            _ => None,
        };
        match next {
            Some(n) => {
                self.stage = n;
            },
            None => {},
        }
    }
}

/// Whether the cgroup of `run` exists in stage `s`: from the moment its
/// directory was made until it has been released.
pub open spec fn cgroup_held(s: RunStageView) -> bool {
    ||| s is LimitingMemory
    ||| s is LimitingCpu
    ||| s is LimitingPids
    ||| s is SettingUpNetwork
    ||| s is Waiting
    ||| s is TearingDown
    ||| s is Releasing
}

/// Law: the overlay is torn down only after the child has been waited for:
/// `run` enters the tear-down only from waiting, and only when the wait
/// succeeded; a spawn never leads there.
pub proof fn teardown_only_after_wait(s: RunStageView, outcome: Result<(), Seq<char>>, spawned: Result<u32, Seq<char>>)
    ensures
        run_after(s, outcome) is TearingDown ==> s is Waiting && outcome is Ok,
        run_after_spawn(s, spawned) is TearingDown ==> s is TearingDown,
{
}

/// Law: a limit of the cgroup that cannot be set does not stop the run: from
/// each limit `run` goes on to the next limit, then to the network, whatever
/// the write gave.
pub proof fn limits_never_stop_run(s: RunStageView, e: Seq<char>)
    requires
        s is LimitingMemory || s is LimitingCpu || s is LimitingPids,
    ensures
        run_after(s, Err(e)) == run_after(s, Ok(())),
        run_after(s, Ok(())) is LimitingCpu || run_after(s, Ok(())) is LimitingPids || run_after(
            s,
            Ok(()),
        ) is SettingUpNetwork,
{
}

/// Law: once the cgroup exists, `run` keeps it until it releases it, and
/// finishes only after releasing it: from a stage that holds the cgroup,
/// whatever happens, the next stage holds it too or `run` finishes, and it
/// finishes only from the releasing stage, whose action releases the cgroup.
pub proof fn cgroup_released_before_finish(m: RunMachine, outcome: Result<(), Seq<char>>, spawned: Result<u32, Seq<char>>)
    requires
        cgroup_held(m.stage@),
    ensures
        cgroup_held(run_after(m.stage@, outcome)) || run_after(m.stage@, outcome) is Finished,
        run_after(m.stage@, outcome) is Finished ==> m.stage@ is Releasing
            && m.action_spec() == (RunActionView::ReleaseCgroup {
                name: m.cgroup.name@,
                path: m.cgroup.path@,
            }),
        run_after_spawn(m.stage@, spawned) == m.stage@,
{
}

/// Whether `call` writes the file `path`.
pub open spec fn writes_file(call: SyscallView, path: Seq<char>) -> bool {
    match call {
        SyscallView::WriteFile { path: p, .. } => p == path,
        _ => false,
    }
}

/// Law: `run` never adds a process to the cgroup; the process that the child
/// forks adds itself. No step of `run` writes the cgroup's `cgroup.procs`.
pub proof fn run_never_adds_processes(m: RunMachine)
    ensures
        m.action_spec() matches RunActionView::Perform(st) ==> !writes_file(
            st.call,
            control_file(m.cgroup.path@, "cgroup.procs"@),
        ),
{
    reveal_strlit("cgroup.procs");
    reveal_strlit("memory.max");
    reveal_strlit("cpu.max");
    reveal_strlit("pids.max");
    let p = m.cgroup.path@;
    let procs = control_file(p, "cgroup.procs"@);
    assert(control_file(p, "memory.max"@).len() != procs.len());
    assert(control_file(p, "cpu.max"@).len() != procs.len());
    assert(control_file(p, "pids.max"@).len() != procs.len());
}

/// Law: the child is spawned in new namespaces: before the spawned process
/// runs the program, it unshares its UTS (host name), mount, PID and network
/// namespaces, and it prints nothing for that.
pub proof fn child_spawned_in_new_namespaces(m: RunMachine)
    requires
        m.stage@ is Spawning,
    ensures
        m.action_spec() matches RunActionView::Spawn { namespaces, .. } && namespaces == silent(
            SyscallView::Unshare {
                flags: crate::syscall::clone_newuts_bits() | crate::syscall::clone_newns_bits()
                    | crate::syscall::clone_newpid_bits() | crate::syscall::clone_newnet_bits(),
            },
        ),
{
}

/// Law: `run` first sets up the overlay with a fresh plan that makes the
/// overlay's three directories before it mounts the overlay on the merged one.
pub proof fn run_sets_up_overlay_first(m: RunMachine)
    requires
        m.stage@ is SettingUpOverlay,
    ensures
        m.action_spec() matches RunActionView::RunPlan(p) && p.completed == 0 && !p.failed
            && sets_up_overlay(m.overlay, p.steps),
{
    overlay_setup_order(m.overlay);
}

/// Law: once the child has been waited for, `run` tears the overlay down with
/// a fresh plan that unmounts it before it removes any directory, and then
/// removes exactly its layers.
pub proof fn run_unmounts_before_removing(m: RunMachine)
    requires
        m.stage@ is TearingDown,
    ensures
        m.action_spec() matches RunActionView::RunPlan(p) && p.completed == 0 && !p.failed
            && tears_down_overlay(m.overlay, p.steps),
{
    overlay_teardown_order(m.overlay);
}

/// Whether the argument list `args` of the spawned process is `child`
/// followed by every word of `command`, in order.
pub open spec fn passes_command(args: Seq<Seq<char>>, command: Seq<String>) -> bool {
    &&& args.len() == command.len() + 1
    &&& args[0] == "child"@
    &&& forall|i: int| 0 <= i < command.len() ==> args[i + 1] == (#[trigger] command[i])@
}

/// Law: `run` re-executes itself (`/proc/self/exe`) as `child`, handing on the
/// whole command, every word of it in order.
pub proof fn spawn_passes_whole_command(m: RunMachine)
    requires
        m.stage@ is Spawning,
    ensures
        m.action_spec() matches RunActionView::Spawn { program, args, .. } && program
            == "/proc/self/exe"@ && passes_command(args, m.command@),
{
    let args = seq!["child"@] + texts(m.command@);
    assert forall|i: int| 0 <= i < m.command@.len() implies args[i + 1] == (
    #[trigger] m.command@[i])@ by {
        assert(args[i + 1] == texts(m.command@)[i]);
    }
}

/// Whether the action `a` carries out a single step that makes `call`.
pub open spec fn performs(a: RunActionView, call: SyscallView) -> bool {
    match a {
        RunActionView::Perform(st) => st.call == call,
        _ => false,
    }
}

/// Law: `run` limits the container's cgroup to 100 MiB of memory
/// (`104857600` in `memory.max`), to half of one CPU (`50000 100000` in
/// `cpu.max`) and to 10 processes (`10` in `pids.max`), in that order, each in
/// the cgroup's own directory.
pub proof fn run_limits(m: RunMachine, pid: u32)
    ensures
        (m.stage@ == RunStageView::LimitingMemory { child_pid: pid }) ==> performs(
            m.action_spec(),
            SyscallView::WriteFile { path: m.cgroup.path@ + "/"@ + "memory.max"@, contents: "104857600"@ },
        ),
        (m.stage@ == RunStageView::LimitingCpu { child_pid: pid }) ==> performs(
            m.action_spec(),
            SyscallView::WriteFile { path: m.cgroup.path@ + "/"@ + "cpu.max"@, contents: "50000 100000"@ },
        ),
        (m.stage@ == RunStageView::LimitingPids { child_pid: pid }) ==> performs(
            m.action_spec(),
            SyscallView::WriteFile { path: m.cgroup.path@ + "/"@ + "pids.max"@, contents: "10"@ },
        ),
        run_after(RunStageView::LimitingMemory { child_pid: pid }, Ok(()))
            == (RunStageView::LimitingCpu { child_pid: pid }),
        run_after(RunStageView::LimitingCpu { child_pid: pid }, Ok(()))
            == (RunStageView::LimitingPids { child_pid: pid }),
{
    reveal_strlit("104857600");
    reveal_strlit("50000 100000");
    reveal_strlit("10");
    reveal_strlit(" ");
    reveal_with_fuel(decimal, 10);
    assert(decimal(104857600) =~= seq!['1', '0', '4', '8', '5', '7', '6', '0', '0']);
    assert(decimal(50000) =~= seq!['5', '0', '0', '0', '0']);
    assert(decimal(100000) =~= seq!['1', '0', '0', '0', '0', '0']);
    assert(decimal(10) =~= seq!['1', '0']);
    assert(signed_decimal(50000) + " "@ + signed_decimal(100000) =~= "50000 100000"@);
    assert(MEMORY_LIMIT_BYTES == 104857600);
    assert(PID_LIMIT == 10);
    assert(signed_decimal(MEMORY_LIMIT_BYTES as int) =~= "104857600"@);
    assert(decimal(PID_LIMIT as nat) =~= "10"@);
}

/// Law: the child works in the resources that `run` made for it: the cgroup
/// whose name `run` hands over in `CGROUP_NAME` is the one `run` limits and
/// releases, and the directory handed over in `OVERLAY_MERGED`, which the
/// child makes its root, is the overlay that `run` mounted.
pub proof fn child_uses_run_resources(m: RunMachine, c: ChildMachine, pid: u32)
    requires
        m.stage@ is Spawning,
        m.cgroup.path@ == cgroup_dir(m.cgroup.name@),
        c.stage@ == (ChildStageView::ReadingCgroupName { pid }),
    ensures
        m.action_spec() matches RunActionView::Spawn { env, .. } && env.len() == 2 && env[0].0
            == "CGROUP_NAME"@ && env[1].0 == "OVERLAY_MERGED"@ && child_after_env(
            c.stage@,
            Ok(env[0].1),
        ) == (ChildStageView::CreatingCgroup { pid, name: m.cgroup.name@ })
            && cgroup_dir(m.cgroup.name@) == m.cgroup.path@ && child_after_env(
            ChildStageView::ReadingMergedDir,
            Ok(env[1].1),
        ) == (ChildStageView::SettingUpFilesystem { merged: m.overlay.merged_dir@ }),
{
}

/// Law: the process that joins the cgroup is the one that the fork made
/// inside the PID namespace, not the one that forked: after `fork` returned 0
/// in the process whose id is then `pid`, and the cgroup's name was read as
/// `name`, the process adds `pid` to `name`'s `cgroup.procs`; when `fork`
/// returned a child's id, the process only waits for it and exits, with the
/// child's exit status, or with 1 when the wait failed.
pub proof fn forked_process_joins_cgroup(
    c: ChildMachine,
    pid: u32,
    os_error: Seq<char>,
    name: Seq<char>,
    status: i32,
    child: i32,
    waited: i32,
)
    requires
        c.stage@ is Forking,
        child > 0,
    ensures
        ({
            let s1 = child_after_fork(c.stage@, 0, pid, os_error);
            let s2 = child_after_env(s1, Ok(name));
            let s3 = child_after(s2, Ok(()));
            s3 == ChildStageView::JoiningCgroup { pid, name }
        }),
        ({
            let w = child_after_fork(c.stage@, child, pid, os_error);
            &&& w == ChildStageView::WaitingForChild { child: child }
            &&& child_after_wait(w, child, status) == ChildStageView::Exiting {
                code: parent_exit_code(status),
            }
            &&& waited < 0 ==> child_after_wait(w, waited, status) == ChildStageView::Exiting {
                code: 1,
            }
        }),
{
}

/// Whether the action `a` of the child carries out a single step that makes
/// `call`.
pub open spec fn child_performs(a: ChildActionView, call: SyscallView) -> bool {
    match a {
        ChildActionView::Perform(st) => st.call == call,
        _ => false,
    }
}

/// Whether `a` runs `program` with the arguments `args`.
pub open spec fn runs_command(a: ChildActionView, program: Seq<char>, args: Seq<Seq<char>>) -> bool {
    match a {
        ChildActionView::RunCommand { program: p, args: r } => p == program && r == args,
        _ => false,
    }
}

/// Law: what the child's own steps do. It adds its own process id, in
/// decimal, to `/sys/fs/cgroup/<name>/cgroup.procs`, a text that lists exactly
/// that process; it names its host `container` (9 bytes); and it runs the
/// first word of the command with the remaining words as arguments, or
/// panics, as indexing an empty list does, when the command is empty.
pub proof fn child_actions(c: ChildMachine, pid: u32, name: Seq<char>)
    ensures
        c.stage@ == (ChildStageView::JoiningCgroup { pid, name }) ==> child_performs(
            c.action_spec(),
            SyscallView::WriteFile {
                path: "/sys/fs/cgroup/"@ + name + "/"@ + "cgroup.procs"@,
                contents: decimal(pid as nat),
            },
        ),
        pid <= i32::MAX ==> listed_numbers(decimal(pid as nat)) == seq![pid as i32],
        c.stage@ is SettingHostname ==> child_performs(
            c.action_spec(),
            SyscallView::SetHostname { name: "container"@ + "\0"@, len: 9 },
        ),
        c.stage@ is RunningCommand && c.command@.len() > 0 ==> runs_command(
            c.action_spec(),
            c.command@[0]@,
            c.command@.skip(1).map_values(|w: String| w@),
        ),
        c.stage@ is RunningCommand && c.command@.len() == 0 ==> c.action_spec()
            == ChildActionView::Abort(
            "index out of bounds: the len is 0 but the index is 0"@,
        ),
{
    if pid <= i32::MAX {
        listed_numbers_of_decimal(pid as nat);
    }
    if c.command@.len() > 0 {
        assert(texts(c.command@).skip(1) =~= c.command@.skip(1).map_values(|w: String| w@));
    }
}

/// Law: the child releases the cgroup only when adding itself to it failed,
/// and then releases the very cgroup it tried to join; once it has joined,
/// the cgroup is left to `run`, which made it.
pub proof fn child_releases_cgroup_only_on_failed_join(
    c: ChildMachine,
    outcome: Result<(), Seq<char>>,
    value: Result<Seq<char>, Seq<char>>,
    ret: i32,
    self_pid: u32,
    os_error: Seq<char>,
    waited: i32,
    status: i32,
    e: Seq<char>,
)
    requires
        !(c.stage@ is AbortedInCgroup),
    ensures
        child_after(c.stage@, outcome) is AbortedInCgroup ==> c.stage@ is JoiningCgroup
            && outcome is Err,
        !(child_after_env(c.stage@, value) is AbortedInCgroup),
        !(child_after_fork(c.stage@, ret, self_pid, os_error) is AbortedInCgroup),
        !(child_after_wait(c.stage@, waited, status) is AbortedInCgroup),
        c.stage@ matches ChildStageView::JoiningCgroup { pid, name } ==> (c.action_spec()
            == ChildActionView::Perform(
            StepView {
                call: add_process_write(cgroup_dir(name), pid),
                before: seq![],
                on_success: seq!["Added PID "@ + decimal(pid as nat) + " to cgroup "@ + name],
                on_failure: None,
            },
        )),
        c.stage@ matches ChildStageView::JoiningCgroup { name, .. } ==> child_after(
            c.stage@,
            Err(e),
        ) == (ChildStageView::AbortedInCgroup {
            message: ctx("Failed to add process to cgroup"@, e),
            name,
        }),
{
}

/// Law: a child that panics after failing to join the cgroup releases that
/// cgroup, the one at `/sys/fs/cgroup/<name>`, as the panic unwinds.
pub proof fn failed_join_releases_cgroup(c: ChildMachine)
    requires
        c.stage@ is AbortedInCgroup,
    ensures
        c.stage@ matches ChildStageView::AbortedInCgroup { message, name } && c.action_spec()
            == (ChildActionView::AbortReleasing { message, name, path: cgroup_dir(name) }),
{
}

/// Law: the container's filesystem is isolated only after the process has
/// joined the cgroup and set the host name, and the user's command runs only
/// after the filesystem and the reaper are in place.
pub proof fn child_setup_order(s: ChildStageView, outcome: Result<(), Seq<char>>, value: Result<Seq<char>, Seq<char>>)
    ensures
        child_after_env(s, value) is SettingUpFilesystem ==> s is ReadingMergedDir
            || s is SettingUpFilesystem,
        child_after(s, outcome) is ReadingMergedDir ==> s is SettingHostname || s is ReadingMergedDir,
        child_after(s, outcome) is SettingHostname ==> s is JoiningCgroup || s is SettingHostname,
        child_after(s, outcome) is RunningCommand ==> s is InstallingReaper || s is RunningCommand,
        child_after(s, outcome) is InstallingReaper ==> s is SettingUpFilesystem || s is InstallingReaper,
{
}

fn copy_result(r: &Result<(), String>) -> (c: Result<(), String>)
    ensures
        result_view(c) == result_view(*r),
{
    match r {
        Ok(()) => Ok(()),
        Err(e) => Err(e.clone()),
    }
}

} // verus!
