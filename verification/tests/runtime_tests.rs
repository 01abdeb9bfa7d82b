use cor::plan::PlanStatus;
use cor::runtime::{
    container_id, parse_invocation, ChildAction, ChildMachine, ChildStage, Invocation, RunAction,
    RunMachine, RunStage,
};
use cor::syscall::{Step, Syscall};

fn s(x: &str) -> String {
    x.to_string()
}

fn args(v: &[&str]) -> Vec<String> {
    v.iter().map(|x| x.to_string()).collect()
}

#[test]
fn invocation_dispatch() {
    assert_eq!(parse_invocation(&args(&["cor", "run", "/bin/bash"])), Invocation::Run(args(&["/bin/bash"])));
    assert_eq!(parse_invocation(&args(&["cor", "child", "ls", "-l"])), Invocation::Child(args(&["ls", "-l"])));
    assert_eq!(parse_invocation(&args(&["cor", "run"])), Invocation::Run(vec![]));
    assert_eq!(parse_invocation(&args(&["cor"])), Invocation::Usage);
    assert_eq!(parse_invocation(&args(&[])), Invocation::Usage);
    assert_eq!(parse_invocation(&args(&["cor", "walk"])), Invocation::Usage);
    assert_eq!(parse_invocation(&args(&["cor", "Run", "x"])), Invocation::Usage);
}

#[test]
fn container_id_from_pid() {
    assert_eq!(container_id(4242), "mycontainer-4242");
    assert_eq!(container_id(0), "mycontainer-0");
}

fn run_plan_to_end(a: RunAction, ok: bool) -> usize {
    match a {
        RunAction::RunPlan(mut p) => {
            let mut n = 0;
            while p.next_step().is_some() {
                n += 1;
                p.record(ok);
            }
            assert_eq!(p.status() == PlanStatus::Completed, ok);
            n
        }
        other => panic!("expected a plan, got {:?}", other),
    }
}

#[test]
fn run_machine_success_path() {
    let mut m = RunMachine::new(77, args(&["/bin/bash"]));
    assert_eq!(m.overlay.merged_dir, "/home/abc/Documents/cor/containers/mycontainer-77/merged");
    assert_eq!(m.overlay.lower_dir, "/home/abc/Documents/cor/rootfs");
    assert_eq!(m.cgroup.path, "/sys/fs/cgroup/mycontainer-77");
    assert_eq!(run_plan_to_end(m.action(), true), 4);
    m.report(Ok(()));
    match m.action() {
        RunAction::Spawn { program, args: a, env, namespaces } => {
            assert_eq!(namespaces, cor::namespace::create_namespaces());
            assert_eq!(program, "/proc/self/exe");
            assert_eq!(a, args(&["child", "/bin/bash"]));
            assert_eq!(
                env,
                vec![
                    (s("CGROUP_NAME"), s("mycontainer-77")),
                    (s("OVERLAY_MERGED"), s("/home/abc/Documents/cor/containers/mycontainer-77/merged")),
                ]
            );
        }
        other => panic!("{:?}", other),
    }
    m.report_spawn(Ok(900));
    assert_eq!(
        m.action(),
        RunAction::Perform(Step {
            call: Syscall::EnsureDir { path: s("/sys/fs/cgroup/mycontainer-77") },
            before: vec![s("Child process PID: 900")],
            on_success: vec![],
            on_failure: None,
        })
    );
    m.report(Ok(()));
    assert_eq!(
        m.action(),
        RunAction::Perform(Step {
            call: Syscall::WriteFile {
                path: s("/sys/fs/cgroup/mycontainer-77/memory.max"),
                contents: s("104857600"),
            },
            before: vec![],
            on_success: vec![s("Set memory limit for cgroup mycontainer-77")],
            on_failure: Some(s("Failed to set memory limit")),
        })
    );
    m.report(Ok(()));
    match m.action() {
        RunAction::Perform(step) => {
            assert_eq!(
                step.call,
                Syscall::WriteFile { path: s("/sys/fs/cgroup/mycontainer-77/cpu.max"), contents: s("50000 100000") }
            );
            assert_eq!(step.on_success, vec![s("Set CPU limit for cgroup mycontainer-77")]);
            assert_eq!(step.on_failure, Some(s("Failed to set CPU limit")));
        }
        other => panic!("{:?}", other),
    }
    m.report(Ok(()));
    match m.action() {
        RunAction::Perform(step) => {
            assert_eq!(
                step.call,
                Syscall::WriteFile { path: s("/sys/fs/cgroup/mycontainer-77/pids.max"), contents: s("10") }
            );
            assert_eq!(step.on_failure, Some(s("Failed to set PID limit")));
        }
        other => panic!("{:?}", other),
    }
    m.report(Ok(()));
    assert_eq!(
        m.action(),
        RunAction::SetUpNetwork { child_pid: 900, script: s("/home/abc/Documents/cor/setup-network.sh") }
    );
    m.report(Err(s("script missing")));
    assert_eq!(m.action(), RunAction::WaitForChild);
    m.report(Ok(()));
    assert_eq!(run_plan_to_end(m.action(), true), 2);
    m.report(Ok(()));
    match m.action() {
        RunAction::ReleaseCgroup(c) => assert_eq!(c.path, "/sys/fs/cgroup/mycontainer-77"),
        other => panic!("{:?}", other),
    }
    m.report(Ok(()));
    assert_eq!(m.action(), RunAction::Finish(Ok(())));
}

#[test]
fn run_machine_overlay_failure_finishes_at_once() {
    let mut m = RunMachine::new(5, vec![]);
    m.report(Err(s("Permission denied (os error 13)")));
    assert_eq!(m.action(), RunAction::Finish(Err(s("OverlayFS setup failed: Permission denied (os error 13)"))));
    m.report(Ok(()));
    assert_eq!(m.stage, RunStage::Finished { result: Err(s("OverlayFS setup failed: Permission denied (os error 13)")) });
}

#[test]
fn run_machine_spawn_failure() {
    let mut m = RunMachine::new(5, vec![]);
    m.report(Ok(()));
    m.report(Ok(()));
    assert!(matches!(m.action(), RunAction::Spawn { .. }));
    m.report_spawn(Err(s("boom")));
    assert_eq!(m.action(), RunAction::Finish(Err(s("Failed to spawn child: boom"))));
}

#[test]
fn run_machine_limits_never_stop_law() {
    let mut m = RunMachine::new(5, vec![]);
    m.report(Ok(()));
    m.report_spawn(Ok(6));
    m.report(Ok(()));
    m.report(Err(s("no memory controller")));
    m.report(Err(s("no cpu controller")));
    m.report(Err(s("no pids controller")));
    assert_eq!(m.stage, RunStage::SettingUpNetwork { child_pid: 6 });
}

#[test]
fn run_machine_cgroup_creation_failure_aborts() {
    let mut m = RunMachine::new(5, vec![]);
    m.report(Ok(()));
    m.report_spawn(Ok(6));
    m.report(Err(s("Os { code: 13 }")));
    assert_eq!(m.action(), RunAction::Abort(s("failed to create cgroup path: Os { code: 13 }")));
}

#[test]
fn run_machine_wait_failure_releases_then_fails() {
    let mut m = RunMachine::new(5, vec![]);
    m.report(Ok(()));
    m.report_spawn(Ok(6));
    for _ in 0..5 {
        m.report(Ok(()));
    }
    assert_eq!(m.action(), RunAction::WaitForChild);
    m.report(Err(s("ECHILD")));
    assert!(matches!(m.action(), RunAction::ReleaseCgroup(_)));
    m.report(Ok(()));
    assert_eq!(m.action(), RunAction::Finish(Err(s("Failed to wait for child: ECHILD"))));
}

#[test]
fn run_machine_teardown_failure_releases_then_fails() {
    let mut m = RunMachine::new(5, vec![]);
    m.report(Ok(()));
    m.report_spawn(Ok(6));
    for _ in 0..6 {
        m.report(Ok(()));
    }
    assert!(matches!(m.action(), RunAction::RunPlan(_)));
    m.report(Err(s("busy")));
    assert!(matches!(m.action(), RunAction::ReleaseCgroup(_)));
    m.report(Ok(()));
    assert_eq!(m.action(), RunAction::Finish(Err(s("OverlayFS cleanup failed: busy"))));
}

#[test]
fn run_machine_ignores_unanswered_reports() {
    let mut m = RunMachine::new(5, vec![]);
    m.report_spawn(Ok(3));
    assert_eq!(m.stage, RunStage::SettingUpOverlay);
    m.report(Ok(()));
    m.report(Ok(()));
    assert_eq!(m.stage, RunStage::Spawning);
}

#[test]
fn child_machine_parent_waits_and_exits() {
    let mut c = ChildMachine::new(args(&["/bin/sh"]));
    assert_eq!(c.action(), ChildAction::Fork);
    c.report_fork(55, 1, s(""));
    assert_eq!(c.action(), ChildAction::WaitFor(55));
    c.report_wait(55, 7 << 8);
    assert_eq!(c.action(), ChildAction::Exit(7));
    c.report(Ok(()));
    assert_eq!(c.action(), ChildAction::Exit(7));
}

#[test]
fn child_machine_successful_wait_for_any_pid_decodes_status() {
    let mut c = ChildMachine::new(vec![]);
    c.report_fork(55, 1, s(""));
    c.report_wait(55, 0);
    assert_eq!(c.action(), ChildAction::Exit(0));
}

#[test]
fn child_machine_failed_wait_gives_one() {
    let mut c = ChildMachine::new(vec![]);
    c.report_fork(55, 1, s(""));
    c.report_wait(-1, 0);
    assert_eq!(c.action(), ChildAction::Exit(1));
}

#[test]
fn machines_say_when_failure_aborts() {
    let mut m = RunMachine::new(5, vec![]);
    assert!(!m.failure_aborts());
    m.report(Ok(()));
    m.report_spawn(Ok(6));
    assert!(m.failure_aborts());
    m.report(Ok(()));
    assert!(!m.failure_aborts());
    let mut c = ChildMachine::new(vec![]);
    c.report_fork(0, 2, s(""));
    assert!(!c.failure_aborts());
    c.report_env(Ok(s("g")));
    assert!(c.failure_aborts());
    c.report(Ok(()));
    assert!(c.failure_aborts());
    c.report(Ok(()));
    assert!(!c.failure_aborts());
}

#[test]
fn child_machine_killed_child_gives_one() {

    let mut c = ChildMachine::new(vec![]);
    c.report_fork(55, 1, s(""));
    c.report_wait(55, 9);
    assert_eq!(c.action(), ChildAction::Exit(1));
}

#[test]
fn child_machine_fork_failure() {
    let mut c = ChildMachine::new(vec![]);
    c.report_fork(-1, 1, s("Resource temporarily unavailable (os error 11)"));
    assert_eq!(c.action(), ChildAction::Finish(Err(s("Resource temporarily unavailable (os error 11)"))));
}

#[test]
fn child_machine_full_path() {
    let mut c = ChildMachine::new(args(&["/bin/ls", "-l", "/"]));
    c.report_fork(0, 2, s(""));
    assert_eq!(
        c.action(),
        ChildAction::ReadEnv { name: s("CGROUP_NAME"), before: vec![s("After fork, PID is now: 2")] }
    );
    c.report_env(Ok(s("mycontainer-9")));
    assert_eq!(
        c.action(),
        ChildAction::Perform(Step {
            call: Syscall::EnsureDir { path: s("/sys/fs/cgroup/mycontainer-9") },
            before: vec![],
            on_success: vec![],
            on_failure: None,
        })
    );
    c.report(Ok(()));
    assert_eq!(
        c.action(),
        ChildAction::Perform(Step {
            call: Syscall::WriteFile { path: s("/sys/fs/cgroup/mycontainer-9/cgroup.procs"), contents: s("2") },
            before: vec![],
            on_success: vec![s("Added PID 2 to cgroup mycontainer-9")],
            on_failure: None,
        })
    );
    c.report(Ok(()));
    assert_eq!(c.action(), ChildAction::Perform(cor::namespace::set_hostname("container")));
    c.report(Ok(()));
    assert_eq!(c.action(), ChildAction::ReadEnv { name: s("OVERLAY_MERGED"), before: vec![] });
    c.report_env(Ok(s("/m")));
    match c.action() {
        ChildAction::RunPlan(p) => assert_eq!(p, cor::filesystem::setup_container_filesystem("/m")),
        other => panic!("{:?}", other),
    }
    c.report(Ok(()));
    assert_eq!(c.action(), ChildAction::InstallReaper(cor::namespace::reaper_setup()));
    c.report(Ok(()));
    assert_eq!(c.action(), ChildAction::RunCommand { program: s("/bin/ls"), args: args(&["-l", "/"]) });
    c.report(Ok(()));
    assert_eq!(c.action(), ChildAction::Finish(Ok(())));
}

#[test]
fn child_machine_errors() {
    let mut c = ChildMachine::new(vec![]);
    c.report_fork(0, 2, s(""));
    c.report_env(Err(s("NotPresent")));
    assert_eq!(c.action(), ChildAction::Abort(s("CGROUP_NAME environment variable not set: NotPresent")));

    let mut c = ChildMachine::new(vec![]);
    c.report_fork(0, 2, s(""));
    c.report_env(Ok(s("g")));
    c.report(Ok(()));
    c.report(Err(s("EACCES")));
    assert_eq!(
        c.action(),
        ChildAction::AbortReleasing {
            message: s("Failed to add process to cgroup: EACCES"),
            cgroup: cor::cgroups::Cgroup::new("g"),
        }
    );

    let mut c = ChildMachine::new(vec![]);
    c.report_fork(0, 2, s(""));
    c.report_env(Ok(s("g")));
    c.report(Ok(()));
    c.report(Ok(()));
    c.report(Err(s("EPERM")));
    assert_eq!(c.action(), ChildAction::Finish(Err(s("EPERM"))));

    let mut c = ChildMachine::new(vec![]);
    c.report_fork(0, 2, s(""));
    c.report_env(Ok(s("g")));
    c.report(Ok(()));
    c.report(Ok(()));
    c.report(Ok(()));
    c.report_env(Err(s("NotPresent")));
    assert_eq!(c.action(), ChildAction::Abort(s("OVERLAY_MERGED environment variable not set: NotPresent")));

    let mut c = ChildMachine::new(vec![]);
    c.report_fork(0, 2, s(""));
    c.report_env(Ok(s("g")));
    c.report(Ok(()));
    c.report(Ok(()));
    c.report(Ok(()));
    c.report_env(Ok(s("/m")));
    c.report(Err(s("mount failed")));
    assert_eq!(c.action(), ChildAction::Finish(Err(s("Filesystem setup failed: mount failed"))));

    let mut c = ChildMachine::new(vec![]);
    c.stage = ChildStage::InstallingReaper;
    c.report(Err(s("EINVAL")));
    assert_eq!(c.action(), ChildAction::Finish(Err(s("Failed to setup zombie reaper: EINVAL"))));

    let mut c = ChildMachine::new(vec![]);
    c.stage = ChildStage::RunningCommand;
    assert_eq!(c.action(), ChildAction::Abort(s("index out of bounds: the len is 0 but the index is 0")));
    c.report(Err(s("not found")));
    assert_eq!(c.action(), ChildAction::Finish(Err(s("Failed to run command: not found"))));
}
