use cor::cgroups::{Cgroup, CgroupRelease};
use cor::syscall::Syscall;

fn write_of(s: Syscall) -> (String, String) {
    match s {
        Syscall::WriteFile { path, contents } => (path, contents),
        other => panic!("not a write: {:?}", other),
    }
}

#[test]
fn cgroup_new_paths() {
    let c = Cgroup::new("mycontainer-42");
    assert_eq!(c.name, "mycontainer-42");
    assert_eq!(c.path, "/sys/fs/cgroup/mycontainer-42");
    assert_eq!(c.procs_file(), "/sys/fs/cgroup/mycontainer-42/cgroup.procs");
    assert_eq!(c.directory(), Syscall::EnsureDir { path: "/sys/fs/cgroup/mycontainer-42".to_string() });
}

#[test]
fn cgroup_limit_writes() {
    let c = Cgroup::new("box");
    assert_eq!(
        write_of(c.set_memory_limits(100 * 1024 * 1024)),
        ("/sys/fs/cgroup/box/memory.max".to_string(), "104857600".to_string())
    );
    assert_eq!(
        write_of(c.set_memory_limits(-1)),
        ("/sys/fs/cgroup/box/memory.max".to_string(), "-1".to_string())
    );
    assert_eq!(
        write_of(c.set_cpu_limits(50000, 100000)),
        ("/sys/fs/cgroup/box/cpu.max".to_string(), "50000 100000".to_string())
    );
    assert_eq!(
        write_of(c.set_pid_limit(&10)),
        ("/sys/fs/cgroup/box/pids.max".to_string(), "10".to_string())
    );
    assert_eq!(
        write_of(c.add_process_cgroup(4321)),
        ("/sys/fs/cgroup/box/cgroup.procs".to_string(), "4321".to_string())
    );
}

#[test]
fn pids_to_kill_reads_procs() {
    assert_eq!(Cgroup::pids_to_kill("101\n202\n303\n"), vec![101, 202, 303]);
    assert_eq!(Cgroup::pids_to_kill(""), Vec::<i32>::new());
    assert_eq!(Cgroup::pids_to_kill("garbage\n 7 \n"), vec![7]);
}

#[test]
fn added_process_is_listed_law() {
    let c = Cgroup::new("box");
    for pid in [1u32, 4321, i32::MAX as u32] {
        let (path, contents) = write_of(c.add_process_cgroup(pid));
        assert_eq!(path, c.procs_file());
        assert_eq!(Cgroup::pids_to_kill(&contents), vec![pid as i32]);
    }
}

#[test]
fn added_process_beyond_i32_is_not_listed() {
    let c = Cgroup::new("box");
    let (_, contents) = write_of(c.add_process_cgroup(3_000_000_000));
    assert_eq!(contents, "3000000000");
    assert_eq!(Cgroup::pids_to_kill(&contents), Vec::<i32>::new());
}

#[test]
fn cgroup_release_description() {
    let c = Cgroup::new("box");
    assert_eq!(
        c.release("11\n 22 \nzz\n"),
        CgroupRelease {
            kill: vec![11, 22],
            signal: libc::SIGKILL,
            pause_ms: 100,
            dir: "/sys/fs/cgroup/box".to_string(),
            removed_note: "Cleaned up cgroup: box".to_string(),
            failure_prefix: "Warning: Failed to remove cgroup directory /sys/fs/cgroup/box".to_string(),
        }
    );
    assert_eq!(c.release("").kill, Vec::<i32>::new());
    assert_eq!(c.release("").signal, 9);
}
