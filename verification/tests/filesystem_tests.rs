use cor::filesystem::{
    bind_mount_rootfs, cleanup_oldroot, create_oldroot_dir, make_mounts_private, mount_proc,
    pivot_root, setup_container_filesystem, setup_dns,
};
use cor::plan::PlanStatus;
use cor::syscall::{Step, Syscall};

fn s(x: &str) -> String {
    x.to_string()
}

fn checked(call: Syscall, op: &str) -> Step {
    Step {
        call,
        before: vec![],
        on_success: vec![format!("{} successful", op)],
        on_failure: Some(format!("{} failed", op)),
    }
}

#[test]
fn make_mounts_private_step() {
    assert_eq!(
        make_mounts_private(),
        checked(
            Syscall::Mount {
                source: None,
                target: s("/\0"),
                fstype: None,
                mountflags: libc::MS_REC | libc::MS_PRIVATE,
                data: None,
            },
            "mount (private)"
        )
    );
}

#[test]
fn bind_mount_rootfs_step() {
    assert_eq!(
        bind_mount_rootfs("/c/merged"),
        checked(
            Syscall::Mount {
                source: Some(s("/c/merged\0")),
                target: s("/c/merged\0"),
                fstype: Some(s("\0")),
                mountflags: 0x1000 | 0x4000,
                data: None,
            },
            "mount (bind rootfs)"
        )
    );
}

#[test]
fn oldroot_steps() {
    assert_eq!(
        create_oldroot_dir("/c/merged"),
        checked(Syscall::Mkdir { path: s("/c/merged/oldroot\0"), mode: 0o700 }, "mkdir (oldroot)")
    );
    assert_eq!(
        cleanup_oldroot(),
        vec![
            checked(Syscall::Umount2 { target: s("/oldroot\0"), flags: 2 }, "umount2 (oldroot)"),
            checked(Syscall::Rmdir { path: s("/oldroot\0") }, "rmdir (oldroot)"),
        ]
    );
}

#[test]
fn pivot_root_steps() {
    assert_eq!(
        pivot_root("/r"),
        vec![
            checked(Syscall::Chdir { path: s("/r\0") }, "chdir (to rootfs)"),
            checked(
                Syscall::PivotRoot { new_root: s(".\0"), put_old: s("oldroot\0") },
                "pivot_root"
            ),
            checked(Syscall::Chdir { path: s("/\0") }, "chdir (to /)"),
        ]
    );
}

#[test]
fn proc_and_dns_steps() {
    assert_eq!(
        mount_proc(),
        checked(
            Syscall::Mount {
                source: Some(s("proc\0")),
                target: s("/proc\0"),
                fstype: Some(s("proc\0")),
                mountflags: 0,
                data: None,
            },
            "mount (proc)"
        )
    );
    assert_eq!(
        setup_dns(),
        Step {
            call: Syscall::WriteFile {
                path: s("/etc/resolv.conf"),
                contents: s("nameserver 8.8.8.8\nnameserver 8.8.4.4\n"),
            },
            before: vec![],
            on_success: vec![s("DNS configuration written to /etc/resolv.conf")],
            on_failure: None,
        }
    );
}

#[test]
fn container_filesystem_plan_order_law() {
    let mut plan = setup_container_filesystem("/r");
    assert_eq!(plan.len(), 10);
    let mut calls = Vec::new();
    while let Some(step) = plan.next_step() {
        calls.push(format!("{:?}", step.call));
        plan.record(true);
    }
    assert_eq!(plan.status(), PlanStatus::Completed);
    assert_eq!(calls[0], format!("{:?}", make_mounts_private().call));
    assert_eq!(calls[1], format!("{:?}", bind_mount_rootfs("/r").call));
    assert!(calls[4].starts_with("PivotRoot"));
    assert_eq!(calls.iter().filter(|c| c.starts_with("PivotRoot")).count(), 1);
    assert_eq!(calls[6], format!("{:?}", mount_proc().call));
    assert!(calls[7].starts_with("Umount2"));
    assert!(calls[8].starts_with("Rmdir"));
    assert_eq!(calls[9], format!("{:?}", setup_dns().call));
}

#[test]
fn container_filesystem_plan_stops_at_failure() {
    let mut plan = setup_container_filesystem("/r");
    plan.record(true);
    plan.record(true);
    plan.record(false);
    assert_eq!(plan.status(), PlanStatus::Failed(2));
    assert!(plan.next_step().is_none());
    plan.record(true);
    assert_eq!(plan.status(), PlanStatus::Failed(2));
}
