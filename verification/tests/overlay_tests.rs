use cor::overlayfs::OverlayFs;
use cor::plan::PlanStatus;
use cor::syscall::{Step, Syscall};

fn s(x: &str) -> String {
    x.to_string()
}

fn sample() -> OverlayFs {
    OverlayFs::new("c1", "/rootfs", "/base")
}

#[test]
fn overlay_new_directories() {
    let o = sample();
    assert_eq!(o.container_id, "c1");
    assert_eq!(o.lower_dir, "/rootfs");
    assert_eq!(o.upper_dir, "/base/c1/upper");
    assert_eq!(o.work_dir, "/base/c1/work");
    assert_eq!(o.merged_dir, "/base/c1/merged");
}

#[test]
fn overlay_create_directories_steps() {
    let o = sample();
    assert_eq!(
        o.create_directories(),
        vec![
            Step {
                call: Syscall::CreateDirAll { path: s("/base/c1/upper") },
                before: vec![s("Creating overlay directories for container c1")],
                on_success: vec![],
                on_failure: None,
            },
            Step {
                call: Syscall::CreateDirAll { path: s("/base/c1/work") },
                before: vec![],
                on_success: vec![],
                on_failure: None,
            },
            Step {
                call: Syscall::CreateDirAll { path: s("/base/c1/merged") },
                before: vec![],
                on_success: vec![
                    s("  Upper: /base/c1/upper"),
                    s("  Work:  /base/c1/work"),
                    s("  Merged: /base/c1/merged"),
                ],
                on_failure: None,
            },
        ]
    );
}

#[test]
fn overlay_mount_step() {
    let o = sample();
    assert_eq!(
        o.mount(),
        Step {
            call: Syscall::Mount {
                source: Some(s("overlay\0")),
                target: s("/base/c1/merged\0"),
                fstype: Some(s("overlay\0")),
                mountflags: 0,
                data: Some(s("lowerdir=/rootfs,upperdir=/base/c1/upper,workdir=/base/c1/work\0")),
            },
            before: vec![
                s("Mounting OverlayFS:"),
                s("  Lower (RO): /rootfs"),
                s("  Upper (RW): /base/c1/upper"),
                s("  Merged:     /base/c1/merged"),
            ],
            on_success: vec![s("OverlayFS mounted successfully")],
            on_failure: Some(s("OverlayFS mount failed")),
        }
    );
}

#[test]
fn overlay_unmount_step() {
    assert_eq!(
        sample().unmount(),
        Step {
            call: Syscall::Umount2 { target: s("/base/c1/merged\0"), flags: libc::MNT_DETACH },
            before: vec![s("Unmounting OverlayFS at /base/c1/merged")],
            on_success: vec![s("OverlayFS unmounted successfully")],
            on_failure: Some(s("OverlayFS unmount failed")),
        }
    );
}

#[test]
fn overlay_cleanup_removes_container_dir() {
    assert_eq!(
        sample().cleanup(),
        vec![Step {
            call: Syscall::RemoveTreeIfExists { tree: s("/base/c1") },
            before: vec![s("Cleaning up container directories for c1")],
            on_success: vec![s("Removed container directory: /base/c1")],
            on_failure: None,
        }]
    );
}

#[test]
fn overlay_cleanup_of_scattered_layers() {
    let mut o = sample();
    o.upper_dir = s("/data/upper");
    o.work_dir = s("/w/work");
    o.merged_dir = s("/m/merged");
    assert_eq!(
        o.cleanup(),
        vec![
            Step {
                call: Syscall::RemoveTreeIfExists { tree: s("/data/upper") },
                before: vec![s("Cleaning up container directories for c1")],
                on_success: vec![s("Removed directory: /data/upper")],
                on_failure: None,
            },
            Step {
                call: Syscall::RemoveTreeIfExists { tree: s("/w/work") },
                before: vec![],
                on_success: vec![s("Removed directory: /w/work")],
                on_failure: None,
            },
            Step {
                call: Syscall::RemoveTreeIfExists { tree: s("/m/merged") },
                before: vec![],
                on_success: vec![s("Removed directory: /m/merged")],
                on_failure: None,
            },
        ]
    );
}

#[test]
fn overlay_cleanup_never_removes_root() {
    let o = OverlayFs::new("", "/rootfs", "");
    assert_eq!(o.upper_dir, "//upper");
    let steps = o.cleanup();
    assert_eq!(steps.len(), 3);
    assert_eq!(steps[0].call, Syscall::RemoveTreeIfExists { tree: s("//upper") });
    let mut p = sample();
    p.upper_dir = s("upper");
    assert_eq!(p.cleanup().len(), 3);
    p.upper_dir = s("/base/c1/upper");
    p.work_dir = s("/base/c1/work2");
    assert_eq!(p.cleanup().len(), 3);
}

#[test]
fn overlay_cleanup_with_unicode_container_dir() {
    let o = OverlayFs::new("\u{e9}t\u{e9}", "/rootfs", "/b");
    assert_eq!(
        o.cleanup()[0].call,
        Syscall::RemoveTreeIfExists { tree: s("/b/\u{e9}t\u{e9}") }
    );
}

#[test]
fn overlay_setup_and_teardown_plans() {
    let o = sample();
    let mut setup = o.setup();
    assert_eq!(setup.len(), 4);
    let mut seen = Vec::new();
    while let Some(step) = setup.next_step() {
        seen.push(step.call.clone_path());
        setup.record(true);
    }
    assert_eq!(setup.status(), PlanStatus::Completed);
    assert_eq!(seen, vec!["/base/c1/upper", "/base/c1/work", "/base/c1/merged", "/base/c1/merged\0"]);

    let mut teardown = o.teardown();
    assert_eq!(teardown.len(), 2);
    assert_eq!(teardown.next_step().unwrap(), &o.unmount());
    teardown.record(false);
    assert_eq!(teardown.status(), PlanStatus::Failed(0));
    assert!(teardown.next_step().is_none());
}

trait PathOf {
    fn clone_path(&self) -> String;
}

impl PathOf for Syscall {
    fn clone_path(&self) -> String {
        match self {
            Syscall::CreateDirAll { path } => path.clone(),
            Syscall::Mount { target, .. } => target.clone(),
            other => panic!("{:?}", other),
        }
    }
}
