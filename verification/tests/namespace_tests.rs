use cor::namespace::{
    create_namespaces, fork_role, keep_reaping, reap_wait_args, reaper_setup, set_hostname,
    wait_status_code, ForkRole, ReaperSetup,
};
use cor::syscall::{Step, Syscall};

#[test]
fn namespaces_flags() {
    let s = create_namespaces();
    assert_eq!(
        s,
        Step {
            call: Syscall::Unshare {
                flags: libc::CLONE_NEWUTS | libc::CLONE_NEWNS | libc::CLONE_NEWPID | libc::CLONE_NEWNET,
            },
            before: vec![],
            on_success: vec![],
            on_failure: None,
        }
    );
    assert_eq!(s.call, Syscall::Unshare { flags: 0x6402_0000 });
}

#[test]
fn hostname_step() {
    assert_eq!(
        set_hostname("container"),
        Step {
            call: Syscall::SetHostname { name: "container\0".to_string(), len: 9 },
            before: vec![],
            on_success: vec!["sethostname successful".to_string()],
            on_failure: None,
        }
    );
    assert_eq!(
        set_hostname("h\u{e9}"),
        Step {
            call: Syscall::SetHostname { name: "h\u{e9}\0".to_string(), len: 3 },
            before: vec![],
            on_success: vec!["sethostname successful".to_string()],
            on_failure: None,
        }
    );
}

#[test]
fn fork_roles() {
    assert_eq!(fork_role(-1), ForkRole::Failed);
    assert_eq!(fork_role(0), ForkRole::Child);
    assert_eq!(fork_role(1234), ForkRole::Parent(1234));
}

#[test]
fn wait_status_codes() {
    assert_eq!(wait_status_code(40, 0), 0);
    assert_eq!(wait_status_code(40, 3 << 8), 3);
    assert_eq!(wait_status_code(40, 255 << 8), 255);
    assert_eq!(wait_status_code(40, 9), 1);
    assert_eq!(wait_status_code(40, (1 << 8) | 0x80 | 6), 1);
    for status in [0, 0x100, 0x7f00, 0x0f, 0x8b, 0x137f] {
        let expected = if libc::WIFEXITED(status) { libc::WEXITSTATUS(status) } else { 1 };
        assert_eq!(wait_status_code(40, status), expected);
    }
}

#[test]
fn failed_wait_gives_one() {
    assert_eq!(wait_status_code(-1, 0), 1);
    assert_eq!(wait_status_code(-1, 3 << 8), 1);
    assert_eq!(wait_status_code(0, 0), 0);
    assert_eq!(wait_status_code(5, 0), 0);
    assert_eq!(wait_status_code(5, 2 << 8), 2);
}

#[test]
fn reaper_installation() {
    assert_eq!(
        reaper_setup(),
        ReaperSetup {
            signal: libc::SIGCHLD,
            flags: libc::SA_RESTART | libc::SA_NOCLDSTOP,
            blocked: vec![],
        }
    );
    assert_eq!(reaper_setup(), ReaperSetup { signal: 17, flags: 0x1000_0001, blocked: vec![] });
    assert_eq!(reap_wait_args(), (-1, libc::WNOHANG));
}

#[test]
fn reaping_goes_on_only_after_a_reaped_child() {
    assert!(keep_reaping(17));
    assert!(!keep_reaping(0));
    assert!(!keep_reaping(-1));
}
