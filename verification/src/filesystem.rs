//! The filesystem isolation of a container: its mounts made private, its
//! root file system pivoted to the container's directory, `/proc` mounted,
//! the old root detached and DNS configured.
use vstd::prelude::*;
use crate::syscall::{
    Step, StepView, Syscall, SyscallView, c_str, c_string, check_libc_result, checked, texts,
    ms_rec, ms_private, ms_bind, mnt_detach, ms_rec_bits, ms_private_bits, ms_bind_bits,
    mnt_detach_bits,
};
use crate::plan::{Plan, PlanView, step_views};

verus! {

/// Making every mount private (`MS_REC | MS_PRIVATE` on `/`), so that no
/// later mount or unmount propagates to the host.
pub open spec fn make_mounts_private_spec() -> StepView {
    checked(
        SyscallView::Mount {
            source: None,
            target: c_str("/"@),
            fstype: None,
            mountflags: ms_rec_bits() | ms_private_bits(),
            data: None,
        },
        "mount (private)"@,
    )
}

/// Bind-mounting the root file system onto itself, which makes it a mount
/// point as `pivot_root` needs.
pub open spec fn bind_mount_rootfs_spec(rootfs: Seq<char>) -> StepView {
    checked(
        SyscallView::Mount {
            source: Some(c_str(rootfs)),
            target: c_str(rootfs),
            fstype: Some(c_str(""@)),
            mountflags: ms_bind_bits() | ms_rec_bits(),
            data: None,
        },
        "mount (bind rootfs)"@,
    )
}

/// Creating `<rootfs>/oldroot` with mode `0o700`, where the old root goes.
pub open spec fn create_oldroot_dir_spec(rootfs: Seq<char>) -> StepView {
    checked(
        SyscallView::Mkdir { path: c_str(rootfs + "/oldroot"@), mode: 0o700 },
        "mkdir (oldroot)"@,
    )
}

/// Changing into the root file system, pivoting the root to it with the old
/// root put under `oldroot`, and changing to the new `/`.
pub open spec fn pivot_root_spec(rootfs: Seq<char>) -> Seq<StepView> {
    seq![
        checked(SyscallView::Chdir { path: c_str(rootfs) }, "chdir (to rootfs)"@),
        checked(
            SyscallView::PivotRoot { new_root: c_str("."@), put_old: c_str("oldroot"@) },
            "pivot_root"@,
        ),
        checked(SyscallView::Chdir { path: c_str("/"@) }, "chdir (to /)"@),
    ]
}

/// Mounting a `proc` file system on `/proc`.
pub open spec fn mount_proc_spec() -> StepView {
    checked(
        SyscallView::Mount {
            source: Some(c_str("proc"@)),
            target: c_str("/proc"@),
            fstype: Some(c_str("proc"@)),
            mountflags: 0,
            data: None,
        },
        "mount (proc)"@,
    )
}

/// Detaching the old root lazily and removing its directory.
pub open spec fn cleanup_oldroot_spec() -> Seq<StepView> {
    seq![
        checked(
            SyscallView::Umount2 { target: c_str("/oldroot"@), flags: mnt_detach_bits() },
            "umount2 (oldroot)"@,
        ),
        checked(SyscallView::Rmdir { path: c_str("/oldroot"@) }, "rmdir (oldroot)"@),
    ]
}

/// Writing Google's name servers to `/etc/resolv.conf`.
pub open spec fn setup_dns_spec() -> StepView {
    StepView {
        call: SyscallView::WriteFile {
            path: "/etc/resolv.conf"@,
            contents: "nameserver 8.8.8.8\nnameserver 8.8.4.4\n"@,
        },
        before: seq![],
        on_success: seq!["DNS configuration written to /etc/resolv.conf"@],
        on_failure: None,
    }
}

/// The whole filesystem set-up of a container whose root file system is
/// `rootfs`, in the order in which it is carried out.
pub open spec fn container_filesystem_steps(rootfs: Seq<char>) -> Seq<StepView> {
    seq![
        make_mounts_private_spec(),
        bind_mount_rootfs_spec(rootfs),
        create_oldroot_dir_spec(rootfs),
    ] + pivot_root_spec(rootfs) + seq![mount_proc_spec()] + cleanup_oldroot_spec() + seq![
        setup_dns_spec(),
    ]
}

/// The step that makes all mounts of the current namespace private.
pub fn make_mounts_private() -> (s: Step)
    ensures
        s@ == make_mounts_private_spec(),
{
    let flags = ms_rec() | ms_private();
    let call = Syscall::Mount {
        source: None,
        target: c_string("/"),
        fstype: None,
        mountflags: flags,
        data: None,
    };
    check_libc_result(call, "mount (private)")
}

/// The step that bind-mounts `rootfs_path` onto itself.
pub fn bind_mount_rootfs(rootfs_path: &str) -> (s: Step)
    ensures
        s@ == bind_mount_rootfs_spec(rootfs_path@),
{
    let flags = ms_bind() | ms_rec();
    let call = Syscall::Mount {
        source: Some(c_string(rootfs_path)),
        target: c_string(rootfs_path),
        fstype: Some(c_string("")),
        mountflags: flags,
        data: None,
    };
    check_libc_result(call, "mount (bind rootfs)")
}

/// The step that creates the directory for the old root.
pub fn create_oldroot_dir(rootfs_path: &str) -> (s: Step)
    ensures
        s@ == create_oldroot_dir_spec(rootfs_path@),
{
    let path = String::from_str(rootfs_path).concat("/oldroot");
    let call = Syscall::Mkdir { path: c_string(path.as_str()), mode: 0o700 };
    check_libc_result(call, "mkdir (oldroot)")
}

/// The steps that pivot the root file system to `rootfs_path`.
pub fn pivot_root(rootfs_path: &str) -> (v: Vec<Step>)
    ensures
        step_views(v@) == pivot_root_spec(rootfs_path@),
{
    let mut v: Vec<Step> = Vec::new();
    v.push(check_libc_result(Syscall::Chdir { path: c_string(rootfs_path) }, "chdir (to rootfs)"));
    v.push(
        check_libc_result(
            Syscall::PivotRoot { new_root: c_string("."), put_old: c_string("oldroot") },
            "pivot_root",
        ),
    );
    v.push(check_libc_result(Syscall::Chdir { path: c_string("/") }, "chdir (to /)"));
    assert(step_views(v@) =~= pivot_root_spec(rootfs_path@));
    v
}

/// The step that mounts `/proc`.
pub fn mount_proc() -> (s: Step)
    ensures
        s@ == mount_proc_spec(),
{
    let call = Syscall::Mount {
        source: Some(c_string("proc")),
        target: c_string("/proc"),
        fstype: Some(c_string("proc")),
        mountflags: 0,
        data: None,
    };
    check_libc_result(call, "mount (proc)")
}

/// The steps that detach and remove the old root.
pub fn cleanup_oldroot() -> (v: Vec<Step>)
    ensures
        step_views(v@) == cleanup_oldroot_spec(),
{
    let mut v: Vec<Step> = Vec::new();
    v.push(
        check_libc_result(
            Syscall::Umount2 { target: c_string("/oldroot"), flags: mnt_detach() },
            "umount2 (oldroot)",
        ),
    );
    v.push(check_libc_result(Syscall::Rmdir { path: c_string("/oldroot") }, "rmdir (oldroot)"));
    assert(step_views(v@) =~= cleanup_oldroot_spec());
    v
}

/// The step that writes the DNS configuration.
pub fn setup_dns() -> (s: Step)
    ensures
        s@ == setup_dns_spec(),
{
    let call = Syscall::WriteFile {
        path: String::from_str("/etc/resolv.conf"),
        contents: String::from_str("nameserver 8.8.8.8\nnameserver 8.8.4.4\n"),
    };
    let mut on_success: Vec<String> = Vec::new();
    on_success.push(String::from_str("DNS configuration written to /etc/resolv.conf"));
    let s = Step { call, before: Vec::new(), on_success, on_failure: None };
    assert(texts(s.before@) =~= seq![]);
    assert(texts(s.on_success@) =~= seq!["DNS configuration written to /etc/resolv.conf"@]);
    s
}

/// The complete filesystem set-up of a container whose root file system is
/// `rootfs_path`, as a plan that stops at the first step that fails.
pub fn setup_container_filesystem(rootfs_path: &str) -> (p: Plan)
    ensures
        p@ == (PlanView {
            steps: container_filesystem_steps(rootfs_path@),
            completed: 0,
            failed: false,
        }),
{
    let mut v: Vec<Step> = Vec::new();
    v.push(make_mounts_private());
    v.push(bind_mount_rootfs(rootfs_path));
    v.push(create_oldroot_dir(rootfs_path));
    let mut pivot = pivot_root(rootfs_path);
    v.append(&mut pivot);
    v.push(mount_proc());
    let mut cleanup = cleanup_oldroot();
    v.append(&mut cleanup);
    v.push(setup_dns());
    assert(step_views(v@) =~= container_filesystem_steps(rootfs_path@));
    Plan::new(v)
}


/// Law: the container's filesystem set-up makes every mount private first,
/// before any other mount, so that nothing leaks to the host; it bind-mounts
/// the root file system onto itself before it pivots to it, pivots exactly
/// once, mounts `/proc` and detaches and removes the old root only after the
/// pivot, and writes the DNS configuration last.
pub proof fn filesystem_setup_order(rootfs: Seq<char>)
    ensures
        container_filesystem_steps(rootfs).len() == 10,
        container_filesystem_steps(rootfs)[0] == make_mounts_private_spec(),
        container_filesystem_steps(rootfs)[1] == bind_mount_rootfs_spec(rootfs),
        container_filesystem_steps(rootfs)[4].call is PivotRoot,
        forall|i: int|
            0 <= i < 10 && (#[trigger] container_filesystem_steps(rootfs)[i]).call is PivotRoot
                ==> i == 4,
        container_filesystem_steps(rootfs)[6] == mount_proc_spec(),
        container_filesystem_steps(rootfs)[7].call is Umount2,
        container_filesystem_steps(rootfs)[8].call is Rmdir,
        container_filesystem_steps(rootfs)[9] == setup_dns_spec(),
{
    let s = container_filesystem_steps(rootfs);
    assert(s =~= seq![
        make_mounts_private_spec(),
        bind_mount_rootfs_spec(rootfs),
        create_oldroot_dir_spec(rootfs),
        pivot_root_spec(rootfs)[0],
        pivot_root_spec(rootfs)[1],
        pivot_root_spec(rootfs)[2],
        mount_proc_spec(),
        cleanup_oldroot_spec()[0],
        cleanup_oldroot_spec()[1],
        setup_dns_spec(),
    ]);
}

/// Law: what each step of the container's filesystem set-up does, for every
/// root file system `rootfs`, in order: all mounts are made private
/// (`MS_REC | MS_PRIVATE` on `/`); `rootfs` is bind-mounted onto itself; the
/// directory `<rootfs>/oldroot` is made with mode `0o700` inside the new root;
/// the process changes into `rootfs`, pivots the root to `.` with the old root
/// put in `oldroot` (the directory just made, relative to `rootfs`), and
/// changes to the new `/`; `proc` is mounted on `/proc`; the old root is
/// detached lazily from `/oldroot` and its directory removed; DNS is written
/// last. The step that makes `oldroot` comes before the pivot.
pub proof fn filesystem_setup_calls(rootfs: Seq<char>)
    ensures
        container_filesystem_steps(rootfs).len() == 10,
        container_filesystem_steps(rootfs)[0].call == (SyscallView::Mount {
            source: None,
            target: "/"@ + "\0"@,
            fstype: None,
            mountflags: 0x44000,
            data: None,
        }),
        container_filesystem_steps(rootfs)[1].call == (SyscallView::Mount {
            source: Some(rootfs + "\0"@),
            target: rootfs + "\0"@,
            fstype: Some(""@ + "\0"@),
            mountflags: 0x5000,
            data: None,
        }),
        container_filesystem_steps(rootfs)[2].call == (SyscallView::Mkdir {
            path: rootfs + "/oldroot"@ + "\0"@,
            mode: 0o700,
        }),
        container_filesystem_steps(rootfs)[3].call == (SyscallView::Chdir { path: rootfs + "\0"@ }),
        container_filesystem_steps(rootfs)[4].call == (SyscallView::PivotRoot {
            new_root: "."@ + "\0"@,
            put_old: "oldroot"@ + "\0"@,
        }),
        container_filesystem_steps(rootfs)[5].call == (SyscallView::Chdir { path: "/"@ + "\0"@ }),
        container_filesystem_steps(rootfs)[6].call == (SyscallView::Mount {
            source: Some("proc"@ + "\0"@),
            target: "/proc"@ + "\0"@,
            fstype: Some("proc"@ + "\0"@),
            mountflags: 0,
            data: None,
        }),
        container_filesystem_steps(rootfs)[7].call == (SyscallView::Umount2 {
            target: "/oldroot"@ + "\0"@,
            flags: 2,
        }),
        container_filesystem_steps(rootfs)[8].call == (SyscallView::Rmdir {
            path: "/oldroot"@ + "\0"@,
        }),
        container_filesystem_steps(rootfs)[9].call == (SyscallView::WriteFile {
            path: "/etc/resolv.conf"@,
            contents: "nameserver 8.8.8.8\nnameserver 8.8.4.4\n"@,
        }),
{
    filesystem_setup_order(rootfs);
    assert(0x4000u64 | 0x40000u64 == 0x44000u64) by (bit_vector);
    assert(0x1000u64 | 0x4000u64 == 0x5000u64) by (bit_vector);
    let s = container_filesystem_steps(rootfs);
    assert(s[2] == create_oldroot_dir_spec(rootfs));
    assert(s[3] == pivot_root_spec(rootfs)[0]);
    assert(s[4] == pivot_root_spec(rootfs)[1]);
    assert(s[5] == pivot_root_spec(rootfs)[2]);
    assert(s[7] == cleanup_oldroot_spec()[0]);
    assert(s[8] == cleanup_oldroot_spec()[1]);
}

} // verus!
