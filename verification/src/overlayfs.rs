//! The OverlayFS of a container: a read-only lower layer shared by all
//! containers, and per container a writable upper layer, a work directory
//! and the merged view that becomes the container's root.
use vstd::prelude::*;
use crate::plan::{Plan, PlanView, step_views};
use crate::text::chars_of;
use vstd::string::StrSliceExecFns;
use crate::syscall::{
    Step, StepView, Syscall, SyscallView, c_str, c_string, mnt_detach, mnt_detach_bits,
    opt_view, silent, silent_step, texts,
};

verus! {

/// The directories of a container's OverlayFS.
#[derive(Debug, PartialEq, Eq)]
pub struct OverlayFs {
    pub container_id: String,
    /// Read-only base file system, shared.
    pub lower_dir: String,
    /// The container's writable layer.
    pub upper_dir: String,
    /// OverlayFS's working directory (atomic operations, copies from lower
    /// to upper).
    pub work_dir: String,
    /// The merged view, the mount point.
    pub merged_dir: String,
}

/// The directory that holds the container's layers.
pub open spec fn container_dir(containers_base: Seq<char>, container_id: Seq<char>) -> Seq<char> {
    containers_base + "/"@ + container_id
}

/// Whether `d` names a directory other than the root: it holds a character
/// other than `/`.
pub open spec fn names_a_directory(d: Seq<char>) -> bool {
    exists|i: int| 0 <= i < d.len() && d[i] != '/'
}

/// The directory that holds the three layers when they lie in it as
/// [`OverlayFs::new`] lays them out (`<d>/upper`, `<d>/work`, `<d>/merged`),
/// if `d` is not the root.
pub open spec fn shared_layer_dir(upper: Seq<char>, work: Seq<char>, merged: Seq<char>) -> Option<
    Seq<char>,
> {
    if upper.len() >= 6 && upper.skip(upper.len() - 6) == "/upper"@ {
        let d = upper.take(upper.len() - 6);
        if names_a_directory(d) && work == d + "/work"@ && merged == d + "/merged"@ {
            Some(d)
        } else {
            None
        }
    } else {
        None
    }
}

/// The step that removes the tree `tree`, if it exists, printing `note`
/// when it did.
pub open spec fn removal(tree: Seq<char>, before: Seq<Seq<char>>, note: Seq<char>) -> StepView {
    StepView {
        call: SyscallView::RemoveTreeIfExists { tree },
        before,
        on_success: seq![note],
        on_failure: None,
    }
}

/// The options of the overlay mount, as a C string.
pub open spec fn overlay_options(lower: Seq<char>, upper: Seq<char>, work: Seq<char>) -> Seq<char> {
    c_str("lowerdir="@ + lower + ",upperdir="@ + upper + ",workdir="@ + work)
}

impl OverlayFs {
    /// The OverlayFS of container `container_id`, layered over `rootfs_path`,
    /// with its own directories under `<containers_base>/<container_id>`.
    pub fn new(container_id: &str, rootfs_path: &str, containers_base: &str) -> (o: OverlayFs)
        ensures
            o.container_id@ == container_id@,
            o.lower_dir@ == rootfs_path@,
            o.upper_dir@ == container_dir(containers_base@, container_id@) + "/upper"@,
            o.work_dir@ == container_dir(containers_base@, container_id@) + "/work"@,
            o.merged_dir@ == container_dir(containers_base@, container_id@) + "/merged"@,
    {
        let container_dir = String::from_str(containers_base).concat("/").concat(container_id);
        OverlayFs {
            container_id: String::from_str(container_id),
            lower_dir: String::from_str(rootfs_path),
            upper_dir: container_dir.clone().concat("/upper"),
            work_dir: container_dir.clone().concat("/work"),
            merged_dir: container_dir.concat("/merged"),
        }
    }

    /// Creating the upper, work and merged directories, in that order.
    pub open spec fn create_directories_spec(&self) -> Seq<StepView> {
        seq![
            StepView {
                call: SyscallView::CreateDirAll { path: self.upper_dir@ },
                before: seq!["Creating overlay directories for container "@ + self.container_id@],
                on_success: seq![],
                on_failure: None,
            },
            silent(SyscallView::CreateDirAll { path: self.work_dir@ }),
            StepView {
                call: SyscallView::CreateDirAll { path: self.merged_dir@ },
                before: seq![],
                on_success: seq![
                    "  Upper: "@ + self.upper_dir@,
                    "  Work:  "@ + self.work_dir@,
                    "  Merged: "@ + self.merged_dir@,
                ],
                on_failure: None,
            },
        ]
    }

    /// Mounting the overlay on the merged directory.
    pub open spec fn mount_spec(&self) -> StepView {
        StepView {
            call: SyscallView::Mount {
                source: Some(c_str("overlay"@)),
                target: c_str(self.merged_dir@),
                fstype: Some(c_str("overlay"@)),
                mountflags: 0,
                data: Some(overlay_options(self.lower_dir@, self.upper_dir@, self.work_dir@)),
            },
            before: seq![
                "Mounting OverlayFS:"@,
                "  Lower (RO): "@ + self.lower_dir@,
                "  Upper (RW): "@ + self.upper_dir@,
                "  Merged:     "@ + self.merged_dir@,
            ],
            on_success: seq!["OverlayFS mounted successfully"@],
            on_failure: Some("OverlayFS mount failed"@),
        }
    }

    /// Detaching the overlay from the merged directory, lazily.
    pub open spec fn unmount_spec(&self) -> StepView {
        StepView {
            call: SyscallView::Umount2 { target: c_str(self.merged_dir@), flags: mnt_detach_bits() },
            before: seq!["Unmounting OverlayFS at "@ + self.merged_dir@],
            on_success: seq!["OverlayFS unmounted successfully"@],
            on_failure: Some("OverlayFS unmount failed"@),
        }
    }

    /// Removing the container's upper, work and merged directories: the
    /// directory that holds them, when they lie in one as `new` lays them
    /// out, else each of the three.
    pub open spec fn cleanup_spec(&self) -> Seq<StepView> {
        let announce = seq!["Cleaning up container directories for "@ + self.container_id@];
        match shared_layer_dir(self.upper_dir@, self.work_dir@, self.merged_dir@) {
            Some(d) => seq![removal(d, announce, "Removed container directory: "@ + d)],
            None => seq![
                removal(self.upper_dir@, announce, "Removed directory: "@ + self.upper_dir@),
                removal(self.work_dir@, seq![], "Removed directory: "@ + self.work_dir@),
                removal(self.merged_dir@, seq![], "Removed directory: "@ + self.merged_dir@),
            ],
        }
    }

    /// The steps that create the container's directories.
    pub fn create_directories(&self) -> (v: Vec<Step>)
        ensures
            step_views(v@) == self.create_directories_spec(),
    {
        let mut v: Vec<Step> = Vec::new();
        let mut first_before: Vec<String> = Vec::new();
        first_before.push(
            String::from_str("Creating overlay directories for container ").concat(
                self.container_id.as_str(),
            ),
        );
        v.push(
            Step {
                call: Syscall::CreateDirAll { path: self.upper_dir.clone() },
                before: first_before,
                on_success: Vec::new(),
                on_failure: None,
            },
        );
        v.push(silent_step(Syscall::CreateDirAll { path: self.work_dir.clone() }));
        let mut notes: Vec<String> = Vec::new();
        notes.push(String::from_str("  Upper: ").concat(self.upper_dir.as_str()));
        notes.push(String::from_str("  Work:  ").concat(self.work_dir.as_str()));
        notes.push(String::from_str("  Merged: ").concat(self.merged_dir.as_str()));
        v.push(
            Step {
                call: Syscall::CreateDirAll { path: self.merged_dir.clone() },
                before: Vec::new(),
                on_success: notes,
                on_failure: None,
            },
        );
        assert(texts(v@[0].before@) =~= self.create_directories_spec()[0].before);
        assert(texts(v@[0].on_success@) =~= seq![]);
        assert(texts(v@[2].before@) =~= seq![]);
        assert(texts(v@[2].on_success@) =~= self.create_directories_spec()[2].on_success);
        assert(step_views(v@) =~= self.create_directories_spec());
        v
    }

    /// The step that mounts the overlay.
    pub fn mount(&self) -> (s: Step)
        ensures
            s@ == self.mount_spec(),
    {
        let options = String::from_str("lowerdir=").concat(self.lower_dir.as_str()).concat(
            ",upperdir=",
        ).concat(self.upper_dir.as_str()).concat(",workdir=").concat(self.work_dir.as_str());
        let call = Syscall::Mount {
            source: Some(c_string("overlay")),
            target: c_string(self.merged_dir.as_str()),
            fstype: Some(c_string("overlay")),
            mountflags: 0,
            data: Some(c_string(options.as_str())),
        };
        let mut before: Vec<String> = Vec::new();
        before.push(String::from_str("Mounting OverlayFS:"));
        before.push(String::from_str("  Lower (RO): ").concat(self.lower_dir.as_str()));
        before.push(String::from_str("  Upper (RW): ").concat(self.upper_dir.as_str()));
        before.push(String::from_str("  Merged:     ").concat(self.merged_dir.as_str()));
        let mut on_success: Vec<String> = Vec::new();
        on_success.push(String::from_str("OverlayFS mounted successfully"));
        let s = Step {
            call,
            before,
            on_success,
            on_failure: Some(String::from_str("OverlayFS mount failed")),
        };
        assert(texts(s.before@) =~= self.mount_spec().before);
        assert(texts(s.on_success@) =~= self.mount_spec().on_success);
        s
    }

    /// The step that unmounts the overlay.
    pub fn unmount(&self) -> (s: Step)
        ensures
            s@ == self.unmount_spec(),
    {
        let call = Syscall::Umount2 { target: c_string(self.merged_dir.as_str()), flags: mnt_detach() };
        let mut before: Vec<String> = Vec::new();
        before.push(String::from_str("Unmounting OverlayFS at ").concat(self.merged_dir.as_str()));
        let mut on_success: Vec<String> = Vec::new();
        on_success.push(String::from_str("OverlayFS unmounted successfully"));
        let s = Step {
            call,
            before,
            on_success,
            on_failure: Some(String::from_str("OverlayFS unmount failed")),
        };
        assert(texts(s.before@) =~= self.unmount_spec().before);
        assert(texts(s.on_success@) =~= self.unmount_spec().on_success);
        s
    }

    /// The directory that holds the three layers, if they lie in one as
    /// `new` lays them out.
    pub fn shared_dir(&self) -> (r: Option<String>)
        ensures
            opt_view(r) == shared_layer_dir(self.upper_dir@, self.work_dir@, self.merged_dir@),
    {
        let upper = self.upper_dir.as_str();
        let n = upper.unicode_len();
        proof {
            reveal_strlit("/upper");
        }
        if n < 6 {
            return None;
        }
        let suffix = String::from_str(upper.substring_char(n - 6, n));
        if !(suffix == String::from_str("/upper")) {
            return None;
        }
        let d = String::from_str(upper.substring_char(0, n - 6));
        assert(d@ == self.upper_dir@.take(self.upper_dir@.len() - 6));
        let chars = chars_of(d.as_str());
        let mut named = false;
        let mut i: usize = 0;
        while i < chars.len()
            invariant
                i <= chars@.len(),
                chars@ == d@,
                named <==> exists|j: int| 0 <= j < i && chars@[j] != '/',
            decreases chars@.len() - i,
        {
            if chars[i] != '/' {
                named = true;
            }
            i = i + 1;
        }
        if !named {
            return None;
        }
        let work = d.clone().concat("/work");
        let merged = d.clone().concat("/merged");
        if work == self.work_dir && merged == self.merged_dir {
            Some(d)
        } else {
            None
        }
    }

    fn removal(tree: &String, before: Vec<String>, note: &str) -> (s: Step)
        ensures
            s@ == removal(tree@, texts(before@), note@ + tree@),
    {
        let mut on_success: Vec<String> = Vec::new();
        on_success.push(String::from_str(note).concat(tree.as_str()));
        let s = Step {
            call: Syscall::RemoveTreeIfExists { tree: tree.clone() },
            before,
            on_success,
            on_failure: None,
        };
        assert(texts(s.on_success@) =~= seq![note@ + tree@]);
        s
    }

    /// The steps that remove the container's directories.
    pub fn cleanup(&self) -> (v: Vec<Step>)
        ensures
            step_views(v@) == self.cleanup_spec(),
    {
        let mut announce: Vec<String> = Vec::new();
        announce.push(
            String::from_str("Cleaning up container directories for ").concat(
                self.container_id.as_str(),
            ),
        );
        assert(texts(announce@) =~= seq![
            "Cleaning up container directories for "@ + self.container_id@,
        ]);
        let mut v: Vec<Step> = Vec::new();
        match self.shared_dir() {
            Some(d) => {
                v.push(Self::removal(&d, announce, "Removed container directory: "));
            },
            None => {
                v.push(Self::removal(&self.upper_dir, announce, "Removed directory: "));
                let none: Vec<String> = Vec::new();
                assert(texts(none@) =~= seq![]);
                v.push(Self::removal(&self.work_dir, none, "Removed directory: "));
                let none: Vec<String> = Vec::new();
                assert(texts(none@) =~= seq![]);
                v.push(Self::removal(&self.merged_dir, none, "Removed directory: "));
            },
        }
        assert(step_views(v@) =~= self.cleanup_spec());
        v
    }

    /// The set-up of the overlay: its directories created, then the overlay
    /// mounted, stopping at the first failure.
    pub fn setup(&self) -> (p: Plan)
        ensures
            p@ == (PlanView {
                steps: self.create_directories_spec() + seq![self.mount_spec()],
                completed: 0,
                failed: false,
            }),
    {
        let mut v = self.create_directories();
        v.push(self.mount());
        assert(step_views(v@) =~= self.create_directories_spec() + seq![self.mount_spec()]);
        Plan::new(v)
    }

    /// The tear-down of the overlay: unmounted, then its directories removed,
    /// stopping at the first failure.
    pub fn teardown(&self) -> (p: Plan)
        ensures
            p@ == (PlanView {
                steps: seq![self.unmount_spec()] + self.cleanup_spec(),
                completed: 0,
                failed: false,
            }),
    {
        let mut v: Vec<Step> = Vec::new();
        v.push(self.unmount());
        let mut removals = self.cleanup();
        v.append(&mut removals);
        assert(step_views(v@) =~= seq![self.unmount_spec()] + self.cleanup_spec());
        Plan::new(v)
    }
}

/// Whether the removal `st` takes away the directory `x`: it removes `x`
/// itself, or the directory that holds `x` as one of the three layers.
pub open spec fn removes(st: StepView, x: Seq<char>) -> bool {
    match st.call {
        SyscallView::RemoveTreeIfExists { tree } => x == tree || x == tree + "/upper"@ || x
            == tree + "/work"@ || x == tree + "/merged"@,
        _ => false,
    }
}

/// Whether `st` removes one of the layers of `o`, or a directory (not the
/// root) that holds exactly the three layers as `new` lays them out.
pub open spec fn removes_only_layers(o: OverlayFs, st: StepView) -> bool {
    match st.call {
        SyscallView::RemoveTreeIfExists { tree } => tree == o.upper_dir@ || tree == o.work_dir@
            || tree == o.merged_dir@ || (names_a_directory(tree) && o.upper_dir@ == tree
            + "/upper"@ && o.work_dir@ == tree + "/work"@ && o.merged_dir@ == tree + "/merged"@),
        _ => false,
    }
}

/// Law: cleaning up removes the container's upper, work and merged
/// directories and nothing else: every removal is of one of the three, or of
/// a directory (not the root) that holds exactly the three as `new` lays them
/// out; and each of the three is removed, by itself or within that directory.
pub proof fn cleanup_removes_the_layers(o: OverlayFs)
    ensures
        forall|i: int|
            0 <= i < o.cleanup_spec().len() ==> removes_only_layers(
                o,
                #[trigger] o.cleanup_spec()[i],
            ),
        exists|i: int| 0 <= i < o.cleanup_spec().len() && removes(#[trigger] o.cleanup_spec()[i], o.upper_dir@),
        exists|i: int| 0 <= i < o.cleanup_spec().len() && removes(#[trigger] o.cleanup_spec()[i], o.work_dir@),
        exists|i: int| 0 <= i < o.cleanup_spec().len() && removes(#[trigger] o.cleanup_spec()[i], o.merged_dir@),
{
    let c = o.cleanup_spec();
    match shared_layer_dir(o.upper_dir@, o.work_dir@, o.merged_dir@) {
        Some(d) => {
            let u = o.upper_dir@;
            assert(u =~= u.take(u.len() - 6) + u.skip(u.len() - 6));
            assert(removes(c[0], o.upper_dir@));
            assert(removes(c[0], o.work_dir@));
            assert(removes(c[0], o.merged_dir@));
        },
        None => {
            assert(removes(c[0], o.upper_dir@));
            assert(removes(c[1], o.work_dir@));
            assert(removes(c[2], o.merged_dir@));
        },
    }
}

/// Law: for an overlay laid out by `new` under a container directory that is
/// not the root, cleaning up removes that directory, at once, with all three
/// layers in it.
pub proof fn cleanup_of_new_removes_container_dir(o: OverlayFs, base: Seq<char>, id: Seq<char>)
    requires
        o.container_id@ == id,
        o.upper_dir@ == container_dir(base, id) + "/upper"@,
        o.work_dir@ == container_dir(base, id) + "/work"@,
        o.merged_dir@ == container_dir(base, id) + "/merged"@,
        names_a_directory(container_dir(base, id)),
    ensures
        o.cleanup_spec() == seq![
            removal(
                container_dir(base, id),
                seq!["Cleaning up container directories for "@ + id],
                "Removed container directory: "@ + container_dir(base, id),
            ),
        ],
{
    let d = container_dir(base, id);
    let u = o.upper_dir@;
    reveal_strlit("/upper");
    assert(u.skip(u.len() - 6) =~= "/upper"@);
    assert(u.take(u.len() - 6) =~= d);
}

/// Whether `steps` set up the overlay `o`: they make its upper, work and
/// merged directories, in that order, and only then mount an `overlay` file
/// system on the merged directory, with the lower directory as its read-only
/// layer and the upper and work directories as its writable layer and work
/// area.
pub open spec fn sets_up_overlay(o: OverlayFs, steps: Seq<StepView>) -> bool {
    &&& steps.len() == 4
    &&& steps[0].call == SyscallView::CreateDirAll { path: o.upper_dir@ }
    &&& steps[1].call == SyscallView::CreateDirAll { path: o.work_dir@ }
    &&& steps[2].call == SyscallView::CreateDirAll { path: o.merged_dir@ }
    &&& steps[3].call == SyscallView::Mount {
        source: Some("overlay"@ + "\0"@),
        target: o.merged_dir@ + "\0"@,
        fstype: Some("overlay"@ + "\0"@),
        mountflags: 0,
        data: Some(
            "lowerdir="@ + o.lower_dir@ + ",upperdir="@ + o.upper_dir@ + ",workdir="@
                + o.work_dir@ + "\0"@,
        ),
    }
}

/// Whether `steps` tear down the overlay `o`: the first detaches the overlay
/// from the merged directory (lazily, `MNT_DETACH`), and only the steps after
/// it remove directories: each removal takes away one of the three layers or
/// the directory that holds exactly them, and each layer is taken away.
pub open spec fn tears_down_overlay(o: OverlayFs, steps: Seq<StepView>) -> bool {
    &&& steps.len() >= 2
    &&& steps[0].call == SyscallView::Umount2 { target: o.merged_dir@ + "\0"@, flags: 2 }
    &&& forall|i: int| 1 <= i < steps.len() ==> removes_only_layers(o, #[trigger] steps[i])
    &&& exists|i: int| 1 <= i < steps.len() && removes(#[trigger] steps[i], o.upper_dir@)
    &&& exists|i: int| 1 <= i < steps.len() && removes(#[trigger] steps[i], o.work_dir@)
    &&& exists|i: int| 1 <= i < steps.len() && removes(#[trigger] steps[i], o.merged_dir@)
}

/// Law: the overlay's set-up makes its three directories before it mounts
/// the overlay on the merged one, with the right layers.
pub proof fn overlay_setup_order(o: OverlayFs)
    ensures
        sets_up_overlay(o, o.create_directories_spec() + seq![o.mount_spec()]),
{
    let s = o.create_directories_spec() + seq![o.mount_spec()];
    assert(s[3] == o.mount_spec());
}

/// Law: the overlay's tear-down unmounts it first and only then removes the
/// container's directories, exactly its layers.
pub proof fn overlay_teardown_order(o: OverlayFs)
    ensures
        tears_down_overlay(o, seq![o.unmount_spec()] + o.cleanup_spec()),
{
    let s = seq![o.unmount_spec()] + o.cleanup_spec();
    let c = o.cleanup_spec();
    cleanup_removes_the_layers(o);
    assert forall|i: int| 1 <= i < s.len() implies removes_only_layers(o, #[trigger] s[i]) by {
        assert(s[i] == c[i - 1]);
    }
    let iu = choose|i: int| 0 <= i < c.len() && removes(#[trigger] c[i], o.upper_dir@);
    assert(s[iu + 1] == c[iu]);
    let iw = choose|i: int| 0 <= i < c.len() && removes(#[trigger] c[i], o.work_dir@);
    assert(s[iw + 1] == c[iw]);
    let im = choose|i: int| 0 <= i < c.len() && removes(#[trigger] c[i], o.merged_dir@);
    assert(s[im + 1] == c[im]);
}

} // verus!
