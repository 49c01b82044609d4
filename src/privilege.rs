//! The privilege drop: which process-wide steps run, and in what order.
use vstd::prelude::*;

verus! {

/// One privileged operation of the drop.
#[derive(Clone, Copy, Debug, PartialEq, Eq, Structural)]
pub enum PrivStep {
    /// Change the working directory to the served root.
    Chdir,
    /// Confine the process to the served root.
    Chroot,
    Setgid(u32),
    /// Set the supplementary group list to this one group.
    Setgroups(u32),
    Setuid(u32),
}

/// The drop in its required order: chdir, then chroot if asked, then the
/// group and the supplementary groups, and the user last.
pub open spec fn privilege_plan(chroot: bool, gid: Option<u32>, uid: Option<u32>) -> Seq<PrivStep> {
    seq![PrivStep::Chdir] + (if chroot {
        seq![PrivStep::Chroot]
    } else {
        Seq::empty()
    }) + (match gid {
        Some(g) => seq![PrivStep::Setgid(g), PrivStep::Setgroups(g)],
        None => Seq::empty(),
    }) + (match uid {
        Some(u) => seq![PrivStep::Setuid(u)],
        None => Seq::empty(),
    })
}

/// The steps of the privilege drop, to be run in turn, stopping at the first
/// that fails.
pub fn privilege_steps(chroot: bool, gid: Option<u32>, uid: Option<u32>) -> (r: Vec<PrivStep>)
    ensures
        r@ == privilege_plan(chroot, gid, uid),
{
    let mut steps: Vec<PrivStep> = Vec::new();
    steps.push(PrivStep::Chdir);
    if chroot {
        steps.push(PrivStep::Chroot);
    }
    match gid {
        Some(g) => {
            steps.push(PrivStep::Setgid(g));
            steps.push(PrivStep::Setgroups(g));
        },
        None => {},
    }
    match uid {
        Some(u) => {
            steps.push(PrivStep::Setuid(u));
        },
        None => {},
    }
    assert(steps@ =~= privilege_plan(chroot, gid, uid));
    steps
}

} // verus!
