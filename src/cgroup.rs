use vstd::prelude::*;

use crate::text::{decimal, decimal_string};

verus! {

/// The mount point of the pids controller.
pub const PIDS_CONTROLLER: &'static str = "/sys/fs/cgroup/pids";

/// The value of the process-count argument that asks for no limit.
pub const UNLIMITED: i64 = -1;

pub open spec fn group_path_spec(group: Seq<char>) -> Seq<char> {
    "/sys/fs/cgroup/pids"@ + "/"@ + group
}

pub open spec fn limit_file_spec(group: Seq<char>) -> Seq<char> {
    group_path_spec(group) + "/pids.max"@
}

pub open spec fn procs_file_spec(group: Seq<char>) -> Seq<char> {
    group_path_spec(group) + "/cgroup.procs"@
}

/// The process-count limit of a container.
#[derive(PartialEq, Eq, Structural, Clone, Copy, Debug)]
pub enum PidsLimit {
    Unlimited,
    Max(u64),
}

#[derive(PartialEq, Eq, Structural, Clone, Copy, Debug)]
pub enum CgroupError {
    /// The pids controller hierarchy is not mounted.
    ControllerMissing,
    /// The group already exists: a former run did not tear it down.
    GroupExists,
    /// The group to remove does not exist.
    GroupMissing,
    /// The group still has member processes.
    GroupBusy,
    /// A process-count limit below the unlimited sentinel.
    InvalidLimit,
}

impl CgroupError {
    pub fn message(&self) -> (r: String) {
        match self {
            CgroupError::ControllerMissing => String::from_str("Failed to locate the pids cgroup controller"),
            CgroupError::GroupExists => String::from_str("Unexpected existing cgroup"),
            CgroupError::GroupMissing => String::from_str("The cgroup does not exist"),
            CgroupError::GroupBusy => String::from_str("The cgroup still has processes"),
            CgroupError::InvalidLimit => String::from_str("Invalid process-count limit"),
        }
    }
}

/// Text to write into one control file.
pub struct ControlWrite {
    pub file: String,
    pub content: String,
}

pub struct ControlWriteView {
    pub file: Seq<char>,
    pub content: Seq<char>,
}

impl View for ControlWrite {
    type V = ControlWriteView;

    open spec fn view(&self) -> ControlWriteView {
        ControlWriteView { file: self.file@, content: self.content@ }
    }
}

/// What creating a group takes: the directory, then the limit, then the membership.
pub struct CgroupPlan {
    pub group_path: String,
    pub limit_write: Option<ControlWrite>,
    pub attach: Option<ControlWrite>,
}

pub struct CgroupPlanView {
    pub group_path: Seq<char>,
    pub limit_write: Option<ControlWriteView>,
    pub attach: Option<ControlWriteView>,
}

pub open spec fn option_view(w: Option<ControlWrite>) -> Option<ControlWriteView> {
    match w {
        Some(x) => Some(x@),
        None => None,
    }
}

impl View for CgroupPlan {
    type V = CgroupPlanView;

    open spec fn view(&self) -> CgroupPlanView {
        CgroupPlanView {
            group_path: self.group_path@,
            limit_write: option_view(self.limit_write),
            attach: option_view(self.attach),
        }
    }
}

/// The plan for creating `group` with `limit`, the calling process being `pid`.
pub open spec fn plan_spec(group: Seq<char>, limit: Option<PidsLimit>, pid: nat) -> CgroupPlanView {
    match limit {
        Some(PidsLimit::Max(n)) => CgroupPlanView {
            group_path: group_path_spec(group),
            limit_write: Some(ControlWriteView { file: limit_file_spec(group), content: decimal(n as nat) }),
            attach: Some(ControlWriteView { file: procs_file_spec(group), content: decimal(pid) }),
        },
        _ => CgroupPlanView { group_path: group_path_spec(group), limit_write: None, attach: None },
    }
}

/// The outcome of creating `group` on a host where the controller is `present` and the
/// group `exists` or not.
pub open spec fn init_spec(
    present: bool,
    exists: bool,
    group: Seq<char>,
    limit: Option<PidsLimit>,
    pid: nat,
) -> Result<CgroupPlanView, CgroupError> {
    if !present {
        Err(CgroupError::ControllerMissing)
    } else if exists {
        Err(CgroupError::GroupExists)
    } else {
        Ok(plan_spec(group, limit, pid))
    }
}

/// The outcome of removing `group` that has `members` processes.
pub open spec fn deinit_spec(present: bool, exists: bool, group: Seq<char>, members: nat) -> Result<Seq<char>, CgroupError> {
    if !present {
        Err(CgroupError::ControllerMissing)
    } else if !exists {
        Err(CgroupError::GroupMissing)
    } else if members > 0 {
        Err(CgroupError::GroupBusy)
    } else {
        Ok(group_path_spec(group))
    }
}

/// The groups on a host after a create with this outcome.
pub open spec fn groups_after_init(
    groups: Set<Seq<char>>,
    outcome: Result<CgroupPlanView, CgroupError>,
) -> Set<Seq<char>> {
    match outcome {
        Ok(p) => groups.insert(p.group_path),
        Err(_) => groups,
    }
}

/// The groups on a host after a removal with this outcome.
pub open spec fn groups_after_deinit(groups: Set<Seq<char>>, outcome: Result<Seq<char>, CgroupError>) -> Set<Seq<char>> {
    match outcome {
        Ok(p) => groups.remove(p),
        Err(_) => groups,
    }
}

pub open spec fn result_view(r: Result<CgroupPlan, CgroupError>) -> Result<CgroupPlanView, CgroupError> {
    match r {
        Ok(p) => Ok(p@),
        Err(e) => Err(e),
    }
}

/// The limit that a process-count argument asks for: `-1` for none.
pub fn limit_from_arg(value: i64) -> (r: Result<PidsLimit, CgroupError>)
    ensures
        value == UNLIMITED ==> r == Ok::<PidsLimit, CgroupError>(PidsLimit::Unlimited),
        value >= 0 ==> r == Ok::<PidsLimit, CgroupError>(PidsLimit::Max(value as u64)),
        value < UNLIMITED ==> r == Err::<PidsLimit, CgroupError>(CgroupError::InvalidLimit),
{
    if value == UNLIMITED {
        Ok(PidsLimit::Unlimited)
    } else if value >= 0 {
        Ok(PidsLimit::Max(value as u64))
    } else {
        Err(CgroupError::InvalidLimit)
    }
}

/// The directory of `group` under the pids controller.
pub fn group_path(group: &str) -> (r: String)
    ensures
        r@ == group_path_spec(group@),
{
    String::from_str(PIDS_CONTROLLER).concat("/").concat(group)
}

/// Decides how to create the group of a container. The limit file is written only
/// for a finite limit, and the process is attached only then.
pub fn init(present: bool, exists: bool, group: &str, limit: Option<PidsLimit>, pid: u32) -> (r: Result<CgroupPlan, CgroupError>)
    ensures
        result_view(r) == init_spec(present, exists, group@, limit, pid as nat),
{
    if !present {
        return Err(CgroupError::ControllerMissing);
    }
    if exists {
        return Err(CgroupError::GroupExists);
    }
    let path = group_path(group);
    match limit {
        Some(PidsLimit::Max(n)) => {
            let limit_write = ControlWrite { file: group_path(group).concat("/pids.max"), content: decimal_string(n) };
            let attach = ControlWrite { file: group_path(group).concat("/cgroup.procs"), content: decimal_string(pid as u64) };
            Ok(CgroupPlan { group_path: path, limit_write: Some(limit_write), attach: Some(attach) })
        },
        _ => Ok(CgroupPlan { group_path: path, limit_write: None, attach: None }),
    }
}

/// Decides whether the group can be removed: only once it has no members.
pub fn deinit(present: bool, exists: bool, group: &str, members: usize) -> (r: Result<String, CgroupError>)
    ensures
        match r {
            Ok(p) => deinit_spec(present, exists, group@, members as nat) == Ok::<Seq<char>, CgroupError>(p@),
            Err(e) => deinit_spec(present, exists, group@, members as nat) == Err::<Seq<char>, CgroupError>(e),
        },
{
    if !present {
        Err(CgroupError::ControllerMissing)
    } else if !exists {
        Err(CgroupError::GroupMissing)
    } else if members > 0 {
        Err(CgroupError::GroupBusy)
    } else {
        Ok(group_path(group))
    }
}

/// With no limit, or the unlimited one, no control file is written.
pub proof fn lemma_unlimited_writes_nothing(group: Seq<char>, limit: Option<PidsLimit>, pid: nat)
    requires
        limit == None::<PidsLimit> || limit == Some(PidsLimit::Unlimited),
    ensures
        init_spec(true, false, group, limit, pid) is Ok,
        plan_spec(group, limit, pid).limit_write is None,
        plan_spec(group, limit, pid).attach is None,
{
}

/// A limit `n` puts the decimal notation of `n` into the limit file.
pub proof fn lemma_limit_written(group: Seq<char>, n: u64, pid: nat)
    ensures
        plan_spec(group, Some(PidsLimit::Max(n)), pid).limit_write == Some(
            ControlWriteView { file: limit_file_spec(group), content: decimal(n as nat) },
        ),
{
}

/// A group is never created twice: a second create of the same name fails, whatever
/// the first did.
pub proof fn lemma_no_silent_reuse(
    groups: Set<Seq<char>>,
    group: Seq<char>,
    first: Option<PidsLimit>,
    second: Option<PidsLimit>,
    pid: nat,
)
    ensures
        init_spec(
            true,
            groups_after_init(groups, init_spec(true, groups.contains(group_path_spec(group)), group, first, pid)).contains(
                group_path_spec(group),
            ),
            group,
            second,
            pid,
        ) == Err::<CgroupPlanView, CgroupError>(CgroupError::GroupExists),
{
}

/// Once its process has exited, a created group is removed and its path is gone.
pub proof fn lemma_destroy_after_exit(groups: Set<Seq<char>>, group: Seq<char>, limit: Option<PidsLimit>, pid: nat)
    requires
        !groups.contains(group_path_spec(group)),
    ensures
        ({
            let created = groups_after_init(groups, init_spec(true, false, group, limit, pid));
            let outcome = deinit_spec(true, created.contains(group_path_spec(group)), group, 0);
            outcome is Ok && !groups_after_deinit(created, outcome).contains(group_path_spec(group))
        }),
{
}

} // verus!
