use container_rs::cgroup::{deinit, group_path, init, limit_from_arg, CgroupError, PidsLimit};

#[test]
fn group_path_under_pids_controller() {
    assert_eq!(group_path("abc"), "/sys/fs/cgroup/pids/abc");
}

#[test]
fn no_limit_writes_nothing() {
    let plan = init(true, false, "g", None, 42).ok().unwrap();
    assert_eq!(plan.group_path, "/sys/fs/cgroup/pids/g");
    assert!(plan.limit_write.is_none());
    assert!(plan.attach.is_none());
}

#[test]
fn unlimited_writes_nothing() {
    let plan = init(true, false, "g", Some(PidsLimit::Unlimited), 42).ok().unwrap();
    assert_eq!(plan.group_path, "/sys/fs/cgroup/pids/g");
    assert!(plan.limit_write.is_none());
    assert!(plan.attach.is_none());
}

#[test]
fn limit_is_written_in_decimal() {
    for n in [1u64, 7, 10, 120, 4096, u64::MAX].iter() {
        let plan = init(true, false, "g", Some(PidsLimit::Max(*n)), 1234).ok().unwrap();
        let w = plan.limit_write.unwrap();
        assert_eq!(w.file, "/sys/fs/cgroup/pids/g/pids.max");
        assert_eq!(w.content, n.to_string());
        let a = plan.attach.unwrap();
        assert_eq!(a.file, "/sys/fs/cgroup/pids/g/cgroup.procs");
        assert_eq!(a.content, "1234");
    }
}

#[test]
fn missing_controller_is_fatal() {
    assert_eq!(init(false, false, "g", None, 1).err(), Some(CgroupError::ControllerMissing));
    assert_eq!(deinit(false, true, "g", 0).err(), Some(CgroupError::ControllerMissing));
}

#[test]
fn second_create_fails() {
    // The host's groups, as the first create leaves them.
    let mut groups: Vec<String> = Vec::new();
    let exists = groups.contains(&group_path("g"));
    let first = init(true, exists, "g", Some(PidsLimit::Max(5)), 1).ok().unwrap();
    groups.push(first.group_path);
    let exists = groups.contains(&group_path("g"));
    assert_eq!(init(true, exists, "g", None, 1).err(), Some(CgroupError::GroupExists));
}

#[test]
fn destroy_after_exit_removes_group() {
    assert_eq!(deinit(true, true, "g", 0).ok().unwrap(), "/sys/fs/cgroup/pids/g");
}

#[test]
fn destroy_with_members_fails() {
    assert_eq!(deinit(true, true, "g", 2).err(), Some(CgroupError::GroupBusy));
}

#[test]
fn destroy_missing_group_fails() {
    assert_eq!(deinit(true, false, "g", 0).err(), Some(CgroupError::GroupMissing));
}

#[test]
fn limit_argument() {
    assert_eq!(limit_from_arg(-1), Ok(PidsLimit::Unlimited));
    assert_eq!(limit_from_arg(0), Ok(PidsLimit::Max(0)));
    assert_eq!(limit_from_arg(20), Ok(PidsLimit::Max(20)));
    assert_eq!(limit_from_arg(-2), Err(CgroupError::InvalidLimit));
    assert_eq!(limit_from_arg(i64::MIN), Err(CgroupError::InvalidLimit));
}

#[test]
fn cgroup_error_messages() {
    assert_eq!(CgroupError::GroupExists.message(), "Unexpected existing cgroup");
}
