use distinst::{Mount, MountError, MountOption, Mounts, SyscallOutcome};

/// Build a mount through the command path, pretending the external tool
/// exited with status zero.
fn command_mount(source: &str, dest: &str, options: &[MountOption]) -> Mount {
    let cmd = Mount::new(
        Ok(source.to_string()),
        Ok(dest.to_string()),
        &options.to_vec(),
    )
    .unwrap();
    cmd.finish(Some(0)).unwrap()
}

#[test]
fn command_args_bind_and_sync() {
    let cmd = Mount::new(
        Ok("/src".to_string()),
        Ok("/mnt".to_string()),
        &vec![MountOption::Synchronize, MountOption::Bind],
    )
    .unwrap();
    assert_eq!(cmd.args, vec!["--bind", "-o", "sync", "/src", "/mnt"]);
    assert_eq!(cmd.source, "/src");
    assert_eq!(cmd.dest, "/mnt");
}

#[test]
fn command_args_no_options() {
    let cmd = Mount::new(Ok("/a".to_string()), Ok("/b".to_string()), &vec![]).unwrap();
    assert_eq!(cmd.args, vec!["/a", "/b"]);
}

#[test]
fn command_args_duplicates_collapse() {
    let twice = Mount::new(
        Ok("/src".to_string()),
        Ok("/mnt".to_string()),
        &vec![MountOption::Synchronize, MountOption::Synchronize],
    )
    .unwrap();
    let once = Mount::new(
        Ok("/src".to_string()),
        Ok("/mnt".to_string()),
        &vec![MountOption::Synchronize],
    )
    .unwrap();
    assert_eq!(twice.args, once.args);
    assert_eq!(twice.args, vec!["-o", "sync", "/src", "/mnt"]);
    let syncs = twice.args.iter().filter(|a| a.contains("sync")).count();
    assert_eq!(syncs, 1);
}

#[test]
fn path_resolution_fails_fast() {
    // Error code 2: "no such file or directory" from a failed canonicalization.
    let r = Mount::new(Err(2), Ok("/mnt".to_string()), &vec![MountOption::Bind]);
    assert!(matches!(r, Err(MountError::PathResolution(2))));
    // A bad destination fails the same way; code 13 is "permission denied".
    let r = Mount::new(Ok("/src".to_string()), Err(13), &vec![]);
    assert!(matches!(r, Err(MountError::PathResolution(13))));
}

#[test]
fn command_failure_carries_exit_status() {
    let cmd = Mount::new(Ok("/src".to_string()), Ok("/mnt".to_string()), &vec![]).unwrap();
    let r = cmd.finish(Some(32));
    assert!(matches!(r, Err(MountError::CommandFailure(Some(32)))));
    let cmd = Mount::new(Ok("/src".to_string()), Ok("/mnt".to_string()), &vec![]).unwrap();
    let r = cmd.finish(None);
    assert!(matches!(r, Err(MountError::CommandFailure(None))));
}

#[test]
fn direct_path_success_keeps_paths_verbatim() {
    let call = Mount::mount_part(
        "none".to_string(),
        "/mnt/../mnt/proc".to_string(),
        "proc".to_string(),
        0,
        None,
    );
    assert_eq!(call.source, "none");
    assert_eq!(call.target, "/mnt/../mnt/proc");
    assert_eq!(call.fstype, "proc");
    let m = call.finish(0, 0).unwrap();
    assert!(m.mounted());
    assert_eq!(m.dest().as_str(), "/mnt/../mnt/proc");
}

#[test]
fn direct_path_passes_flags_and_options_through() {
    let call = Mount::mount_part(
        "/dev/sda1".to_string(),
        "/mnt/boot".to_string(),
        "ext4".to_string(),
        distinst::BIND | distinst::SYNC,
        Some("errors=remount-ro".to_string()),
    );
    assert_eq!(call.flags, distinst::BIND | distinst::SYNC);
    assert_eq!(call.options.as_deref(), Some("errors=remount-ro"));
}

#[test]
fn flag_bits_match_the_platform() {
    assert_eq!(distinst::BIND, libc::MS_BIND as u64);
    assert_eq!(distinst::SYNC, libc::MS_SYNCHRONOUS as u64);
}

#[test]
fn direct_path_invalid_fstype_is_a_syscall_error() {
    let call = Mount::mount_part(
        "/dev/sda1".to_string(),
        "/mnt".to_string(),
        "notafilesystem".to_string(),
        0,
        None,
    );
    // The kernel rejects the call; 22 is the platform's "invalid argument".
    let r = call.finish(-1, 22);
    assert!(matches!(r, Err(MountError::Syscall(22))));
}

#[test]
fn unmount_releases_and_is_idempotent() {
    let mut m = command_mount("/src", "/mnt", &[]);
    assert!(m.mounted());

    let call = m.unmount_request(false).unwrap();
    assert_eq!(call.target, "/mnt");
    assert!(!call.lazy);
    let r = m.unmount(Some(SyscallOutcome { ret: 0, errno: 0 }));
    assert!(r.is_ok());
    assert!(!m.mounted());
    assert_eq!(m.dest().as_str(), "/mnt");

    // Released: no further call is ever owed, and release keeps succeeding.
    for _ in 0..3 {
        assert!(m.unmount_request(false).is_none());
        assert!(m.unmount_request(true).is_none());
        let r = m.unmount(None);
        assert!(r.is_ok());
        assert!(!m.mounted());
    }
}

#[test]
fn busy_unmount_leaves_the_mount_owed() {
    let mut m = command_mount("/src", "/mnt", &[]);
    let call = m.unmount_request(false).unwrap();
    assert!(!call.lazy);
    // 16 is the platform's "device or resource busy".
    let r = m.unmount(Some(SyscallOutcome { ret: -1, errno: 16 }));
    assert!(matches!(r, Err(MountError::Syscall(16))));
    assert!(m.mounted());
    // A later lazy attempt still asks for release.
    let call = m.unmount_request(true).unwrap();
    assert_eq!(call.target, "/mnt");
    assert!(call.lazy);
}

#[test]
fn teardown_is_reverse_of_append_order() {
    let mut mounts = Mounts::new();
    mounts.append(command_mount("/s1", "/mnt/first", &[]));
    mounts.append(command_mount("/s2", "/mnt/second", &[]));
    mounts.append(command_mount("/s3", "/mnt/third", &[]));
    let plan = mounts.teardown_plan();
    let targets: Vec<&str> = plan.iter().map(|c| c.target.as_str()).collect();
    assert_eq!(targets, vec!["/mnt/third", "/mnt/second", "/mnt/first"]);
    assert!(plan.iter().all(|c| c.lazy));
}

#[test]
fn nested_mounts_release_child_first() {
    let mut mounts = Mounts::new();
    mounts.append(command_mount("/src1", "/mnt/a", &[MountOption::Bind]));
    mounts.append(command_mount(
        "/src2",
        "/mnt/a/b",
        &[MountOption::Bind, MountOption::Synchronize],
    ));
    let plan = mounts.teardown_plan();
    assert_eq!(plan.len(), 2);
    assert_eq!(plan[0].target, "/mnt/a/b");
    assert_eq!(plan[1].target, "/mnt/a");
    assert!(plan[0].lazy && plan[1].lazy);
}

#[test]
fn released_members_owe_no_teardown_call() {
    let mut mounts = Mounts::new();
    mounts.append(command_mount("/s1", "/mnt/kept", &[]));
    let mut released = command_mount("/s2", "/mnt/done", &[]);
    released
        .unmount(Some(SyscallOutcome { ret: 0, errno: 0 }))
        .unwrap();
    mounts.append(released);
    let plan = mounts.teardown_plan();
    assert_eq!(plan.len(), 1);
    assert_eq!(plan[0].target, "/mnt/kept");
}

#[test]
fn empty_collection_owes_nothing() {
    let mounts = Mounts::new();
    assert!(mounts.teardown_plan().is_empty());
}
