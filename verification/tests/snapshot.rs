use archangel::snapshot::{fs_type_for, is_path_prefix, SnapshotError, SnapshotId};

const MOUNTS: &str = "\
sysfs /sys sysfs rw 0 0
/dev/sda1 / ext4 rw 0 0
/dev/sda2 /data btrfs rw,subvol=/@ 0 0
/dev/sda2 /data/nested btrfs rw 0 0
";

#[test]
fn path_prefix_is_component_wise() {
    assert!(is_path_prefix("/", "/anything"));
    assert!(is_path_prefix("/data", "/data"));
    assert!(is_path_prefix("/data", "/data/x/y"));
    assert!(!is_path_prefix("/data", "/database"));
    assert!(!is_path_prefix("/data", "/dat"));
}

#[test]
fn longest_mountpoint_wins() {
    assert_eq!(fs_type_for(MOUNTS, "/etc/x").as_deref(), Some("ext4"));
    assert_eq!(fs_type_for(MOUNTS, "/data/file").as_deref(), Some("btrfs"));
    // Deeper mount must win over the shallower /data.
    assert_eq!(fs_type_for(MOUNTS, "/data/nested/z").as_deref(), Some("btrfs"));
    assert_eq!(fs_type_for(MOUNTS, "/").as_deref(), Some("ext4"));
}

#[test]
fn unknown_path_has_no_fs() {
    assert_eq!(fs_type_for("garbage line\n", "/x"), None);
}

#[test]
fn deeper_mount_with_other_type_wins() {
    let mounts = "/dev/a / ext4 rw 0 0\n/dev/b /srv xfs rw 0 0\n/dev/c /srv/snap btrfs rw 0 0\n";
    assert_eq!(fs_type_for(mounts, "/srv/snap/x").as_deref(), Some("btrfs"));
    assert_eq!(fs_type_for(mounts, "/srv/other").as_deref(), Some("xfs"));
    assert_eq!(fs_type_for(mounts, "/srvx").as_deref(), Some("ext4"));
}

#[test]
fn trailing_slash_prefix_matches_child() {
    assert!(is_path_prefix("/data/", "/data/"));
    assert!(!is_path_prefix("/data/", "/data/x"));
    assert!(!is_path_prefix("/data/x", "/data"));
}

#[test]
fn snapshot_error_and_id_values() {
    let id = SnapshotId("snap-1".to_string());
    assert_eq!(id.0, "snap-1");
    let e = SnapshotError::Unsupported("tmpfs".to_string());
    assert_eq!(e.clone(), e);
}

#[test]
fn snapshot_error_texts() {
    assert_eq!(SnapshotError::BackendFailed("x".into()).to_string(), "snapshot backend failed: x");
    assert_eq!(SnapshotError::Io("disk".into()).to_string(), "snapshot I/O error: disk");
}
