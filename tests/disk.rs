use ebs_autoscale_rust::disk::{total_size_of, usage_percent_of, DiskSnapshot, BYTES_PER_GB};
use ebs_autoscale_rust::mount_path::{path_key_of, same_key};
use ebs_autoscale_rust::MountPointNotFoundError;

fn snap(mount_point: &str, total_space: u64, available_space: u64) -> DiskSnapshot {
    DiskSnapshot { mount_point: mount_point.to_string(), total_space, available_space }
}

#[test]
fn usage_of_the_matching_disk() {
    let disks = vec![snap("/", 1000, 900), snap("/scratch", 400, 100)];
    assert_eq!(usage_percent_of(&disks, &"/scratch".to_string()), Ok(75));
    assert_eq!(usage_percent_of(&disks, &"/".to_string()), Ok(10));
}

#[test]
fn usage_rounds_down_and_handles_edges() {
    let disks = vec![snap("/a", 3, 2), snap("/full", 0, 0), snap("/free", 10, 20)];
    assert_eq!(usage_percent_of(&disks, &"/a".to_string()), Ok(33));
    assert_eq!(usage_percent_of(&disks, &"/full".to_string()), Ok(100));
    assert_eq!(usage_percent_of(&disks, &"/free".to_string()), Ok(0));
    let huge = vec![snap("/big", u64::MAX, 0)];
    assert_eq!(usage_percent_of(&huge, &"/big".to_string()), Ok(100));
}

#[test]
fn first_matching_disk_wins() {
    let disks = vec![snap("/data", 100, 50), snap("/data", 100, 0)];
    assert_eq!(usage_percent_of(&disks, &"/data".to_string()), Ok(50));
}

#[test]
fn unknown_mount_point() {
    let disks = vec![snap("/", 1000, 900)];
    assert_eq!(usage_percent_of(&disks, &"/data".to_string()), Err(MountPointNotFoundError));
    assert_eq!(total_size_of(&disks, &"/data".to_string()), Err(MountPointNotFoundError));
    assert_eq!(usage_percent_of(&Vec::new(), &"/".to_string()), Err(MountPointNotFoundError));
}

#[test]
fn size_in_bytes() {
    let disks = vec![snap("/data", 3 * BYTES_PER_GB + 5, 0), snap("/small", 1000, 0)];
    assert_eq!(total_size_of(&disks, &"/data".to_string()), Ok(3 * BYTES_PER_GB + 5));
    assert_eq!(total_size_of(&disks, &"/small".to_string()), Ok(1000));
}

#[test]
fn mount_points_match_as_paths() {
    let disks = vec![snap("/data", 400, 100), snap("/", 1000, 900)];
    assert_eq!(usage_percent_of(&disks, &"/data/".to_string()), Ok(75));
    assert_eq!(usage_percent_of(&disks, &"//data//".to_string()), Ok(75));
    assert_eq!(usage_percent_of(&disks, &"/".to_string()), Ok(10));
    assert_eq!(usage_percent_of(&disks, &"//".to_string()), Ok(10));
    assert_eq!(usage_percent_of(&disks, &"/data/.".to_string()), Ok(75));
    assert_eq!(usage_percent_of(&disks, &"/data/./".to_string()), Ok(75));
    assert_eq!(usage_percent_of(&disks, &"/./data".to_string()), Ok(75));
    assert_eq!(usage_percent_of(&disks, &"/.".to_string()), Ok(10));
    assert_eq!(total_size_of(&disks, &"/data/.".to_string()), Ok(400));
    assert_eq!(usage_percent_of(&disks, &"/dat".to_string()), Err(MountPointNotFoundError));
    assert_eq!(usage_percent_of(&disks, &"/data/..".to_string()), Err(MountPointNotFoundError));
    assert_eq!(usage_percent_of(&disks, &"./data".to_string()), Err(MountPointNotFoundError));
    assert_eq!(usage_percent_of(&disks, &"data".to_string()), Err(MountPointNotFoundError));
}

#[test]
fn path_keys() {
    assert_eq!(path_key_of("/a//b/"), vec!['/', 'a', '/', 'b']);
    assert_eq!(path_key_of("/"), vec!['/']);
    assert_eq!(path_key_of("/a/./b/."), vec!['/', 'a', '/', 'b']);
    assert_eq!(path_key_of("./a/."), vec!['.', '/', 'a']);
    assert_eq!(path_key_of("."), vec!['.']);
    assert_eq!(path_key_of("/.a/"), vec!['/', '.', 'a']);
    assert_eq!(path_key_of(""), Vec::<char>::new());
    assert!(same_key(&path_key_of("/mnt/x"), &path_key_of("/mnt//x///")));
    assert!(!same_key(&path_key_of("/mnt/x"), &path_key_of("/mnt/y")));
}
