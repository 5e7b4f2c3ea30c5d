//! Tests for the in-memory filesystem.

use retron::kernel::filesystem::{
    get_filesystem_stats, FSError, FilePermissions, FileSystem, FileType,
};
use retron::kernel::fs_demo::{filesystem_demo, filesystem_detailed_demo, filesystem_performance_demo};
use retron::kernel::fs_test::{test_filesystem, test_filesystem_detailed, test_filesystem_performance};

#[test]
fn a_fresh_filesystem_holds_only_the_root() {
    let fs = FileSystem::new();
    assert_eq!(fs.stats.used_nodes, 1);
    assert_eq!(fs.stats.free_nodes, 1023);
    let root = fs.get_node(0).unwrap();
    assert_eq!(root.metadata.file_type, FileType::Directory);
    assert_eq!(root.name[0], b'/');
    assert_eq!(root.name_len, 1);
}

#[test]
fn create_file_records_name_and_permissions() {
    let mut fs = FileSystem::new();
    let id = fs.create_file("/hello.txt", FilePermissions::default()).unwrap();
    assert_eq!(id, 1);
    let node = fs.get_node(id).unwrap();
    assert_eq!(node.metadata.file_type, FileType::Regular);
    assert_eq!(&node.name[..9], b"hello.txt");
    assert_eq!(node.name_len, 9);
    assert!(node.metadata.permissions.owner_write);
    assert!(!node.metadata.permissions.other_write);
    assert_eq!(fs.stats.used_nodes, 2);
}

#[test]
fn create_directory_records_the_kind() {
    let mut fs = FileSystem::new();
    let id = fs.create_directory("/docs", FilePermissions::default()).unwrap();
    let node = fs.get_node(id).unwrap();
    assert_eq!(node.metadata.file_type, FileType::Directory);
}

#[test]
fn an_empty_path_is_invalid() {
    let mut fs = FileSystem::new();
    assert_eq!(fs.create_file("", FilePermissions::default()), Err(FSError::InvalidPath));
}

#[test]
fn a_nested_path_reports_a_missing_parent() {
    let mut fs = FileSystem::new();
    assert_eq!(
        fs.create_file("/a/b.txt", FilePermissions::default()),
        Err(FSError::NotFound)
    );
}

#[test]
fn an_oversized_name_is_invalid() {
    let mut fs = FileSystem::new();
    let mut path = String::from("/");
    for _ in 0..256 {
        path.push('x');
    }
    assert_eq!(fs.create_file(&path, FilePermissions::default()), Err(FSError::InvalidPath));
}

#[test]
fn the_table_fills_up_at_its_capacity() {
    let mut fs = FileSystem::new();
    for _ in 0..1023 {
        assert!(fs.create_file("/f", FilePermissions::default()).is_ok());
    }
    assert_eq!(fs.create_file("/f", FilePermissions::default()), Err(FSError::DiskFull));
    assert_eq!(fs.stats.free_nodes, 0);
}

#[test]
fn path_lookup_resolves_the_root_only() {
    let fs = FileSystem::new();
    assert_eq!(fs.get_node_by_path("/").unwrap().id, 0);
    assert_eq!(fs.get_node_by_path("").unwrap().id, 0);
    assert_eq!(fs.get_node_by_path("//").unwrap().id, 0);
    assert!(matches!(fs.get_node_by_path("/missing"), Err(FSError::NotFound)));
}

#[test]
fn nodes_can_be_updated_in_place() {
    let mut fs = FileSystem::new();
    let id = fs.create_file("/notes.txt", FilePermissions::default()).unwrap();
    {
        let node = fs.get_node_mut(id).unwrap();
        node.metadata.size = 42;
    }
    assert_eq!(fs.get_node(id).unwrap().metadata.size, 42);
    assert_eq!(fs.get_node_mut(2000), Err(FSError::NotFound));
}

#[test]
fn integrity_holds_and_stats_are_reported() {
    let mut fs = FileSystem::new();
    fs.init().unwrap();
    assert!(fs.check_integrity().is_ok());
    let stats = get_filesystem_stats(&fs).unwrap();
    assert_eq!(stats.used_blocks, 1);
    assert_eq!(stats.total_blocks, 1024);
}

#[test]
fn the_self_check_suites_report_their_pinned_results() {
    // The duplicate and subdirectory checks expect directory entries that
    // are not recorded yet, so those suites report failure; the
    // bulk-creation suite passes.
    assert!(!test_filesystem());
    assert!(!test_filesystem_detailed());
    assert!(test_filesystem_performance());
}

#[test]
fn the_filesystem_demonstrations_run() {
    filesystem_demo();
    filesystem_detailed_demo();
    filesystem_performance_demo();
}
