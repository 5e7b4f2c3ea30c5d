//! Filesystem self-checks, run against a fresh in-memory filesystem.
//! Their results are pinned by the filesystem's contracts: the duplicate
//! and subdirectory checks expect directory entries that are not yet
//! recorded, so those suites report failure, while the bulk-creation
//! suite passes.

use crate::kernel::filesystem::{
    all_seps, fs_wf, is_sep, last_sep_at, lemma_path_split_at, name_part, parent_part, FSError,
    FilePermissions, FileSystem, FileType,
};
use vstd::prelude::*;
use vstd::string::StringSliceAdditionalSpecFns;

verus! {

/// Run the basic suite.  The duplicate-creation check expects an
/// already-exists error that the filesystem cannot raise yet, so the
/// suite reports failure.
pub fn test_filesystem() -> (r: bool)
    ensures
        !r,
{
    let mut fs = FileSystem::new();
    match fs.init() {
        Ok(()) => {},
        Err(_) => {
            return false;
        },
    }
    if !test_basic_file_operations(&mut fs) {
        return false;
    }
    if !test_directory_operations(&mut fs) {
        return false;
    }
    if !test_filesystem_stats(&fs) {
        return false;
    }
    test_integrity_check(&fs)
}

/// Create a file, read it back, and expect a duplicate to be rejected.
fn test_basic_file_operations(fs: &mut FileSystem) -> (r: bool)
    requires
        fs_wf(*old(fs)),
    ensures
        fs_wf(*final(fs)),
        !r,
{
    proof {
        reveal_strlit("/test.txt");
        broadcast use vstd::string::is_ascii_spec_bytes;

        assert("/test.txt".is_ascii());
        assert(last_sep_at("/test.txt".spec_bytes(), 0));
        lemma_path_split_at("/test.txt".spec_bytes(), 0);
        assert(all_seps(parent_part("/test.txt".spec_bytes())));
        assert(name_part("/test.txt".spec_bytes()).len() == 8);
    }
    let file_id = match fs.create_file("/test.txt", FilePermissions::default()) {
        Ok(id) => id,
        Err(_) => {
            return false;
        },
    };
    match fs.get_node(file_id) {
        Ok(node) => {
            match node.metadata.file_type {
                FileType::Regular => {},
                _ => {
                    return false;
                },
            }
        },
        Err(_) => {
            return false;
        },
    }
    proof {
        assert("/test.txt".spec_bytes().len() > 0);
        assert(all_seps(parent_part("/test.txt".spec_bytes())));
        assert(name_part("/test.txt".spec_bytes()).len() <= 255);
    }
    match fs.create_file("/test.txt", FilePermissions::default()) {
        Ok(_) => false,
        Err(FSError::AlreadyExists) => true,
        Err(_) => false,
    }
}

/// Create a directory and a subdirectory inside it.
fn test_directory_operations(fs: &mut FileSystem) -> (r: bool)
    requires
        fs_wf(*old(fs)),
    ensures
        fs_wf(*final(fs)),
{
    let dir_id = match fs.create_directory("/test_dir", FilePermissions::default()) {
        Ok(id) => id,
        Err(_) => {
            return false;
        },
    };
    match fs.get_node(dir_id) {
        Ok(node) => {
            match node.metadata.file_type {
                FileType::Directory => {},
                _ => {
                    return false;
                },
            }
        },
        Err(_) => {
            return false;
        },
    }
    let subdir_id = match fs.create_directory("/test_dir/subdir", FilePermissions::default()) {
        Ok(id) => id,
        Err(_) => {
            return false;
        },
    };
    match fs.get_node(subdir_id) {
        Ok(node) => {
            match node.metadata.file_type {
                FileType::Directory => true,
                _ => false,
            }
        },
        Err(_) => false,
    }
}

/// Check that the statistics look plausible and add up.
fn test_filesystem_stats(fs: &FileSystem) -> (r: bool)
    requires
        fs_wf(*fs),
{
    let stats = fs.get_stats();
    if stats.total_nodes == 0 {
        return false;
    }
    if stats.used_nodes == 0 {
        return false;
    }
    if stats.free_nodes == 0 {
        return false;
    }
    stats.used_nodes + stats.free_nodes == stats.total_nodes
}

/// Run the integrity check.
fn test_integrity_check(fs: &FileSystem) -> (r: bool) {
    fs.check_integrity().is_ok()
}

/// Run the detailed suite.  It builds files inside fresh directories,
/// which needs directory entries the filesystem does not record yet, so
/// the suite reports failure.
pub fn test_filesystem_detailed() -> (r: bool)
    ensures
        !r,
{
    let mut fs = FileSystem::new();
    match fs.init() {
        Ok(()) => {},
        Err(_) => {
            return false;
        },
    }
    proof {
        reveal_strlit("/dir1/subfile1.txt");
        broadcast use vstd::string::is_ascii_spec_bytes;

        assert("/dir1/subfile1.txt".is_ascii());
        assert(last_sep_at("/dir1/subfile1.txt".spec_bytes(), 5));
        lemma_path_split_at("/dir1/subfile1.txt".spec_bytes(), 5);
        assert(!is_sep(parent_part("/dir1/subfile1.txt".spec_bytes())[1]));
        assert(!all_seps(parent_part("/dir1/subfile1.txt".spec_bytes())));
    }
    if fs.create_file("/file1.txt", FilePermissions::default()).is_err() {
        return false;
    }
    if fs.create_file("/file2.txt", FilePermissions::default()).is_err() {
        return false;
    }
    if fs.create_directory("/dir1", FilePermissions::default()).is_err() {
        return false;
    }
    if fs.create_directory("/dir2", FilePermissions::default()).is_err() {
        return false;
    }
    if fs.create_file("/dir1/subfile1.txt", FilePermissions::default()).is_err() {
        return false;
    }
    if fs.create_file("/dir2/subfile2.txt", FilePermissions::default()).is_err() {
        return false;
    }
    let stats = fs.get_stats();
    stats.used_nodes >= 7
}

/// Run the bulk-creation suite: one hundred files under the root, then a
/// count of the nodes in use.
pub fn test_filesystem_performance() -> (r: bool)
    ensures
        r,
{
    let mut fs = FileSystem::new();
    match fs.init() {
        Ok(()) => {},
        Err(_) => {
            return false;
        },
    }
    proof {
        reveal_strlit("/perf_test.txt");
        broadcast use vstd::string::is_ascii_spec_bytes;

        assert("/perf_test.txt".is_ascii());
        assert(last_sep_at("/perf_test.txt".spec_bytes(), 0));
        lemma_path_split_at("/perf_test.txt".spec_bytes(), 0);
        assert(all_seps(parent_part("/perf_test.txt".spec_bytes())));
        assert(name_part("/perf_test.txt".spec_bytes()).len() == 13);
    }
    let mut i: usize = 0;
    while i < 100
        invariant
            fs_wf(fs),
            0 <= i <= 100,
            fs.next_node_id == 1 + i,
            "/perf_test.txt".spec_bytes().len() > 0,
            all_seps(parent_part("/perf_test.txt".spec_bytes())),
            name_part("/perf_test.txt".spec_bytes()).len() <= 255,
        decreases 100 - i,
    {
        if fs.create_file("/perf_test.txt", FilePermissions::default()).is_err() {
            return false;
        }
        i = i + 1;
    }
    let stats = fs.get_stats();
    stats.used_nodes >= 101
}

} // verus!
