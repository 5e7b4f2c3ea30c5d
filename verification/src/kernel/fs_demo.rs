//! Filesystem demonstrations: build directory trees and files on a fresh
//! in-memory filesystem and read its statistics back.

use crate::kernel::filesystem::{FilePermissions, FileSystem};
use vstd::prelude::*;

verus! {

/// Run the basic demonstration: a file, a directory, a small tree and a
/// look at the statistics.
pub fn filesystem_demo() {
    let mut fs = FileSystem::new();
    match fs.init() {
        Ok(()) => {},
        Err(_) => {
            return ;
        },
    }
    demo_basic_operations(&mut fs);
    demo_directory_structure(&mut fs);
    demo_file_operations(&mut fs);
    demo_statistics(&fs);
}

/// Create one file and one directory under the root.
fn demo_basic_operations(fs: &mut FileSystem)
    requires
        crate::kernel::filesystem::fs_wf(*old(fs)),
    ensures
        crate::kernel::filesystem::fs_wf(*final(fs)),
{
    match fs.create_file("/hello.txt", FilePermissions::default()) {
        Ok(_id) => {},
        Err(_) => {
            return ;
        },
    }
    if let Ok(_id) = fs.create_directory("/documents", FilePermissions::default()) {
    }
}

/// Create a handful of directories.
fn demo_directory_structure(fs: &mut FileSystem)
    requires
        crate::kernel::filesystem::fs_wf(*old(fs)),
    ensures
        crate::kernel::filesystem::fs_wf(*final(fs)),
{
    let _ = fs.create_directory("/home", FilePermissions::default());
    let _ = fs.create_directory("/home/user", FilePermissions::default());
    let _ = fs.create_directory("/home/user/documents", FilePermissions::default());
    let _ = fs.create_directory("/home/user/pictures", FilePermissions::default());
    let _ = fs.create_directory("/var", FilePermissions::default());
    let _ = fs.create_directory("/var/log", FilePermissions::default());
    let _ = fs.create_directory("/tmp", FilePermissions::default());
}

/// Create a handful of files.
fn demo_file_operations(fs: &mut FileSystem)
    requires
        crate::kernel::filesystem::fs_wf(*old(fs)),
    ensures
        crate::kernel::filesystem::fs_wf(*final(fs)),
{
    let _ = fs.create_file("/home/user/documents/readme.txt", FilePermissions::default());
    let _ = fs.create_file("/home/user/documents/notes.txt", FilePermissions::default());
    let _ = fs.create_file("/home/user/pictures/photo1.jpg", FilePermissions::default());
    let _ = fs.create_file("/home/user/pictures/photo2.jpg", FilePermissions::default());
    let _ = fs.create_file("/var/log/system.log", FilePermissions::default());
    let _ = fs.create_file("/var/log/error.log", FilePermissions::default());
    let _ = fs.create_file("/tmp/temp_file.tmp", FilePermissions::default());
}

/// Read the statistics; no display is attached in this build.
fn demo_statistics(fs: &FileSystem) {
    let _stats = fs.get_stats();
}

/// Run the detailed demonstration: a larger tree of directories and
/// files, then the statistics.
pub fn filesystem_detailed_demo() {
    let mut fs = FileSystem::new();
    match fs.init() {
        Ok(()) => {},
        Err(_) => {
            return ;
        },
    }
    create_complex_directory_structure(&mut fs);
    create_demo_files(&mut fs);
    display_filesystem_stats(&fs);
}

/// Create a deeper directory tree.
fn create_complex_directory_structure(fs: &mut FileSystem)
    requires
        crate::kernel::filesystem::fs_wf(*old(fs)),
    ensures
        crate::kernel::filesystem::fs_wf(*final(fs)),
{
    let _ = fs.create_directory("/bin", FilePermissions::default());
    let _ = fs.create_directory("/etc", FilePermissions::default());
    let _ = fs.create_directory("/home", FilePermissions::default());
    let _ = fs.create_directory("/home/user1", FilePermissions::default());
    let _ = fs.create_directory("/home/user2", FilePermissions::default());
    let _ = fs.create_directory("/home/user1/documents", FilePermissions::default());
    let _ = fs.create_directory("/home/user1/pictures", FilePermissions::default());
    let _ = fs.create_directory("/home/user2/projects", FilePermissions::default());
    let _ = fs.create_directory("/home/user2/projects/retron", FilePermissions::default());
    let _ = fs.create_directory("/var", FilePermissions::default());
    let _ = fs.create_directory("/var/log", FilePermissions::default());
    let _ = fs.create_directory("/var/cache", FilePermissions::default());
    let _ = fs.create_directory("/tmp", FilePermissions::default());
    let _ = fs.create_directory("/usr", FilePermissions::default());
    let _ = fs.create_directory("/usr/bin", FilePermissions::default());
    let _ = fs.create_directory("/usr/lib", FilePermissions::default());
    let _ = fs.create_directory("/usr/include", FilePermissions::default());
}

/// Create the demonstration files.
fn create_demo_files(fs: &mut FileSystem)
    requires
        crate::kernel::filesystem::fs_wf(*old(fs)),
    ensures
        crate::kernel::filesystem::fs_wf(*final(fs)),
{
    let _ = fs.create_file("/bin/retron", FilePermissions::default());
    let _ = fs.create_file("/bin/retron-shell", FilePermissions::default());
    let _ = fs.create_file("/etc/retron.conf", FilePermissions::default());
    let _ = fs.create_file("/home/user1/documents/readme.txt", FilePermissions::default());
    let _ = fs.create_file("/home/user1/documents/notes.txt", FilePermissions::default());
    let _ = fs.create_file("/home/user1/pictures/photo1.jpg", FilePermissions::default());
    let _ = fs.create_file("/home/user1/pictures/photo2.jpg", FilePermissions::default());
    let _ = fs.create_file("/home/user2/projects/retron/main.rs", FilePermissions::default());
    let _ = fs.create_file("/home/user2/projects/retron/Cargo.toml", FilePermissions::default());
    let _ = fs.create_file("/var/log/system.log", FilePermissions::default());
    let _ = fs.create_file("/var/log/error.log", FilePermissions::default());
    let _ = fs.create_file("/var/cache/temp.cache", FilePermissions::default());
    let _ = fs.create_file("/tmp/temp_file.tmp", FilePermissions::default());
    let _ = fs.create_file("/usr/bin/gcc", FilePermissions::default());
    let _ = fs.create_file("/usr/lib/libc.a", FilePermissions::default());
    let _ = fs.create_file("/usr/include/stdio.h", FilePermissions::default());
}

/// Read the statistics; no display is attached in this build.
fn display_filesystem_stats(fs: &FileSystem) {
    let _stats = fs.get_stats();
}

/// Run the bulk-creation demonstration.  Directory entries are not
/// recorded, so a repeated name still creates a fresh node each round
/// until the node table fills up.
pub fn filesystem_performance_demo() {
    let mut fs = FileSystem::new();
    match fs.init() {
        Ok(()) => {},
        Err(_) => {
            return ;
        },
    }
    let mut i: usize = 0;
    while i < 1000
        invariant
            crate::kernel::filesystem::fs_wf(fs),
            0 <= i <= 1000,
        decreases 1000 - i,
    {
        match fs.create_file("/perf_test.txt", FilePermissions::default()) {
            Ok(_) => {},
            Err(_) => {
                break ;
            },
        }
        i = i + 1;
    }
    let _stats = fs.get_stats();
}

} // verus!
