//! An in-memory filesystem: a fixed table of nodes with names, metadata
//! and statistics.  Nodes are created under the root directory; directory
//! entries are not yet written to blocks, so path lookup resolves the root
//! and reports every deeper component as missing.

use crate::kernel::text;
use vstd::prelude::*;
use vstd::string::StringSliceAdditionalSpecFns;

verus! {

/// Errors of the filesystem.
#[derive(Debug, Clone, Copy, PartialEq, Eq, Structural)]
pub enum FSError {
    NotFound,
    AlreadyExists,
    InvalidPath,
    PermissionDenied,
    DiskFull,
    InvalidOperation,
    Corrupted,
}

/// Result type of the filesystem.
pub type FSResult<T> = Result<T, FSError>;

/// Kind of a node.
#[derive(Debug, Clone, Copy, PartialEq, Eq, Structural)]
pub enum FileType {
    Regular,
    Directory,
    Symlink,
    Device,
}

/// Access permissions of a node.
#[derive(Debug, Clone, Copy, PartialEq, Eq, Structural)]
pub struct FilePermissions {
    pub owner_read: bool,
    pub owner_write: bool,
    pub owner_execute: bool,
    pub group_read: bool,
    pub group_write: bool,
    pub group_execute: bool,
    pub other_read: bool,
    pub other_write: bool,
    pub other_execute: bool,
}

impl Default for FilePermissions {
    /// Owner read/write, group and others read-only.
    fn default() -> (r: Self)
        ensures
            r == FilePermissions::spec_default(),
    {
        Self {
            owner_read: true,
            owner_write: true,
            owner_execute: false,
            group_read: true,
            group_write: false,
            group_execute: false,
            other_read: true,
            other_write: false,
            other_execute: false,
        }
    }
}

impl FilePermissions {
    /// The default permission set: owner read/write, group and others read.
    pub open spec fn spec_default() -> Self {
        FilePermissions {
            owner_read: true,
            owner_write: true,
            owner_execute: false,
            group_read: true,
            group_write: false,
            group_execute: false,
            other_read: true,
            other_write: false,
            other_execute: false,
        }
    }
}

/// Metadata of a node.
#[derive(Debug, Clone, Copy, PartialEq, Eq, Structural)]
pub struct FileMetadata {
    pub size: u64,
    pub file_type: FileType,
    pub permissions: FilePermissions,
    pub created_at: u64,
    pub modified_at: u64,
    pub accessed_at: u64,
}

/// One node of the filesystem; the name is stored zero-padded.
#[derive(Debug, Clone, Copy, PartialEq)]
pub struct FSNode {
    pub id: u32,
    pub name: [u8; 256],
    pub name_len: u8,
    pub parent_id: u32,
    pub metadata: FileMetadata,
    pub data_blocks: [u32; 16],
    pub block_count: u8,
}

/// A directory entry (reserved for block-level listings).
#[derive(Debug, Clone, Copy, PartialEq)]
pub struct DirectoryEntry {
    pub node_id: u32,
    pub name: [u8; 256],
    pub name_len: u8,
}

/// Usage statistics of the filesystem.
#[derive(Debug, Clone, Copy, PartialEq, Eq, Structural)]
pub struct FSStats {
    pub total_blocks: u32,
    pub used_blocks: u32,
    pub free_blocks: u32,
    pub total_nodes: u32,
    pub used_nodes: u32,
    pub free_nodes: u32,
}

/// The filesystem: a fixed table of 1024 optional nodes, the root's id,
/// the next id to hand out, and the statistics.
pub struct FileSystem {
    pub nodes: [Option<FSNode>; 1024],
    pub root_id: u32,
    pub next_node_id: u32,
    pub stats: FSStats,
}

/// The path separator byte `/`.
pub open spec fn is_sep(c: u8) -> bool {
    c == 47
}

/// Every byte of `s` is a path separator.
pub open spec fn all_seps(s: Seq<u8>) -> bool {
    forall|i: int| 0 <= i < s.len() ==> is_sep(s[i])
}

/// Report whether every byte of `s` is a path separator.
fn all_seps_exec(s: &[u8]) -> (r: bool)
    ensures
        r == all_seps(s@),
{
    let mut i: usize = 0;
    while i < s.len()
        invariant
            0 <= i <= s@.len(),
            forall|k: int| 0 <= k < i ==> is_sep(s@[k]),
        decreases s@.len() - i,
    {
        if s[i] != 47 {
            return false;
        }
        i = i + 1;
    }
    true
}

/// `k` is the position of the last separator of `s`.
pub open spec fn last_sep_at(s: Seq<u8>, k: int) -> bool {
    &&& 0 <= k < s.len()
    &&& is_sep(s[k])
    &&& forall|j: int| k < j < s.len() ==> !is_sep(s[j])
}

/// The parent part of a path: everything before the last separator, or
/// empty when there is none.
pub open spec fn parent_part(s: Seq<u8>) -> Seq<u8> {
    if exists|k: int| last_sep_at(s, k) {
        s.subrange(0, choose|k: int| last_sep_at(s, k))
    } else {
        Seq::empty()
    }
}

/// The final name part of a path: everything after the last separator,
/// or the whole path when there is none.
pub open spec fn name_part(s: Seq<u8>) -> Seq<u8> {
    if exists|k: int| last_sep_at(s, k) {
        s.subrange((choose|k: int| last_sep_at(s, k)) + 1, s.len() as int)
    } else {
        s
    }
}

/// A path splits at its last separator.
pub proof fn lemma_path_split_at(s: Seq<u8>, k: int)
    requires
        last_sep_at(s, k),
    ensures
        parent_part(s) == s.subrange(0, k),
        name_part(s) == s.subrange(k + 1, s.len() as int),
{
    let c = choose|c: int| last_sep_at(s, c);
    assert(last_sep_at(s, c));
    if c < k {
        assert(!is_sep(s[k]));
    }
    if k < c {
        assert(!is_sep(s[c]));
    }
}

/// The node the root directory starts as: id 0, the name `/`, its own
/// parent, an empty directory with the default permissions.
pub open spec fn root_node(n: FSNode) -> bool {
    &&& n.id == 0
    &&& n.name@.len() == 256
    &&& n.name@[0] == 47
    &&& (forall|k: int| 1 <= k < 256 ==> n.name@[k] == 0)
    &&& n.name_len == 1
    &&& n.parent_id == 0
    &&& n.metadata == (FileMetadata {
        size: 0,
        file_type: FileType::Directory,
        permissions: FilePermissions::spec_default(),
        created_at: 0,
        modified_at: 0,
        accessed_at: 0,
    })
    &&& n.data_blocks@ =~= Seq::new(16, |i: int| 0u32)
    &&& n.block_count == 0
}

/// The node table holds a well-formed filesystem: ids are handed out
/// consecutively from 1, the statistics agree with the table, the root is
/// a directory at id 0, and no node has directory blocks yet.
pub open spec fn fs_wf(fs: FileSystem) -> bool {
    &&& fs.root_id == 0
    &&& 1 <= fs.next_node_id <= 1024
    &&& fs.stats.total_nodes == 1024
    &&& fs.stats.used_nodes == fs.next_node_id
    &&& fs.stats.used_nodes + fs.stats.free_nodes == 1024
    &&& fs.stats.total_blocks == 1024
    &&& fs.stats.used_blocks <= fs.stats.total_blocks
    &&& fs.nodes@.len() == 1024
    &&& (forall|i: int| 0 <= i < 1024 ==> (#[trigger] fs.nodes@[i] is Some <==> i < fs.next_node_id))
    &&& (forall|i: int|
        0 <= i < 1024 && #[trigger] fs.nodes@[i] is Some ==> fs.nodes@[i]->0.id == i
            && fs.nodes@[i]->0.block_count == 0)
    &&& fs.nodes@[0]->0.metadata.file_type == FileType::Directory
}

/// What a successful node creation did: the node table gained one node
/// with the given name, type and permissions under the root, and the
/// statistics moved by one node.
pub open spec fn created_node_post(
    pre: FileSystem,
    post: FileSystem,
    name: Seq<u8>,
    file_type: FileType,
    permissions: FilePermissions,
    id: u32,
) -> bool {
    &&& id == pre.next_node_id
    &&& post.next_node_id == pre.next_node_id + 1
    &&& post.root_id == pre.root_id
    &&& post.stats == (FSStats {
        used_nodes: (pre.stats.used_nodes + 1) as u32,
        free_nodes: (pre.stats.free_nodes - 1) as u32,
        ..pre.stats
    })
    &&& post.nodes@ =~= pre.nodes@.update(id as int, Some(post.nodes@[id as int]->0))
    &&& post.nodes@[id as int] is Some
    &&& {
        let node = post.nodes@[id as int]->0;
        &&& node.id == id
        &&& text::padded(name, node.name@)
        &&& node.name_len == name.len()
        &&& node.parent_id == 0
        &&& node.metadata == (FileMetadata {
            size: 0,
            file_type,
            permissions,
            created_at: 0,
            modified_at: 0,
            accessed_at: 0,
        })
        &&& node.block_count == 0
    }
}

impl FileSystem {
    /// Create a filesystem holding only the root directory.
    pub fn new() -> (r: Self)
        ensures
            fs_wf(r),
            r.root_id == 0,
            r.next_node_id == 1,
            r.stats == (FSStats {
                total_blocks: 1024,
                used_blocks: 0,
                free_blocks: 1024,
                total_nodes: 1024,
                used_nodes: 1,
                free_nodes: 1023,
            }),
            r.nodes@[0] matches Some(n) && root_node(n),
            forall|i: int| 1 <= i < 1024 ==> r.nodes@[i] is None,
    {
        let mut fs = Self {
            nodes: [None; 1024],
            root_id: 0,
            next_node_id: 1,
            stats: FSStats {
                total_blocks: 1024,
                used_blocks: 0,
                free_blocks: 1024,
                total_nodes: 1024,
                used_nodes: 0,
                free_nodes: 1024,
            },
        };
        fs.create_root_directory();
        fs
    }

    /// Install the root directory at node 0.
    fn create_root_directory(&mut self)
        requires
            old(self).nodes@.len() == 1024,
            forall|i: int| 0 <= i < 1024 ==> old(self).nodes@[i] is None,
            old(self).root_id == 0,
            old(self).next_node_id == 1,
            old(self).stats == (FSStats {
                total_blocks: 1024,
                used_blocks: 0,
                free_blocks: 1024,
                total_nodes: 1024,
                used_nodes: 0,
                free_nodes: 1024,
            }),
        ensures
            fs_wf(*final(self)),
            final(self).root_id == 0,
            final(self).next_node_id == 1,
            final(self).stats == (FSStats {
                total_blocks: 1024,
                used_blocks: 0,
                free_blocks: 1024,
                total_nodes: 1024,
                used_nodes: 1,
                free_nodes: 1023,
            }),
            final(self).nodes@[0] matches Some(n) && root_node(n),
            forall|i: int| 1 <= i < 1024 ==> final(self).nodes@[i] is None,
    {
        let mut name = [0u8; 256];
        name[0] = 47;
        let root_node = FSNode {
            id: 0,
            name,
            name_len: 1,
            parent_id: 0,
            metadata: FileMetadata {
                size: 0,
                file_type: FileType::Directory,
                permissions: FilePermissions::default(),
                created_at: 0,
                modified_at: 0,
                accessed_at: 0,
            },
            data_blocks: [0; 16],
            block_count: 0,
        };
        self.nodes[0] = Some(root_node);
        self.stats.used_nodes = 1;
        self.stats.free_nodes = 1023;
        proof {
            assert(self.nodes@[0]->0.data_blocks@ =~= Seq::new(16, |i: int| 0u32));
        }
    }

    /// Look a node up by id.
    pub fn get_node(&self, node_id: u32) -> (r: FSResult<&FSNode>)
        ensures
            r is Ok <==> node_id < self.nodes@.len() && self.nodes@[node_id as int] is Some,
            r matches Ok(node) ==> *node == self.nodes@[node_id as int]->0,
            r is Err ==> r == FSResult::<&FSNode>::Err(FSError::NotFound),
    {
        if node_id as usize >= self.nodes.len() {
            return Err(FSError::NotFound);
        }
        match &self.nodes[node_id as usize] {
            Some(node) => Ok(node),
            None => Err(FSError::NotFound),
        }
    }

    /// Borrow a node by id for updating.  The caller may change any
    /// field of the borrowed node, so the table's well-formedness must be
    /// re-established by whoever uses the borrow.
    pub fn get_node_mut(&mut self, node_id: u32) -> (r: FSResult<&mut FSNode>)
        ensures
            r is Ok <==> node_id < old(self).nodes@.len() && old(self).nodes@[node_id as int] is Some,
            r matches Ok(node) ==> *node == old(self).nodes@[node_id as int]->0 && final(self).nodes@ =~= old(self).nodes@.update(node_id as int, Some(*final(node))) && final(self).root_id == old(self).root_id && final(self).next_node_id == old(self).next_node_id
                && final(self).stats == old(self).stats,
            r is Err ==> *final(self) == *old(self) && r == FSResult::<&mut FSNode>::Err(
                FSError::NotFound,
            ),
    {
        if node_id as usize >= self.nodes.len() {
            return Err(FSError::NotFound);
        }
        if self.nodes[node_id as usize].is_none() {
            return Err(FSError::NotFound);
        }
        match &mut self.nodes[node_id as usize] {
            Some(node) => Ok(node),
            None => Err(FSError::NotFound),
        }
    }

    /// Whether a node id is present in the table.
    pub fn has_node(&self, node_id: u32) -> (r: bool)
        ensures
            r == (node_id < self.nodes@.len() && self.nodes@[node_id as int] is Some),
    {
        (node_id as usize) < self.nodes.len() && self.nodes[node_id as usize].is_some()
    }

    /// Look a node up by path.  Only the root itself can be resolved:
    /// directory entries are not yet written to blocks, so the lookup
    /// succeeds exactly when the path holds nothing but separators.
    pub fn get_node_by_path(&self, path: &str) -> (r: FSResult<&FSNode>)
        requires
            fs_wf(*self),
        ensures
            r is Ok <==> all_seps(path.spec_bytes()),
            r matches Ok(node) ==> *node == self.nodes@[0]->0,
            r is Err ==> r == FSResult::<&FSNode>::Err(FSError::NotFound),
    {
        let bytes = path.as_bytes();
        let mut i: usize = 0;
        while i < bytes.len()
            invariant
                bytes@ =~= path.spec_bytes(),
                0 <= i <= bytes@.len(),
                forall|j: int| 0 <= j < i ==> is_sep(bytes@[j]),
                fs_wf(*self),
            decreases bytes@.len() - i,
        {
            if bytes[i] != 47 {
                // The first real component: walk into the root directory.
                let mut end: usize = i;
                while end < bytes.len() && bytes[end] != 47
                    invariant
                        i <= end <= bytes@.len(),
                    decreases bytes@.len() - end,
                {
                    end = end + 1;
                }
                let root_id = self.root_id;
                return match self.find_child_by_name(root_id, &bytes[i..end]) {
                    Ok(id) => self.get_node(id),
                    Err(e) => Err(e),
                };
            }
            i = i + 1;
        }
        self.get_node(self.root_id)
    }

    /// Search a directory's entries for a child of the given name.  No
    /// directory blocks are written yet, so nothing is ever found.
    fn find_child_by_name(&self, parent_id: u32, _name: &[u8]) -> (r: FSResult<u32>)
        requires
            fs_wf(*self),
        ensures
            r is Err,
            parent_id < 1024 && self.nodes@[parent_id as int] is Some
                && self.nodes@[parent_id as int]->0.metadata.file_type != FileType::Directory ==> r
                == FSResult::<u32>::Err(FSError::InvalidPath),
            !(parent_id < 1024 && self.nodes@[parent_id as int] is Some
                && self.nodes@[parent_id as int]->0.metadata.file_type != FileType::Directory) ==> r
                == FSResult::<u32>::Err(FSError::NotFound),
    {
        let parent = match self.get_node(parent_id) {
            Ok(node) => node,
            Err(e) => {
                return Err(e);
            },
        };
        match parent.metadata.file_type {
            FileType::Directory => {},
            _ => {
                return Err(FSError::InvalidPath);
            },
        }
        let mut i: usize = 0;
        let count = parent.block_count as usize;
        while i < count
            invariant
                0 <= i,
            decreases count - i,
        {
            // Block-level directory entries would be read here.
            i = i + 1;
        }
        Err(FSError::NotFound)
    }

    /// Create a node of the given type under the root.  Success is owed
    /// exactly when the path is non-empty, its parent part is made of
    /// separators only, the name fits 255 bytes, and a node is free.
    fn create_node(&mut self, path: &str, permissions: FilePermissions, file_type: FileType) -> (r:
        FSResult<u32>)
        requires
            fs_wf(*old(self)),
        ensures
            fs_wf(*final(self)),
            r is Ok <==> path.spec_bytes().len() > 0 && all_seps(parent_part(path.spec_bytes()))
                && name_part(path.spec_bytes()).len() <= 255 && old(self).stats.free_nodes > 0,
            r matches Ok(id) ==> created_node_post(
                *old(self),
                *final(self),
                name_part(path.spec_bytes()),
                file_type,
                permissions,
                id,
            ),
            r is Err ==> *final(self) == *old(self),
            path.spec_bytes().len() == 0 ==> r == FSResult::<u32>::Err(FSError::InvalidPath),
            path.spec_bytes().len() > 0 && !all_seps(parent_part(path.spec_bytes())) ==> r
                == FSResult::<u32>::Err(FSError::NotFound),
            path.spec_bytes().len() > 0 && all_seps(parent_part(path.spec_bytes())) && name_part(
                path.spec_bytes(),
            ).len() > 255 ==> r == FSResult::<u32>::Err(FSError::InvalidPath),
            path.spec_bytes().len() > 0 && all_seps(parent_part(path.spec_bytes())) && name_part(
                path.spec_bytes(),
            ).len() <= 255 && old(self).stats.free_nodes == 0 ==> r == FSResult::<u32>::Err(
                FSError::DiskFull,
            ),
    {
        let bytes = path.as_bytes();
        if bytes.len() == 0 {
            return Err(FSError::InvalidPath);
        }
        // Split at the last separator.
        let mut sep: usize = bytes.len();
        let mut j: usize = bytes.len();
        while j > 0
            invariant
                bytes@ =~= path.spec_bytes(),
                0 <= j <= bytes@.len(),
                sep <= bytes@.len(),
                sep == bytes@.len() ==> forall|k: int| j <= k < bytes@.len() ==> !is_sep(bytes@[k]),
                sep < bytes@.len() ==> j <= sep && is_sep(bytes@[sep as int]) && (forall|k: int|
                    sep < k < bytes@.len() ==> !is_sep(bytes@[k])),
            decreases j,
        {
            if sep == bytes.len() && bytes[j - 1] == 47 {
                sep = j - 1;
            }
            j = j - 1;
        }
        let ghost path_bytes = path.spec_bytes();
        let ghost parent_spec = parent_part(path_bytes);
        let ghost name_spec = name_part(path_bytes);
        let (parent_bytes, filename): (&[u8], &[u8]) = if sep < bytes.len() {
            proof {
                assert(last_sep_at(path_bytes, sep as int));
                let k = choose|k: int| last_sep_at(path_bytes, k);
                assert(last_sep_at(path_bytes, k));
                assert(k == sep as int) by {
                    if k < sep as int {
                        assert(!is_sep(path_bytes[sep as int]));
                    }
                    if k > sep as int {
                        assert(!is_sep(path_bytes[k]));
                    }
                }
            }
            (&bytes[0..sep], &bytes[sep + 1..bytes.len()])
        } else {
            proof {
                assert(forall|k: int| 0 <= k < path_bytes.len() ==> !is_sep(path_bytes[k]));
                assert(!(exists|k: int| last_sep_at(path_bytes, k)));
            }
            (&bytes[0..0], &bytes[0..bytes.len()])
        };
        proof {
            assert(parent_bytes@ =~= parent_spec);
            assert(filename@ =~= name_spec);
        }
        // Resolve the parent: an empty parent means the root.
        if !all_seps_exec(parent_bytes) {
            return Err(FSError::NotFound);
        }
        if filename.len() > 255 {
            return Err(FSError::InvalidPath);
        }
        if self.stats.free_nodes == 0 {
            return Err(FSError::DiskFull);
        }
        let node_id = self.next_node_id;
        self.next_node_id = self.next_node_id + 1;
        let name_bytes = text::copy_to_array::<256>(filename);
        let new_node = FSNode {
            id: node_id,
            name: name_bytes,
            name_len: filename.len() as u8,
            parent_id: 0,
            metadata: FileMetadata {
                size: 0,
                file_type,
                permissions,
                created_at: 0,
                modified_at: 0,
                accessed_at: 0,
            },
            data_blocks: [0; 16],
            block_count: 0,
        };
        self.nodes[node_id as usize] = Some(new_node);
        self.stats.used_nodes = self.stats.used_nodes + 1;
        self.stats.free_nodes = self.stats.free_nodes - 1;
        Ok(node_id)
    }

    /// Create a regular file.  Success is owed exactly when the path is
    /// non-empty, every parent component is empty (the root), the name
    /// fits 255 bytes, and a node is free.
    pub fn create_file(&mut self, path: &str, permissions: FilePermissions) -> (r: FSResult<u32>)
        requires
            fs_wf(*old(self)),
        ensures
            fs_wf(*final(self)),
            r is Ok <==> path.spec_bytes().len() > 0 && all_seps(parent_part(path.spec_bytes()))
                && name_part(path.spec_bytes()).len() <= 255 && old(self).stats.free_nodes > 0,
            r matches Ok(id) ==> created_node_post(
                *old(self),
                *final(self),
                name_part(path.spec_bytes()),
                FileType::Regular,
                permissions,
                id,
            ),
            r is Err ==> *final(self) == *old(self),
            path.spec_bytes().len() == 0 ==> r == FSResult::<u32>::Err(FSError::InvalidPath),
            path.spec_bytes().len() > 0 && !all_seps(parent_part(path.spec_bytes())) ==> r
                == FSResult::<u32>::Err(FSError::NotFound),
            path.spec_bytes().len() > 0 && all_seps(parent_part(path.spec_bytes())) && name_part(
                path.spec_bytes(),
            ).len() > 255 ==> r == FSResult::<u32>::Err(FSError::InvalidPath),
            path.spec_bytes().len() > 0 && all_seps(parent_part(path.spec_bytes())) && name_part(
                path.spec_bytes(),
            ).len() <= 255 && old(self).stats.free_nodes == 0 ==> r == FSResult::<u32>::Err(
                FSError::DiskFull,
            ),
    {
        self.create_node(path, permissions, FileType::Regular)
    }

    /// Create a directory.  Success is owed under the same conditions as
    /// for a file.
    pub fn create_directory(&mut self, path: &str, permissions: FilePermissions) -> (r: FSResult<
        u32,
    >)
        requires
            fs_wf(*old(self)),
        ensures
            fs_wf(*final(self)),
            r is Ok <==> path.spec_bytes().len() > 0 && all_seps(parent_part(path.spec_bytes()))
                && name_part(path.spec_bytes()).len() <= 255 && old(self).stats.free_nodes > 0,
            r matches Ok(id) ==> created_node_post(
                *old(self),
                *final(self),
                name_part(path.spec_bytes()),
                FileType::Directory,
                permissions,
                id,
            ),
            r is Err ==> *final(self) == *old(self),
            path.spec_bytes().len() == 0 ==> r == FSResult::<u32>::Err(FSError::InvalidPath),
            path.spec_bytes().len() > 0 && !all_seps(parent_part(path.spec_bytes())) ==> r
                == FSResult::<u32>::Err(FSError::NotFound),
            path.spec_bytes().len() > 0 && all_seps(parent_part(path.spec_bytes())) && name_part(
                path.spec_bytes(),
            ).len() > 255 ==> r == FSResult::<u32>::Err(FSError::InvalidPath),
            path.spec_bytes().len() > 0 && all_seps(parent_part(path.spec_bytes())) && name_part(
                path.spec_bytes(),
            ).len() <= 255 && old(self).stats.free_nodes == 0 ==> r == FSResult::<u32>::Err(
                FSError::DiskFull,
            ),
    {
        self.create_node(path, permissions, FileType::Directory)
    }

    /// The current statistics.
    pub fn get_stats(&self) -> (r: &FSStats)
        ensures
            *r == self.stats,
    {
        &self.stats
    }

    /// Account the root directory's block.
    pub fn init(&mut self) -> (r: FSResult<()>)
        requires
            fs_wf(*old(self)),
        ensures
            fs_wf(*final(self)),
            r is Ok,
            final(self).stats == (FSStats {
                used_blocks: 1,
                free_blocks: (old(self).stats.total_blocks - 1) as u32,
                ..old(self).stats
            }),
            final(self).nodes@ =~= old(self).nodes@,
            final(self).next_node_id == old(self).next_node_id,
    {
        self.stats.used_blocks = 1;
        self.stats.free_blocks = self.stats.total_blocks - 1;
        Ok(())
    }

    /// Check that the statistics are internally consistent.
    pub fn check_integrity(&self) -> (r: FSResult<()>)
        ensures
            r is Ok <==> self.stats.used_nodes <= self.stats.total_nodes
                && self.stats.used_blocks <= self.stats.total_blocks,
            r is Err ==> r == FSResult::<()>::Err(FSError::Corrupted),
    {
        if self.stats.used_nodes > self.stats.total_nodes {
            return Err(FSError::Corrupted);
        }
        if self.stats.used_blocks > self.stats.total_blocks {
            return Err(FSError::Corrupted);
        }
        Ok(())
    }
}

/// The statistics of an explicitly owned filesystem.
pub fn get_filesystem_stats(fs: &FileSystem) -> (r: FSResult<FSStats>)
    ensures
        r == FSResult::<FSStats>::Ok(fs.stats),
{
    Ok(*fs.get_stats())
}

} // verus!
