//! Detecting that a tailed file was rotated or truncated.

use vstd::prelude::*;

verus! {

/// What the operating system reports of an open file at one moment.
#[derive(Clone, Copy, Debug, PartialEq, Eq, Structural)]
pub struct FileMeta {
    /// Identity of the file on its file system.
    pub inode: u64,
    /// Length of the file in bytes.
    pub size: u64,
}

/// The two questions a tailer asks of a file's current metadata.
pub trait FileExtension {
    /// The metadata that the answers are taken from.
    spec fn meta(&self) -> FileMeta;

    /// Whether the file is no longer the one known under `curr_inode`.
    fn was_rotated(&self, curr_inode: u64) -> (rotated: bool)
        ensures
            rotated == rotated_since(self.meta(), curr_inode),
    ;

    /// Whether the file known under `curr_inode` has shrunk below `curr_pos`.
    fn was_truncated(&self, curr_inode: u64, curr_pos: u64) -> (truncated: bool)
        ensures
            truncated == truncated_since(self.meta(), curr_inode, curr_pos),
    ;
}

/// A file was rotated when its inode is not the remembered one.
pub open spec fn rotated_since(meta: FileMeta, inode: u64) -> bool {
    meta.inode != inode
}

/// A file was truncated when it is still the remembered file and ends
/// before the remembered position.
pub open spec fn truncated_since(meta: FileMeta, inode: u64, pos: u64) -> bool {
    meta.inode == inode && meta.size < pos
}

impl FileExtension for FileMeta {
    open spec fn meta(&self) -> FileMeta {
        *self
    }

    fn was_rotated(&self, curr_inode: u64) -> (rotated: bool) {
        self.inode != curr_inode
    }

    fn was_truncated(&self, curr_inode: u64, curr_pos: u64) -> (truncated: bool) {
        curr_inode == self.inode && self.size < curr_pos
    }
}

} // verus!
