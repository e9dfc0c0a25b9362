use vstd::prelude::*;

verus! {

/// Ownership facts for a file or directory on a managed host.
#[derive(Clone, Debug)]
pub struct FileOwner {
    pub user_name: String,
    pub user_uid: u64,
    pub group_name: String,
    pub group_gid: u64,
}

/// The mathematical image of a `FileOwner`.
pub struct FileOwnerV {
    pub user_name: Seq<char>,
    pub user_uid: u64,
    pub group_name: Seq<char>,
    pub group_gid: u64,
}

impl View for FileOwner {
    type V = FileOwnerV;

    open spec fn view(&self) -> FileOwnerV {
        FileOwnerV {
            user_name: self.user_name@,
            user_uid: self.user_uid,
            group_name: self.group_name@,
            group_gid: self.group_gid,
        }
    }
}

/// A named option of a file transfer. Options form an open, ordered list;
/// new variants append to the tail.
#[derive(Clone, Debug)]
pub enum FileOpts {
    /// Keep a copy of an existing destination file under its name plus this
    /// suffix before overwriting it.
    BackupExistingFile(String),
}

/// The mathematical image of a `FileOpts`.
pub enum FileOptsV {
    BackupExistingFile(Seq<char>),
}

impl View for FileOpts {
    type V = FileOptsV;

    open spec fn view(&self) -> FileOptsV {
        match self {
            FileOpts::BackupExistingFile(suffix) => FileOptsV::BackupExistingFile(suffix@),
        }
    }
}

} // verus!
