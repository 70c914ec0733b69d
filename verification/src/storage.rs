//! What the processor asks of the storage, and what the storage answers.
//!
//! The storage is an outside collaborator: the driver performs each request
//! and hands the reply back. Failures arrive as the storage's own message.

use vstd::prelude::*;

verus! {

/// One entry of a directory. `name` is `None` where the entry's name could
/// not be decoded; the instants are milliseconds since the Unix epoch.
#[derive(Debug, Clone, PartialEq, Eq)]
pub struct DirEntry {
    pub name: Option<String>,
    pub size: u64,
    pub modified_at: i64,
    pub created_at: i64,
    pub is_dir: bool,
}

/// Work for the storage.
#[derive(Debug, Clone, PartialEq, Eq)]
pub enum StorageRequest {
    /// Enumerate the immediate children of a directory.
    ListDir { path: String },
    /// Open a file for reading and tell its size.
    OpenFile { path: String },
    /// Read the next bytes of the open file, at most `max_len` of them.
    ReadChunk { max_len: u64 },
}

/// The storage's answer to one request.
#[derive(Debug, PartialEq, Eq)]
pub enum StorageReply {
    Listing(Result<Vec<DirEntry>, String>),
    Opened(Result<u64, String>),
    Chunk(Result<Vec<u8>, String>),
}

pub struct DirEntryView {
    pub name: Option<Seq<char>>,
    pub size: u64,
    pub modified_at: i64,
    pub created_at: i64,
    pub is_dir: bool,
}

pub enum StorageRequestView {
    ListDir { path: Seq<char> },
    OpenFile { path: Seq<char> },
    ReadChunk { max_len: u64 },
}

pub enum StorageReplyView {
    Listing(Result<Seq<DirEntryView>, Seq<char>>),
    Opened(Result<u64, Seq<char>>),
    Chunk(Result<Seq<u8>, Seq<char>>),
}

impl View for DirEntry {
    type V = DirEntryView;

    open spec fn view(&self) -> DirEntryView {
        DirEntryView {
            name: match self.name {
                Some(name) => Some(name@),
                None => None,
            },
            size: self.size,
            modified_at: self.modified_at,
            created_at: self.created_at,
            is_dir: self.is_dir,
        }
    }
}

/// The views of a list of entries, in order.
pub open spec fn entry_views(entries: Seq<DirEntry>) -> Seq<DirEntryView> {
    Seq::new(entries.len(), |i: int| entries[i]@)
}

impl View for StorageRequest {
    type V = StorageRequestView;

    open spec fn view(&self) -> StorageRequestView {
        match *self {
            StorageRequest::ListDir { path } => StorageRequestView::ListDir { path: path@ },
            StorageRequest::OpenFile { path } => StorageRequestView::OpenFile { path: path@ },
            StorageRequest::ReadChunk { max_len } => StorageRequestView::ReadChunk { max_len },
        }
    }
}

impl View for StorageReply {
    type V = StorageReplyView;

    open spec fn view(&self) -> StorageReplyView {
        match *self {
            StorageReply::Listing(Ok(entries)) => StorageReplyView::Listing(
                Ok(entry_views(entries@)),
            ),
            StorageReply::Listing(Err(message)) => StorageReplyView::Listing(Err(message@)),
            StorageReply::Opened(Ok(size)) => StorageReplyView::Opened(Ok(size)),
            StorageReply::Opened(Err(message)) => StorageReplyView::Opened(Err(message@)),
            StorageReply::Chunk(Ok(data)) => StorageReplyView::Chunk(Ok(data@)),
            StorageReply::Chunk(Err(message)) => StorageReplyView::Chunk(Err(message@)),
        }
    }
}

} // verus!
