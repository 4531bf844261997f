//! What the file service answers, once its body has been read.
use vstd::prelude::*;
use crate::dto::FileRecord;

verus! {

/// How a call to the file service ended.
pub enum Upstream<T> {
    /// The service could not be reached.
    Unreachable,
    /// The service answered with a status outside 2xx, and this body.
    Failed { status: u16, body: String },
    /// The service answered 2xx with a body of the wrong shape.
    Malformed,
    /// The service answered 2xx with this payload.
    Delivered(T),
}

/// The payload of every file-service reply that has one is wrapped in `data`;
/// these are the payloads.
pub struct GetPresignedUploadUrlData {
    pub expires_in: u64,
    pub url: String,
    pub key: String,
}

pub struct GetPresignedGetUrlData {
    pub expires_in: u64,
    pub url: String,
}

/// A stored file as the file service reports it.
pub struct File {
    pub id: String,
    pub user_id: String,
    pub created_at: String,
    pub name: String,
    pub key: String,
}

impl View for File {
    type V = FileRecord;

    open spec fn view(&self) -> FileRecord {
        FileRecord {
            id: self.id@,
            user_id: self.user_id@,
            created_at: self.created_at@,
            name: self.name@,
            key: self.key@,
        }
    }
}

pub struct FilesData {
    pub files: Vec<File>,
}

/// A grant of a file to a user.
pub struct ShareRecord {
    pub user_id: String,
}

pub struct FileData {
    pub file: File,
    pub shares: Vec<ShareRecord>,
}

pub struct ShareData {
    pub shared: bool,
}

pub struct UnshareData {
    pub unshared: bool,
}

/// The reply to a request whose success carries nothing.
pub struct EmptyResponse {}

} // verus!
