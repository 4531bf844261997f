//! What the gateway's clients send and receive.
use vstd::prelude::*;

verus! {

/// The kind of a stored file, written in lower case on the wire.
#[derive(PartialEq, Eq, Structural, Clone, Copy, Debug)]
pub enum FileType {
    Slides,
    Cheatsheets,
}

impl FileType {
    pub open spec fn spec_text(&self) -> Seq<char> {
        match self {
            FileType::Slides => seq!['s', 'l', 'i', 'd', 'e', 's'],
            FileType::Cheatsheets => seq!['c', 'h', 'e', 'a', 't', 's', 'h', 'e', 'e', 't', 's'],
        }
    }

    /// The lower-case name of the kind, as the file service expects it.
    pub fn to_string(&self) -> (r: String)
        ensures
            r@ == self.spec_text(),
    {
        proof {
            reveal_strlit("slides");
            reveal_strlit("cheatsheets");
        }
        match self {
            FileType::Slides => {
                let r = String::from_str("slides");
                assert(r@ =~= self.spec_text());
                r
            },
            FileType::Cheatsheets => {
                let r = String::from_str("cheatsheets");
                assert(r@ =~= self.spec_text());
                r
            },
        }
    }
}

/// A stored file as the gateway reports it.
pub struct FileRecord {
    pub id: Seq<char>,
    pub user_id: Seq<char>,
    pub created_at: Seq<char>,
    pub name: Seq<char>,
    pub key: Seq<char>,
}

pub struct File {
    pub id: String,
    pub user_id: String,
    pub created_at: String,
    pub name: String,
    pub key: String,
}

impl View for File {
    type V = FileRecord;

    open spec fn view(&self) -> FileRecord {
        FileRecord {
            id: self.id@,
            user_id: self.user_id@,
            created_at: self.created_at@,
            name: self.name@,
            key: self.key@,
        }
    }
}

/// A user that a file is shared with, by id and display name.
pub struct Share {
    pub user_id: String,
    pub name: String,
}

impl View for Share {
    type V = (Seq<char>, Seq<char>);

    open spec fn view(&self) -> (Seq<char>, Seq<char>) {
        (self.user_id@, self.name@)
    }
}

pub struct GetAllFilesResponse {
    pub files: Vec<File>,
}

pub struct GetFileResponse {
    pub file: File,
    pub shares: Vec<Share>,
}

pub struct GetPresignedUploadUrlResponse {
    pub expires_in: String,
    pub url: String,
    pub key: String,
}

pub struct GetPresignedGetUrlResponse {
    pub expires_in: String,
    pub url: String,
}

pub struct PresignUploadQuery {
    pub filename: String,
}

pub struct PresignGetQuery {
    pub key: String,
}

pub struct RemoveFileQuery {
    pub file_type: FileType,
    pub file: String,
}

pub struct ShareRequest {
    pub user_id: String,
    pub file_id: String,
}

pub struct ShareResponse {
    pub shared: bool,
}

pub struct UnshareRequest {
    pub user_id: String,
    pub file_id: String,
}

pub struct UnshareResponse {
    pub unshared: bool,
}

pub struct GenerateRequest {
    pub file_ids: Vec<String>,
}

pub struct GenerateResponse {
    pub file_id: String,
    pub key: String,
}

pub struct LoginRequest {
    pub code: String,
}

pub struct LoginResponse {
    pub id: String,
    pub email: String,
    pub name: String,
    pub token: String,
}

pub struct ValidateTokenRequest {
    pub token: String,
}

/// An identity as the identity service resolved it.
pub struct ValidateTokenResponse {
    pub id: String,
    pub email: String,
    pub name: String,
}

/// A user's id and display name.
pub struct UserProfile {
    pub id: String,
    pub name: String,
}

impl View for UserProfile {
    type V = (Seq<char>, Seq<char>);

    open spec fn view(&self) -> (Seq<char>, Seq<char>) {
        (self.id@, self.name@)
    }
}

pub struct GetAllUsersResponse {
    pub users: Vec<UserProfile>,
}

} // verus!
