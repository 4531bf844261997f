//! The gateway's routes, and which of them pass through authentication.
use vstd::prelude::*;
use crate::file_client::Method;

verus! {

#[derive(PartialEq, Eq, Structural, Clone, Copy, Debug)]
pub enum Route {
    GoogleLoginUrl,
    GoogleCallback,
    ValidateToken,
    PresignedUpload,
    PresignedGet,
    RemoveFile,
    ListFiles,
    GetFile,
    Share,
    Unshare,
    Generate,
}

impl Route {
    /// Login and token validation are public; every file route is protected.
    pub open spec fn spec_is_protected(&self) -> bool {
        !(self is GoogleLoginUrl || self is GoogleCallback || self is ValidateToken)
    }

    pub open spec fn spec_method(&self) -> Method {
        match self {
            Route::GoogleLoginUrl | Route::PresignedUpload | Route::PresignedGet
            | Route::ListFiles | Route::GetFile => Method::Get,
            Route::RemoveFile => Method::Delete,
            _ => Method::Post,
        }
    }

    pub open spec fn spec_path(&self) -> Seq<char> {
        match self {
            Route::GoogleLoginUrl => "/api/user/google"@,
            Route::GoogleCallback => "/api/user/google/callback"@,
            Route::ValidateToken => "/api/user/validate-token"@,
            Route::PresignedUpload => "/api/cheatsheet/presigned/upload"@,
            Route::PresignedGet => "/api/cheatsheet/presigned"@,
            Route::RemoveFile | Route::ListFiles => "/api/cheatsheet/files"@,
            Route::GetFile => "/api/cheatsheet/files/{file_id}"@,
            Route::Share => "/api/cheatsheet/share"@,
            Route::Unshare => "/api/cheatsheet/unshare"@,
            Route::Generate => "/api/cheatsheet/generate"@,
        }
    }

    /// Every route, public ones first.
    pub fn all() -> (r: Vec<Route>)
        ensures
            forall|x: Route| #[trigger] r@.contains(x),
            r@.len() == 11,
    {
        let r = vec![
            Route::GoogleLoginUrl,
            Route::GoogleCallback,
            Route::ValidateToken,
            Route::PresignedUpload,
            Route::PresignedGet,
            Route::RemoveFile,
            Route::ListFiles,
            Route::GetFile,
            Route::Share,
            Route::Unshare,
            Route::Generate,
        ];
        assert forall|x: Route| #[trigger] r@.contains(x) by {
            match x {
                Route::GoogleLoginUrl => assert(r@[0] == x),
                Route::GoogleCallback => assert(r@[1] == x),
                Route::ValidateToken => assert(r@[2] == x),
                Route::PresignedUpload => assert(r@[3] == x),
                Route::PresignedGet => assert(r@[4] == x),
                Route::RemoveFile => assert(r@[5] == x),
                Route::ListFiles => assert(r@[6] == x),
                Route::GetFile => assert(r@[7] == x),
                Route::Share => assert(r@[8] == x),
                Route::Unshare => assert(r@[9] == x),
                Route::Generate => assert(r@[10] == x),
            }
        }
        r
    }

    /// Whether requests on this route go through authentication first.
    pub fn is_protected(&self) -> (r: bool)
        ensures
            r == self.spec_is_protected(),
    {
        match self {
            Route::GoogleLoginUrl | Route::GoogleCallback | Route::ValidateToken => false,
            _ => true,
        }
    }

    pub fn method(&self) -> (r: Method)
        ensures
            r == self.spec_method(),
    {
        match self {
            Route::GoogleLoginUrl | Route::PresignedUpload | Route::PresignedGet
            | Route::ListFiles | Route::GetFile => Method::Get,
            Route::RemoveFile => Method::Delete,
            _ => Method::Post,
        }
    }

    /// The route's path; `{file_id}` stands for a path segment.
    pub fn path(&self) -> (r: &'static str)
        ensures
            r@ == self.spec_path(),
    {
        match self {
            Route::GoogleLoginUrl => "/api/user/google",
            Route::GoogleCallback => "/api/user/google/callback",
            Route::ValidateToken => "/api/user/validate-token",
            Route::PresignedUpload => "/api/cheatsheet/presigned/upload",
            Route::PresignedGet => "/api/cheatsheet/presigned",
            Route::RemoveFile | Route::ListFiles => "/api/cheatsheet/files",
            Route::GetFile => "/api/cheatsheet/files/{file_id}",
            Route::Share => "/api/cheatsheet/share",
            Route::Unshare => "/api/cheatsheet/unshare",
            Route::Generate => "/api/cheatsheet/generate",
        }
    }
}

/// The handler state for the login routes: the identity service client.
pub struct AuthHandler<C> {
    pub auth_client: C,
}

impl<C> AuthHandler<C> {
    pub fn new(auth_client: C) -> (r: Self)
        ensures
            r.auth_client == auth_client,
    {
        AuthHandler { auth_client }
    }
}

} // verus!
