//! The authentication step in front of every protected route: take the
//! bearer credential, have the identity service resolve it, and forward the
//! request under the resolved identity or turn it away.
//!
//! Nothing is kept between requests: every protected request costs one
//! validation call, and no result of one is cached for the next.
use vstd::prelude::*;
use crate::dto::ValidateTokenResponse;
use crate::envelope::{ApiResponse, STATUS_UNAUTHORIZED};
use crate::file_client::{carries_user, pair, pairs_view, plain_request, CheatsheetService, Method};
use crate::identity_client::{answers, rpc_message, RpcError};
use crate::text::{strip_prefix_once, without_prefix};

verus! {

/// A request turned away before it reaches a handler.
pub struct Rejection {
    pub status: u16,
    pub message: String,
}

impl Rejection {
    pub open spec fn is(&self, status: u16, message: Seq<char>) -> bool {
        self.status == status && self.message@ == message
    }
}

pub open spec fn missing_token_message() -> Seq<char> {
    "Missing authorization token"@
}

pub open spec fn bearer_prefix() -> Seq<char> {
    "Bearer "@
}

/// The credential in an `Authorization` value: what follows the `Bearer `
/// prefix where there is one, the value itself otherwise.
pub open spec fn bearer_token(value: Seq<char>) -> Seq<char> {
    without_prefix(value, bearer_prefix())
}

/// What the middleware does first with a request.
pub enum AuthStep {
    /// Turn the request away; the identity service is not asked.
    Reject(Rejection),
    /// Ask the identity service to validate this token.
    Validate { token: String },
}

/// The first step for a request whose `Authorization` header holds
/// `authorization` (none where it is absent or not text).
pub open spec fn spec_begin(authorization: Option<Seq<char>>) -> AuthStepView {
    match authorization {
        None => AuthStepView::Reject { status: STATUS_UNAUTHORIZED, message: missing_token_message() },
        Some(v) => AuthStepView::Validate { token: bearer_token(v) },
    }
}

pub enum AuthStepView {
    Reject { status: u16, message: Seq<char> },
    Validate { token: Seq<char> },
}

impl View for AuthStep {
    type V = AuthStepView;

    open spec fn view(&self) -> AuthStepView {
        match self {
            AuthStep::Reject(r) => AuthStepView::Reject { status: r.status, message: r.message@ },
            AuthStep::Validate { token } => AuthStepView::Validate { token: token@ },
        }
    }
}

pub open spec fn opt_view(o: Option<String>) -> Option<Seq<char>> {
    match o {
        Some(s) => Some(s@),
        None => None,
    }
}

/// Takes the credential out of the `Authorization` header, or turns the
/// request away with a 401 where there is none.
pub fn begin(authorization: Option<String>) -> (r: AuthStep)
    ensures
        r@ == spec_begin(opt_view(authorization)),
{
    match authorization {
        None => AuthStep::Reject(
            Rejection {
                status: STATUS_UNAUTHORIZED,
                message: String::from_str("Missing authorization token"),
            },
        ),
        Some(v) => {
            let token = strip_prefix_once(v.as_str(), "Bearer ");
            AuthStep::Validate { token: token.to_owned() }
        },
    }
}

/// The headers under which a request goes on to its handler.
pub open spec fn identity_headers(id: Seq<char>, email: Seq<char>, name: Seq<char>) -> Seq<
    (Seq<char>, Seq<char>),
> {
    seq![("X-User-Id"@, id), ("X-User-Email"@, email), ("X-User-Name"@, name)]
}

/// What the middleware does once the identity service has answered.
pub enum AuthOutcome {
    /// Turn the request away.
    Rejected(Rejection),
    /// Run the handler, with these headers set on the request.
    Forward { identity: ValidateTokenResponse, headers: Vec<(String, String)> },
}

/// The request goes on under the resolved identity; any failure is a 401
/// that carries the identity service's message.
pub open spec fn settles(validation: ApiResponse<ValidateTokenResponse>, r: AuthOutcome) -> bool {
    match validation {
        ApiResponse::Success(who) => match r {
            AuthOutcome::Forward { identity, headers } => identity == who && pairs_view(headers@)
                == identity_headers(who.id@, who.email@, who.name@),
            AuthOutcome::Rejected(_) => false,
        },
        ApiResponse::Error { message, .. } => match r {
            AuthOutcome::Rejected(rej) => rej.is(STATUS_UNAUTHORIZED, message@),
            AuthOutcome::Forward { .. } => false,
        },
    }
}

/// Decides the request once the identity service has answered the
/// validation.
pub fn after_validation(validation: ApiResponse<ValidateTokenResponse>) -> (r: AuthOutcome)
    ensures
        settles(validation, r),
{
    match validation {
        ApiResponse::Success(who) => {
            let mut headers = Vec::new();
            headers.push(pair("X-User-Id", who.id.clone()));
            headers.push(pair("X-User-Email", who.email.clone()));
            headers.push(pair("X-User-Name", who.name.clone()));
            assert(pairs_view(headers@) =~= identity_headers(who.id@, who.email@, who.name@));
            AuthOutcome::Forward { identity: who, headers }
        },
        ApiResponse::Error { message, .. } => AuthOutcome::Rejected(
            Rejection { status: STATUS_UNAUTHORIZED, message },
        ),
    }
}

pub open spec fn missing_user_message() -> Seq<char> {
    "Missing or invalid X-User-Id header"@
}

/// The id of the user a request is made for, as the middleware set it.
pub struct UserId(pub String);

impl UserId {
    /// The user id in an `X-User-Id` value: any non-empty text.
    pub open spec fn spec_from_header(value: Option<Seq<char>>) -> Option<Seq<char>> {
        match value {
            Some(v) => if v.len() > 0 {
                Some(v)
            } else {
                None
            },
            None => None,
        }
    }

    /// Reads the user id from the `X-User-Id` header; a 401 where it is
    /// absent or empty.
    pub fn from_header(value: Option<String>) -> (r: Result<UserId, Rejection>)
        ensures
            match UserId::spec_from_header(opt_view(value)) {
                Some(v) => r matches Ok(u) && u.0@ == v,
                None => r matches Err(rej) && rej.is(STATUS_UNAUTHORIZED, missing_user_message()),
            },
    {
        match value {
            Some(v) => {
                if v.as_str().unicode_len() > 0 {
                    return Ok(UserId(v));
                }
            },
            None => {},
        }
        Err(
            Rejection {
                status: STATUS_UNAUTHORIZED,
                message: String::from_str("Missing or invalid X-User-Id header"),
            },
        )
    }
}

/// A protected request without an `Authorization` header is turned away with
/// a 401, and the identity service is never asked about it.
pub proof fn lemma_missing_credential_refused()
    ensures
        spec_begin(None) == (AuthStepView::Reject {
            status: STATUS_UNAUTHORIZED,
            message: missing_token_message(),
        }),
        !(spec_begin(None) is Validate),
{
}

/// A protected request whose token the identity service reports invalid is
/// turned away with a 401 that carries the service's message, and never goes
/// on to a handler, so never to the file service.
pub proof fn lemma_invalid_token_refused(
    failure: RpcError,
    validation: ApiResponse<ValidateTokenResponse>,
    outcome: AuthOutcome,
)
    requires
        answers(Err(failure), validation),
        settles(validation, outcome),
    ensures
        outcome matches AuthOutcome::Rejected(rej) && rej.is(
            STATUS_UNAUTHORIZED,
            rpc_message(failure),
        ),
        !(outcome is Forward),
{
}

/// A protected request with a valid token goes on with `X-User-Id` set to the
/// resolved identity's id; the handler reads that id back, and every request
/// it then sends to the file service names that user.
pub proof fn lemma_forwarded_under_identity(
    who: ValidateTokenResponse,
    validation: ApiResponse<ValidateTokenResponse>,
    outcome: AuthOutcome,
    service: CheatsheetService,
)
    requires
        answers(Ok(who), validation),
        settles(validation, outcome),
        who.id@.len() > 0,
    ensures
        outcome matches AuthOutcome::Forward { identity, headers } && identity == who
            && pairs_view(headers@).contains(("X-User-Id"@, who.id@)),
        UserId::spec_from_header(Some(who.id@)) == Some(who.id@),
        forall|f: Seq<char>|
            carries_user(#[trigger] service.spec_presigned_upload_url_request(f, who.id@), who.id@),
        forall|k: Seq<char>|
            carries_user(#[trigger] service.spec_presigned_get_url_request(k, who.id@), who.id@),
        forall|t: crate::dto::FileType, f: Seq<char>|
            carries_user(#[trigger] service.spec_remove_file_request(t, f, who.id@), who.id@),
        carries_user(plain_request(Method::Get, service.base() + "/files"@, who.id@), who.id@),
        forall|f: Seq<char>|
            carries_user(
                #[trigger] plain_request(Method::Get, service.base() + "/files/"@ + f, who.id@),
                who.id@,
            ),
        forall|u: Seq<char>, f: Seq<char>|
            carries_user(#[trigger] service.spec_share_request(who.id@, u, f), who.id@),
        forall|u: Seq<char>, f: Seq<char>|
            carries_user(#[trigger] service.spec_unshare_request(who.id@, u, f), who.id@),
        forall|ids: Seq<Seq<char>>|
            carries_user(#[trigger] service.spec_generate_request(ids, who.id@), who.id@),
{
    let h = ("X-User-Id"@, who.id@);
    assert(identity_headers(who.id@, who.email@, who.name@)[0] == h);
    assert forall|f: Seq<char>|
        carries_user(#[trigger] service.spec_presigned_upload_url_request(f, who.id@), who.id@) by {
        assert(service.spec_presigned_upload_url_request(f, who.id@).headers[0] == h);
    }
    assert forall|k: Seq<char>|
        carries_user(#[trigger] service.spec_presigned_get_url_request(k, who.id@), who.id@) by {
        assert(service.spec_presigned_get_url_request(k, who.id@).headers[0] == h);
    }
    assert forall|t: crate::dto::FileType, f: Seq<char>|
        carries_user(#[trigger] service.spec_remove_file_request(t, f, who.id@), who.id@) by {
        assert(service.spec_remove_file_request(t, f, who.id@).headers[0] == h);
    }
    assert(plain_request(Method::Get, service.base() + "/files"@, who.id@).headers[0] == h);
    assert forall|f: Seq<char>|
        carries_user(
            #[trigger] plain_request(Method::Get, service.base() + "/files/"@ + f, who.id@),
            who.id@,
        ) by {
        assert(plain_request(Method::Get, service.base() + "/files/"@ + f, who.id@).headers[0] == h);
    }
    assert forall|u: Seq<char>, f: Seq<char>|
        carries_user(#[trigger] service.spec_share_request(who.id@, u, f), who.id@) by {
        assert(service.spec_share_request(who.id@, u, f).headers[0] == h);
    }
    assert forall|u: Seq<char>, f: Seq<char>|
        carries_user(#[trigger] service.spec_unshare_request(who.id@, u, f), who.id@) by {
        assert(service.spec_unshare_request(who.id@, u, f).headers[0] == h);
    }
    assert forall|ids: Seq<Seq<char>>|
        carries_user(#[trigger] service.spec_generate_request(ids, who.id@), who.id@) by {
        assert(service.spec_generate_request(ids, who.id@).headers[0] == h);
    }
}

} // verus!
