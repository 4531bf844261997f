//! The identity service as the gateway sees it: how each RPC reply, or each
//! RPC failure, becomes the gateway's response.
use vstd::prelude::*;
use crate::envelope::{
    ApiResponse, STATUS_BAD_REQUEST, STATUS_INTERNAL_ERROR, STATUS_NOT_FOUND, STATUS_UNAUTHORIZED,
};

verus! {

/// The kinds of RPC failure that the gateway tells apart.
#[derive(PartialEq, Eq, Structural, Clone, Copy, Debug)]
pub enum RpcCode {
    InvalidArgument,
    Unauthenticated,
    NotFound,
    Unavailable,
    Internal,
    Other,
}

/// A failed RPC call: its kind and the service's message.
pub struct RpcError {
    pub code: RpcCode,
    pub message: String,
}

/// The status the gateway answers with for each kind of RPC failure.
pub open spec fn rpc_status(code: RpcCode) -> u16 {
    match code {
        RpcCode::InvalidArgument => STATUS_BAD_REQUEST,
        RpcCode::Unauthenticated => STATUS_UNAUTHORIZED,
        RpcCode::NotFound => STATUS_NOT_FOUND,
        _ => STATUS_INTERNAL_ERROR,
    }
}

pub open spec fn unavailable_message() -> Seq<char> {
    "Identity service unavailable"@
}

/// The message the gateway answers with: the service's own, but where the
/// service could not be reached at all.
pub open spec fn rpc_message(e: RpcError) -> Seq<char> {
    if e.code == RpcCode::Unavailable {
        unavailable_message()
    } else {
        e.message@
    }
}

/// `res` is the gateway's answer to the RPC outcome `r`.
pub open spec fn answers<T>(r: Result<T, RpcError>, res: ApiResponse<T>) -> bool {
    match r {
        Ok(d) => res == ApiResponse::Success(d),
        Err(e) => res.is_error(rpc_status(e.code), rpc_message(e)),
    }
}

pub fn rpc_status_of(code: RpcCode) -> (r: u16)
    ensures
        r == rpc_status(code),
{
    match code {
        RpcCode::InvalidArgument => STATUS_BAD_REQUEST,
        RpcCode::Unauthenticated => STATUS_UNAUTHORIZED,
        RpcCode::NotFound => STATUS_NOT_FOUND,
        _ => STATUS_INTERNAL_ERROR,
    }
}

/// The gateway's answer to the outcome of any call to the identity service
/// (login, token validation, the user list, the login URL): the reply as a
/// success, or the failure under its status and message.
pub fn from_rpc<T>(r: Result<T, RpcError>) -> (res: ApiResponse<T>)
    ensures
        answers(r, res),
{
    match r {
        Ok(d) => ApiResponse::ok(d),
        Err(e) => {
            let status = rpc_status_of(e.code);
            if e.code == RpcCode::Unavailable {
                ApiResponse::error(status, "Identity service unavailable")
            } else {
                ApiResponse::error(status, e.message.as_str())
            }
        },
    }
}

} // verus!
