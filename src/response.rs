//! Pagination and the JSON envelopes that handlers reply with.

use crate::models::{store_error_message, StoreError, Users};
use crate::token::{create_jwt_at, expiry_in_range, issued_claims, signed_token, TokenError};
use vstd::prelude::*;

verus! {

pub const STATUS_OK: u16 = 200;

pub const STATUS_UNAUTHORIZED: u16 = 401;

pub const STATUS_NOT_FOUND: u16 = 404;

pub const STATUS_INTERNAL_SERVER_ERROR: u16 = 500;

/// Page used when a listing names none.
pub const DEFAULT_PAGE: i64 = 1;

/// Page size used when a listing names none.
pub const DEFAULT_LIMIT: i64 = 10;

/// The envelope of a reply: the status mirrored in the body, a message and a
/// payload.
#[derive(Debug)]
pub struct ResponseBody<T = Option<()>> {
    pub status: u16,
    pub message: String,
    pub data: T,
}

/// The envelope of a listing, with its pagination facts.
#[derive(Debug)]
pub struct ResponseBodyWithPagination<T = Option<()>> {
    pub status: u16,
    pub message: String,
    pub meta: Meta,
    pub data: T,
}

/// Pagination facts of a listing.
#[derive(Debug, Default, Clone, Copy, PartialEq, Eq, Structural)]
pub struct Meta {
    pub total_data: i64,
    pub per_page: i64,
    pub page: i64,
}

/// Which page of a listing is asked for: 1-based page and page size.
#[derive(Debug, Clone, Copy, PartialEq, Eq, Structural)]
pub struct RequestPaginationParam {
    pub page: i64,
    pub limit: i64,
}

/// A reply and its HTTP status: 200, 201, 400, 401, 404 or 500.
#[derive(Debug)]
pub enum NetworkResponse<S, F = ResponseBody> {
    Success(S),
    Created(S),
    BadRequest(ResponseBody),
    Unauthorized(ResponseBody),
    NotFound(F),
    InternalServerError(ResponseBody),
}

/// Whether `b` has status `status`, message `message` and payload `data`.
pub open spec fn body_is<T>(b: ResponseBody<T>, status: u16, message: Seq<char>, data: T) -> bool {
    b.status == status && b.message@ == message && b.data == data
}

/// The pagination of a listing: the one asked for, or page 1 of 10.
pub fn pagination_or_default(params: Option<RequestPaginationParam>) -> (r: RequestPaginationParam)
    ensures
        r == match params {
            Some(p) => p,
            None => RequestPaginationParam { page: DEFAULT_PAGE, limit: DEFAULT_LIMIT },
        },
{
    match params {
        Some(p) => p,
        None => RequestPaginationParam { page: DEFAULT_PAGE, limit: DEFAULT_LIMIT },
    }
}

/// The offset of the first row of a page: `(page - 1) * limit`.
pub open spec fn offset_of(page: int, limit: int) -> int {
    (page - 1) * limit
}

/// The row offset of `page` with pages of `limit` rows, where it fits in an
/// `i64`.
pub fn page_offset(page: i64, limit: i64) -> (r: Option<i64>)
    ensures
        r == (if i64::MIN <= offset_of(page as int, limit as int) <= i64::MAX {
            Some(offset_of(page as int, limit as int) as i64)
        } else {
            None::<i64>
        }),
{
    let p = page as i128 - 1;
    let l = limit as i128;
    assert(-0x8000_0000_0000_0001 <= p < 0x8000_0000_0000_0000);
    assert(-0x8000_0000_0000_0001 * 0x8000_0000_0000_0000 <= p * l <= 0x8000_0000_0000_0001
        * 0x8000_0000_0000_0000) by (nonlinear_arith)
        requires
            -0x8000_0000_0000_0001 <= p < 0x8000_0000_0000_0000,
            -0x8000_0000_0000_0000 <= l < 0x8000_0000_0000_0000,
    ;
    let off = p * l;
    if i64::MIN as i128 <= off && off <= i64::MAX as i128 {
        Some(off as i64)
    } else {
        None
    }
}

/// The row offset of a listing, or the store error that a page whose offset
/// does not fit in an `i64` gives.
pub fn listing_offset(page: i64, limit: i64) -> (r: Result<i64, StoreError>)
    ensures
        i64::MIN <= offset_of(page as int, limit as int) <= i64::MAX ==> r == Ok::<
            i64,
            StoreError,
        >(offset_of(page as int, limit as int) as i64),
        !(i64::MIN <= offset_of(page as int, limit as int) <= i64::MAX) ==> (r matches Err(
            StoreError::Database(m),
        ) && m@ == "page offset out of range"@),
{
    match page_offset(page, limit) {
        Some(offset) => Ok(offset),
        None => Err(StoreError::Database(String::from_str("page offset out of range"))),
    }
}

/// The total row count of a listing; a failed count counts as zero.
pub fn count_or_zero(count: Result<i64, StoreError>) -> (r: i64)
    ensures
        r == match count {
            Ok(n) => n,
            Err(_) => 0,
        },
{
    match count {
        Ok(n) => n,
        Err(_) => 0,
    }
}

/// The outcome of a delete statement: `true` whenever it ran, whether or not
/// a row matched, and `false` when it failed, the failure's detail dropped.
pub fn delete_outcome(executed: Result<usize, StoreError>) -> (r: Result<bool, StoreError>)
    ensures
        r == Ok::<bool, StoreError>(executed is Ok),
{
    match executed {
        Ok(_) => Ok(true),
        Err(_) => Ok(false),
    }
}

/// The reply of the guard when it rejects a request.
pub fn unauthorized_reply<S, F>(message: String) -> (r: NetworkResponse<S, F>)
    ensures
        r matches NetworkResponse::Unauthorized(b) && body_is(b, STATUS_UNAUTHORIZED, message@, None),
{
    NetworkResponse::Unauthorized(ResponseBody { status: STATUS_UNAUTHORIZED, message, data: None })
}

fn internal_error_reply<S, F>(e: StoreError) -> (r: NetworkResponse<S, F>)
    ensures
        r matches NetworkResponse::InternalServerError(b) && body_is(
            b,
            STATUS_INTERNAL_SERVER_ERROR,
            store_error_message(e),
            None,
        ),
{
    NetworkResponse::InternalServerError(
        ResponseBody { status: STATUS_INTERNAL_SERVER_ERROR, message: e.message(), data: None },
    )
}

/// The reply to a listing of `params` that gave `listing`, with `total` rows
/// in the whole table: a 200 reply with the rows and their pagination facts.
pub fn list_reply(
    params: RequestPaginationParam,
    listing: Result<Vec<Users>, StoreError>,
    total: i64,
) -> (r: NetworkResponse<ResponseBodyWithPagination<Vec<Users>>>)
    ensures
        match listing {
            Ok(rows) => r matches NetworkResponse::Success(b) && b.status == STATUS_OK
                && b.message@ == "get users"@ && b.data == rows && b.meta == (Meta {
                total_data: total,
                per_page: params.limit,
                page: params.page,
            }),
            Err(e) => r matches NetworkResponse::InternalServerError(b) && body_is(
                b,
                STATUS_INTERNAL_SERVER_ERROR,
                store_error_message(e),
                None,
            ),
        },
{
    match listing {
        Ok(rows) => {
            let meta = Meta { total_data: total, per_page: params.limit, page: params.page };
            NetworkResponse::Success(
                ResponseBodyWithPagination {
                    status: STATUS_OK,
                    message: String::from_str("get users"),
                    meta,
                    data: rows,
                },
            )
        },
        Err(e) => internal_error_reply(e),
    }
}

/// The reply to a store write that gave `written`, with `message` on success.
fn write_reply(written: Result<Users, StoreError>, message: &str) -> (r: NetworkResponse<
    ResponseBody<Users>,
>)
    ensures
        match written {
            Ok(u) => r matches NetworkResponse::Created(b) && body_is(b, STATUS_OK, message@, u),
            Err(e) => r matches NetworkResponse::InternalServerError(b) && body_is(
                b,
                STATUS_INTERNAL_SERVER_ERROR,
                store_error_message(e),
                None,
            ),
        },
{
    match written {
        Ok(u) => NetworkResponse::Created(
            ResponseBody { status: STATUS_OK, message: String::from_str(message), data: u },
        ),
        Err(e) => internal_error_reply(e),
    }
}

/// The reply to a creation that gave `created`.
pub fn create_reply(created: Result<Users, StoreError>) -> (r: NetworkResponse<
    ResponseBody<Users>,
>)
    ensures
        match created {
            Ok(u) => r matches NetworkResponse::Created(b) && body_is(
                b,
                STATUS_OK,
                "create user successfuly"@,
                u,
            ),
            Err(e) => r matches NetworkResponse::InternalServerError(b) && body_is(
                b,
                STATUS_INTERNAL_SERVER_ERROR,
                store_error_message(e),
                None,
            ),
        },
{
    write_reply(created, "create user successfuly")
}

/// The reply to an update that gave `updated`; an update of a missing row is
/// an error of the store, never a new row.
pub fn update_reply(updated: Result<Users, StoreError>) -> (r: NetworkResponse<
    ResponseBody<Users>,
>)
    ensures
        match updated {
            Ok(u) => r matches NetworkResponse::Created(b) && body_is(
                b,
                STATUS_OK,
                "update user successfully"@,
                u,
            ),
            Err(e) => r matches NetworkResponse::InternalServerError(b) && body_is(
                b,
                STATUS_INTERNAL_SERVER_ERROR,
                store_error_message(e),
                None,
            ),
        },
{
    write_reply(updated, "update user successfully")
}

/// The reply to a delete whose outcome is `deleted`: `true` is a success,
/// `false` a not-found reply.
pub fn delete_reply(deleted: Result<bool, StoreError>) -> (r: NetworkResponse<
    ResponseBody<bool>,
    ResponseBody<bool>,
>)
    ensures
        match deleted {
            Ok(true) => r matches NetworkResponse::Created(b) && body_is(
                b,
                STATUS_OK,
                "delete user successfully"@,
                true,
            ),
            Ok(false) => r matches NetworkResponse::NotFound(b) && body_is(
                b,
                STATUS_NOT_FOUND,
                "not found"@,
                false,
            ),
            Err(e) => r matches NetworkResponse::InternalServerError(b) && body_is(
                b,
                STATUS_INTERNAL_SERVER_ERROR,
                store_error_message(e),
                None,
            ),
        },
{
    match deleted {
        Ok(true) => NetworkResponse::Created(
            ResponseBody {
                status: STATUS_OK,
                message: String::from_str("delete user successfully"),
                data: true,
            },
        ),
        Ok(false) => NetworkResponse::NotFound(
            ResponseBody {
                status: STATUS_NOT_FOUND,
                message: String::from_str("not found"),
                data: false,
            },
        ),
        Err(e) => internal_error_reply(e),
    }
}

/// The reply to a login whose lookup gave `found`, at time `now`: a token for
/// the user signed with `secret`, a not-found reply, or a store failure.
pub fn login_reply(found: Result<Users, StoreError>, secret: &[u8], now: i64) -> (r: NetworkResponse<
    ResponseBody<String>,
>)
    ensures
        match found {
            Ok(u) => if !expiry_in_range(now) {
                r matches NetworkResponse::InternalServerError(b) && body_is(
                    b,
                    STATUS_INTERNAL_SERVER_ERROR,
                    "Invalid timestamp"@,
                    None,
                )
            } else {
                r matches NetworkResponse::Created(b) && b.status == STATUS_OK && b.message@
                    == "Login user successfuly"@ && b.data@ == signed_token(
                    u.id,
                    issued_claims(u.id, now).exp,
                    secret@,
                )
            },
            Err(StoreError::NotFound(m)) => r matches NetworkResponse::NotFound(b) && body_is(
                b,
                STATUS_NOT_FOUND,
                m@,
                None,
            ),
            Err(StoreError::Database(m)) => r matches NetworkResponse::InternalServerError(b)
                && body_is(b, STATUS_INTERNAL_SERVER_ERROR, m@, None),
        },
{
    match found {
        Ok(u) => match create_jwt_at(u.id, now, secret) {
            Ok(token) => NetworkResponse::Created(
                ResponseBody {
                    status: STATUS_OK,
                    message: String::from_str("Login user successfuly"),
                    data: token,
                },
            ),
            Err(TokenError::Signing(m)) => NetworkResponse::InternalServerError(
                ResponseBody { status: STATUS_INTERNAL_SERVER_ERROR, message: m, data: None },
            ),
            Err(_) => NetworkResponse::InternalServerError(
                ResponseBody {
                    status: STATUS_INTERNAL_SERVER_ERROR,
                    message: String::from_str("Invalid timestamp"),
                    data: None,
                },
            ),
        },
        Err(StoreError::NotFound(m)) => NetworkResponse::NotFound(
            ResponseBody { status: STATUS_NOT_FOUND, message: m, data: None },
        ),
        Err(StoreError::Database(m)) => NetworkResponse::InternalServerError(
            ResponseBody { status: STATUS_INTERNAL_SERVER_ERROR, message: m, data: None },
        ),
    }
}

} // verus!
