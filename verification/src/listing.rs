//! What the handlers that read records decide before a store is asked:
//! the window of a listing, the bytes of its search keyword, and the
//! identifier in a path.

use base64::Engine;
use vstd::prelude::*;

use crate::customer::ListCustomersRequest;
use crate::errors::{AppError, AppErrorView};
use crate::product::ListProductsRequest;
use crate::text::{decimal_i64, number_or, optional_str, parse_i64};

verus! {

/// The page that is listed where the request names none.
pub const DEFAULT_PAGE: u64 = 0;

/// The number of records on a page where the request names none.
pub const DEFAULT_PAGE_SIZE: u64 = 20;

/// The text that turns down a path without a customer's identifier.
pub const NO_CUSTOMER_ID: &'static str = "There is no customer id in the query string";

/// The text that turns down a path without a product's identifier.
pub const NO_PRODUCT_ID: &'static str = "There is no product id in the query string";

/// The bytes that a text stands for in standard base64 with padding, as
/// the `STANDARD` engine of base64 decodes it: `None` for what is no such
/// text.
pub uninterp spec fn base64_standard(text: Seq<char>) -> Option<Seq<u8>>;

/// `Engine::decode` of base64 on the `STANDARD` engine. Claimed: the
/// outcome is a function of the text, and a failure becomes `None`.
#[verifier::external_body]
fn base64_decode(text: &str) -> (bytes: Option<Vec<u8>>)
    ensures
        optional_bytes(bytes) == base64_standard(text@),
{
    base64::engine::general_purpose::STANDARD.decode(text).ok()
}

/// The view of optional bytes.
pub open spec fn optional_bytes(bytes: Option<Vec<u8>>) -> Option<Seq<u8>> {
    match bytes {
        Some(b) => Some(b@),
        None => None,
    }
}

/// The part of a table that a listing reads: `limit` records from the
/// record at `offset` on.
#[derive(Debug, Clone, Copy, PartialEq, Eq, Structural)]
pub struct Window {
    pub offset: u64,
    pub limit: u64,
}

/// The window of page `page`, counted from zero, with `page_size` records
/// on a page: `None` where the offset is beyond what a `u64` holds.
pub open spec fn window_of(page: Option<u64>, page_size: Option<u64>) -> Option<Window> {
    let page = match page {
        Some(p) => p,
        None => DEFAULT_PAGE,
    };
    let limit = match page_size {
        Some(s) => s,
        None => DEFAULT_PAGE_SIZE,
    };
    if page * limit <= u64::MAX {
        Some(Window { offset: (page * limit) as u64, limit })
    } else {
        None
    }
}

/// The bytes of a search keyword: none for a request without keyword, and
/// a refusal where the keyword is no base64.
pub open spec fn decoded_keyword(keyword: Option<Seq<char>>) -> Result<
    Option<Seq<u8>>,
    AppErrorView,
> {
    match keyword {
        None => Ok(None),
        Some(text) => match base64_standard(text) {
            Some(bytes) => Ok(Some(bytes)),
            None => Err(AppErrorView::DecodeSearchParameterFailed),
        },
    }
}

/// The identifier in a path: a refusal with the text `missing` where the
/// path has none or it is no `i64`.
pub open spec fn identifier_in_path(id: Option<Seq<char>>, missing: Seq<char>) -> Result<
    i64,
    AppErrorView,
> {
    match id {
        Some(text) => match decimal_i64(text) {
            Some(value) => Ok(value),
            None => Err(AppErrorView::BadArguments(missing)),
        },
        None => Err(AppErrorView::BadArguments(missing)),
    }
}

/// The view of a result whose error is an `AppError`.
pub open spec fn id_result(r: Result<i64, AppError>) -> Result<i64, AppErrorView> {
    match r {
        Ok(value) => Ok(value),
        Err(e) => Err(e@),
    }
}

/// The view of the bytes of a keyword, or of the refusal.
pub open spec fn keyword_result(r: Result<Option<Vec<u8>>, AppError>) -> Result<
    Option<Seq<u8>>,
    AppErrorView,
> {
    match r {
        Ok(bytes) => Ok(optional_bytes(bytes)),
        Err(e) => Err(e@),
    }
}

/// Computes the window of a listing.
pub fn page_window(page: Option<u64>, page_size: Option<u64>) -> (r: Option<Window>)
    ensures
        r == window_of(page, page_size),
{
    let page = match page {
        Some(p) => p,
        None => DEFAULT_PAGE,
    };
    let limit = match page_size {
        Some(s) => s,
        None => DEFAULT_PAGE_SIZE,
    };
    match page.checked_mul(limit) {
        Some(offset) => Some(Window { offset, limit }),
        None => None,
    }
}

/// Decides on the outcome of the decoding of a keyword.
pub fn keyword_bytes(decoded: Option<Vec<u8>>) -> (r: Result<Option<Vec<u8>>, AppError>)
    ensures
        match r {
            Ok(bytes) => decoded is Some && bytes == decoded,
            Err(e) => decoded is None && e@ == AppErrorView::DecodeSearchParameterFailed,
        },
{
    match decoded {
        Some(bytes) => Ok(Some(bytes)),
        None => Err(AppError::DecodeSearchParameterFailed),
    }
}

/// Decodes the search keyword of a listing into the bytes of its search
/// parameters.
pub fn decode_keyword(keyword: Option<&str>) -> (r: Result<Option<Vec<u8>>, AppError>)
    ensures
        keyword_result(r) == decoded_keyword(optional_str(keyword)),
{
    match keyword {
        None => Ok(None),
        Some(text) => keyword_bytes(base64_decode(text)),
    }
}

/// Reads the identifier from a path parameter.
pub fn path_identifier(id: Option<&str>, missing: &str) -> (r: Result<i64, AppError>)
    ensures
        id_result(r) == identifier_in_path(optional_str(id), missing@),
{
    let parsed = match id {
        Some(text) => parse_i64(text),
        None => None,
    };
    match number_or(parsed, missing) {
        Ok(value) => Ok(value),
        Err(message) => Err(AppError::BadArguments(message)),
    }
}

impl ListCustomersRequest {
    /// The window that the request asks for.
    pub fn window(&self) -> (r: Option<Window>)
        ensures
            r == window_of(self.page, self.page_size),
    {
        page_window(self.page, self.page_size)
    }
}

impl ListProductsRequest {
    /// The window that the request asks for.
    pub fn window(&self) -> (r: Option<Window>)
        ensures
            r == window_of(self.page, self.page_size),
    {
        page_window(self.page, self.page_size)
    }
}

} // verus!
