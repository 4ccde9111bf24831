//! What the server answers. The page is at the root path; every other path
//! names a file of the static directory. Looking a file up is the work of
//! the caller; what is answered for each outcome is decided here.

use crate::content::{shelf_catalog, shelves, site_catalog, sites};
use crate::render::{page_markup, render_page};
use vstd::prelude::*;
use vstd::string::*;
use vstd::utf8::encode_utf8;

verus! {

/// The status of an answer that carries what was asked for.
pub const OK: u16 = 200;

/// The status of an answer to a path that names no file.
pub const NOT_FOUND: u16 = 404;

/// The status of an answer to a method that the server does not serve.
pub const METHOD_NOT_ALLOWED: u16 = 405;

/// The status of an answer to a request whose file could not be read.
pub const INTERNAL_SERVER_ERROR: u16 = 500;

/// The content type of the page.
pub const HTML: &'static str = "text/html; charset=utf-8";

/// The method of a request, as far as the server tells methods apart.
#[derive(Debug, Clone, Copy, PartialEq, Eq)]
pub enum Method {
    Get,
    Head,
    Other,
}

/// What a request asks for.
#[derive(Debug, Clone, Copy, PartialEq, Eq)]
pub enum Route {
    /// The rendered page.
    Page,
    /// A file of the static directory.
    Asset,
    /// Nothing that the server offers under that method.
    NotAllowed,
}

/// How the search for a file in the static directory ended.
#[derive(Debug, Clone, PartialEq, Eq)]
pub enum AssetLookup {
    /// The file exists. Its content type is inferred from its extension.
    Found { content_type: Option<String>, content: Vec<u8> },
    /// No file has that path.
    Missing,
    /// The file could not be read, for another reason than that it does not
    /// exist.
    Failed,
}

/// An answer to a request.
#[derive(Debug, Clone, PartialEq, Eq)]
pub struct Response {
    pub status: u16,
    pub content_type: Option<String>,
    pub body: Vec<u8>,
}

/// What the server does with a request.
#[derive(Debug, Clone, PartialEq, Eq)]
pub enum Action {
    /// Answer at once.
    Reply(Response),
    /// Look the path up in the static directory, and answer what
    /// `asset_response` says of the outcome.
    LookUp,
}

/// What a request with the given method and path asks for: the page at
/// exactly `/`, a file at every other path.
pub open spec fn route_of(method: Method, path: Seq<char>) -> Route {
    if method == Method::Other {
        Route::NotAllowed
    } else if path == seq!['/'] {
        Route::Page
    } else {
        Route::Asset
    }
}

/// `response` carries the page that shows the site's content.
pub open spec fn is_page_response(response: Response) -> bool {
    &&& response.status == OK
    &&& response.content_type matches Some(content_type) && content_type@ == HTML@
    &&& response.body@ == encode_utf8(page_markup(shelf_catalog(), site_catalog()))
}

/// `response` has the given status and carries nothing.
pub open spec fn is_empty_response(response: Response, status: u16) -> bool {
    &&& response.status == status
    &&& response.content_type is None
    &&& response.body@.len() == 0
}

/// The answer to each outcome of a search in the static directory.
pub open spec fn answers_lookup(lookup: AssetLookup, response: Response) -> bool {
    match lookup {
        AssetLookup::Found { content_type, content } => response == (Response {
            status: OK,
            content_type,
            body: content,
        }),
        AssetLookup::Missing => is_empty_response(response, NOT_FOUND),
        AssetLookup::Failed => is_empty_response(response, INTERNAL_SERVER_ERROR),
    }
}

/// Dispatches a request by its method and path.
pub fn route(method: Method, path: &str) -> (found: Route)
    ensures
        found == route_of(method, path@),
{
    match method {
        Method::Other => Route::NotAllowed,
        _ => {
            if path.unicode_len() == 1 && path.get_char(0) == '/' {
                assert(path@ =~= seq!['/']);
                Route::Page
            } else {
                Route::Asset
            }
        },
    }
}

/// An answer with a status and nothing else.
fn empty_response(status: u16) -> (response: Response)
    ensures
        is_empty_response(response, status),
{
    Response { status, content_type: None, body: Vec::new() }
}

/// Answers a request for the root path: the page that shows the site's
/// content, as HTML.
pub fn root() -> (response: Response)
    ensures
        is_page_response(response),
{
    let shelves = shelves();
    let sites = sites();
    let page = render_page(shelves.as_slice(), sites.as_slice());
    Response {
        status: OK,
        content_type: Some(String::from_str(HTML)),
        body: page.as_str().as_bytes_vec(),
    }
}

/// Answers a request for a file, by the outcome of the search for it: the
/// file's bytes as they are where it was found, and an empty answer that
/// says so where it is missing or could not be read.
pub fn asset_response(lookup: AssetLookup) -> (response: Response)
    ensures
        answers_lookup(lookup, response),
{
    match lookup {
        AssetLookup::Found { content_type, content } => Response {
            status: OK,
            content_type,
            body: content,
        },
        AssetLookup::Missing => empty_response(NOT_FOUND),
        AssetLookup::Failed => empty_response(INTERNAL_SERVER_ERROR),
    }
}

/// Decides what to do with a request: answer with the page, refuse the
/// method, or look a file up.
pub fn handle(method: Method, path: &str) -> (action: Action)
    ensures
        match route_of(method, path@) {
            Route::Page => action matches Action::Reply(response) && is_page_response(response),
            Route::NotAllowed => action matches Action::Reply(response) && is_empty_response(
                response,
                METHOD_NOT_ALLOWED,
            ),
            Route::Asset => action == Action::LookUp,
        },
{
    match route(method, path) {
        Route::Page => Action::Reply(root()),
        Route::NotAllowed => Action::Reply(empty_response(METHOD_NOT_ALLOWED)),
        Route::Asset => Action::LookUp,
    }
}

} // verus!
