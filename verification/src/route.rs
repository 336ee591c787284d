//! Routing: from method and path to the one handler that answers.

use vstd::prelude::*;
use vstd::slice::slice_to_vec;
use crate::method::HttpMethod;
use crate::scan::{has_prefix, same_bytes, starts_with};
use crate::syntax;

verus! {

/// The handler that a request goes to, with what the path gave it.
#[derive(Clone, Debug, PartialEq, Eq)]
pub enum Route {
    /// The file handler, for the file called `name`.
    File { method: HttpMethod, name: Vec<u8> },
    /// The echo handler, which sends `text` back.
    Echo { text: Vec<u8> },
    /// The handler that sends the client's `User-Agent` header back.
    UserAgent,
    /// The handler of the root path.
    Root,
    /// The handler of every other path.
    NotFound,
}

/// A route as plain values.
pub enum RouteView {
    File { method: HttpMethod, name: Seq<u8> },
    Echo { text: Seq<u8> },
    UserAgent,
    Root,
    NotFound,
}

impl View for Route {
    type V = RouteView;

    open spec fn view(&self) -> RouteView {
        match self {
            Route::File { method, name } => RouteView::File { method: *method, name: name@ },
            Route::Echo { text } => RouteView::Echo { text: text@ },
            Route::UserAgent => RouteView::UserAgent,
            Route::Root => RouteView::Root,
            Route::NotFound => RouteView::NotFound,
        }
    }
}

/// The route of a request. The rules are tried in this order and the first
/// that fits decides, so a request has exactly one route:
///
/// 1. a path that begins with `/files/` names a file, by what follows;
/// 2. a path that begins with `/echo/` asks for what follows;
/// 3. the path `/user-agent`;
/// 4. the path `/`;
/// 5. any other path is not found.
///
/// The path is matched as it was sent: byte for byte, nothing decoded.
pub open spec fn route_of(method: HttpMethod, path: Seq<u8>) -> RouteView {
    if has_prefix(path, syntax::FILES_PREFIX@) {
        RouteView::File { method, name: path.skip(syntax::FILES_PREFIX@.len() as int) }
    } else if has_prefix(path, syntax::ECHO_PREFIX@) {
        RouteView::Echo { text: path.skip(syntax::ECHO_PREFIX@.len() as int) }
    } else if path == syntax::USER_AGENT_PATH@ {
        RouteView::UserAgent
    } else if path == syntax::ROOT_PATH@ {
        RouteView::Root
    } else {
        RouteView::NotFound
    }
}

/// Picks the route of a request.
pub fn route(method: HttpMethod, path: &[u8]) -> (chosen: Route)
    ensures
        chosen@ == route_of(method, path@),
{
    let end: usize = path.len();
    if starts_with(path, &syntax::FILES_PREFIX) {
        Route::File { method, name: slice_to_vec(&path[syntax::FILES_PREFIX.len()..end]) }
    } else if starts_with(path, &syntax::ECHO_PREFIX) {
        Route::Echo { text: slice_to_vec(&path[syntax::ECHO_PREFIX.len()..end]) }
    } else if same_bytes(path, &syntax::USER_AGENT_PATH) {
        Route::UserAgent
    } else if same_bytes(path, &syntax::ROOT_PATH) {
        Route::Root
    } else {
        Route::NotFound
    }
}

} // verus!
