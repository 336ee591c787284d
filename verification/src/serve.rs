//! The handlers: what the server does for a request, and what it answers.
//!
//! Nothing here touches a file. Where a request needs one, the answer to
//! "what now?" is an action that names the file, and the response is made
//! from what the file operation gave.

use vstd::prelude::*;
use crate::header::{find_value, first_value, HeaderView};
use crate::method::HttpMethod;
use crate::request::{parse_request, request_of, Request, RequestView};
use crate::response::{Response, ResponseView, Status};
use crate::route::{route, route_of, Route, RouteView};
use crate::store::{is_contained, path_under, stays_inside, ServerConfig};
use crate::syntax;

verus! {

/// What is to be done for a request.
#[derive(Clone, Debug, PartialEq, Eq)]
pub enum Action {
    /// Nothing more is needed: this is the response.
    Respond(Response),
    /// Read the file at `path`, and answer with what `answer_read` makes
    /// of the outcome.
    ReadFile { path: Vec<u8> },
    /// Write `contents` to the file at `path`, creating it or replacing
    /// what it held, and answer with what `answer_write` makes of the
    /// outcome.
    WriteFile { path: Vec<u8>, contents: Vec<u8> },
}

/// An action as plain values.
pub enum ActionView {
    Respond(ResponseView),
    ReadFile { path: Seq<u8> },
    WriteFile { path: Seq<u8>, contents: Seq<u8> },
}

impl View for Action {
    type V = ActionView;

    open spec fn view(&self) -> ActionView {
        match self {
            Action::Respond(response) => ActionView::Respond(response@),
            Action::ReadFile { path } => ActionView::ReadFile { path: path@ },
            Action::WriteFile { path, contents } => ActionView::WriteFile {
                path: path@,
                contents: contents@,
            },
        }
    }
}

/// What the file handler does for the file called `name`.
///
/// A name that does not stay inside the base directory is refused with
/// `403 Forbidden`, whatever the method. Otherwise `GET` reads the file
/// of that name under the base directory, and `POST` writes the body of
/// the request to it.
pub open spec fn file_action(
    base: Seq<u8>,
    method: HttpMethod,
    name: Seq<u8>,
    body: Seq<u8>,
) -> ActionView {
    if !stays_inside(name) {
        ActionView::Respond(ResponseView::bare(Status::Forbidden))
    } else {
        match method {
            HttpMethod::GET => ActionView::ReadFile { path: path_under(base, name) },
            HttpMethod::POST => ActionView::WriteFile {
                path: path_under(base, name),
                contents: body,
            },
        }
    }
}

/// The response of the echo handler: the text as it stood in the path, as
/// plain text.
pub open spec fn echo_response(text: Seq<u8>) -> ResponseView {
    ResponseView::with_content(Status::Success, syntax::TEXT_PLAIN@, text)
}

/// The response of the user-agent handler: the value of the first
/// `User-Agent` header as plain text, or `400 Bad Request` where the
/// request has no such header.
pub open spec fn user_agent_response(headers: Seq<HeaderView>) -> ResponseView {
    match first_value(headers, syntax::USER_AGENT@) {
        Some(value) => ResponseView::with_content(Status::Success, syntax::TEXT_PLAIN@, value),
        None => ResponseView::bare(Status::BadRequest),
    }
}

/// What is to be done for a request: the action of the one handler that
/// its route names.
pub open spec fn action_for(base: Seq<u8>, request: RequestView) -> ActionView {
    match route_of(request.method, request.path) {
        RouteView::File { method, name } => file_action(base, method, name, request.body),
        RouteView::Echo { text } => ActionView::Respond(echo_response(text)),
        RouteView::UserAgent => ActionView::Respond(user_agent_response(request.headers)),
        RouteView::Root => ActionView::Respond(ResponseView::bare(Status::Success)),
        RouteView::NotFound => ActionView::Respond(ResponseView::bare(Status::NotFound)),
    }
}

/// What is to be done for the bytes that a connection sent. Bytes that
/// do not parse as a request are answered with `400 Bad Request`,
/// whatever the reason.
pub open spec fn plan_for(base: Seq<u8>, buffer: Seq<u8>) -> ActionView {
    match request_of(buffer) {
        Ok(request) => action_for(base, request),
        Err(_) => ActionView::Respond(ResponseView::bare(Status::BadRequest)),
    }
}

/// The response to a `GET` of a file: the contents as a stream of
/// octets where the file was read, `404 Not Found` where it was not.
pub open spec fn read_response(contents: Option<Seq<u8>>) -> ResponseView {
    match contents {
        Some(bytes) => ResponseView::with_content(Status::Success, syntax::OCTET_STREAM@, bytes),
        None => ResponseView::bare(Status::NotFound),
    }
}

/// The response to a `POST` of a file: `201 Created` where the file was
/// written, `500 Internal Server Error` where it was not.
pub open spec fn write_response(stored: bool) -> ResponseView {
    if stored {
        ResponseView::bare(Status::Created)
    } else {
        ResponseView::bare(Status::InternalServerError)
    }
}

/// The whole answer to a request, given how the file operation that it
/// asked for went, if it asked for one: `contents` is what reading gave,
/// `stored` says whether writing succeeded.
pub open spec fn answer(action: ActionView, contents: Option<Seq<u8>>, stored: bool) -> ResponseView {
    match action {
        ActionView::Respond(response) => response,
        ActionView::ReadFile { .. } => read_response(contents),
        ActionView::WriteFile { .. } => write_response(stored),
    }
}

/// Decides what is to be done for a request.
pub fn dispatch(config: &ServerConfig, request: &Request) -> (action: Action)
    ensures
        action@ == action_for(config@, request@),
        action matches Action::Respond(response) ==> response@.well_formed(),
{
    match route(request.method(), request.path().as_slice()) {
        Route::File { method, name } => {
            if !is_contained(name.as_slice()) {
                Action::Respond(Response::bare(Status::Forbidden))
            } else {
                let path = config.resolve(name.as_slice());
                match method {
                    HttpMethod::GET => Action::ReadFile { path },
                    HttpMethod::POST => Action::WriteFile {
                        path,
                        contents: request.body().clone(),
                    },
                }
            }
        },
        Route::Echo { text } => Action::Respond(
            Response::with_content(Status::Success, &syntax::TEXT_PLAIN, text),
        ),
        Route::UserAgent => match find_value(request.headers(), &syntax::USER_AGENT) {
            Some(value) => Action::Respond(
                Response::with_content(Status::Success, &syntax::TEXT_PLAIN, value.clone()),
            ),
            None => Action::Respond(Response::bare(Status::BadRequest)),
        },
        Route::Root => Action::Respond(Response::bare(Status::Success)),
        Route::NotFound => Action::Respond(Response::bare(Status::NotFound)),
    }
}

/// Decides what is to be done for the bytes that a connection sent.
pub fn plan(config: &ServerConfig, buffer: &[u8]) -> (action: Action)
    ensures
        action@ == plan_for(config@, buffer@),
        action matches Action::Respond(response) ==> response@.well_formed(),
{
    match parse_request(buffer) {
        Ok(request) => dispatch(config, &request),
        Err(_) => Action::Respond(Response::bare(Status::BadRequest)),
    }
}

/// Makes the response to a `GET` of a file from what reading it gave:
/// `Some` with the contents, or `None` where the file is missing or
/// cannot be read.
pub fn answer_read(contents: Option<Vec<u8>>) -> (response: Response)
    ensures
        response@ == read_response(
            match contents {
                Some(bytes) => Some(bytes@),
                None => None,
            },
        ),
        response@.well_formed(),
{
    match contents {
        Some(bytes) => Response::with_content(Status::Success, &syntax::OCTET_STREAM, bytes),
        None => Response::bare(Status::NotFound),
    }
}

/// Makes the response to a `POST` of a file from whether writing it
/// succeeded.
pub fn answer_write(stored: bool) -> (response: Response)
    ensures
        response@ == write_response(stored),
        response@.well_formed(),
{
    if stored {
        Response::bare(Status::Created)
    } else {
        Response::bare(Status::InternalServerError)
    }
}

} // verus!
