//! What holds of the server as a whole, stated over the functions that
//! the contracts of the library speak of, and proved.

use vstd::prelude::*;
use vstd::utf8::{
    is_char_boundary, is_char_boundary_iff_not_is_continuation_byte, pop_first_scalar,
    valid_utf8, valid_utf8_concat, valid_utf8_split,
};
use crate::connection::{begin, run, send, sends, step_of, CommandView, EventView, Phase};
use crate::error::ErrorKind;
use crate::header::{first_value, HeaderView};
use crate::method::{method_of_token, token_of, HttpMethod};
use crate::request::{
    headers_of_block, request_of, sections_of, start_line_of, RequestView, StartLineView,
};
use crate::response::{
    decimal, decimal_value, lemma_decimal_value, lemma_with_content_well_formed, ResponseView,
    Status,
};
use crate::scan::{
    first_occurrence, has_prefix, lemma_first_occurrence, lemma_split_at_first_of_joined,
    occurs_at, split_at_first,
};
use crate::serve::{
    action_for, answer, echo_response, plan_for, read_response, write_response, ActionView,
};
use crate::store::{path_under, stays_inside};
use crate::syntax;

verus! {

/// The files of a store that keeps what it is given: what each path holds.
pub type Files = Map<Seq<u8>, Seq<u8>>;

/// What reading `path` from such a store gives.
pub open spec fn contents_at(files: Files, path: Seq<u8>) -> Option<Seq<u8>> {
    if files.contains_key(path) {
        Some(files[path])
    } else {
        None
    }
}

/// One request served on such a store: the files afterwards, and the
/// response. A read gives what the path holds, a write always succeeds
/// and replaces what the path held.
pub open spec fn serve_on(base: Seq<u8>, files: Files, request: RequestView) -> (Files, ResponseView) {
    match action_for(base, request) {
        ActionView::Respond(response) => (files, response),
        ActionView::ReadFile { path } => (files, read_response(contents_at(files, path))),
        ActionView::WriteFile { path, contents } => (
            files.insert(path, contents),
            write_response(true),
        ),
    }
}

/// The number of body bytes that a response declares, read from its
/// first `Content-Length` header.
pub open spec fn declared_length(response: ResponseView) -> Option<nat> {
    match first_value(response.headers, syntax::CONTENT_LENGTH@) {
        Some(digits) => Some(decimal_value(digits)),
        None => None,
    }
}

proof fn lemma_with_content_declares_length(status: Status, content_type: Seq<u8>, body: Seq<u8>)
    ensures
        declared_length(ResponseView::with_content(status, content_type, body)) == Some(
            body.len(),
        ),
{
    let headers = ResponseView::with_content(status, content_type, body).headers;
    let rest = headers.drop_first();
    assert(headers[0].name != syntax::CONTENT_LENGTH@);
    assert(first_value(headers, syntax::CONTENT_LENGTH@) == first_value(
        rest,
        syntax::CONTENT_LENGTH@,
    ));
    lemma_decimal_value(body.len());
}

/// A request for `/echo/<text>` is answered at once with status 200 and
/// with `text` as the body, byte for byte, whatever bytes the text holds,
/// and the response declares the number of bytes of `text` as its length.
pub proof fn law_echo_returns_the_text(base: Seq<u8>, request: RequestView, text: Seq<u8>)
    requires
        request.path == syntax::ECHO_PREFIX@ + text,
    ensures
        action_for(base, request) == ActionView::Respond(echo_response(text)),
        echo_response(text).status == Status::Success,
        echo_response(text).body == text,
        declared_length(echo_response(text)) == Some(text.len()),
{
    assert(request.path.subrange(0, 6) =~= syntax::ECHO_PREFIX@);
    assert(request.path.skip(6) =~= text);
    lemma_with_content_declares_length(Status::Success, syntax::TEXT_PLAIN@, text);
}

/// The bytes of a request put together from its parts: the start line
/// with one space between method, path and version, the header block,
/// a blank line, and the body.
pub open spec fn request_bytes(
    method: HttpMethod,
    path: Seq<u8>,
    version: Seq<u8>,
    block: Seq<u8>,
    body: Seq<u8>,
) -> Seq<u8> {
    (token_of(method) + syntax::SPACE@ + path + syntax::SPACE@ + version) + syntax::CRLF@ + (block
        + syntax::BLANK_LINE@ + body)
}

/// The parts can be told apart again: the path holds no space, path and
/// version hold no line terminator, and the header block holds no blank
/// line and does not end in a line terminator.
pub open spec fn parts_are_separable(path: Seq<u8>, version: Seq<u8>, block: Seq<u8>) -> bool {
    &&& forall|at: int| !occurs_at(path, syntax::SPACE@, at)
    &&& forall|at: int| !occurs_at(path, syntax::CRLF@, at)
    &&& forall|at: int| !occurs_at(version, syntax::CRLF@, at)
    &&& forall|at: int| !occurs_at(block, syntax::BLANK_LINE@, at)
    &&& !occurs_at(block, syntax::CRLF@, block.len() - 2)
}

proof fn lemma_occurrence_bytes(text: Seq<u8>, pattern: Seq<u8>, at: int)
    requires
        occurs_at(text, pattern, at),
    ensures
        forall|k: int| 0 <= k < pattern.len() ==> text[at + k] == #[trigger] pattern[k],
{
}

proof fn lemma_start_line_is_read(method: HttpMethod, path: Seq<u8>, version: Seq<u8>)
    requires
        forall|at: int| !occurs_at(path, syntax::SPACE@, at),
    ensures
        start_line_of(token_of(method) + syntax::SPACE@ + path + syntax::SPACE@ + version) == Ok::<
            StartLineView,
            ErrorKind,
        >(StartLineView { method, path, version }),
{
    let token = token_of(method);
    let space = syntax::SPACE@;
    let rest = path + space + version;
    let line = token + space + path + space + version;
    assert(line =~= token + space + rest);
    assert forall|at: int| 0 <= at < token.len() implies !occurs_at(
        token + space + rest,
        space,
        at,
    ) by {
        if occurs_at(token + space + rest, space, at) {
            lemma_occurrence_bytes(token + space + rest, space, at);
        }
    }
    lemma_split_at_first_of_joined(token, space, rest);
    assert forall|at: int| 0 <= at < path.len() implies !occurs_at(rest, space, at) by {
        if occurs_at(rest, space, at) {
            lemma_occurrence_bytes(rest, space, at);
            assert(path.subrange(at, at + 1) =~= space);
            assert(occurs_at(path, space, at));
        }
    }
    lemma_split_at_first_of_joined(path, space, version);
}

proof fn lemma_start_line_is_cut_off(line: Seq<u8>, rest: Seq<u8>)
    requires
        forall|at: int| !occurs_at(line, syntax::CRLF@, at),
    ensures
        split_at_first(line + syntax::CRLF@ + rest, syntax::CRLF@) == Some((line, rest)),
{
    let crlf = syntax::CRLF@;
    let buffer = line + crlf + rest;
    assert forall|at: int| 0 <= at < line.len() implies !occurs_at(buffer, crlf, at) by {
        if occurs_at(buffer, crlf, at) {
            lemma_occurrence_bytes(buffer, crlf, at);
            if at + 2 <= line.len() {
                assert(line.subrange(at, at + 2) =~= crlf);
                assert(occurs_at(line, crlf, at));
            }
        }
    }
    lemma_split_at_first_of_joined(line, crlf, rest);
}

proof fn lemma_header_block_is_cut_off(block: Seq<u8>, body: Seq<u8>)
    requires
        forall|at: int| !occurs_at(block, syntax::BLANK_LINE@, at),
        !occurs_at(block, syntax::CRLF@, block.len() - 2),
    ensures
        split_at_first(block + syntax::BLANK_LINE@ + body, syntax::BLANK_LINE@) == Some(
            (block, body),
        ),
{
    let crlf = syntax::CRLF@;
    let blank = syntax::BLANK_LINE@;
    let rest = block + blank + body;
    assert forall|at: int| 0 <= at < block.len() implies !occurs_at(rest, blank, at) by {
        if occurs_at(rest, blank, at) {
            lemma_occurrence_bytes(rest, blank, at);
            if at + 4 <= block.len() {
                assert(block.subrange(at, at + 4) =~= blank);
                assert(occurs_at(block, blank, at));
            } else if at + 2 == block.len() {
                assert(block.subrange(at, at + 2) =~= crlf);
            }
        }
    }
    lemma_split_at_first_of_joined(block, blank, body);
}

/// A request put together from separable parts is read back as those
/// parts, provided that the bytes are UTF-8 as a whole.
pub proof fn law_request_is_read_back(
    method: HttpMethod,
    path: Seq<u8>,
    version: Seq<u8>,
    block: Seq<u8>,
    body: Seq<u8>,
)
    requires
        parts_are_separable(path, version, block),
        valid_utf8(request_bytes(method, path, version, block, body)),
    ensures
        request_of(request_bytes(method, path, version, block, body)) == Ok::<
            RequestView,
            ErrorKind,
        >(RequestView { method, path, version, headers: headers_of_block(block), body }),
{
    let token = token_of(method);
    let space = syntax::SPACE@;
    let crlf = syntax::CRLF@;
    let line = token + space + path + space + version;
    assert forall|at: int| !occurs_at(line, crlf, at) by {
        if occurs_at(line, crlf, at) {
            lemma_occurrence_bytes(line, crlf, at);
            let path_start = token.len() + 1;
            let version_start = path_start + path.len() + 1;
            if path_start <= at && at + 2 <= path_start + path.len() {
                assert(path.subrange(at - path_start, at - path_start + 2) =~= crlf);
                assert(occurs_at(path, crlf, at - path_start));
            } else if version_start <= at {
                assert(version.subrange(at - version_start, at - version_start + 2) =~= crlf);
                assert(occurs_at(version, crlf, at - version_start));
            }
        }
    }
    lemma_start_line_is_cut_off(line, block + syntax::BLANK_LINE@ + body);
    lemma_header_block_is_cut_off(block, body);
    lemma_start_line_is_read(method, path, version);
}

/// The same over the wire: a request for `/echo/<text>`, put together
/// from separable parts, makes the connection send exactly the echo
/// response, whose body is `text`.
pub proof fn law_echo_over_the_wire(
    base: Seq<u8>,
    text: Seq<u8>,
    version: Seq<u8>,
    block: Seq<u8>,
    body: Seq<u8>,
)
    requires
        parts_are_separable(syntax::ECHO_PREFIX@ + text, version, block),
        valid_utf8(
            request_bytes(HttpMethod::GET, syntax::ECHO_PREFIX@ + text, version, block, body),
        ),
    ensures
        step_of(
            base,
            Phase::AwaitingRequest,
            EventView::Received(
                request_bytes(HttpMethod::GET, syntax::ECHO_PREFIX@ + text, version, block, body),
            ),
        ) == (Phase::Closed, CommandView::Send { bytes: echo_response(text).wire() }),
{
    let path = syntax::ECHO_PREFIX@ + text;
    law_request_is_read_back(HttpMethod::GET, path, version, block, body);
    let request = RequestView {
        method: HttpMethod::GET,
        path,
        version,
        headers: headers_of_block(block),
        body,
    };
    law_echo_returns_the_text(base, request, text);
}

/// Whatever the bytes received and however the file operation went, the
/// response is well formed: where it declares a length, that is the
/// number of bytes of its body, and where it has a body, it declares one.
pub proof fn law_content_length_is_body_length(
    base: Seq<u8>,
    buffer: Seq<u8>,
    contents: Option<Seq<u8>>,
    stored: bool,
)
    ensures
        ({
            let response = answer(plan_for(base, buffer), contents, stored);
            &&& response.well_formed()
            &&& declared_length(response) matches Some(length) ==> length == response.body.len()
            &&& response.body.len() > 0 ==> declared_length(response) is Some
        }),
{
    let response = answer(plan_for(base, buffer), contents, stored);
    if response.headers.len() > 0 {
        let content_type = response.headers[0].value;
        assert(response == ResponseView::with_content(
            response.status,
            content_type,
            response.body,
        ));
        lemma_with_content_well_formed(response.status, content_type, response.body);
        lemma_with_content_declares_length(response.status, content_type, response.body);
    }
}

/// Whatever happens on a connection, what it is sent is a well-formed
/// response as it goes over the wire.
pub proof fn law_only_well_formed_responses_are_sent(base: Seq<u8>, phase: Phase, event: EventView)
    ensures
        step_of(base, phase, event).1 matches CommandView::Send { bytes } ==> exists|
            response: ResponseView,
        |
            response.well_formed() && bytes == #[trigger] response.wire(),
{
    if let CommandView::Send { bytes } = step_of(base, phase, event).1 {
        let response: ResponseView = match (phase, event) {
            (Phase::AwaitingRequest, EventView::Received(buffer)) => {
                law_content_length_is_body_length(base, buffer, None, false);
                answer(plan_for(base, buffer), None, false)
            },
            (Phase::AwaitingRead, EventView::FileRead(contents)) => {
                lemma_with_content_well_formed(Status::Success, syntax::OCTET_STREAM@, contents);
                read_response(Some(contents))
            },
            (Phase::AwaitingWrite, EventView::FileWritten) => write_response(true),
            (Phase::AwaitingRead, EventView::Failed(_)) => read_response(None),
            (Phase::AwaitingWrite, EventView::Failed(_)) => write_response(false),
            _ => ResponseView::bare(Status::BadRequest),
        };
        assert(response.well_formed() && bytes == response.wire());
    }
}

/// On a store that keeps what it is given, writing a file and then
/// reading it gives back what was written: a `POST` to `/files/<name>`
/// with body `body` is answered `201`, and a `GET` of the same path after
/// it is answered `200` with exactly `body`. The name must stay inside
/// the base directory.
pub proof fn law_post_then_get_round_trip(
    base: Seq<u8>,
    files: Files,
    name: Seq<u8>,
    post: RequestView,
    get: RequestView,
)
    requires
        stays_inside(name),
        post.method == HttpMethod::POST,
        post.path == syntax::FILES_PREFIX@ + name,
        get.method == HttpMethod::GET,
        get.path == post.path,
    ensures
        serve_on(base, files, post).1 == ResponseView::bare(Status::Created),
        ({
            let response = serve_on(base, serve_on(base, files, post).0, get).1;
            &&& response.status == Status::Success
            &&& response.body == post.body
            &&& declared_length(response) == Some(post.body.len())
        }),
{
    assert(post.path.subrange(0, 7) =~= syntax::FILES_PREFIX@);
    assert(post.path.skip(7) =~= name);
    lemma_with_content_declares_length(Status::Success, syntax::OCTET_STREAM@, post.body);
}

/// A `GET` of `/files/<name>` where the store holds nothing under that
/// name is answered `404` with an empty body. The name must stay inside
/// the base directory.
pub proof fn law_missing_file_is_not_found(
    base: Seq<u8>,
    files: Files,
    name: Seq<u8>,
    get: RequestView,
)
    requires
        stays_inside(name),
        get.method == HttpMethod::GET,
        get.path == syntax::FILES_PREFIX@ + name,
        !files.contains_key(path_under(base, name)),
    ensures
        serve_on(base, files, get) == (files, ResponseView::bare(Status::NotFound)),
        ResponseView::bare(Status::NotFound).body.len() == 0,
{
    assert(get.path.skip(7) =~= name);
}

/// Of several headers of one name the first counts: `first_value` is
/// the value at the least index that bears the name, and `None` only
/// where no header bears it.
pub proof fn law_first_header_counts(headers: Seq<HeaderView>, name: Seq<u8>)
    ensures
        match first_value(headers, name) {
            Some(value) => exists|i: int|
                0 <= i < headers.len() && #[trigger] headers[i].name == name && headers[i].value
                    == value && forall|j: int| 0 <= j < i ==> #[trigger] headers[j].name != name,
            None => forall|i: int| 0 <= i < headers.len() ==> #[trigger] headers[i].name != name,
        },
    decreases headers.len(),
{
    if headers.len() > 0 && headers[0].name != name {
        let rest = headers.drop_first();
        law_first_header_counts(rest, name);
        match first_value(rest, name) {
            Some(value) => {
                let i = choose|i: int|
                    0 <= i < rest.len() && #[trigger] rest[i].name == name && rest[i].value
                        == value && forall|j: int| 0 <= j < i ==> #[trigger] rest[j].name != name;
                assert forall|j: int| 0 <= j < i + 1 implies #[trigger] headers[j].name
                    != name by {
                    if j > 0 {
                        assert(headers[j] == rest[j - 1]);
                    }
                }
            },
            None => {
                assert forall|i: int| 0 <= i < headers.len() implies #[trigger] headers[i].name
                    != name by {
                    if i > 0 {
                        assert(headers[i] == rest[i - 1]);
                    }
                }
            },
        }
    }
}

/// A request for `/user-agent` is answered `200` with the value of its
/// first `User-Agent` header as the body, and `400` where it has none.
pub proof fn law_user_agent_is_returned(base: Seq<u8>, request: RequestView)
    requires
        request.path == syntax::USER_AGENT_PATH@,
    ensures
        match first_value(request.headers, syntax::USER_AGENT@) {
            Some(value) => action_for(base, request) == ActionView::Respond(
                ResponseView::with_content(Status::Success, syntax::TEXT_PLAIN@, value),
            ),
            None => action_for(base, request) == ActionView::Respond(
                ResponseView::bare(Status::BadRequest),
            ),
        },
{
}

/// The root path is answered `200` and every path that no rule knows is
/// answered `404`, both with no header and an empty body.
pub proof fn law_root_and_unknown_paths(base: Seq<u8>, request: RequestView)
    ensures
        request.path == syntax::ROOT_PATH@ ==> action_for(base, request) == ActionView::Respond(
            ResponseView::bare(Status::Success),
        ),
        !has_prefix(request.path, syntax::FILES_PREFIX@) && !has_prefix(
            request.path,
            syntax::ECHO_PREFIX@,
        ) && request.path != syntax::USER_AGENT_PATH@ && request.path != syntax::ROOT_PATH@
            ==> action_for(base, request) == ActionView::Respond(
            ResponseView::bare(Status::NotFound),
        ),
        forall|status: Status| (#[trigger] ResponseView::bare(status)).body.len() == 0,
{
}

/// No request makes the server touch a file outside the base directory.
/// Every file that it asks to have read or written lies under the base
/// directory, by a name that stays inside it, and a file path with a `..`
/// segment or a leading `/` in the name is answered `403` instead.
pub proof fn law_files_stay_inside(base: Seq<u8>, request: RequestView)
    ensures
        match action_for(base, request) {
            ActionView::ReadFile { path } => exists|name: Seq<u8>|
                stays_inside(name) && path == #[trigger] path_under(base, name),
            ActionView::WriteFile { path, .. } => exists|name: Seq<u8>|
                stays_inside(name) && path == #[trigger] path_under(base, name),
            ActionView::Respond(_) => true,
        },
        forall|name: Seq<u8>|
            request.path == syntax::FILES_PREFIX@ + name && !(#[trigger] stays_inside(name))
                ==> action_for(base, request) == ActionView::Respond(
                ResponseView::bare(Status::Forbidden),
            ),
{
    let path = request.path;
    assert forall|name: Seq<u8>|
        request.path == syntax::FILES_PREFIX@ + name && !(#[trigger] stays_inside(
            name,
        )) implies action_for(base, request) == ActionView::Respond(
        ResponseView::bare(Status::Forbidden),
    ) by {
        assert(path.subrange(0, 7) =~= syntax::FILES_PREFIX@);
        assert(path.skip(7) =~= name);
    }
}

/// The same over the wire, for any bytes at all.
pub proof fn law_files_stay_inside_over_the_wire(base: Seq<u8>, buffer: Seq<u8>)
    ensures
        match plan_for(base, buffer) {
            ActionView::ReadFile { path } => exists|name: Seq<u8>|
                stays_inside(name) && path == #[trigger] path_under(base, name),
            ActionView::WriteFile { path, .. } => exists|name: Seq<u8>|
                stays_inside(name) && path == #[trigger] path_under(base, name),
            ActionView::Respond(_) => true,
        },
{
    if request_of(buffer) is Ok {
        law_files_stay_inside(base, request_of(buffer).unwrap());
    }
}

/// Every byte of the sequence is ASCII.
spec fn is_ascii(bytes: Seq<u8>) -> bool {
    forall|k: int| 0 <= k < bytes.len() ==> bytes[k] < 0x80
}

proof fn lemma_boundary_after_ascii(text: Seq<u8>, count: int)
    requires
        valid_utf8(text),
        0 <= count <= text.len(),
        forall|k: int| 0 <= k < count ==> text[k] < 0x80,
    ensures
        is_char_boundary(text, count),
    decreases count,
{
    if count > 0 {
        let rest = pop_first_scalar(text);
        assert(rest =~= text.skip(1));
        assert forall|k: int| 0 <= k < count - 1 implies rest[k] < 0x80 by {
            assert(rest[k] == text[k + 1]);
        }
        lemma_boundary_after_ascii(rest, count - 1);
    }
}

proof fn lemma_text_after_ascii(text: Seq<u8>, count: int)
    requires
        valid_utf8(text),
        0 <= count <= text.len(),
        forall|k: int| 0 <= k < count ==> text[k] < 0x80,
    ensures
        valid_utf8(text.skip(count)),
{
    lemma_boundary_after_ascii(text, count);
    valid_utf8_split(text, count);
}

proof fn lemma_cut_text_is_text(text: Seq<u8>, pattern: Seq<u8>)
    requires
        valid_utf8(text),
        is_ascii(pattern),
        pattern.len() > 0,
    ensures
        split_at_first(text, pattern) matches Some((before, after)) ==> valid_utf8(before)
            && valid_utf8(after),
{
    lemma_first_occurrence(text, pattern);
    if let Some(at) = first_occurrence(text, pattern) {
        lemma_occurrence_bytes(text, pattern, at);
        assert(text[at + 0] == pattern[0]);
        is_char_boundary_iff_not_is_continuation_byte(text, at);
        valid_utf8_split(text, at);
        let tail = text.subrange(at, text.len() as int);
        assert forall|k: int| 0 <= k < pattern.len() implies tail[k] < 0x80 by {
            assert(tail[k] == text[at + k]);
            assert(text[at + k] == pattern[k]);
        }
        lemma_text_after_ascii(tail, pattern.len() as int);
        assert(tail.skip(pattern.len() as int) =~= text.subrange(
            at + pattern.len(),
            text.len() as int,
        ));
    }
}

/// The paths of the files that the server asks for are text: where the
/// base directory is UTF-8, so is every path to be read or written,
/// whatever bytes were received.
pub proof fn law_file_paths_are_text(base: Seq<u8>, buffer: Seq<u8>)
    requires
        valid_utf8(base),
    ensures
        match plan_for(base, buffer) {
            ActionView::ReadFile { path } => valid_utf8(path),
            ActionView::WriteFile { path, .. } => valid_utf8(path),
            ActionView::Respond(_) => true,
        },
{
    if let Ok(request) = request_of(buffer) {
        let space = syntax::SPACE@;
        let prefix = syntax::FILES_PREFIX@;
        let separator = syntax::PATH_SEPARATOR@;
        lemma_cut_text_is_text(buffer, syntax::CRLF@);
        let line = sections_of(buffer).unwrap().start_line;
        lemma_cut_text_is_text(line, space);
        let rest = split_at_first(line, space).unwrap().1;
        lemma_cut_text_is_text(rest, space);
        let path = request.path;
        assert(valid_utf8(path));
        if has_prefix(path, prefix) {
            assert forall|k: int| 0 <= k < prefix.len() implies path[k] < 0x80 by {
                lemma_occurrence_bytes(path, prefix, 0);
                assert(path[0 + k] == prefix[k]);
            }
            lemma_text_after_ascii(path, prefix.len() as int);
            let name = path.skip(prefix.len() as int);
            assert(valid_utf8(separator)) by {
                reveal_with_fuel(valid_utf8, 2);
                assert(pop_first_scalar(separator) =~= Seq::<u8>::empty());
            }
            valid_utf8_concat(base, separator);
            valid_utf8_concat(base + separator, name);
        }
    }
}

/// What the one who performs a file operation reports of it: `contents`
/// is what reading gave, `stored` says whether writing succeeded.
pub open spec fn outcome(action: ActionView, contents: Option<Seq<u8>>, stored: bool) -> EventView {
    match action {
        ActionView::ReadFile { .. } => match contents {
            Some(bytes) => EventView::FileRead(bytes),
            None => EventView::Failed(ErrorKind::StorageFailure),
        },
        _ => if stored {
            EventView::FileWritten
        } else {
            EventView::Failed(ErrorKind::StorageFailure)
        },
    }
}

/// A connection whose bytes arrive, and whose file operation is reported
/// where one was asked for, is sent the answer to its request: at once
/// where no file is needed, and else as soon as the outcome is known.
pub proof fn law_every_request_is_answered(
    base: Seq<u8>,
    buffer: Seq<u8>,
    contents: Option<Seq<u8>>,
    stored: bool,
)
    ensures
        ({
            let action = plan_for(base, buffer);
            let first = step_of(base, Phase::AwaitingRequest, EventView::Received(buffer));
            let response = answer(action, contents, stored);
            &&& first == begin(action)
            &&& action is Respond ==> first == send(response)
            &&& !(action is Respond) ==> step_of(base, first.0, outcome(action, contents, stored))
                == send(response)
        }),
{
}

/// A connection is sent at most one response, whatever happens on it and
/// in whatever order.
pub proof fn law_at_most_one_response(base: Seq<u8>, phase: Phase, events: Seq<EventView>)
    ensures
        sends(run(base, phase, events)) <= 1,
        phase == Phase::Closed ==> sends(run(base, phase, events)) == 0,
    decreases events.len(),
{
    if events.len() > 0 {
        let (next, command) = step_of(base, phase, events[0]);
        let rest = run(base, next, events.drop_first());
        law_at_most_one_response(base, next, events.drop_first());
        lemma_sends_of_first(command, rest);
    }
}

proof fn lemma_sends_of_first(command: CommandView, rest: Seq<CommandView>)
    ensures
        sends(seq![command] + rest) == sends(rest) + if command is Send {
            1nat
        } else {
            0nat
        },
    decreases rest.len(),
{
    let all = seq![command] + rest;
    if rest.len() == 0 {
        assert(sends(all.drop_last()) == 0);
    } else {
        lemma_sends_of_first(command, rest.drop_last());
        assert(all.drop_last() =~= seq![command] + rest.drop_last());
    }
}

} // verus!
