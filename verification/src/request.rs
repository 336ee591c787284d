//! Reading a request out of the bytes that one read of the socket gave.
//!
//! A request is cut in three steps. The start line ends at the first line
//! terminator. In what follows it, the header block ends at the first blank
//! line, and the body is whatever stands after that. The start line itself
//! is cut at its first two spaces into method, path and version.

use vstd::prelude::*;
use vstd::slice::slice_to_vec;
use vstd::utf8::valid_utf8;
use crate::encoding::is_utf8;
use crate::error::ErrorKind;
use crate::header::{header_views, Header, HeaderView};
use crate::method::{method_from_token, method_of_token, HttpMethod};
use crate::scan::{lemma_first_occurrence, split_at_first, split_once};
use crate::syntax;

verus! {

/// The three sections of a request's bytes, each a part of the buffer.
pub struct Sections<'a> {
    pub start_line: &'a [u8],
    pub header_block: &'a [u8],
    pub body: &'a [u8],
}

/// The three sections as byte sequences.
pub struct SectionsView {
    pub start_line: Seq<u8>,
    pub header_block: Seq<u8>,
    pub body: Seq<u8>,
}

impl<'a> View for Sections<'a> {
    type V = SectionsView;

    open spec fn view(&self) -> SectionsView {
        SectionsView {
            start_line: self.start_line@,
            header_block: self.header_block@,
            body: self.body@,
        }
    }
}

/// A parsed start line.
#[derive(Clone, Debug, PartialEq, Eq)]
pub struct StartLine {
    pub method: HttpMethod,
    pub path: Vec<u8>,
    pub version: Vec<u8>,
}

/// A start line as plain values.
pub struct StartLineView {
    pub method: HttpMethod,
    pub path: Seq<u8>,
    pub version: Seq<u8>,
}

impl View for StartLine {
    type V = StartLineView;

    open spec fn view(&self) -> StartLineView {
        StartLineView { method: self.method, path: self.path@, version: self.version@ }
    }
}

/// A request. One exists only where a whole start line and the end of the
/// header block were found in the bytes received, and it does not change
/// afterwards: the fields are read through the methods below.
#[derive(Clone, Debug, PartialEq, Eq)]
pub struct Request {
    method: HttpMethod,
    path: Vec<u8>,
    version: Vec<u8>,
    headers: Vec<Header>,
    body: Vec<u8>,
}

/// A request as plain values. The path is raw: nothing in it is decoded or
/// normalized. The headers stand in the order in which the client sent
/// them, repeated names included.
pub struct RequestView {
    pub method: HttpMethod,
    pub path: Seq<u8>,
    pub version: Seq<u8>,
    pub headers: Seq<HeaderView>,
    pub body: Seq<u8>,
}

impl View for Request {
    type V = RequestView;

    closed spec fn view(&self) -> RequestView {
        RequestView {
            method: self.method,
            path: self.path@,
            version: self.version@,
            headers: header_views(self.headers@),
            body: self.body@,
        }
    }
}

/// The sections of a buffer.
///
/// The buffer as a whole must be UTF-8. The start line is what stands
/// before the first line terminator. The rest must hold a blank line: the
/// header block is what stands before the first one, the body what stands
/// after it. A request without any header line has no blank line after its
/// start line's terminator, and is malformed.
pub open spec fn sections_of(buffer: Seq<u8>) -> Result<SectionsView, ErrorKind> {
    if !valid_utf8(buffer) {
        Err(ErrorKind::InvalidEncoding)
    } else {
        match split_at_first(buffer, syntax::CRLF@) {
            None => Err(ErrorKind::MalformedRequest),
            Some((start_line, rest)) => match split_at_first(rest, syntax::BLANK_LINE@) {
                None => Err(ErrorKind::MalformedRequest),
                Some((header_block, body)) => Ok(SectionsView { start_line, header_block, body }),
            },
        }
    }
}

/// What a start line says.
///
/// The method token is what stands before the first space, or the whole
/// line where there is none, and it is looked at first: an unknown token is
/// an unsupported method, whatever follows. The path stands between the
/// first space and the second. The version is all that follows the second
/// space, further spaces included. A line with fewer than two spaces is
/// malformed.
pub open spec fn start_line_of(line: Seq<u8>) -> Result<StartLineView, ErrorKind> {
    let cut = split_at_first(line, syntax::SPACE@);
    let token = match cut {
        Some((token, _)) => token,
        None => line,
    };
    match method_of_token(token) {
        None => Err(ErrorKind::UnsupportedMethod),
        Some(method) => match cut {
            None => Err(ErrorKind::MalformedRequest),
            Some((_, rest)) => match split_at_first(rest, syntax::SPACE@) {
                None => Err(ErrorKind::MalformedRequest),
                Some((path, version)) => Ok(StartLineView { method, path, version }),
            },
        },
    }
}

/// The header that a line holds: the name stands before the first `": "`,
/// the value after it. A line without that separator holds none.
pub open spec fn header_of_line(line: Seq<u8>) -> Seq<HeaderView> {
    match split_at_first(line, syntax::HEADER_SEPARATOR@) {
        Some((name, value)) => seq![HeaderView { name, value }],
        None => seq![],
    }
}

/// The headers of a header block: those of its lines, in order. The lines
/// are what the line terminators in the block separate.
pub open spec fn headers_of_block(block: Seq<u8>) -> Seq<HeaderView>
    decreases block.len(),
    via headers_of_block_decreases
{
    match split_at_first(block, syntax::CRLF@) {
        None => header_of_line(block),
        Some((line, rest)) => header_of_line(line) + headers_of_block(rest),
    }
}

#[via_fn]
proof fn headers_of_block_decreases(block: Seq<u8>) {
    lemma_first_occurrence(block, syntax::CRLF@);
}

/// What a buffer says as a request, or why it says none.
pub open spec fn request_of(buffer: Seq<u8>) -> Result<RequestView, ErrorKind> {
    match sections_of(buffer) {
        Err(kind) => Err(kind),
        Ok(sections) => match start_line_of(sections.start_line) {
            Err(kind) => Err(kind),
            Ok(line) => Ok(
                RequestView {
                    method: line.method,
                    path: line.path,
                    version: line.version,
                    headers: headers_of_block(sections.header_block),
                    body: sections.body,
                },
            ),
        },
    }
}

/// Cuts a buffer into start line, header block and body.
pub fn split_sections<'a>(buffer: &'a [u8]) -> (sections: Result<Sections<'a>, ErrorKind>)
    ensures
        match sections {
            Ok(found) => sections_of(buffer@) == Ok::<SectionsView, ErrorKind>(found@),
            Err(kind) => sections_of(buffer@) == Err::<SectionsView, ErrorKind>(kind),
        },
{
    if !is_utf8(buffer) {
        return Err(ErrorKind::InvalidEncoding);
    }
    match split_once(buffer, &syntax::CRLF) {
        None => Err(ErrorKind::MalformedRequest),
        Some((start_line, rest)) => match split_once(rest, &syntax::BLANK_LINE) {
            None => Err(ErrorKind::MalformedRequest),
            Some((header_block, body)) => Ok(Sections { start_line, header_block, body }),
        },
    }
}

/// Parses a start line into method, path and version.
pub fn parse_start_line(line: &[u8]) -> (parsed: Result<StartLine, ErrorKind>)
    ensures
        match parsed {
            Ok(start_line) => start_line_of(line@) == Ok::<StartLineView, ErrorKind>(start_line@),
            Err(kind) => start_line_of(line@) == Err::<StartLineView, ErrorKind>(kind),
        },
{
    let cut = split_once(line, &syntax::SPACE);
    let token = match cut {
        Some((token, _)) => token,
        None => line,
    };
    let method = match method_from_token(token) {
        Some(method) => method,
        None => {
            return Err(ErrorKind::UnsupportedMethod);
        },
    };
    match cut {
        None => Err(ErrorKind::MalformedRequest),
        Some((_, rest)) => match split_once(rest, &syntax::SPACE) {
            None => Err(ErrorKind::MalformedRequest),
            Some((path, version)) => Ok(
                StartLine { method, path: slice_to_vec(path), version: slice_to_vec(version) },
            ),
        },
    }
}

/// Appends to `headers` the header that `line` holds, if it holds one.
fn push_header_of_line(headers: &mut Vec<Header>, line: &[u8])
    ensures
        header_views(final(headers)@) == header_views(old(headers)@) + header_of_line(line@),
{
    if let Some((name, value)) = split_once(line, &syntax::HEADER_SEPARATOR) {
        headers.push(Header { name: slice_to_vec(name), value: slice_to_vec(value) });
    }
}

/// Parses a header block into its headers, in order.
pub fn parse_headers(block: &[u8]) -> (headers: Vec<Header>)
    ensures
        header_views(headers@) == headers_of_block(block@),
{
    let mut headers: Vec<Header> = Vec::new();
    let mut rest: &[u8] = block;
    loop
        invariant
            header_views(headers@) + headers_of_block(rest@) == headers_of_block(block@),
        decreases rest@.len(),
    {
        match split_once(rest, &syntax::CRLF) {
            Some((line, after)) => {
                proof {
                    lemma_first_occurrence(rest@, syntax::CRLF@);
                }
                push_header_of_line(&mut headers, line);
                rest = after;
            },
            None => {
                push_header_of_line(&mut headers, rest);
                return headers;
            },
        }
    }
}

/// Parses the bytes that were read from a connection into a request.
///
/// Succeeds exactly where `request_of` gives a request, with that request,
/// and fails with the kind that `request_of` gives otherwise.
pub fn parse_request(buffer: &[u8]) -> (parsed: Result<Request, ErrorKind>)
    ensures
        match parsed {
            Ok(request) => request_of(buffer@) == Ok::<RequestView, ErrorKind>(request@),
            Err(kind) => request_of(buffer@) == Err::<RequestView, ErrorKind>(kind),
        },
{
    let sections = match split_sections(buffer) {
        Ok(sections) => sections,
        Err(kind) => {
            return Err(kind);
        },
    };
    let start_line = match parse_start_line(sections.start_line) {
        Ok(start_line) => start_line,
        Err(kind) => {
            return Err(kind);
        },
    };
    let headers = parse_headers(sections.header_block);
    Ok(
        Request {
            method: start_line.method,
            path: start_line.path,
            version: start_line.version,
            headers,
            body: slice_to_vec(sections.body),
        },
    )
}

impl Request {
    /// The method.
    pub fn method(&self) -> (method: HttpMethod)
        ensures
            method == self@.method,
    {
        self.method
    }

    /// The path, as it stood in the start line.
    pub fn path(&self) -> (path: &Vec<u8>)
        ensures
            path@ == self@.path,
    {
        &self.path
    }

    /// The version, as it stood in the start line.
    pub fn version(&self) -> (version: &Vec<u8>)
        ensures
            version@ == self@.version,
    {
        &self.version
    }

    /// The headers, in the order in which they were sent.
    pub fn headers(&self) -> (headers: &Vec<Header>)
        ensures
            header_views(headers@) == self@.headers,
    {
        &self.headers
    }

    /// The body: the bytes that followed the blank line.
    pub fn body(&self) -> (body: &Vec<u8>)
        ensures
            body@ == self@.body,
    {
        &self.body
    }
}

} // verus!
