//! Responses, and how they are written to the wire.

use vstd::prelude::*;
use vstd::slice::slice_to_vec;
use crate::header::{header_views, Header, HeaderView};
use crate::syntax;

verus! {

/// The statuses that the server answers with.
#[derive(Clone, Copy, Debug, PartialEq, Eq, Structural)]
pub enum Status {
    /// 200 OK.
    Success,
    /// 201 Created.
    Created,
    /// 400 Bad Request.
    BadRequest,
    /// 403 Forbidden.
    Forbidden,
    /// 404 Not Found.
    NotFound,
    /// 500 Internal Server Error.
    InternalServerError,
}

impl Status {
    /// The numeric code of the status.
    pub open spec fn code_of(self) -> nat {
        match self {
            Status::Success => 200,
            Status::Created => 201,
            Status::BadRequest => 400,
            Status::Forbidden => 403,
            Status::NotFound => 404,
            Status::InternalServerError => 500,
        }
    }

    /// The reason phrase of the status.
    pub open spec fn reason_of(self) -> Seq<u8> {
        match self {
            Status::Success => syntax::REASON_OK@,
            Status::Created => syntax::REASON_CREATED@,
            Status::BadRequest => syntax::REASON_BAD_REQUEST@,
            Status::Forbidden => syntax::REASON_FORBIDDEN@,
            Status::NotFound => syntax::REASON_NOT_FOUND@,
            Status::InternalServerError => syntax::REASON_INTERNAL_SERVER_ERROR@,
        }
    }

    /// The numeric code of the status.
    pub fn code(self) -> (code: u16)
        ensures
            code == self.code_of(),
    {
        match self {
            Status::Success => 200,
            Status::Created => 201,
            Status::BadRequest => 400,
            Status::Forbidden => 403,
            Status::NotFound => 404,
            Status::InternalServerError => 500,
        }
    }

    /// The reason phrase of the status.
    pub fn reason(self) -> (reason: Vec<u8>)
        ensures
            reason@ == self.reason_of(),
    {
        match self {
            Status::Success => slice_to_vec(&syntax::REASON_OK),
            Status::Created => slice_to_vec(&syntax::REASON_CREATED),
            Status::BadRequest => slice_to_vec(&syntax::REASON_BAD_REQUEST),
            Status::Forbidden => slice_to_vec(&syntax::REASON_FORBIDDEN),
            Status::NotFound => slice_to_vec(&syntax::REASON_NOT_FOUND),
            Status::InternalServerError => slice_to_vec(&syntax::REASON_INTERNAL_SERVER_ERROR),
        }
    }
}

/// The ASCII digit for a number below ten.
pub open spec fn digit(d: nat) -> u8 {
    ('0' as u8 + d) as u8
}

/// A number in decimal: ASCII digits, the most significant first, with no
/// leading zero but for zero itself.
pub open spec fn decimal(n: nat) -> Seq<u8>
    decreases n,
{
    if n < 10 {
        seq![digit(n)]
    } else {
        decimal(n / 10).push(digit(n % 10))
    }
}

/// The number that a string of decimal digits stands for.
pub open spec fn decimal_value(digits: Seq<u8>) -> nat
    decreases digits.len(),
{
    if digits.len() == 0 {
        0
    } else {
        decimal_value(digits.drop_last()) * 10 + (digits.last() - '0' as u8) as nat
    }
}

/// Reading back what `decimal` wrote gives the number it was written from.
pub proof fn lemma_decimal_value(n: nat)
    ensures
        decimal_value(decimal(n)) == n,
    decreases n,
{
    if n < 10 {
        assert(decimal_value(decimal(n).drop_last()) == 0);
    } else {
        lemma_decimal_value(n / 10);
        assert(decimal(n).drop_last() =~= decimal(n / 10));
    }
}

/// Writes a number in decimal.
pub fn decimal_digits(n: usize) -> (digits: Vec<u8>)
    ensures
        digits@ == decimal(n as nat),
{
    let mut digits: Vec<u8> = Vec::new();
    let mut rest: usize = n;
    while rest >= 10
        invariant
            decimal(n as nat) == decimal(rest as nat) + digits@,
        decreases rest,
    {
        let low: u8 = (rest % 10) as u8;
        let ghost after = digits@;
        digits.insert(0, '0' as u8 + low);
        assert(decimal(rest as nat) + after =~= decimal((rest / 10) as nat) + digits@);
        rest = rest / 10;
    }
    digits.insert(0, '0' as u8 + rest as u8);
    assert(decimal(rest as nat) + digits@.subrange(1, digits@.len() as int) =~= digits@);
    digits
}

/// A response: a status, headers in the order in which they are sent,
/// and a body.
///
/// The fields are private. The functions that build a response see to it
/// that it is well formed (`ResponseView::well_formed`).
#[derive(Clone, Debug, PartialEq, Eq)]
pub struct Response {
    status: Status,
    headers: Vec<Header>,
    body: Vec<u8>,
}

/// A response as plain values.
pub struct ResponseView {
    pub status: Status,
    pub headers: Seq<HeaderView>,
    pub body: Seq<u8>,
}

impl View for Response {
    type V = ResponseView;

    closed spec fn view(&self) -> ResponseView {
        ResponseView {
            status: self.status,
            headers: header_views(self.headers@),
            body: self.body@,
        }
    }
}

/// The status line: version, code and reason phrase, a space between them.
pub open spec fn status_line(status: Status) -> Seq<u8> {
    syntax::HTTP_VERSION@ + syntax::SPACE@ + decimal(status.code_of()) + syntax::SPACE@
        + status.reason_of()
}

/// One header as a line: name, `": "`, value, line terminator.
pub open spec fn header_line(header: HeaderView) -> Seq<u8> {
    header.name + syntax::HEADER_SEPARATOR@ + header.value + syntax::CRLF@
}

/// The lines of a sequence of headers, one after the other.
pub open spec fn header_lines(headers: Seq<HeaderView>) -> Seq<u8>
    decreases headers.len(),
{
    if headers.len() == 0 {
        seq![]
    } else {
        header_lines(headers.drop_last()) + header_line(headers.last())
    }
}

impl ResponseView {
    /// A response with a status and nothing else.
    pub open spec fn bare(status: Status) -> ResponseView {
        ResponseView { status, headers: seq![], body: seq![] }
    }

    /// A response that carries a body: its headers give the kind of the
    /// body, then its length in bytes.
    pub open spec fn with_content(
        status: Status,
        content_type: Seq<u8>,
        body: Seq<u8>,
    ) -> ResponseView {
        ResponseView {
            status,
            headers: seq![
                HeaderView { name: syntax::CONTENT_TYPE@, value: content_type },
                HeaderView { name: syntax::CONTENT_LENGTH@, value: decimal(body.len()) },
            ],
            body,
        }
    }

    /// The response says how long its body is, and says it truly: each
    /// `Content-Length` header holds the number of bytes of the body in
    /// decimal, and a response with a body has such a header.
    pub open spec fn well_formed(self) -> bool {
        &&& forall|i: int|
            0 <= i < self.headers.len() && #[trigger] self.headers[i].name
                == syntax::CONTENT_LENGTH@ ==> self.headers[i].value == decimal(self.body.len())
        &&& self.body.len() > 0 ==> exists|i: int|
            0 <= i < self.headers.len() && #[trigger] self.headers[i].name
                == syntax::CONTENT_LENGTH@
    }

    /// The response as it goes over the wire: the status line, the header
    /// lines, an empty line, and the body with nothing after it.
    pub open spec fn wire(self) -> Seq<u8> {
        status_line(self.status) + syntax::CRLF@ + header_lines(self.headers) + syntax::CRLF@
            + self.body
    }
}

impl Response {
    /// Builds a response with a status, no header and no body.
    pub fn bare(status: Status) -> (response: Response)
        ensures
            response@ == ResponseView::bare(status),
            response@.well_formed(),
    {
        let response = Response { status, headers: Vec::new(), body: Vec::new() };
        assert(response@.headers =~= Seq::<HeaderView>::empty());
        response
    }

    /// Builds a response that carries `body`, of the kind `content_type`.
    /// The `Content-Length` header is computed from the body, in bytes.
    pub fn with_content(status: Status, content_type: &[u8], body: Vec<u8>) -> (response: Response)
        ensures
            response@ == ResponseView::with_content(status, content_type@, body@),
            response@.well_formed(),
    {
        let mut headers: Vec<Header> = Vec::new();
        headers.push(
            Header { name: slice_to_vec(&syntax::CONTENT_TYPE), value: slice_to_vec(content_type) },
        );
        headers.push(
            Header {
                name: slice_to_vec(&syntax::CONTENT_LENGTH),
                value: decimal_digits(body.len()),
            },
        );
        let response = Response { status, headers, body };
        proof {
            let expected = ResponseView::with_content(status, content_type@, body@);
            assert(response@.headers =~= expected.headers);
            lemma_with_content_well_formed(status, content_type@, body@);
        }
        response
    }

    /// The status.
    pub fn status(&self) -> (status: Status)
        ensures
            status == self@.status,
    {
        self.status
    }

    /// The headers, in the order in which they are sent.
    pub fn headers(&self) -> (headers: &Vec<Header>)
        ensures
            header_views(headers@) == self@.headers,
    {
        &self.headers
    }

    /// The body.
    pub fn body(&self) -> (body: &Vec<u8>)
        ensures
            body@ == self@.body,
    {
        &self.body
    }

    /// Writes the response as it goes over the wire.
    pub fn to_bytes(&self) -> (bytes: Vec<u8>)
        ensures
            bytes@ == self@.wire(),
    {
        let mut bytes: Vec<u8> = Vec::new();
        bytes.extend_from_slice(&syntax::HTTP_VERSION);
        bytes.extend_from_slice(&syntax::SPACE);
        let code = decimal_digits(self.status.code() as usize);
        bytes.extend_from_slice(code.as_slice());
        bytes.extend_from_slice(&syntax::SPACE);
        let reason = self.status.reason();
        bytes.extend_from_slice(reason.as_slice());
        bytes.extend_from_slice(&syntax::CRLF);
        let ghost head = status_line(self.status) + syntax::CRLF@;
        assert(bytes@ =~= head);
        let ghost views = header_views(self.headers@);
        let mut i: usize = 0;
        assert(views.take(0) =~= Seq::<HeaderView>::empty());
        while i < self.headers.len()
            invariant
                i <= self.headers.len(),
                views == header_views(self.headers@),
                bytes@ == head + header_lines(views.take(i as int)),
            decreases self.headers.len() - i,
        {
            let header = &self.headers[i];
            let ghost before = bytes@;
            bytes.extend_from_slice(header.name.as_slice());
            bytes.extend_from_slice(&syntax::HEADER_SEPARATOR);
            bytes.extend_from_slice(header.value.as_slice());
            bytes.extend_from_slice(&syntax::CRLF);
            proof {
                let next = views.take(i + 1);
                assert(next.drop_last() =~= views.take(i as int));
                assert(next.last() == header@);
                assert(bytes@ =~= before + header_line(header@));
            }
            i += 1;
        }
        assert(views.take(i as int) =~= views);
        bytes.extend_from_slice(&syntax::CRLF);
        bytes.extend_from_slice(self.body.as_slice());
        bytes
    }
}

/// A response built by `with_content` is well formed.
pub proof fn lemma_with_content_well_formed(status: Status, content_type: Seq<u8>, body: Seq<u8>)
    ensures
        ResponseView::with_content(status, content_type, body).well_formed(),
{
    let response = ResponseView::with_content(status, content_type, body);
    assert(syntax::CONTENT_TYPE@ != syntax::CONTENT_LENGTH@) by {
        assert(syntax::CONTENT_TYPE@.len() != syntax::CONTENT_LENGTH@.len());
    }
    assert(response.headers[1].name == syntax::CONTENT_LENGTH@);
}

} // verus!
