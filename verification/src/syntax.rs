//! The fixed byte strings of the protocol: separators, method tokens, paths,
//! header names and reason phrases, each spelled out byte by byte.

use vstd::prelude::*;

verus! {

/// The line terminator. Reads `\r\n`.
pub const CRLF: [u8; 2] = ['\r' as u8, '\n' as u8];

/// The end of the header block: the terminator of its last line, then an
/// empty line. Reads `\r\n\r\n`.
pub const BLANK_LINE: [u8; 4] = ['\r' as u8, '\n' as u8, '\r' as u8, '\n' as u8];

/// What separates the three parts of a start line. Reads ` `.
pub const SPACE: [u8; 1] = [' ' as u8];

/// What separates a header's name from its value. Reads `: `.
pub const HEADER_SEPARATOR: [u8; 2] = [':' as u8, ' ' as u8];

/// What separates the segments of a file name. Reads `/`.
pub const PATH_SEPARATOR: [u8; 1] = ['/' as u8];

/// The segment of a file name that steps out of a directory. Reads `..`.
pub const PARENT_SEGMENT: [u8; 2] = ['.' as u8, '.' as u8];

/// The method token of a `GET` request. Reads `GET`.
pub const GET: [u8; 3] = ['G' as u8, 'E' as u8, 'T' as u8];

/// The method token of a `POST` request. Reads `POST`.
pub const POST: [u8; 4] = ['P' as u8, 'O' as u8, 'S' as u8, 'T' as u8];

/// Paths that begin with this name a file. Reads `/files/`.
pub const FILES_PREFIX: [u8; 7] = [
    '/' as u8, 'f' as u8, 'i' as u8, 'l' as u8, 'e' as u8, 's' as u8, '/' as u8,
];

/// Paths that begin with this ask for their own tail back. Reads `/echo/`.
pub const ECHO_PREFIX: [u8; 6] = ['/' as u8, 'e' as u8, 'c' as u8, 'h' as u8, 'o' as u8, '/' as u8];

/// The path that asks for the client's `User-Agent` header back. Reads `/user-agent`.
pub const USER_AGENT_PATH: [u8; 11] = [
    '/' as u8, 'u' as u8, 's' as u8, 'e' as u8, 'r' as u8, '-' as u8, 'a' as u8, 'g' as u8,
    'e' as u8, 'n' as u8, 't' as u8,
];

/// The root path. Reads `/`.
pub const ROOT_PATH: [u8; 1] = ['/' as u8];

/// The protocol version that every status line opens with. Reads `HTTP/1.1`.
pub const HTTP_VERSION: [u8; 8] = [
    'H' as u8, 'T' as u8, 'T' as u8, 'P' as u8, '/' as u8, '1' as u8, '.' as u8, '1' as u8,
];

/// The name of the header in which a client names itself. Reads `User-Agent`.
pub const USER_AGENT: [u8; 10] = [
    'U' as u8, 's' as u8, 'e' as u8, 'r' as u8, '-' as u8, 'A' as u8, 'g' as u8, 'e' as u8,
    'n' as u8, 't' as u8,
];

/// The name of the header that gives the kind of the body. Reads `Content-Type`.
pub const CONTENT_TYPE: [u8; 12] = [
    'C' as u8, 'o' as u8, 'n' as u8, 't' as u8, 'e' as u8, 'n' as u8, 't' as u8, '-' as u8,
    'T' as u8, 'y' as u8, 'p' as u8, 'e' as u8,
];

/// The name of the header that gives the number of bytes in the body. Reads `Content-Length`.
pub const CONTENT_LENGTH: [u8; 14] = [
    'C' as u8, 'o' as u8, 'n' as u8, 't' as u8, 'e' as u8, 'n' as u8, 't' as u8, '-' as u8,
    'L' as u8, 'e' as u8, 'n' as u8, 'g' as u8, 't' as u8, 'h' as u8,
];

/// The content type of text sent back to the client. Reads `text/plain`.
pub const TEXT_PLAIN: [u8; 10] = [
    't' as u8, 'e' as u8, 'x' as u8, 't' as u8, '/' as u8, 'p' as u8, 'l' as u8, 'a' as u8,
    'i' as u8, 'n' as u8,
];

/// The content type of a file's bytes. Reads `application/octet-stream`.
pub const OCTET_STREAM: [u8; 24] = [
    'a' as u8, 'p' as u8, 'p' as u8, 'l' as u8, 'i' as u8, 'c' as u8, 'a' as u8, 't' as u8,
    'i' as u8, 'o' as u8, 'n' as u8, '/' as u8, 'o' as u8, 'c' as u8, 't' as u8, 'e' as u8,
    't' as u8, '-' as u8, 's' as u8, 't' as u8, 'r' as u8, 'e' as u8, 'a' as u8, 'm' as u8,
];

/// The reason phrase of status 200. Reads `OK`.
pub const REASON_OK: [u8; 2] = ['O' as u8, 'K' as u8];

/// The reason phrase of status 201. Reads `Created`.
pub const REASON_CREATED: [u8; 7] = [
    'C' as u8, 'r' as u8, 'e' as u8, 'a' as u8, 't' as u8, 'e' as u8, 'd' as u8,
];

/// The reason phrase of status 400. Reads `Bad Request`.
pub const REASON_BAD_REQUEST: [u8; 11] = [
    'B' as u8, 'a' as u8, 'd' as u8, ' ' as u8, 'R' as u8, 'e' as u8, 'q' as u8, 'u' as u8,
    'e' as u8, 's' as u8, 't' as u8,
];

/// The reason phrase of status 403. Reads `Forbidden`.
pub const REASON_FORBIDDEN: [u8; 9] = [
    'F' as u8, 'o' as u8, 'r' as u8, 'b' as u8, 'i' as u8, 'd' as u8, 'd' as u8, 'e' as u8,
    'n' as u8,
];

/// The reason phrase of status 404. Reads `Not Found`.
pub const REASON_NOT_FOUND: [u8; 9] = [
    'N' as u8, 'o' as u8, 't' as u8, ' ' as u8, 'F' as u8, 'o' as u8, 'u' as u8, 'n' as u8,
    'd' as u8,
];

/// The reason phrase of status 500. Reads `Internal Server Error`.
pub const REASON_INTERNAL_SERVER_ERROR: [u8; 21] = [
    'I' as u8, 'n' as u8, 't' as u8, 'e' as u8, 'r' as u8, 'n' as u8, 'a' as u8, 'l' as u8,
    ' ' as u8, 'S' as u8, 'e' as u8, 'r' as u8, 'v' as u8, 'e' as u8, 'r' as u8, ' ' as u8,
    'E' as u8, 'r' as u8, 'r' as u8, 'o' as u8, 'r' as u8,
];

} // verus!
