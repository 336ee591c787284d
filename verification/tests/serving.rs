use http_server::header::Header;
use http_server::method::HttpMethod;
use http_server::request::parse_request;
use http_server::response::{decimal_digits, Response, Status};
use http_server::route::{route, Route};
use http_server::serve::{answer_read, answer_write, dispatch, plan, Action};
use http_server::store::{is_contained, ServerConfig};

fn config() -> ServerConfig {
    ServerConfig::new("/srv/data")
}

fn respond(buffer: &[u8]) -> Response {
    match plan(&config(), buffer) {
        Action::Respond(response) => response,
        other => panic!("expected a response, got {:?}", other),
    }
}

fn content_length(response: &Response) -> Option<Vec<u8>> {
    response
        .headers()
        .iter()
        .find(|header| header.name == b"Content-Length")
        .map(|header| header.value.clone())
}

#[test]
fn decimal_digits_of_small_and_large_numbers() {
    assert_eq!(decimal_digits(0), b"0");
    assert_eq!(decimal_digits(7), b"7");
    assert_eq!(decimal_digits(9), b"9");
    assert_eq!(decimal_digits(10), b"10");
    assert_eq!(decimal_digits(99), b"99");
    assert_eq!(decimal_digits(100), b"100");
    assert_eq!(decimal_digits(4096), b"4096");
    assert_eq!(decimal_digits(1234567890), b"1234567890");
    assert_eq!(decimal_digits(usize::MAX), usize::MAX.to_string().as_bytes());
}

#[test]
fn status_codes_and_reasons() {
    let all = [
        (Status::Success, 200, "OK"),
        (Status::Created, 201, "Created"),
        (Status::BadRequest, 400, "Bad Request"),
        (Status::Forbidden, 403, "Forbidden"),
        (Status::NotFound, 404, "Not Found"),
        (Status::InternalServerError, 500, "Internal Server Error"),
    ];
    for (status, code, reason) in all {
        assert_eq!(status.code(), code);
        assert_eq!(status.reason(), reason.as_bytes());
    }
}

#[test]
fn bare_response_on_the_wire() {
    assert_eq!(Response::bare(Status::Success).to_bytes(), b"HTTP/1.1 200 OK\r\n\r\n");
    assert_eq!(Response::bare(Status::Created).to_bytes(), b"HTTP/1.1 201 Created\r\n\r\n");
    assert_eq!(Response::bare(Status::BadRequest).to_bytes(), b"HTTP/1.1 400 Bad Request\r\n\r\n");
    assert_eq!(Response::bare(Status::Forbidden).to_bytes(), b"HTTP/1.1 403 Forbidden\r\n\r\n");
    assert_eq!(Response::bare(Status::NotFound).to_bytes(), b"HTTP/1.1 404 Not Found\r\n\r\n");
    assert_eq!(
        Response::bare(Status::InternalServerError).to_bytes(),
        b"HTTP/1.1 500 Internal Server Error\r\n\r\n"
    );
}

#[test]
fn bare_response_has_no_headers_and_no_body() {
    let response = Response::bare(Status::NotFound);
    assert_eq!(response.status(), Status::NotFound);
    assert!(response.headers().is_empty());
    assert!(response.body().is_empty());
}

#[test]
fn response_with_content_on_the_wire() {
    let response = Response::with_content(Status::Success, b"text/plain", b"abc".to_vec());
    assert_eq!(
        response.to_bytes(),
        b"HTTP/1.1 200 OK\r\nContent-Type: text/plain\r\nContent-Length: 3\r\n\r\nabc"
    );
    assert_eq!(
        response.headers(),
        &vec![
            Header { name: b"Content-Type".to_vec(), value: b"text/plain".to_vec() },
            Header { name: b"Content-Length".to_vec(), value: b"3".to_vec() },
        ]
    );
    assert_eq!(response.body(), b"abc");
}

#[test]
fn response_body_is_written_raw_with_nothing_after_it() {
    let body = vec![0u8, 13, 10, 13, 10, 255, 254];
    let response = Response::with_content(Status::Success, b"application/octet-stream", body.clone());
    let mut expected =
        b"HTTP/1.1 200 OK\r\nContent-Type: application/octet-stream\r\nContent-Length: 7\r\n\r\n"
            .to_vec();
    expected.extend_from_slice(&body);
    assert_eq!(response.to_bytes(), expected);
}

#[test]
fn response_with_empty_content_declares_zero() {
    let response = Response::with_content(Status::Success, b"text/plain", Vec::new());
    assert_eq!(
        response.to_bytes(),
        b"HTTP/1.1 200 OK\r\nContent-Type: text/plain\r\nContent-Length: 0\r\n\r\n"
    );
}

#[test]
fn routes_in_priority_order() {
    assert_eq!(
        route(HttpMethod::GET, b"/files/a.txt"),
        Route::File { method: HttpMethod::GET, name: b"a.txt".to_vec() }
    );
    assert_eq!(
        route(HttpMethod::POST, b"/files/a.txt"),
        Route::File { method: HttpMethod::POST, name: b"a.txt".to_vec() }
    );
    assert_eq!(route(HttpMethod::GET, b"/echo/abc"), Route::Echo { text: b"abc".to_vec() });
    assert_eq!(route(HttpMethod::GET, b"/user-agent"), Route::UserAgent);
    assert_eq!(route(HttpMethod::GET, b"/"), Route::Root);
    assert_eq!(route(HttpMethod::GET, b"/nothing"), Route::NotFound);
}

#[test]
fn route_prefixes_take_all_that_follows() {
    assert_eq!(
        route(HttpMethod::GET, b"/files/echo/x"),
        Route::File { method: HttpMethod::GET, name: b"echo/x".to_vec() }
    );
    assert_eq!(
        route(HttpMethod::GET, b"/echo//files/x"),
        Route::Echo { text: b"/files/x".to_vec() }
    );
    assert_eq!(
        route(HttpMethod::GET, b"/files/"),
        Route::File { method: HttpMethod::GET, name: Vec::new() }
    );
    assert_eq!(route(HttpMethod::GET, b"/echo/"), Route::Echo { text: Vec::new() });
}

#[test]
fn route_of_near_misses_is_not_found() {
    for path in [
        &b""[..],
        b"/files",
        b"/echo",
        b"/Echo/x",
        b"/FILES/x",
        b"/user-agent/",
        b"/User-Agent",
        b"/user-agent?x",
        b"//",
        b"/ ",
        b"x/echo/a",
        b"/index.html",
    ] {
        assert_eq!(route(HttpMethod::GET, path), Route::NotFound);
        assert_eq!(route(HttpMethod::POST, path), Route::NotFound);
    }
}

#[test]
fn names_that_stay_inside() {
    for name in [
        &b""[..],
        b"a",
        b"foo.txt",
        b"a/b/c",
        b"..a",
        b"a..",
        b"a..b",
        b"...",
        b"....",
        b"a/...",
        b".../a",
        b"a/..b/c",
        b"a/b../c",
        b".",
        b"./a",
        b"a/./b",
        b"a//b",
        b"a/",
        b".. ",
        b"..\\a",
    ] {
        assert!(is_contained(name), "{:?}", String::from_utf8_lossy(name));
    }
}

#[test]
fn names_that_do_not_stay_inside() {
    for name in [
        &b".."[..],
        b"../",
        b"../a",
        b"../../etc/passwd",
        b"a/..",
        b"a/../b",
        b"a/b/..",
        b"a/../../b",
        b"a//..",
        b"./..",
        b"/",
        b"/a",
        b"/etc/passwd",
        b"//a",
        b"/..",
    ] {
        assert!(!is_contained(name), "{:?}", String::from_utf8_lossy(name));
    }
}

#[test]
fn config_resolves_names_under_the_base_directory() {
    let config = ServerConfig::new("/srv/data");
    assert_eq!(config.base_directory(), b"/srv/data");
    assert_eq!(config.resolve(b"foo.txt"), b"/srv/data/foo.txt");
    assert_eq!(config.resolve(b"a/b"), b"/srv/data/a/b");
    assert_eq!(config.resolve(b""), b"/srv/data/");
    assert_eq!(ServerConfig::new("./").resolve(b"x"), b".//x");
    assert_eq!(ServerConfig::new("").resolve(b"x"), b"/x");
}

#[test]
fn echo_returns_the_text_byte_for_byte() {
    let response = respond(b"GET /echo/abc HTTP/1.1\r\nHost: a\r\n\r\n");
    assert_eq!(response.status(), Status::Success);
    assert_eq!(response.body(), b"abc");
    assert_eq!(content_length(&response), Some(b"3".to_vec()));
    assert_eq!(
        response.to_bytes(),
        b"HTTP/1.1 200 OK\r\nContent-Type: text/plain\r\nContent-Length: 3\r\n\r\nabc"
    );
}

#[test]
fn echo_keeps_embedded_slashes() {
    let response = respond(b"GET /echo/a/b//c/ HTTP/1.1\r\nHost: a\r\n\r\n");
    assert_eq!(response.status(), Status::Success);
    assert_eq!(response.body(), b"a/b//c/");
    assert_eq!(content_length(&response), Some(b"7".to_vec()));
}

#[test]
fn echo_of_nothing_is_an_empty_body_with_length_zero() {
    let response = respond(b"GET /echo/ HTTP/1.1\r\nHost: a\r\n\r\n");
    assert_eq!(response.status(), Status::Success);
    assert_eq!(response.body(), b"");
    assert_eq!(content_length(&response), Some(b"0".to_vec()));
}

#[test]
fn echo_answers_post_as_well() {
    let response = respond(b"POST /echo/abc HTTP/1.1\r\nHost: a\r\n\r\nignored");
    assert_eq!(response.status(), Status::Success);
    assert_eq!(response.body(), b"abc");
}

#[test]
fn content_length_counts_bytes_not_characters() {
    // Five characters, seven bytes.
    let text = "gr\u{fc}\u{df}e";
    let buffer = format!("GET /echo/{} HTTP/1.1\r\nHost: a\r\n\r\n", text);
    let response = respond(buffer.as_bytes());
    assert_eq!(response.body(), text.as_bytes());
    assert_eq!(content_length(&response), Some(b"7".to_vec()));
    // One character, four bytes.
    let buffer = "GET /user-agent HTTP/1.1\r\nUser-Agent: \u{1f980}\r\n\r\n";
    let response = respond(buffer.as_bytes());
    assert_eq!(response.body(), "\u{1f980}".as_bytes());
    assert_eq!(content_length(&response), Some(b"4".to_vec()));
}

#[test]
fn content_length_matches_body_in_every_response() {
    let requests: [&[u8]; 9] = [
        b"GET / HTTP/1.1\r\nHost: a\r\n\r\n",
        b"GET /echo/hello HTTP/1.1\r\nHost: a\r\n\r\n",
        b"GET /echo/ HTTP/1.1\r\nHost: a\r\n\r\n",
        b"GET /user-agent HTTP/1.1\r\nUser-Agent: x/1\r\n\r\n",
        b"GET /user-agent HTTP/1.1\r\nHost: a\r\n\r\n",
        b"GET /files/../x HTTP/1.1\r\nHost: a\r\n\r\n",
        b"GET /nope HTTP/1.1\r\nHost: a\r\n\r\n",
        b"garbage",
        b"PUT / HTTP/1.1\r\nHost: a\r\n\r\n",
    ];
    let mut responses: Vec<Response> = requests.iter().map(|buffer| respond(buffer)).collect();
    responses.push(answer_read(Some(b"file contents".to_vec())));
    responses.push(answer_read(Some(Vec::new())));
    responses.push(answer_read(None));
    responses.push(answer_write(true));
    responses.push(answer_write(false));
    for response in responses {
        match content_length(&response) {
            Some(digits) => {
                let declared: usize = String::from_utf8(digits).unwrap().parse().unwrap();
                assert_eq!(declared, response.body().len());
            }
            None => assert!(response.body().is_empty()),
        }
    }
}

#[test]
fn user_agent_header_is_returned() {
    let response =
        respond(b"GET /user-agent HTTP/1.1\r\nHost: a\r\nUser-Agent: test-client/1.0\r\n\r\n");
    assert_eq!(response.status(), Status::Success);
    assert_eq!(response.body(), b"test-client/1.0");
    assert_eq!(
        response.to_bytes(),
        &b"HTTP/1.1 200 OK\r\nContent-Type: text/plain\r\nContent-Length: 15\r\n\r\ntest-client/1.0"[..]
    );
}

#[test]
fn user_agent_takes_the_first_of_several() {
    let response = respond(
        b"GET /user-agent HTTP/1.1\r\nuser-agent: no\r\nUser-Agent: one\r\nUser-Agent: two\r\n\r\n",
    );
    assert_eq!(response.body(), b"one");
}

#[test]
fn user_agent_missing_is_a_bad_request() {
    let response = respond(b"GET /user-agent HTTP/1.1\r\nHost: a\r\n\r\n");
    assert_eq!(response.status(), Status::BadRequest);
    assert!(response.body().is_empty());
    let response = respond(b"GET /user-agent HTTP/1.1\r\nuser-agent: lower\r\n\r\n");
    assert_eq!(response.status(), Status::BadRequest);
    let response = respond(b"GET /user-agent HTTP/1.1\r\nUser-Agent:nospace\r\n\r\n");
    assert_eq!(response.status(), Status::BadRequest);
}

#[test]
fn root_is_ok_and_empty() {
    let response = respond(b"GET / HTTP/1.1\r\nHost: a\r\n\r\n");
    assert_eq!(response.status(), Status::Success);
    assert!(response.headers().is_empty());
    assert!(response.body().is_empty());
    assert_eq!(response.to_bytes(), b"HTTP/1.1 200 OK\r\n\r\n");
}

#[test]
fn unknown_paths_are_not_found_and_empty() {
    for path in ["/nothing", "/files", "/echo", "/user-agent/", "//", "/index.html", ""] {
        let buffer = format!("GET {} HTTP/1.1\r\nHost: a\r\n\r\n", path);
        let response = respond(buffer.as_bytes());
        assert_eq!(response.status(), Status::NotFound);
        assert!(response.headers().is_empty());
        assert!(response.body().is_empty());
        assert_eq!(response.to_bytes(), b"HTTP/1.1 404 Not Found\r\n\r\n");
    }
}

#[test]
fn unreadable_requests_are_bad_requests() {
    let buffers: [&[u8]; 7] = [
        b"",
        b"GET / HTTP/1.1",
        b"GET / HTTP/1.1\r\n\r\n",
        b"GET /\r\nHost: a\r\n\r\n",
        b"HEAD / HTTP/1.1\r\nHost: a\r\n\r\n",
        b"GET /\xff HTTP/1.1\r\nHost: a\r\n\r\n",
        b"GET / HTTP/1.1\r\nHost: a\r\n\r\n\xff",
    ];
    for buffer in buffers {
        let response = respond(buffer);
        assert_eq!(response.status(), Status::BadRequest);
        assert_eq!(response.to_bytes(), b"HTTP/1.1 400 Bad Request\r\n\r\n");
    }
}

#[test]
fn get_of_a_file_asks_for_a_read() {
    let action = plan(&config(), b"GET /files/foo.txt HTTP/1.1\r\nHost: a\r\n\r\n");
    assert_eq!(action, Action::ReadFile { path: b"/srv/data/foo.txt".to_vec() });
}

#[test]
fn post_of_a_file_asks_for_a_write_of_the_body() {
    let action = plan(&config(), b"POST /files/foo.txt HTTP/1.1\r\nHost: a\r\n\r\nline 1\r\nline 2");
    assert_eq!(
        action,
        Action::WriteFile {
            path: b"/srv/data/foo.txt".to_vec(),
            contents: b"line 1\r\nline 2".to_vec(),
        }
    );
}

#[test]
fn dispatch_agrees_with_plan() {
    let buffer = b"POST /files/d/e.bin HTTP/1.1\r\nHost: a\r\n\r\n\x00\x01";
    let request = parse_request(buffer).unwrap();
    assert_eq!(dispatch(&config(), &request), plan(&config(), buffer));
    assert_eq!(
        dispatch(&config(), &request),
        Action::WriteFile { path: b"/srv/data/d/e.bin".to_vec(), contents: vec![0, 1] }
    );
}

#[test]
fn file_names_that_leave_the_base_directory_are_forbidden() {
    for name in ["..", "../secret", "a/../../secret", "a/..", "/etc/passwd", "/"] {
        for method in ["GET", "POST"] {
            let buffer = format!("{} /files/{} HTTP/1.1\r\nHost: a\r\n\r\nbody", method, name);
            let response = respond(buffer.as_bytes());
            assert_eq!(response.status(), Status::Forbidden);
            assert!(response.body().is_empty());
            assert_eq!(response.to_bytes(), b"HTTP/1.1 403 Forbidden\r\n\r\n");
        }
    }
}

#[test]
fn file_names_with_dots_that_stay_inside_are_served() {
    for name in ["..a", "a..", "a..b/c", "...", ".hidden", "a/./b"] {
        let buffer = format!("GET /files/{} HTTP/1.1\r\nHost: a\r\n\r\n", name);
        let expected = format!("/srv/data/{}", name);
        assert_eq!(
            plan(&config(), buffer.as_bytes()),
            Action::ReadFile { path: expected.into_bytes() }
        );
    }
}

#[test]
fn read_answers() {
    let found = answer_read(Some(b"hello".to_vec()));
    assert_eq!(
        found.to_bytes(),
        &b"HTTP/1.1 200 OK\r\nContent-Type: application/octet-stream\r\nContent-Length: 5\r\n\r\nhello"[..]
    );
    let empty = answer_read(Some(Vec::new()));
    assert_eq!(empty.status(), Status::Success);
    assert_eq!(content_length(&empty), Some(b"0".to_vec()));
    let missing = answer_read(None);
    assert_eq!(missing.status(), Status::NotFound);
    assert!(missing.body().is_empty());
    assert_eq!(missing.to_bytes(), b"HTTP/1.1 404 Not Found\r\n\r\n");
}

#[test]
fn write_answers() {
    let stored = answer_write(true);
    assert_eq!(stored.status(), Status::Created);
    assert!(stored.body().is_empty());
    assert_eq!(stored.to_bytes(), b"HTTP/1.1 201 Created\r\n\r\n");
    let failed = answer_write(false);
    assert_eq!(failed.status(), Status::InternalServerError);
    assert_eq!(failed.to_bytes(), b"HTTP/1.1 500 Internal Server Error\r\n\r\n");
}

#[test]
fn file_paths_are_text() {
    let buffer = "POST /files/\u{e4}/\u{20ac}.txt HTTP/1.1\r\nHost: a\r\n\r\n\u{1f980}";
    match plan(&config(), buffer.as_bytes()) {
        Action::WriteFile { path, contents } => {
            assert_eq!(String::from_utf8(path).unwrap(), "/srv/data/\u{e4}/\u{20ac}.txt");
            assert_eq!(contents, "\u{1f980}".as_bytes());
        }
        other => panic!("expected a write, got {:?}", other),
    }
}
