use webserver::connection::{accept_request_line, respond, route, Failure, Page, Route};
use webserver::headers::{read_headers, HeaderReader, LineRead};
use webserver::request::{parse_request_line, HttpRequest};
use webserver::response::{decimal_string, error_response, render_response};
use webserver::text::{is_blank_line, is_whitespace, word_spans};

fn request(method: &str, path: &str) -> HttpRequest {
    HttpRequest {
        method: method.to_string(),
        path: path.to_string(),
        version: "HTTP/1.1".to_string(),
    }
}

fn line(text: &str) -> LineRead {
    LineRead::Line(text.to_string())
}

#[test]
fn white_space_is_what_the_standard_library_calls_white_space() {
    let mut seen = 0u32;
    for code in 0..=0x10FFFFu32 {
        if let Some(c) = char::from_u32(code) {
            assert_eq!(is_whitespace(c), c.is_whitespace(), "U+{code:04X}");
            if is_whitespace(c) {
                seen += 1;
            }
        }
    }
    assert_eq!(seen, 25);
}

#[test]
fn blank_lines_are_empty_or_white_space_throughout() {
    assert!(is_blank_line(""));
    assert!(is_blank_line(" "));
    assert!(is_blank_line(" \t\r\n\u{3000}"));
    assert!(!is_blank_line("a"));
    assert!(!is_blank_line("  a  "));
    assert!(!is_blank_line("\u{200B}"));
    for text in ["", " ", "\t \r", "x", " x", "\u{a0}", "é", "\u{2003}\u{2003}."] {
        assert_eq!(is_blank_line(text), text.trim().is_empty(), "{text:?}");
    }
}

#[test]
fn word_spans_mark_each_word() {
    assert_eq!(word_spans(""), vec![]);
    assert_eq!(word_spans("   "), vec![]);
    assert_eq!(word_spans("GET / HTTP/1.1"), vec![(0, 3), (4, 5), (6, 14)]);
    assert_eq!(word_spans("  a\t\tbc \n"), vec![(2, 3), (5, 7)]);
    assert_eq!(word_spans("é\u{a0}ü"), vec![(0, 1), (2, 3)]);
    assert_eq!(word_spans("x"), vec![(0, 1)]);
}

#[test]
fn word_spans_agree_with_split_whitespace() {
    for text in [
        "",
        " ",
        "GET / HTTP/1.1",
        "  GET   /index.html\tHTTP/1.0  ",
        "a",
        " a",
        "a ",
        "ab  cd ef gh",
        "naïve\u{2003}café\u{3000}日本語",
        "\r\n",
    ] {
        let chars: Vec<char> = text.chars().collect();
        let found: Vec<String> = word_spans(text)
            .into_iter()
            .map(|(from, to)| chars[from..to].iter().collect())
            .collect();
        let expected: Vec<String> = text.split_whitespace().map(str::to_string).collect();
        assert_eq!(found, expected, "{text:?}");
    }
}

#[test]
fn request_line_with_three_words_is_taken_apart() {
    let request = parse_request_line("GET / HTTP/1.1").unwrap();
    assert_eq!(request.method, "GET");
    assert_eq!(request.path, "/");
    assert_eq!(request.version, "HTTP/1.1");
}

#[test]
fn request_line_may_hold_any_white_space_between_and_around_its_words() {
    let request = parse_request_line("  POST\t/päth/ü \u{3000} HTTP/1.0\r").unwrap();
    assert_eq!(request.method, "POST");
    assert_eq!(request.path, "/päth/ü");
    assert_eq!(request.version, "HTTP/1.0");
}

#[test]
fn request_line_with_another_number_of_words_is_refused() {
    assert!(parse_request_line("").is_none());
    assert!(parse_request_line("   ").is_none());
    assert!(parse_request_line("GET").is_none());
    assert!(parse_request_line("GET /").is_none());
    assert!(parse_request_line("GET / HTTP/1.1 extra").is_none());
    assert!(parse_request_line("GET /a b HTTP/1.1").is_none());
}

#[test]
fn headers_end_at_the_first_blank_line() {
    let reads = vec![
        line("Host: localhost"),
        line("Accept: */*"),
        line(""),
        line("body"),
    ];
    assert_eq!(read_headers(&reads), vec!["Host: localhost", "Accept: */*"]);
}

#[test]
fn headers_end_at_a_line_of_white_space() {
    let reads = vec![line("Host: a"), line(" \t"), line("Later: b")];
    assert_eq!(read_headers(&reads), vec!["Host: a"]);
}

#[test]
fn headers_end_at_the_first_failed_read() {
    let reads = vec![line("Host: a"), LineRead::Failed, line("Later: b")];
    assert_eq!(read_headers(&reads), vec!["Host: a"]);
    assert_eq!(read_headers(&vec![LineRead::Failed]), Vec::<String>::new());
}

#[test]
fn headers_run_to_the_end_where_nothing_ends_them() {
    let reads = vec![line("A: 1"), line("B: 2"), line("C: 3")];
    assert_eq!(read_headers(&reads), vec!["A: 1", "B: 2", "C: 3"]);
    assert_eq!(read_headers(&vec![]), Vec::<String>::new());
    assert_eq!(read_headers(&vec![line("")]), Vec::<String>::new());
}

#[test]
fn header_reader_takes_lines_until_the_block_ends() {
    let mut reader = HeaderReader::new();
    assert!(!reader.is_done());
    assert!(reader.feed(line("Host: a")));
    assert!(reader.feed(line("  Accept: b  ")));
    assert!(!reader.is_done());
    assert!(!reader.feed(line("")));
    assert!(reader.is_done());
    assert!(!reader.feed(line("Ignored: c")));
    assert!(reader.is_done());
    assert_eq!(reader.into_lines(), vec!["Host: a", "  Accept: b  "]);
}

#[test]
fn header_reader_stops_at_a_failed_read() {
    let mut reader = HeaderReader::new();
    assert!(!reader.feed(LineRead::Failed));
    assert!(reader.is_done());
    assert_eq!(reader.into_lines(), Vec::<String>::new());
}

#[test]
fn numbers_are_written_in_base_ten() {
    assert_eq!(decimal_string(0), "0");
    assert_eq!(decimal_string(7), "7");
    assert_eq!(decimal_string(9), "9");
    assert_eq!(decimal_string(10), "10");
    assert_eq!(decimal_string(99), "99");
    assert_eq!(decimal_string(100), "100");
    assert_eq!(decimal_string(1234567890), "1234567890");
    assert_eq!(decimal_string(usize::MAX), usize::MAX.to_string());
}

#[test]
fn response_frames_the_content_with_its_length() {
    assert_eq!(
        render_response("HTTP/1.1 200 OK", "<h1>Hello</h1>"),
        "HTTP/1.1 200 OK\r\nContent-Length: 14\r\n\r\n<h1>Hello</h1>"
    );
    assert_eq!(
        render_response("HTTP/1.1 404 NOT FOUND", ""),
        "HTTP/1.1 404 NOT FOUND\r\nContent-Length: 0\r\n\r\n"
    );
}

#[test]
fn response_length_counts_bytes_not_characters() {
    assert_eq!(
        render_response("HTTP/1.1 200 OK", "héllo €"),
        "HTTP/1.1 200 OK\r\nContent-Length: 10\r\n\r\nhéllo €"
    );
}

#[test]
fn error_response_names_the_status_and_carries_the_message() {
    assert_eq!(
        error_response("400 Bad Request", "Invalid request"),
        "HTTP/1.1 400 Bad Request\r\nContent-Length: 15\r\n\r\nInvalid request"
    );
    assert_eq!(
        error_response("500 Internal Server Error", "Failed to read file"),
        "HTTP/1.1 500 Internal Server Error\r\nContent-Length: 19\r\n\r\nFailed to read file"
    );
}

#[test]
fn each_failure_has_its_status_and_message() {
    assert_eq!(Failure::InvalidRequest.status(), "400 Bad Request");
    assert_eq!(Failure::InvalidRequest.message(), "Invalid request");
    assert_eq!(Failure::EmptyRequest.status(), "400 Bad Request");
    assert_eq!(Failure::EmptyRequest.message(), "Empty request");
    assert_eq!(Failure::MalformedRequestLine.status(), "400 Bad Request");
    assert_eq!(Failure::MalformedRequestLine.message(), "Malformed request line");
    assert_eq!(Failure::FileUnreadable.status(), "500 Internal Server Error");
    assert_eq!(Failure::FileUnreadable.message(), "Failed to read file");
    assert_eq!(
        Failure::EmptyRequest.response(),
        "HTTP/1.1 400 Bad Request\r\nContent-Length: 13\r\n\r\nEmpty request"
    );
    assert_eq!(
        Failure::MalformedRequestLine.response(),
        "HTTP/1.1 400 Bad Request\r\nContent-Length: 22\r\n\r\nMalformed request line"
    );
}

#[test]
fn get_of_the_root_is_answered_with_the_front_page() {
    assert_eq!(
        route(&request("GET", "/")),
        Route { page: Page::Index, delay_secs: 0 }
    );
}

#[test]
fn get_of_sleep_is_answered_with_the_front_page_after_five_seconds() {
    assert_eq!(
        route(&request("GET", "/sleep")),
        Route { page: Page::Index, delay_secs: 5 }
    );
}

#[test]
fn everything_else_is_not_found() {
    let not_found = Route { page: Page::NotFound, delay_secs: 0 };
    assert_eq!(route(&request("GET", "/other")), not_found);
    assert_eq!(route(&request("POST", "/")), not_found);
    assert_eq!(route(&request("POST", "/sleep")), not_found);
    assert_eq!(route(&request("get", "/")), not_found);
    assert_eq!(route(&request("GET", "")), not_found);
    assert_eq!(route(&request("GET", "/sleep/")), not_found);
}

#[test]
fn pages_have_their_status_line_and_file() {
    assert_eq!(Page::Index.status_line(), "HTTP/1.1 200 OK");
    assert_eq!(Page::Index.filename(), "index.html");
    assert_eq!(Page::NotFound.status_line(), "HTTP/1.1 404 NOT FOUND");
    assert_eq!(Page::NotFound.filename(), "404.html");
}

#[test]
fn first_line_of_three_words_is_accepted() {
    let request = accept_request_line(Some(line("GET /sleep HTTP/1.1"))).unwrap();
    assert_eq!(request.method, "GET");
    assert_eq!(request.path, "/sleep");
    assert_eq!(request.version, "HTTP/1.1");
}

#[test]
fn missing_first_line_is_an_empty_request() {
    assert_eq!(accept_request_line(None).unwrap_err(), Failure::EmptyRequest);
}

#[test]
fn unreadable_first_line_is_an_invalid_request() {
    assert_eq!(
        accept_request_line(Some(LineRead::Failed)).unwrap_err(),
        Failure::InvalidRequest
    );
}

#[test]
fn first_line_of_another_shape_is_malformed() {
    assert_eq!(
        accept_request_line(Some(line("GET /"))).unwrap_err(),
        Failure::MalformedRequestLine
    );
    assert_eq!(
        accept_request_line(Some(line(""))).unwrap_err(),
        Failure::MalformedRequestLine
    );
    assert_eq!(
        accept_request_line(Some(line("a b c d"))).unwrap_err(),
        Failure::MalformedRequestLine
    );
}

#[test]
fn loaded_page_is_sent_under_its_status_line() {
    let index = Route { page: Page::Index, delay_secs: 0 };
    assert_eq!(
        respond(index, Some("<p>hi</p>".to_string())),
        "HTTP/1.1 200 OK\r\nContent-Length: 9\r\n\r\n<p>hi</p>"
    );
    let missing = Route { page: Page::NotFound, delay_secs: 0 };
    assert_eq!(
        respond(missing, Some("gone".to_string())),
        "HTTP/1.1 404 NOT FOUND\r\nContent-Length: 4\r\n\r\ngone"
    );
}

#[test]
fn page_that_cannot_be_loaded_is_answered_with_a_server_error() {
    let index = Route { page: Page::Index, delay_secs: 5 };
    assert_eq!(
        respond(index, None),
        "HTTP/1.1 500 Internal Server Error\r\nContent-Length: 19\r\n\r\nFailed to read file"
    );
}
