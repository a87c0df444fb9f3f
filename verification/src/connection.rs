//! What is decided in the course of one connection: whether the first line
//! is a request, which page answers it, and what is sent back. Reading from
//! the peer, loading the page and sending are the caller's.

use crate::headers::LineRead;
use crate::request::{parse_request_line, HttpRequest};
use crate::response::{error_response, error_text, render_response, response_text};
use crate::text::words;
use vstd::prelude::*;

verus! {

/// Why a connection is answered with an error.
#[derive(Clone, Copy, PartialEq, Eq, Structural, Debug)]
pub enum Failure {
    /// The first line could not be read.
    InvalidRequest,
    /// The peer sent nothing.
    EmptyRequest,
    /// The first line does not hold a method, a path and a version.
    MalformedRequestLine,
    /// The page could not be loaded.
    FileUnreadable,
}

impl Failure {
    /// The status sent for this failure.
    pub open spec fn status_text(self) -> Seq<char> {
        match self {
            Failure::FileUnreadable => "500 Internal Server Error"@,
            _ => "400 Bad Request"@,
        }
    }

    /// The body sent for this failure.
    pub open spec fn message_text(self) -> Seq<char> {
        match self {
            Failure::InvalidRequest => "Invalid request"@,
            Failure::EmptyRequest => "Empty request"@,
            Failure::MalformedRequestLine => "Malformed request line"@,
            Failure::FileUnreadable => "Failed to read file"@,
        }
    }

    /// The text of the response sent for this failure.
    pub open spec fn text(self) -> Seq<char> {
        error_text(self.status_text(), self.message_text())
    }

    /// The status sent for this failure.
    pub fn status(self) -> (s: &'static str)
        ensures
            s@ == self.status_text(),
    {
        match self {
            Failure::FileUnreadable => "500 Internal Server Error",
            _ => "400 Bad Request",
        }
    }

    /// The body sent for this failure.
    pub fn message(self) -> (s: &'static str)
        ensures
            s@ == self.message_text(),
    {
        match self {
            Failure::InvalidRequest => "Invalid request",
            Failure::EmptyRequest => "Empty request",
            Failure::MalformedRequestLine => "Malformed request line",
            Failure::FileUnreadable => "Failed to read file",
        }
    }

    /// Builds the response sent for this failure.
    pub fn response(self) -> (r: String)
        ensures
            r@ == self.text(),
    {
        error_response(self.status(), self.message())
    }
}

/// A page the server can answer with.
#[derive(Clone, Copy, PartialEq, Eq, Structural, Debug)]
pub enum Page {
    /// The front page.
    Index,
    /// The page for what is not there.
    NotFound,
}

impl Page {
    /// The status line sent with this page.
    pub open spec fn status_text(self) -> Seq<char> {
        match self {
            Page::Index => "HTTP/1.1 200 OK"@,
            Page::NotFound => "HTTP/1.1 404 NOT FOUND"@,
        }
    }

    /// The name of the file that holds this page.
    pub open spec fn file_text(self) -> Seq<char> {
        match self {
            Page::Index => "index.html"@,
            Page::NotFound => "404.html"@,
        }
    }

    /// The status line sent with this page.
    pub fn status_line(self) -> (s: &'static str)
        ensures
            s@ == self.status_text(),
    {
        match self {
            Page::Index => "HTTP/1.1 200 OK",
            Page::NotFound => "HTTP/1.1 404 NOT FOUND",
        }
    }

    /// The name of the file that holds this page.
    pub fn filename(self) -> (s: &'static str)
        ensures
            s@ == self.file_text(),
    {
        match self {
            Page::Index => "index.html",
            Page::NotFound => "404.html",
        }
    }
}

/// How a request is answered: with which page, and after how long a pause.
#[derive(Clone, Copy, PartialEq, Eq, Structural, Debug)]
pub struct Route {
    /// The page to send.
    pub page: Page,
    /// The seconds to let pass before the page is loaded.
    pub delay_secs: u64,
}

/// The route for a method and a path: `GET /` is answered with the front
/// page at once, `GET /sleep` with the front page after five seconds, and
/// everything else with the page for what is not there.
pub open spec fn route_for(method: Seq<char>, path: Seq<char>) -> Route {
    if method == "GET"@ && path == "/"@ {
        Route { page: Page::Index, delay_secs: 0 }
    } else if method == "GET"@ && path == "/sleep"@ {
        Route { page: Page::Index, delay_secs: 5 }
    } else {
        Route { page: Page::NotFound, delay_secs: 0 }
    }
}

fn is_text(s: &String, text: &str) -> (b: bool)
    ensures
        b == (s@ == text@),
{
    *s == text.to_owned()
}

/// Chooses the route for `request`.
pub fn route(request: &HttpRequest) -> (r: Route)
    ensures
        r == route_for(request.method@, request.path@),
{
    if is_text(&request.method, "GET") && is_text(&request.path, "/") {
        Route { page: Page::Index, delay_secs: 0 }
    } else if is_text(&request.method, "GET") && is_text(&request.path, "/sleep") {
        Route { page: Page::Index, delay_secs: 5 }
    } else {
        Route { page: Page::NotFound, delay_secs: 0 }
    }
}

/// Judges the first read of a connection. A line of exactly three words is
/// the request; a line of any other shape is malformed; a failed read is an
/// invalid request; and no line at all is an empty one.
pub fn accept_request_line(first: Option<LineRead>) -> (r: Result<HttpRequest, Failure>)
    ensures
        match first {
            None => r == Err::<HttpRequest, Failure>(Failure::EmptyRequest),
            Some(LineRead::Failed) => r == Err::<HttpRequest, Failure>(Failure::InvalidRequest),
            Some(LineRead::Line(line)) => if words(line@).len() == 3 {
                r is Ok && r->Ok_0.parts() == words(line@) && r->Ok_0.wf()
            } else {
                r == Err::<HttpRequest, Failure>(Failure::MalformedRequestLine)
            },
        },
{
    match first {
        None => Err(Failure::EmptyRequest),
        Some(LineRead::Failed) => Err(Failure::InvalidRequest),
        Some(LineRead::Line(line)) => match parse_request_line(line.as_str()) {
            Some(request) => Ok(request),
            None => Err(Failure::MalformedRequestLine),
        },
    }
}

/// Builds what is sent back for `route`, given what loading its page gave:
/// the page under its status line, or the error response for a page that
/// could not be loaded.
pub fn respond(route: Route, content: Option<String>) -> (r: String)
    ensures
        r@ == match content {
            Some(text) => response_text(route.page.status_text(), text@),
            None => Failure::FileUnreadable.text(),
        },
{
    match content {
        Some(text) => render_response(route.page.status_line(), text.as_str()),
        None => Failure::FileUnreadable.response(),
    }
}

} // verus!
