use vstd::prelude::*;
use vstd::string::*;

verus! {

/// Where a request is routed. The surrounding connection handler reads the
/// request line off the stream, asks this module for the decision, and owns
/// all I/O: the optional delay, the file read, and the write back.
#[derive(Debug, Clone, Copy, PartialEq, Eq, Structural)]
pub enum Route {
    /// The root page.
    Home,
    /// The root page again, after a deliberate delay that simulates slow
    /// work and so occupies one worker for the duration.
    Sleep,
    /// Any other request.
    NotFound,
}

/// The routing table over the request line.
pub open spec fn spec_route(line: Seq<char>) -> Route {
    if line == "GET / HTTP/1.1"@ {
        Route::Home
    } else if line == "GET /sleep HTTP/1.1"@ {
        Route::Sleep
    } else {
        Route::NotFound
    }
}

/// Decide the route for a request line.
pub fn route_for(line: &str) -> (r: Route)
    ensures
        r == spec_route(line@),
{
    let own: String = line.to_owned();
    if own == "GET / HTTP/1.1".to_owned() {
        Route::Home
    } else if own == "GET /sleep HTTP/1.1".to_owned() {
        Route::Sleep
    } else {
        Route::NotFound
    }
}

pub open spec fn spec_status_line(r: Route) -> Seq<char> {
    match r {
        Route::Home => "HTTP/1.1 200 OK"@,
        Route::Sleep => "HTTP/1.1 200 OK"@,
        Route::NotFound => "HTTP/1.1 404 NOT FOUND"@,
    }
}

/// The status line a route is answered with: known pages succeed, anything
/// else is reported missing.
pub fn status_line(r: Route) -> (s: &'static str)
    ensures
        s@ == spec_status_line(r),
{
    match r {
        Route::Home => "HTTP/1.1 200 OK",
        Route::Sleep => "HTTP/1.1 200 OK",
        Route::NotFound => "HTTP/1.1 404 NOT FOUND",
    }
}

pub open spec fn spec_file_name(r: Route) -> Seq<char> {
    match r {
        Route::Home => "hello.html"@,
        Route::Sleep => "hello.html"@,
        Route::NotFound => "404.html"@,
    }
}

/// The page served for a route.
pub fn file_name(r: Route) -> (s: &'static str)
    ensures
        s@ == spec_file_name(r),
{
    match r {
        Route::Home => "hello.html",
        Route::Sleep => "hello.html",
        Route::NotFound => "404.html",
    }
}

/// Whether the handler must pause before answering, to simulate slow work.
pub fn simulates_slow_work(r: Route) -> (b: bool)
    ensures
        b == (r is Sleep),
{
    match r {
        Route::Sleep => true,
        _ => false,
    }
}

/// Assemble the response text: the status line, a blank line, then the
/// page contents.
pub fn http_response(status: &str, contents: &str) -> (resp: String)
    ensures
        resp@ == status@ + "\r\n\r\n"@ + contents@,
{
    let mut resp: String = status.to_owned();
    resp.append("\r\n\r\n");
    resp.append(contents);
    resp
}

} // verus!
