use worker_pool::routes::{
    file_name, http_response, route_for, simulates_slow_work, status_line, Route,
};

#[test]
fn root_request_is_served_the_home_page() {
    let r = route_for("GET / HTTP/1.1");
    assert_eq!(r, Route::Home);
    assert_eq!(status_line(r), "HTTP/1.1 200 OK");
    assert_eq!(file_name(r), "hello.html");
    assert!(!simulates_slow_work(r));
}

#[test]
fn sleep_request_is_served_slowly() {
    let r = route_for("GET /sleep HTTP/1.1");
    assert_eq!(r, Route::Sleep);
    assert_eq!(status_line(r), "HTTP/1.1 200 OK");
    assert_eq!(file_name(r), "hello.html");
    assert!(simulates_slow_work(r));
}

#[test]
fn unknown_request_is_answered_not_found() {
    let r = route_for("GET /notfound HTTP/1.1");
    assert_eq!(r, Route::NotFound);
    assert_eq!(status_line(r), "HTTP/1.1 404 NOT FOUND");
    assert_eq!(file_name(r), "404.html");
    assert!(!simulates_slow_work(r));
}

#[test]
fn malformed_request_is_answered_not_found() {
    assert_eq!(route_for(""), Route::NotFound);
    assert_eq!(route_for("POST / HTTP/1.1"), Route::NotFound);
    assert_eq!(route_for("GET / HTTP/1.0"), Route::NotFound);
}

#[test]
fn response_is_status_blank_line_contents() {
    let resp = http_response("HTTP/1.1 200 OK", "Hello!");
    assert_eq!(resp, "HTTP/1.1 200 OK\r\n\r\nHello!".to_string());
}

#[test]
fn response_with_empty_body() {
    let resp = http_response("HTTP/1.1 404 NOT FOUND", "");
    assert_eq!(resp, "HTTP/1.1 404 NOT FOUND\r\n\r\n".to_string());
}
