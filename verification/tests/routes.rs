use static_directory_server::{respond, route, Action, Header, Response, Route};
use static_directory_server::StaticDirectoryServer;

fn header(name: &str, value: &str) -> Header {
    Header { name: name.to_string(), value: value.to_string() }
}

fn partial_content() -> Response {
    Response {
        status: 206,
        headers: vec![
            header("Accept-Ranges", "bytes"),
            header("Content-Type", "application/octet-stream"),
            header("Content-Length", "9"),
        ],
        body: vec![1, 2, 3, 4, 5, 6, 7, 8, 9],
    }
}

fn method_not_allowed() -> Response {
    Response { status: 405, headers: vec![], body: vec![] }
}

fn redirect_to(location: &str) -> Response {
    Response { status: 307, headers: vec![header("Location", location)], body: vec![] }
}

#[test]
fn redirect_names_the_method_of_the_request() {
    for method in ["GET", "POST", "PUT", "DELETE", "PATCH"] {
        let expected = redirect_to(&format!("/only-works-with-method/{}", method));
        assert_eq!(respond(method, "/redirect-method"), Action::Respond(expected));
    }
}

#[test]
fn redirect_keeps_the_method_as_received() {
    assert_eq!(
        StaticDirectoryServer::redirect_method("get"),
        redirect_to("/only-works-with-method/get")
    );
    assert_eq!(
        StaticDirectoryServer::redirect_method("M-SEARCH"),
        redirect_to("/only-works-with-method/M-SEARCH")
    );
    assert_eq!(StaticDirectoryServer::redirect_method(""), redirect_to("/only-works-with-method/"));
}

#[test]
fn redirect_is_temporary_and_has_no_body() {
    let response = StaticDirectoryServer::redirect_method("HEAD");
    assert_eq!(response.status, 307);
    assert_eq!(response.headers.len(), 1);
    assert_eq!(response.headers[0].name, "Location");
    assert_eq!(response.headers[0].value, "/only-works-with-method/HEAD");
    assert!(response.body.is_empty());
}

#[test]
fn matching_method_gets_partial_content() {
    let action = respond("GET", "/only-works-with-method/GET");
    match action {
        Action::Respond(response) => {
            assert_eq!(response.status, 206);
            assert_eq!(response.body, vec![1, 2, 3, 4, 5, 6, 7, 8, 9]);
            assert_eq!(response.body.len(), 9);
            assert!(response.headers.contains(&header("Content-Length", "9")));
            assert_eq!(response, partial_content());
        }
        Action::FetchFromDirectory => panic!("the method matcher answers this path"),
    }
}

#[test]
fn other_method_is_not_allowed() {
    let action = respond("POST", "/only-works-with-method/GET");
    match action {
        Action::Respond(response) => {
            assert_eq!(response.status, 405);
            assert!(response.body.is_empty());
            assert!(response.headers.is_empty());
        }
        Action::FetchFromDirectory => panic!("the method matcher answers this path"),
    }
}

#[test]
fn every_method_matches_its_own_path() {
    for method in ["GET", "POST", "PUT", "DELETE", "PATCH", "HEAD", "OPTIONS"] {
        let path = format!("/only-works-with-method/{}", method);
        assert_eq!(respond(method, &path), Action::Respond(partial_content()));
    }
}

#[test]
fn method_matcher_compares_exactly() {
    assert_eq!(StaticDirectoryServer::method_matcher("GET", "GET"), partial_content());
    assert_eq!(StaticDirectoryServer::method_matcher("get", "GET"), method_not_allowed());
    assert_eq!(StaticDirectoryServer::method_matcher("GET", "get"), method_not_allowed());
    assert_eq!(StaticDirectoryServer::method_matcher("GE", "GET"), method_not_allowed());
    assert_eq!(StaticDirectoryServer::method_matcher("GETS", "GET"), method_not_allowed());
    assert_eq!(StaticDirectoryServer::method_matcher("", "GET"), method_not_allowed());
    assert_eq!(StaticDirectoryServer::method_matcher("GET ", "GET"), method_not_allowed());
    assert_eq!(StaticDirectoryServer::method_matcher("PUT", "POST"), method_not_allowed());
}

#[test]
fn method_matcher_compares_characters_beyond_ascii() {
    assert_eq!(StaticDirectoryServer::method_matcher("GÉT", "GÉT"), partial_content());
    assert_eq!(StaticDirectoryServer::method_matcher("GÉT", "GET"), method_not_allowed());
    assert_eq!(StaticDirectoryServer::method_matcher("GET", "GÉT"), method_not_allowed());
}

#[test]
fn content_length_is_the_length_of_the_body() {
    let response = StaticDirectoryServer::method_matcher("PATCH", "PATCH");
    let length = response
        .headers
        .iter()
        .find(|header| header.name == "Content-Length")
        .map(|header| header.value.clone());
    assert_eq!(length, Some(response.body.len().to_string()));
}

#[test]
fn following_the_redirect_reaches_the_matcher() {
    for method in ["GET", "POST", "PUT", "DELETE", "PATCH"] {
        let location = match respond(method, "/redirect-method") {
            Action::Respond(response) => response.headers[0].value.clone(),
            Action::FetchFromDirectory => panic!("the redirect answers this path"),
        };
        assert_eq!(respond(method, &location), Action::Respond(partial_content()));
        let other = if method == "GET" { "POST" } else { "GET" };
        assert_eq!(respond(other, &location), Action::Respond(method_not_allowed()));
    }
}

#[test]
fn special_routes_are_matched_exactly() {
    assert_eq!(route("/redirect-method"), Route::RedirectMethod);
    assert_eq!(
        route("/only-works-with-method/GET"),
        Route::MethodMatcher { method: "GET".to_string() }
    );
    assert_eq!(
        route("/only-works-with-method/anything at all"),
        Route::MethodMatcher { method: "anything at all".to_string() }
    );
    assert_eq!(
        route("/only-works-with-method/redirect-method"),
        Route::MethodMatcher { method: "redirect-method".to_string() }
    );
    assert_eq!(
        route("/only-works-with-method/G%45T"),
        Route::MethodMatcher { method: "G%45T".to_string() }
    );
    assert_eq!(
        route("/only-works-with-method/méthode"),
        Route::MethodMatcher { method: "méthode".to_string() }
    );
}

#[test]
fn every_other_path_belongs_to_the_directory() {
    for path in [
        "",
        "/",
        "/index.html",
        "/nested/file.txt",
        "/redirect-method/",
        "/redirect-method/GET",
        "/redirect-metho",
        "/redirect-methods",
        "/Redirect-Method",
        "redirect-method",
        "//redirect-method",
        "/redirect-method?x=1",
        "/only-works-with-method",
        "/only-works-with-method/",
        "/only-works-with-method/GET/",
        "/only-works-with-method/GET/more",
        "/only-works-with-method//GET",
        "/Only-Works-With-Method/GET",
        "only-works-with-method/GET",
        "/nested/only-works-with-method/GET",
        "/only-works-with-methodGET",
    ] {
        assert_eq!(route(path), Route::Directory, "path {:?}", path);
        for method in ["GET", "POST", "HEAD"] {
            assert_eq!(respond(method, path), Action::FetchFromDirectory, "path {:?}", path);
        }
    }
}

#[test]
fn method_does_not_change_the_route_of_the_special_paths() {
    for method in ["GET", "POST", "PUT", "DELETE", "PATCH", "HEAD", "OPTIONS", "TRACE"] {
        assert!(matches!(respond(method, "/redirect-method"), Action::Respond(_)));
        assert!(matches!(respond(method, "/only-works-with-method/GET"), Action::Respond(_)));
    }
}

#[test]
fn redirect_does_not_sanitize_the_method() {
    assert_eq!(
        StaticDirectoryServer::redirect_method("A/B"),
        redirect_to("/only-works-with-method/A/B")
    );
    assert_eq!(route("/only-works-with-method/A/B"), Route::Directory);
    assert_eq!(respond("A/B", "/only-works-with-method/A/B"), Action::FetchFromDirectory);
}
