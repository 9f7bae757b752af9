//! The route table: which of three behaviours answers a request, and what the two fixed handlers
//! send back.

use crate::response::{
    Header, HeaderView, Response, ResponseView, BAD_REQUEST, METHOD_NOT_ALLOWED, PARTIAL_CONTENT,
    TEMPORARY_REDIRECT,
};
use crate::segment::{captured_text, decode_segment, text_view};
use crate::server::StaticDirectoryServer;
use crate::text::{begins_with, chars_of, decimal, decimal_text, occurs_from, same_chars, same_text};
use vstd::prelude::*;
use vstd::string::*;
use vstd::utf8::encode_utf8;

verus! {

/// The path that is answered with a redirect.
pub const REDIRECT_PATH: &'static str = "/redirect-method";

/// What the path of the method matcher begins with; the rest of such a path is the method that
/// it asks for.
pub const MATCHER_PREFIX: &'static str = "/only-works-with-method/";

/// What is said to a request for a matcher path whose segment stands for no text.
pub const UNDECODABLE_SEGMENT: &'static str = "Invalid URL: Invalid UTF-8 in `method`";

/// The characters of [`REDIRECT_PATH`].
pub open spec fn redirect_path() -> Seq<char> {
    REDIRECT_PATH@
}

/// The characters of [`MATCHER_PREFIX`].
pub open spec fn matcher_prefix() -> Seq<char> {
    MATCHER_PREFIX@
}

/// Whether `text` can be the last segment of a path: it is not empty and holds no slash.
pub open spec fn is_segment(text: Seq<char>) -> bool {
    text.len() > 0 && !text.contains('/')
}

/// The body of a response to a request whose method matched.
pub open spec fn matched_body() -> Seq<u8> {
    seq![1u8, 2u8, 3u8, 4u8, 5u8, 6u8, 7u8, 8u8, 9u8]
}

/// The behaviour that answers a request.
#[derive(Debug, PartialEq, Eq)]
pub enum Route {
    /// The directory content server answers, with whatever it finds at the path.
    Directory,
    /// The request is redirected to the method matcher, at the path of its own method.
    RedirectMethod,
    /// The request's method is held against the one that the path names. What is kept here is
    /// the segment of the path that names it, as it stands in the path.
    MethodMatcher { method: String },
}

/// What a [`Route`] stands for.
pub enum RouteView {
    Directory,
    RedirectMethod,
    MethodMatcher { method: Seq<char> },
}

impl View for Route {
    type V = RouteView;

    open spec fn view(&self) -> RouteView {
        match self {
            Route::Directory => RouteView::Directory,
            Route::RedirectMethod => RouteView::RedirectMethod,
            Route::MethodMatcher { method } => RouteView::MethodMatcher { method: method@ },
        }
    }
}

/// The route of a path. The two special routes are matched exactly, character by character and
/// on the path as it was written; every other path belongs to the directory.
pub open spec fn route_of(path: Seq<char>) -> RouteView {
    if path == redirect_path() {
        RouteView::RedirectMethod
    } else if matcher_prefix().is_prefix_of(path) && is_segment(
        path.skip(matcher_prefix().len() as int),
    ) {
        RouteView::MethodMatcher { method: path.skip(matcher_prefix().len() as int) }
    } else {
        RouteView::Directory
    }
}

/// The response that redirects a request made with `method`.
pub open spec fn redirect_response(method: Seq<char>) -> ResponseView {
    ResponseView {
        status: TEMPORARY_REDIRECT,
        headers: seq![HeaderView { name: "Location"@, value: matcher_prefix() + method }],
        body: Seq::empty(),
    }
}

/// The response of the method matcher to a request made with `method` for the path that names
/// `captured`.
pub open spec fn matcher_response(captured: Seq<char>, method: Seq<char>) -> ResponseView {
    if captured == method {
        ResponseView {
            status: PARTIAL_CONTENT,
            headers: seq![
                HeaderView { name: "Accept-Ranges"@, value: "bytes"@ },
                HeaderView { name: "Content-Type"@, value: "application/octet-stream"@ },
                HeaderView { name: "Content-Length"@, value: "9"@ },
            ],
            body: matched_body(),
        }
    } else {
        ResponseView { status: METHOD_NOT_ALLOWED, headers: Seq::empty(), body: Seq::empty() }
    }
}

/// The response to a request for a matcher path whose segment stands for no text: the request
/// is refused as one that cannot be understood, in plain text.
pub open spec fn undecodable_response() -> ResponseView {
    ResponseView {
        status: BAD_REQUEST,
        headers: seq![HeaderView { name: "Content-Type"@, value: "text/plain; charset=utf-8"@ }],
        body: encode_utf8(UNDECODABLE_SEGMENT@),
    }
}

/// The response to a request made with `method` for a matcher path, given what the segment of
/// that path stands for.
pub open spec fn captured_response(captured: Option<Seq<char>>, method: Seq<char>) -> ResponseView {
    match captured {
        Some(text) => matcher_response(text, method),
        None => undecodable_response(),
    }
}

/// What is to be done about a request.
#[derive(Debug, PartialEq, Eq)]
pub enum Action {
    /// Send this response.
    Respond(Response),
    /// Hand the request to the directory content server and send what it answers.
    FetchFromDirectory,
}

/// What an [`Action`] stands for.
pub enum ActionView {
    Respond(ResponseView),
    FetchFromDirectory,
}

impl View for Action {
    type V = ActionView;

    open spec fn view(&self) -> ActionView {
        match self {
            Action::Respond(response) => ActionView::Respond(response@),
            Action::FetchFromDirectory => ActionView::FetchFromDirectory,
        }
    }
}

/// What is to be done about a request made with `method` for `path`.
pub open spec fn answer(method: Seq<char>, path: Seq<char>) -> ActionView {
    match route_of(path) {
        RouteView::Directory => ActionView::FetchFromDirectory,
        RouteView::RedirectMethod => ActionView::Respond(redirect_response(method)),
        RouteView::MethodMatcher { method: segment } => ActionView::Respond(
            captured_response(captured_text(segment), method),
        ),
    }
}

/// The partial content says how long it is: its `Content-Length` is the length of its body, in
/// decimal.
pub proof fn lemma_content_length_is_the_length_of_the_body(method: Seq<char>)
    ensures
        matcher_response(method, method).headers[2].name == "Content-Length"@,
        matcher_response(method, method).headers[2].value == decimal(
            matcher_response(method, method).body.len(),
        ),
{
    reveal_strlit("9");
}

/// A path made of the matcher's prefix and one segment belongs to the method matcher, which
/// captures that segment; in particular the redirect path is no such path.
pub proof fn lemma_matcher_path_captures_its_segment(segment: Seq<char>)
    requires
        is_segment(segment),
    ensures
        route_of(matcher_prefix() + segment) == (RouteView::MethodMatcher { method: segment }),
{
    reveal_strlit("/redirect-method");
    reveal_strlit("/only-works-with-method/");
    let path = matcher_prefix() + segment;
    assert(path.skip(matcher_prefix().len() as int) =~= segment);
}

/// Only such a path belongs to the method matcher, and what is captured is all that follows the
/// prefix.
pub proof fn lemma_matcher_captures_what_follows_its_prefix(path: Seq<char>)
    ensures
        route_of(path) matches RouteView::MethodMatcher { method } ==> is_segment(method) && path
            == matcher_prefix() + method,
{
}

/// Whatever its method, a request for the redirect path is answered with a temporary redirect
/// whose `Location` is the path of the method matcher that names that method.
pub proof fn lemma_redirect_names_the_method(method: Seq<char>)
    ensures
        answer(method, redirect_path()) matches ActionView::Respond(response)
            && response.status == 307
            && response.headers == seq![
                HeaderView { name: "Location"@, value: "/only-works-with-method/"@ + method },
            ]
            && response.body == Seq::<u8>::empty(),
{
}

/// A request that follows the redirect with the method it was first made with is sent the
/// partial content; one that follows it with another method is refused. This is said of methods
/// that can stand in a path as they are: one segment, with no percent sign.
pub proof fn lemma_redirect_leads_to_the_matcher(first: Seq<char>, second: Seq<char>)
    requires
        is_segment(first),
        !first.contains('%'),
    ensures
        answer(first, redirect_path()) matches ActionView::Respond(redirect)
            && answer(second, redirect.headers[0].value) matches ActionView::Respond(response)
            && response == matcher_response(first, second)
            && (second == first ==> response.status == 206 && response.body == matched_body())
            && (second != first ==> response.status == 405 && response.body.len() == 0),
{
    lemma_matcher_path_captures_its_segment(first);
}

/// Finds the route of `path`, the path of a request without its query.
pub fn route(path: &str) -> (route: Route)
    ensures
        route@ == route_of(path@),
{
    let chars = chars_of(path);
    let redirect = chars_of(REDIRECT_PATH);
    if same_chars(&chars, &redirect) {
        return Route::RedirectMethod;
    }
    let prefix = chars_of(MATCHER_PREFIX);
    if begins_with(&chars, &prefix) && chars.len() > prefix.len() && !occurs_from(
        &chars,
        prefix.len(),
        '/',
    ) {
        let method = path.substring_char(prefix.len(), chars.len());
        Route::MethodMatcher { method: method.to_owned() }
    } else {
        Route::Directory
    }
}

impl StaticDirectoryServer {
    /// Redirects to the path of the method matcher that names the method of the request.
    pub fn redirect_method(method: &str) -> (response: Response)
        ensures
            response@ == redirect_response(method@),
    {
        let mut destination = MATCHER_PREFIX.to_owned();
        destination.append(method);
        let mut headers: Vec<Header> = Vec::new();
        headers.push(Header::new("Location", destination));
        let response = Response { status: TEMPORARY_REDIRECT, headers, body: Vec::new() };
        assert(response@.headers =~= redirect_response(method@).headers);
        response
    }

    /// Answers with the fixed partial content if the method of the request is the one that its
    /// path names, and refuses the method otherwise.
    pub fn method_matcher(captured: &str, method: &str) -> (response: Response)
        ensures
            response@ == matcher_response(captured@, method@),
    {
        let mut headers: Vec<Header> = Vec::new();
        if !same_text(captured, method) {
            let response = Response { status: METHOD_NOT_ALLOWED, headers, body: Vec::new() };
            assert(response@.headers =~= matcher_response(captured@, method@).headers);
            return response;
        }
        let body: Vec<u8> = vec![1, 2, 3, 4, 5, 6, 7, 8, 9];
        headers.push(Header::new("Accept-Ranges", "bytes".to_owned()));
        headers.push(Header::new("Content-Type", "application/octet-stream".to_owned()));
        headers.push(Header::new("Content-Length", decimal_text(body.len() as u64)));
        proof {
            reveal_strlit("9");
            assert(decimal(9) =~= "9"@);
        }
        let response = Response { status: PARTIAL_CONTENT, headers, body };
        assert(response@.headers =~= matcher_response(captured@, method@).headers);
        response
    }

    /// Answers a request made with `method` for a matcher path, given what the segment of that
    /// path stands for: as the method matcher does where it stands for a text, and with a
    /// refusal of the request where it stands for none.
    pub fn answer_captured(captured: Option<String>, method: &str) -> (response: Response)
        ensures
            response@ == captured_response(text_view(captured), method@),
    {
        match captured {
            Some(text) => StaticDirectoryServer::method_matcher(text.as_str(), method),
            None => {
                let mut headers: Vec<Header> = Vec::new();
                headers.push(Header::new("Content-Type", "text/plain; charset=utf-8".to_owned()));
                let response = Response {
                    status: BAD_REQUEST,
                    headers,
                    body: UNDECODABLE_SEGMENT.as_bytes_vec(),
                };
                assert(response@.headers =~= undecodable_response().headers);
                response
            },
        }
    }
}

/// Decides what is to be done about a request made with `method` for `path`.
pub fn respond(method: &str, path: &str) -> (action: Action)
    ensures
        action@ == answer(method@, path@),
{
    match route(path) {
        Route::Directory => Action::FetchFromDirectory,
        Route::RedirectMethod => Action::Respond(StaticDirectoryServer::redirect_method(method)),
        Route::MethodMatcher { method: segment } => Action::Respond(
            StaticDirectoryServer::answer_captured(decode_segment(segment.as_str()), method),
        ),
    }
}

} // verus!
