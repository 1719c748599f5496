//! Requests, responses and the table of routes.
//!
//! Every response that the library builds is for a page script that runs
//! on `https://www.youtube.com`, so each one carries the three headers that
//! let a browser hand it to that script.

use crate::text::text_equal;
use vstd::prelude::*;
use vstd::string::*;

verus! {

/// The request methods that the service tells apart.
#[derive(Clone, Copy, Debug, PartialEq, Eq, Structural)]
pub enum Method {
    Get,
    Post,
    Options,
    /// Any other method.
    Other,
}

/// A request as the transport decoded it: the method, the path, the query
/// string if there is one, and the whole body.
#[derive(Clone, Debug, PartialEq, Eq)]
pub struct Request {
    pub method: Method,
    pub path: String,
    pub query: Option<String>,
    pub body: Vec<u8>,
}

/// A [`Request`] as plain values.
pub struct RequestView {
    pub method: Method,
    pub path: Seq<char>,
    pub query: Option<Seq<char>>,
    pub body: Seq<u8>,
}

impl View for Request {
    type V = RequestView;

    open spec fn view(&self) -> RequestView {
        RequestView {
            method: self.method,
            path: self.path@,
            query: self.query.deep_view(),
            body: self.body@,
        }
    }
}

/// A response for the transport to send: status code, headers as pairs of
/// name and value, and the body.
#[derive(Clone, Debug, PartialEq, Eq)]
pub struct Response {
    pub status: u16,
    pub headers: Vec<(String, String)>,
    pub body: String,
}

/// A [`Response`] as plain values.
pub struct ResponseView {
    pub status: int,
    pub headers: Seq<(Seq<char>, Seq<char>)>,
    pub body: Seq<char>,
}

impl View for Response {
    type V = ResponseView;

    open spec fn view(&self) -> ResponseView {
        ResponseView {
            status: self.status as int,
            headers: self.headers.deep_view(),
            body: self.body@,
        }
    }
}

/// The three headers that every response carries: the one origin that may
/// read it, the methods and the request header that the origin may use.
pub open spec fn cors_headers() -> Seq<(Seq<char>, Seq<char>)> {
    seq![
        ("Access-Control-Allow-Origin"@, "https://www.youtube.com"@),
        ("Access-Control-Allow-Methods"@, "GET, POST, OPTIONS"@),
        ("Access-Control-Allow-Headers"@, "Content-Type"@),
    ]
}

/// The response carries each of the three fixed headers.
pub open spec fn carries_cors(response: ResponseView) -> bool {
    forall|i: int|
        0 <= i < cors_headers().len() ==> response.headers.contains(#[trigger] cors_headers()[i])
}

/// The response with the given status and body, and the three fixed
/// headers.
pub open spec fn reply(status: int, body: Seq<char>) -> ResponseView {
    ResponseView { status, headers: cors_headers(), body }
}

/// A response whose headers are the three fixed ones carries them.
pub proof fn lemma_fixed_headers_carry_cors(response: ResponseView)
    requires
        response.headers == cors_headers(),
    ensures
        carries_cors(response),
{
    assert forall|i: int| 0 <= i < cors_headers().len() implies response.headers.contains(
        #[trigger] cors_headers()[i],
    ) by {
        assert(response.headers[i] == cors_headers()[i]);
    }
}

/// Every response built by [`reply`] carries the three fixed headers,
/// whatever its status and body.
pub proof fn lemma_reply_carries_cors(status: int, body: Seq<char>)
    ensures
        carries_cors(reply(status, body)),
{
    lemma_fixed_headers_carry_cors(reply(status, body));
}

/// Builds the response with the given status and body, and the three
/// fixed headers.
pub fn respond(status: u16, body: String) -> (r: Response)
    ensures
        r@ == reply(status as int, body@),
        carries_cors(r@),
{
    let mut headers: Vec<(String, String)> = Vec::new();
    headers.push(
        (
            String::from_str("Access-Control-Allow-Origin"),
            String::from_str("https://www.youtube.com"),
        ),
    );
    headers.push(
        (String::from_str("Access-Control-Allow-Methods"), String::from_str("GET, POST, OPTIONS")),
    );
    headers.push(
        (String::from_str("Access-Control-Allow-Headers"), String::from_str("Content-Type")),
    );
    assert(headers.deep_view() =~= cors_headers());
    proof {
        lemma_reply_carries_cors(status as int, body@);
    }
    Response { status, headers, body }
}

/// Builds the response with the given status and the body `text`.
pub fn respond_text(status: u16, text: &str) -> (r: Response)
    ensures
        r@ == reply(status as int, text@),
        carries_cors(r@),
{
    respond(status, String::from_str(text))
}

/// What a request asks for.
#[derive(Clone, Copy, Debug, PartialEq, Eq, Structural)]
pub enum Route {
    /// `OPTIONS` on any path: the browser asks what it may send.
    Preflight,
    /// `GET /healthcheck`
    Healthcheck,
    /// `POST /set_note`
    SetNote,
    /// `GET /get_note`
    GetNote,
    /// `GET /exists`
    Exists,
    /// `POST /download`
    Download,
    /// `POST /download_audio`
    DownloadAudio,
    /// `POST /download_subtitles`
    DownloadSubtitles,
    /// `POST /open_videos_folder`
    OpenVideosFolder,
    /// `POST /open_notes_folder`
    OpenNotesFolder,
    /// Anything else.
    NotFound,
}

/// The route of a method and a path. `OPTIONS` is answered on every path;
/// every other route is one method on one exact path.
pub open spec fn route_of(method: Method, path: Seq<char>) -> Route {
    if method == Method::Options {
        Route::Preflight
    } else if method == Method::Get && path == "/healthcheck"@ {
        Route::Healthcheck
    } else if method == Method::Post && path == "/set_note"@ {
        Route::SetNote
    } else if method == Method::Get && path == "/get_note"@ {
        Route::GetNote
    } else if method == Method::Get && path == "/exists"@ {
        Route::Exists
    } else if method == Method::Post && path == "/download"@ {
        Route::Download
    } else if method == Method::Post && path == "/download_audio"@ {
        Route::DownloadAudio
    } else if method == Method::Post && path == "/download_subtitles"@ {
        Route::DownloadSubtitles
    } else if method == Method::Post && path == "/open_videos_folder"@ {
        Route::OpenVideosFolder
    } else if method == Method::Post && path == "/open_notes_folder"@ {
        Route::OpenNotesFolder
    } else {
        Route::NotFound
    }
}

/// Finds the route of a method and a path.
pub fn route(method: Method, path: &str) -> (r: Route)
    ensures
        r == route_of(method, path@),
{
    match method {
        Method::Options => Route::Preflight,
        Method::Get => {
            if text_equal(path, "/healthcheck") {
                Route::Healthcheck
            } else if text_equal(path, "/get_note") {
                Route::GetNote
            } else if text_equal(path, "/exists") {
                Route::Exists
            } else {
                Route::NotFound
            }
        },
        Method::Post => {
            if text_equal(path, "/set_note") {
                Route::SetNote
            } else if text_equal(path, "/download") {
                Route::Download
            } else if text_equal(path, "/download_audio") {
                Route::DownloadAudio
            } else if text_equal(path, "/download_subtitles") {
                Route::DownloadSubtitles
            } else if text_equal(path, "/open_videos_folder") {
                Route::OpenVideosFolder
            } else if text_equal(path, "/open_notes_folder") {
                Route::OpenNotesFolder
            } else {
                Route::NotFound
            }
        },
        Method::Other => Route::NotFound,
    }
}

} // verus!
