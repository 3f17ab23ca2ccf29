//! What the host serves to its webview: the files of the built page, looked
//! up by the path of the request.

use crate::text::{ends_with, is_suffix, trim_start, without_leading};
use vstd::prelude::*;
use vstd::string::StringExecFns;

verus! {

/// The content type of a file, by the ending of its path; the first ending
/// of the list that fits decides.
pub open spec fn content_type_of(path: Seq<char>) -> Seq<char> {
    if is_suffix(".html"@, path) {
        "text/html"@
    } else if is_suffix(".css"@, path) {
        "text/css"@
    } else if is_suffix(".js"@, path) {
        "application/javascript"@
    } else if is_suffix(".wasm"@, path) {
        "application/wasm"@
    } else if is_suffix(".json"@, path) {
        "application/json"@
    } else if is_suffix(".png"@, path) {
        "image/png"@
    } else if is_suffix(".jpg"@, path) || is_suffix(".jpeg"@, path) {
        "image/jpeg"@
    } else if is_suffix(".svg"@, path) {
        "image/svg+xml"@
    } else if is_suffix(".ico"@, path) {
        "image/x-icon"@
    } else if is_suffix(".woff"@, path) {
        "font/woff"@
    } else if is_suffix(".woff2"@, path) {
        "font/woff2"@
    } else if is_suffix(".ttf"@, path) {
        "font/ttf"@
    } else {
        "application/octet-stream"@
    }
}

/// The content type of a file, by the ending of its path.
pub fn get_content_type(path: &str) -> (content_type: &'static str)
    ensures
        content_type@ == content_type_of(path@),
{
    if ends_with(path, ".html") {
        "text/html"
    } else if ends_with(path, ".css") {
        "text/css"
    } else if ends_with(path, ".js") {
        "application/javascript"
    } else if ends_with(path, ".wasm") {
        "application/wasm"
    } else if ends_with(path, ".json") {
        "application/json"
    } else if ends_with(path, ".png") {
        "image/png"
    } else if ends_with(path, ".jpg") || ends_with(path, ".jpeg") {
        "image/jpeg"
    } else if ends_with(path, ".svg") {
        "image/svg+xml"
    } else if ends_with(path, ".ico") {
        "image/x-icon"
    } else if ends_with(path, ".woff") {
        "font/woff"
    } else if ends_with(path, ".woff2") {
        "font/woff2"
    } else if ends_with(path, ".ttf") {
        "font/ttf"
    } else {
        "application/octet-stream"
    }
}

/// The path of the file that a request asks for: the address without the
/// slashes at its start, and the index page where nothing is left.
pub open spec fn requested_path(url: Seq<char>) -> Seq<char> {
    if without_leading(url, '/').len() == 0 {
        "index.html"@
    } else {
        without_leading(url, '/')
    }
}

/// The path of the file that a request for `url` asks for.
pub fn request_path(url: &str) -> (path: String)
    ensures
        path@ == requested_path(url@),
{
    let rest = trim_start(url, '/');
    if rest.unicode_len() == 0 {
        String::from_str("index.html")
    } else {
        String::from_str(rest)
    }
}

/// The answer to a request.
#[derive(Clone, Debug, PartialEq, Eq)]
pub enum StaticResponse {
    /// Status 200 with the given content type and body.
    Found { content_type: &'static str, body: Vec<u8> },
    /// Status 404 with the text `Not Found`.
    NotFound,
}

impl StaticResponse {
    /// The HTTP status of the answer.
    pub fn status(&self) -> (status: u16)
        ensures
            status == (if self is Found {
                200u16
            } else {
                404u16
            }),
    {
        match self {
            StaticResponse::Found { .. } => 200,
            StaticResponse::NotFound => 404,
        }
    }
}

/// Answers a request for `path`, given the contents of the file at that
/// path and of the index page, where they exist: the file with the content
/// type of its path; failing that, the index page as a page; failing that,
/// not-found.
pub fn respond(path: &str, file: Option<Vec<u8>>, index: Option<Vec<u8>>) -> (response:
    StaticResponse)
    ensures
        match (file, index) {
            (Some(contents), _) => response matches StaticResponse::Found { content_type, body }
                && content_type@ == content_type_of(path@) && body == contents,
            (None, Some(contents)) => response matches StaticResponse::Found { content_type, body }
                && content_type@ == "text/html"@ && body == contents,
            (None, None) => response is NotFound,
        },
{
    match file {
        Some(contents) => StaticResponse::Found {
            content_type: get_content_type(path),
            body: contents,
        },
        None => match index {
            Some(contents) => StaticResponse::Found { content_type: "text/html", body: contents },
            None => StaticResponse::NotFound,
        },
    }
}

} // verus!
