//! The fixed error responses the router registers: each rejection kind
//! maps to one status code and one structured body.

use vstd::prelude::*;

verus! {

/// A ready-to-send error answer: the status code and the JSON body text.
#[derive(Debug)]
pub struct ErrorResponse {
    pub status: u16,
    pub body: String,
}

pub open spec fn not_found_body() -> Seq<char> {
    r#"{
            "error": "Sorry, this route could not be found",
            "http_cat": "https://http.cat/404"
         }"#@
}

pub open spec fn internal_server_error_body() -> Seq<char> {
    r#"{
            "error": "Sorry, something went wrong. Don't worry this is our fault: probably the dinosaurs are chewing on some cables again...",
            "http_cat": "https://http.cat/500"
         }"#@
}

pub open spec fn unauthorized_body() -> Seq<char> {
    r#"{
            "error": "You aren't authorized to access this resource!",
            "http_cat": "https://http.cat/401"
         }"#@
}

pub open spec fn forbidden_body() -> Seq<char> {
    r#"{
            "error": "You do not meet the required authorization levels to access this resource!",
            "http_cat": "https://http.cat/403"
         }"#@
}

pub open spec fn enhance_calm_body() -> Seq<char> {
    r#"{
            "error": "Enhance your calm bro. A.k.a.: You're being rate limited!",
            "http_cat": "https://http.cat/429"
         }"#@
}

pub open spec fn bad_request_body() -> Seq<char> {
    r#"{
            "error": "There something wrong with your request!",
            "http_cat": "https://http.cat/400"
         }"#@
}

pub fn not_found() -> (r: ErrorResponse)
    ensures
        r.status == 404,
        r.body@ == not_found_body(),
{
    ErrorResponse {
        status: 404,
        body: r#"{
            "error": "Sorry, this route could not be found",
            "http_cat": "https://http.cat/404"
         }"#.to_owned(),
    }
}

pub fn internal_server_error() -> (r: ErrorResponse)
    ensures
        r.status == 500,
        r.body@ == internal_server_error_body(),
{
    ErrorResponse {
        status: 500,
        body: r#"{
            "error": "Sorry, something went wrong. Don't worry this is our fault: probably the dinosaurs are chewing on some cables again...",
            "http_cat": "https://http.cat/500"
         }"#.to_owned(),
    }
}

pub fn unauthorized() -> (r: ErrorResponse)
    ensures
        r.status == 401,
        r.body@ == unauthorized_body(),
{
    ErrorResponse {
        status: 401,
        body: r#"{
            "error": "You aren't authorized to access this resource!",
            "http_cat": "https://http.cat/401"
         }"#.to_owned(),
    }
}

pub fn forbidden() -> (r: ErrorResponse)
    ensures
        r.status == 403,
        r.body@ == forbidden_body(),
{
    ErrorResponse {
        status: 403,
        body: r#"{
            "error": "You do not meet the required authorization levels to access this resource!",
            "http_cat": "https://http.cat/403"
         }"#.to_owned(),
    }
}

/// The answer behind the internal "too many requests" route.
pub fn enhance_calm() -> (r: ErrorResponse)
    ensures
        r.status == 429,
        r.body@ == enhance_calm_body(),
{
    ErrorResponse {
        status: 429,
        body: r#"{
            "error": "Enhance your calm bro. A.k.a.: You're being rate limited!",
            "http_cat": "https://http.cat/429"
         }"#.to_owned(),
    }
}

/// The same answer, for the standard "too many requests" status.
pub fn enhance_calm2() -> (r: ErrorResponse)
    ensures
        r.status == 429,
        r.body@ == enhance_calm_body(),
{
    ErrorResponse {
        status: 429,
        body: r#"{
            "error": "Enhance your calm bro. A.k.a.: You're being rate limited!",
            "http_cat": "https://http.cat/429"
         }"#.to_owned(),
    }
}

pub fn bad_request() -> (r: ErrorResponse)
    ensures
        r.status == 400,
        r.body@ == bad_request_body(),
{
    ErrorResponse {
        status: 400,
        body: r#"{
            "error": "There something wrong with your request!",
            "http_cat": "https://http.cat/400"
         }"#.to_owned(),
    }
}

pub open spec fn del_msg_no_id_body() -> Seq<char> {
    "{\"error\":\"Invalid request. You must first specify a message id.\"}"@
}

/// The answer to a delete request that names no message id.
pub fn del_msg_no_id() -> (r: ErrorResponse)
    ensures
        r.status == 400,
        r.body@ == del_msg_no_id_body(),
{
    ErrorResponse {
        status: 400,
        body: "{\"error\":\"Invalid request. You must first specify a message id.\"}".to_owned(),
    }
}

/// The fixed response-header policy.
pub struct HeaderFairings;

impl HeaderFairings {
    /// Header names stripped off every response.
    pub fn headers_to_remove() -> (r: Vec<String>)
        ensures
            r.deep_view() =~= seq!["X-Powered-By"@, "X-Content-Type-Options"@],
    {
        let mut out: Vec<String> = Vec::new();
        out.push("X-Powered-By".to_owned());
        out.push("X-Content-Type-Options".to_owned());
        out
    }

    /// The security headers adjoined to every response, in order.
    pub fn headers_to_adjoin() -> (r: Vec<(String, String)>)
        ensures
            r@.len() == 3,
            r@[0].0@ == "X-Content-Type-Options"@ && r@[0].1@ == "nosniff"@,
            r@[1].0@ == "Strict-Transport-Security"@ && r@[1].1@
                == "max-age=31536000; includeSubDomains"@,
            r@[2].0@ == "X-XSS-Protection"@ && r@[2].1@ == "1; mode=block"@,
    {
        let mut out: Vec<(String, String)> = Vec::new();
        out.push(("X-Content-Type-Options".to_owned(), "nosniff".to_owned()));
        out.push((
            "Strict-Transport-Security".to_owned(),
            "max-age=31536000; includeSubDomains".to_owned(),
        ));
        out.push(("X-XSS-Protection".to_owned(), "1; mode=block".to_owned()));
        out
    }
}

} // verus!
