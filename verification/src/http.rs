use vstd::prelude::*;

use vstd::string::StringExecFns;

use crate::restaurants::Restaurant;

verus! {

/// The media type a response declares, if any.
#[derive(Clone, Copy, PartialEq, Eq, Structural, Debug)]
pub enum ContentType {
    Html,
    Json,
    Unspecified,
}

/// What a response carries: text, or a created row, which the structured
/// payload codec at the boundary writes out.
#[derive(Debug)]
pub enum Body {
    Text(String),
    Row(Restaurant),
}

/// A response as the core decides it: the status, the declared media type,
/// the carried body, and the optional cookie and refresh-trigger headers.
#[derive(Debug)]
pub struct HttpResponse {
    pub status: u16,
    pub content_type: ContentType,
    pub body: Body,
    pub set_cookie: Option<String>,
    pub hx_trigger: bool,
}

/// Whether a response is plain text with the given status and media type,
/// setting no cookie and no trigger.
pub open spec fn is_text_response(
    r: HttpResponse,
    status: u16,
    ct: ContentType,
    text: Seq<char>,
) -> bool {
    &&& r.status == status
    &&& r.content_type == ct
    &&& r.body matches Body::Text(t) && t@ == text
    &&& r.set_cookie is None
    &&& r.hx_trigger == false
}

/// The response of an unmatched route or missing file.
pub fn not_found() -> (r: HttpResponse)
    ensures
        is_text_response(r, 404, ContentType::Unspecified, "404 not found hihi"@),
{
    HttpResponse {
        status: 404,
        content_type: ContentType::Unspecified,
        body: Body::Text("404 not found hihi".to_owned()),
        set_cookie: None,
        hx_trigger: false,
    }
}

/// The in-place script that sends an unauthenticated client to the login
/// page — served as a successful document, so the fragment renders where
/// it lands.
pub fn redirect_to_login() -> (r: HttpResponse)
    ensures
        is_text_response(
            r,
            200,
            ContentType::Html,
            "<script>window.location.href='/login.html';</script>"@,
        ),
{
    HttpResponse {
        status: 200,
        content_type: ContentType::Html,
        body: Body::Text("<script>window.location.href='/login.html';</script>".to_owned()),
        set_cookie: None,
        hx_trigger: false,
    }
}

/// The logout response: the login redirect script, and a cookie expiring
/// at once that displaces the session cookie on the client.
pub fn logout_response() -> (r: HttpResponse)
    ensures
        r.status == 200,
        r.content_type == ContentType::Html,
        r.body matches Body::Text(t) && t@
            == "<script>window.location.href = \"/login.html\";</script>"@,
        r.set_cookie matches Some(c) && c@ == "session=deleted; Path=/; Max-Age=0; HttpOnly"@,
        r.hx_trigger == false,
{
    HttpResponse {
        status: 200,
        content_type: ContentType::Html,
        body: Body::Text("<script>window.location.href = \"/login.html\";</script>".to_owned()),
        set_cookie: Some("session=deleted; Path=/; Max-Age=0; HttpOnly".to_owned()),
        hx_trigger: false,
    }
}

/// The cookie attribute line that binds a session token.
pub open spec fn spec_session_cookie(t: Seq<char>) -> Seq<char> {
    "session="@ + t + "; Path=/; HttpOnly"@
}

/// The login success response: the dashboard redirect script, and the
/// session cookie carrying `token`.
pub fn login_success(token: &str) -> (r: HttpResponse)
    ensures
        r.status == 200,
        r.content_type == ContentType::Html,
        r.body matches Body::Text(t) && t@
            == "<script>window.location.href='/dashboard';</script>"@,
        r.set_cookie matches Some(c) && c@ == spec_session_cookie(token@),
        r.hx_trigger == false,
{
    let mut c = String::new();
    c.append("session=");
    c.append(token);
    c.append("; Path=/; HttpOnly");
    HttpResponse {
        status: 200,
        content_type: ContentType::Html,
        body: Body::Text("<script>window.location.href='/dashboard';</script>".to_owned()),
        set_cookie: Some(c),
        hx_trigger: false,
    }
}

/// A successful HTML fragment response.
pub fn html_fragment(text: String) -> (r: HttpResponse)
    ensures
        is_text_response(r, 200, ContentType::Html, text@),
{
    HttpResponse {
        status: 200,
        content_type: ContentType::Html,
        body: Body::Text(text),
        set_cookie: None,
        hx_trigger: false,
    }
}

/// An HTML text response with the given status.
pub fn html_status(status: u16, text: String) -> (r: HttpResponse)
    ensures
        is_text_response(r, status, ContentType::Html, text@),
{
    HttpResponse {
        status,
        content_type: ContentType::Html,
        body: Body::Text(text),
        set_cookie: None,
        hx_trigger: false,
    }
}

/// A JSON text response with the given status.
pub fn json_status(status: u16, text: String) -> (r: HttpResponse)
    ensures
        is_text_response(r, status, ContentType::Json, text@),
{
    HttpResponse {
        status,
        content_type: ContentType::Json,
        body: Body::Text(text),
        set_cookie: None,
        hx_trigger: false,
    }
}

/// A JSON text response with the given status.
pub fn json_text(status: u16, text: &str) -> (r: HttpResponse)
    ensures
        is_text_response(r, status, ContentType::Json, text@),
{
    HttpResponse {
        status,
        content_type: ContentType::Json,
        body: Body::Text(text.to_owned()),
        set_cookie: None,
        hx_trigger: false,
    }
}

} // verus!
