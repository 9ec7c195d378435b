use vstd::prelude::*;

use vstd::string::StringExecFns;

use crate::api::{
    create_response, listing_response, method_not_allowed, register, restaurants_get,
    restaurants_post, unauthorized, userinfo_page, login, CreateRequest,
};
use crate::cookie::{extract_session_token, spec_extract};
use crate::form::spec_form_value;
use crate::credentials::{spec_account_of, spec_has_user, CredStore};
use crate::http::{is_text_response, not_found, redirect_to_login, Body, ContentType, HttpResponse};
use crate::restaurants::RestaurantStore;
use crate::routes::{classify, classify_api, path_of, spec_path_of, ApiRoute, Method, Route};
use crate::sessions::{spec_resolve, SessionStore};
use crate::UserId;

verus! {

/// A request as the transport hands it to the core: the method, the raw
/// target — path and query — the cookie header if one came, and the body,
/// already run through the structured-payload codec on the create route.
#[derive(Debug)]
pub struct Request {
    pub method: Method,
    pub target: String,
    pub cookie: Option<String>,
    pub body: RequestBody,
}

/// The body of a request: none, a form-encoded text, or a create payload
/// as the codec delivered it.
#[derive(Debug)]
pub enum RequestBody {
    Empty,
    Form(String),
    Create(CreateRequest),
}

/// The form text a request carries: its form body, or nothing.
pub open spec fn spec_body_text(b: RequestBody) -> Seq<char> {
    match b {
        RequestBody::Form(s) => s@,
        _ => Seq::empty(),
    }
}

/// What the core answers: a document or asset to serve off disk, or a
/// finished response.
#[derive(Debug)]
pub enum Reply {
    File { path: String, content_type: String },
    Response(HttpResponse),
}

/// The identity a request's cookie establishes: the token of its first
/// `session=` segment, resolved against the session table.
pub open spec fn spec_cookie_user(
    entries: Seq<(String, UserId)>,
    cookie: Option<String>,
) -> Option<UserId> {
    match cookie {
        None => None,
        Some(h) => match spec_extract(h@) {
            None => None,
            Some(t) => spec_resolve(entries, t),
        },
    }
}

proof fn lemma_route_disjoint(p: Seq<char>)
    ensures
        p == "/dashboard"@ ==> p != "/"@ && !crate::routes::starts(p, "/static/"@)
            && !crate::routes::starts(p, "/api/"@),
        p == "/api/restaurants"@ ==> p != "/"@ && !crate::routes::starts(p, "/static/"@)
            && crate::routes::starts(p, "/api/"@),
        p == "/api/logout"@ ==> p != "/"@ && !crate::routes::starts(p, "/static/"@)
            && crate::routes::starts(p, "/api/"@),
        p == "/api/userinfo"@ ==> p != "/"@ && !crate::routes::starts(p, "/static/"@)
            && crate::routes::starts(p, "/api/"@),
        p == "/api/register"@ ==> p != "/"@ && !crate::routes::starts(p, "/static/"@)
            && crate::routes::starts(p, "/api/"@),
        p == "/api/login"@ ==> p != "/"@ && !crate::routes::starts(p, "/static/"@)
            && crate::routes::starts(p, "/api/"@),
        "/api/userinfo"@ != "/api/register"@,
        "/api/userinfo"@ != "/api/login"@,
        "/api/register"@ != "/api/login"@,
        "/api/restaurants"@ != "/api/logout"@,
        "/api/restaurants"@ != "/api/userinfo"@,
        "/api/restaurants"@ != "/api/register"@,
        "/api/restaurants"@ != "/api/login"@,
        "/api/logout"@ != "/api/userinfo"@,
        "/api/logout"@ != "/api/register"@,
        "/api/logout"@ != "/api/login"@,
{
    reveal_strlit("/");
    reveal_strlit("/static/");
    reveal_strlit("/api/");
    reveal_strlit("/dashboard");
    reveal_strlit("/api/restaurants");
    reveal_strlit("/api/logout");
    reveal_strlit("/api/userinfo");
    reveal_strlit("/api/register");
    reveal_strlit("/api/login");
    if p == "/dashboard"@ {
        assert(p.len() == 10);
        if crate::routes::starts(p, "/static/"@) {
            assert(p.take(8)[1] == p[1]);
            assert(false);
        }
        if crate::routes::starts(p, "/api/"@) {
            assert(p.take(5)[1] == p[1]);
            assert(false);
        }
    }
    if p == "/api/restaurants"@ {
        assert(p.len() == 16);
        if crate::routes::starts(p, "/static/"@) {
            assert(p.take(8)[1] == p[1]);
            assert(false);
        }
        assert(p.take(5) =~= "/api/"@);
    }
    if p == "/api/logout"@ {
        assert(p.len() == 11);
        if crate::routes::starts(p, "/static/"@) {
            assert(p.take(8)[1] == p[1]);
            assert(false);
        }
        assert(p.take(5) =~= "/api/"@);
    }
    if p == "/api/userinfo"@ {
        assert(p.len() == 13);
        if crate::routes::starts(p, "/static/"@) {
            assert(p.take(8)[1] == p[1]);
            assert(false);
        }
        assert(p.take(5) =~= "/api/"@);
    }
    if p == "/api/register"@ {
        assert(p.len() == 13);
        if crate::routes::starts(p, "/static/"@) {
            assert(p.take(8)[1] == p[1]);
            assert(false);
        }
        assert(p.take(5) =~= "/api/"@);
    }
    if p == "/api/login"@ {
        assert(p.len() == 10);
        if crate::routes::starts(p, "/static/"@) {
            assert(p.take(8)[1] == p[1]);
            assert(false);
        }
        assert(p.take(5) =~= "/api/"@);
    }
    if "/api/userinfo"@ == "/api/register"@ {
        assert("/api/userinfo"@[5] == "/api/register"@[5]);
        assert(false);
    }
    assert("/api/restaurants"@.len() == 16);
    assert("/api/logout"@.len() == 11);
    assert("/api/userinfo"@.len() == 13);
    assert("/api/register"@.len() == 13);
    assert("/api/login"@.len() == 10);
}

/// The application core: the three tables and the request dispatcher.
pub struct App {
    pub creds: CredStore,
    pub sessions: SessionStore,
    pub restaurants: RestaurantStore,
}

impl App {
    pub open spec fn wf(&self) -> bool {
        &&& self.creds.wf()
        &&& self.restaurants.wf()
    }

    /// A core with empty tables.
    pub fn new() -> (a: App)
        ensures
            a.wf(),
            a.creds.accounts@.len() == 0,
            a.sessions.entries@.len() == 0,
            a.restaurants.rows@.len() == 0,
    {
        App { creds: CredStore::new(), sessions: SessionStore::new(), restaurants: RestaurantStore::new() }
    }

    /// The identity the request's cookie establishes against the session
    /// table.
    pub fn cookie_user(&self, cookie: &Option<String>) -> (r: Option<UserId>)
        ensures
            r == spec_cookie_user(self.sessions.entries@, *cookie),
    {
        match cookie {
            None => None,
            Some(h) => match extract_session_token(h.as_str()) {
                None => None,
                Some(t) => self.sessions.resolve(t.as_str()),
            },
        }
    }

    /// Dispatches one request, first route match deciding. Identity-gated
    /// document routes degrade to the login redirect script; identity-gated
    /// data routes answer a structured 401 instead, and never 401 once the
    /// cookie resolves.
    pub fn handle(&mut self, req: Request) -> (r: Reply)
        requires
            old(self).wf(),
        ensures
            final(self).wf(),
            ({
                let p = spec_path_of(req.target@);
                &&& (p == "/"@ ==> (r matches Reply::File { path, content_type } && path@
                    == "../frontend/index.html"@ && content_type@ == "text/html"@))
                &&& (p != "/"@ && crate::routes::starts(p, "/static/"@)
                    && !crate::media::spec_escapes(p.skip(1)) ==> (
                r matches Reply::File { path, content_type } && path@ == "../frontend/"@ + p.skip(
                    1,
                )))
                &&& (p != "/"@ && crate::routes::starts(p, "/static/"@)
                    && crate::media::spec_escapes(p.skip(1)) ==> (
                r matches Reply::Response(resp) && is_text_response(
                    resp,
                    404,
                    ContentType::Unspecified,
                    "404 not found hihi"@,
                )))
                &&& (p == "/dashboard"@ ==> match spec_cookie_user(
                    old(self).sessions.entries@,
                    req.cookie,
                ) {
                    Some(_) => (r matches Reply::File { path, content_type } && path@
                        == "../frontend/dashboard.html"@ && content_type@ == "text/html"@),
                    None => (r matches Reply::Response(resp) && is_text_response(
                        resp,
                        200,
                        ContentType::Html,
                        "<script>window.location.href='/login.html';</script>"@,
                    )),
                })
                &&& (p == "/api/restaurants"@ ==> match spec_cookie_user(
                    old(self).sessions.entries@,
                    req.cookie,
                ) {
                    None => (r matches Reply::Response(resp) && is_text_response(
                        resp,
                        401,
                        ContentType::Json,
                        "{\"error\":\"Authentification requise\"}"@,
                    ) && *final(self) == *old(self)),
                    Some(uid) => {
                        &&& final(self).creds == old(self).creds
                        &&& final(self).sessions == old(self).sessions
                        &&& (r matches Reply::Response(resp) && resp.status != 401 && {
                            &&& (req.method == Method::Get ==> *final(self) == *old(self)
                                && listing_response(
                                resp,
                                old(self).restaurants.rows@,
                                uid,
                                req.target@,
                            ))
                            &&& (req.method == Method::Other ==> *final(self) == *old(self)
                                && is_text_response(
                                resp,
                                405,
                                ContentType::Json,
                                "{\"error\":\"Méthode non autorisée\"}"@,
                            ))
                            &&& (req.method == Method::Post ==> match req.body {
                                RequestBody::Create(c) => create_response(
                                    resp,
                                    old(self).restaurants,
                                    final(self).restaurants,
                                    uid,
                                    c,
                                ),
                                _ => final(self).restaurants == old(self).restaurants
                                    && resp.status == 400,
                            })
                        })
                    },
                })
                &&& (p == "/api/logout"@ ==> *final(self) == *old(self) && (
                r matches Reply::Response(resp) && {
                    &&& resp.status == 200
                    &&& resp.content_type == ContentType::Html
                    &&& (resp.body matches Body::Text(t) && t@
                        == "<script>window.location.href = \"/login.html\";</script>"@)
                    &&& (resp.set_cookie matches Some(c) && c@
                        == "session=deleted; Path=/; Max-Age=0; HttpOnly"@)
                    &&& resp.hx_trigger == false
                }))
                &&& (p == "/api/userinfo"@ ==> *final(self) == *old(self) && (
                r matches Reply::Response(resp) && {
                    &&& resp.status == 200
                    &&& resp.content_type == ContentType::Html
                    &&& resp.set_cookie is None
                    &&& (resp.body matches Body::Text(t) && (match spec_cookie_user(
                        old(self).sessions.entries@,
                        req.cookie,
                    ) {
                        Some(uid) => match crate::credentials::spec_account_by_id(
                            old(self).creds.accounts@,
                            uid,
                        ) {
                            Some(acc) => t@ == crate::render::spec_userinfo(acc.username@),
                            None => t@ == "Utilisateur inconnu."@,
                        },
                        None => t@ == "Utilisateur inconnu."@,
                    }))
                }))
                &&& (p == "/api/register"@ ==> {
                    let u = spec_form_value(spec_body_text(req.body), "username"@);
                    &&& final(self).sessions == old(self).sessions
                    &&& final(self).restaurants == old(self).restaurants
                    &&& (r matches Reply::Response(resp) && (resp.status == 200 || resp.status
                        == 500) && resp.content_type == ContentType::Html)
                    &&& (spec_has_user(old(self).creds.accounts@, u) ==> *final(self) == *old(
                        self,
                    ) && (r matches Reply::Response(resp) && resp.body matches Body::Text(t) && t@
                        == "❌ Erreur : ce nom d'utilisateur ou cet e-mail est déjà pris"@))
                })
                &&& (p != "/"@ && !crate::routes::starts(p, "/static/"@)
                    && !crate::routes::starts(p, "/api/"@) && p != "/dashboard"@
                    && crate::routes::ends(p, ".html"@) ==> (
                r matches Reply::File { path, content_type } && path@ == "../frontend"@ + p
                    && content_type@ == "text/html"@))
                &&& (p != "/"@ && !crate::routes::starts(p, "/static/"@)
                    && !crate::routes::starts(p, "/api/"@) && p != "/dashboard"@
                    && !crate::routes::ends(p, ".html"@) ==> (
                r matches Reply::Response(resp) && is_text_response(
                    resp,
                    404,
                    ContentType::Unspecified,
                    "404 not found hihi"@,
                )))
                &&& (p == "/api/login"@ ==> {
                    let u = spec_form_value(spec_body_text(req.body), "username"@);
                    &&& final(self).creds == old(self).creds
                    &&& final(self).restaurants == old(self).restaurants
                    &&& (r matches Reply::Response(resp) && (resp.status == 200 || resp.status
                        == 500))
                    &&& (spec_account_of(old(self).creds.accounts@, u) is None ==> *final(self)
                        == *old(self) && (r matches Reply::Response(resp) && resp.body matches Body::Text(t)
                        && t@ == "❌ Identifiants incorrects"@ && resp.set_cookie is None))
                })
            }),
    {
        let path = path_of(req.target.as_str());
        proof {
            lemma_route_disjoint(path@);
        }
        match classify(path.as_str()) {
            Route::Root => Reply::File {
                path: "../frontend/index.html".to_owned(),
                content_type: "text/html".to_owned(),
            },
            Route::StaticAsset { file } => {
                if crate::media::path_escapes(file.as_str()) {
                    Reply::Response(not_found())
                } else {
                    let ct = crate::media::static_content_type(file.as_str());
                    let mut fpath = String::new();
                    fpath.append("../frontend/");
                    fpath.append(file.as_str());
                    proof {
                        assert(fpath@ =~= "../frontend/"@ + file@);
                    }
                    Reply::File { path: fpath, content_type: ct }
                }
            },
            Route::Dashboard => {
                match self.cookie_user(&req.cookie) {
                    Some(_) => Reply::File {
                        path: "../frontend/dashboard.html".to_owned(),
                        content_type: "text/html".to_owned(),
                    },
                    None => Reply::Response(redirect_to_login()),
                }
            },
            Route::HtmlPage { page } => {
                let mut fpath = String::new();
                fpath.append("../frontend");
                fpath.append(page.as_str());
                proof {
                    assert(fpath@ =~= "../frontend"@ + page@);
                }
                Reply::File { path: fpath, content_type: "text/html".to_owned() }
            },
            Route::Api => {
                match classify_api(path.as_str()) {
                    ApiRoute::Userinfo => {
                        let username = match self.cookie_user(&req.cookie) {
                            Some(id) => self.creds.username_of(id),
                            None => None,
                        };
                        Reply::Response(userinfo_page(username.as_ref()))
                    },
                    ApiRoute::Register => {
                        let empty = String::new();
                        let body: &String = match &req.body {
                            RequestBody::Form(s) => s,
                            _ => &empty,
                        };
                        Reply::Response(register(&mut self.creds, body.as_str()))
                    },
                    ApiRoute::Login => {
                        let empty = String::new();
                        let body: &String = match &req.body {
                            RequestBody::Form(s) => s,
                            _ => &empty,
                        };
                        Reply::Response(login(&self.creds, &mut self.sessions, body.as_str()))
                    },
                    ApiRoute::Logout => Reply::Response(crate::http::logout_response()),
                    ApiRoute::Restaurants => {
                        match self.cookie_user(&req.cookie) {
                            None => Reply::Response(unauthorized()),
                            Some(uid) => {
                                match req.method {
                                    Method::Get => Reply::Response(
                                        restaurants_get(
                                            &self.restaurants,
                                            uid,
                                            req.target.as_str(),
                                        ),
                                    ),
                                    Method::Post => {
                                        let cr = match req.body {
                                            RequestBody::Create(c) => c,
                                            _ => CreateRequest::Malformed {
                                                reason: "corps illisible".to_owned(),
                                            },
                                        };
                                        Reply::Response(
                                            restaurants_post(&mut self.restaurants, uid, cr),
                                        )
                                    },
                                    Method::Other => Reply::Response(method_not_allowed()),
                                }
                            },
                        }
                    },
                    ApiRoute::Unknown => Reply::Response(not_found()),
                }
            },
            Route::NotFound => Reply::Response(not_found()),
        }
    }
}

} // verus!
