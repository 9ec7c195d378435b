use gourmestre::api::{CreateRequest, RawCreate};
use gourmestre::http::{Body, HttpResponse};
use gourmestre::routes::Method;
use gourmestre::service::{App, Reply, Request, RequestBody};

fn get(target: &str, cookie: Option<&str>) -> Request {
    Request {
        method: Method::Get,
        target: target.to_owned(),
        cookie: cookie.map(|c| c.to_owned()),
        body: RequestBody::Empty,
    }
}

fn post_form(target: &str, body: &str) -> Request {
    Request {
        method: Method::Post,
        target: target.to_owned(),
        cookie: None,
        body: RequestBody::Form(body.to_owned()),
    }
}

fn post_create(target: &str, cookie: &str, payload: CreateRequest) -> Request {
    Request {
        method: Method::Post,
        target: target.to_owned(),
        cookie: Some(cookie.to_owned()),
        body: RequestBody::Create(payload),
    }
}

fn response(reply: Reply) -> HttpResponse {
    match reply {
        Reply::Response(r) => r,
        Reply::File { path, .. } => panic!("expected a response, got file {path}"),
    }
}

fn text(r: &HttpResponse) -> &str {
    match &r.body {
        Body::Text(t) => t.as_str(),
        Body::Row(row) => panic!("expected text, got row {}", row.id),
    }
}

/// Registers alice and logs her in, returning the cookie header to send back.
fn signed_in_app() -> (App, String) {
    let mut app = App::new();
    let r = response(app.handle(post_form("/api/register", "username=alice&password=p")));
    assert_eq!(text(&r), "✅ Compte créé avec succès !");
    let r = response(app.handle(post_form("/api/login", "username=alice&password=p")));
    assert_eq!(text(&r), "<script>window.location.href='/dashboard';</script>");
    let cookie = r.set_cookie.expect("login sets the session cookie");
    assert!(cookie.starts_with("session="));
    assert!(cookie.ends_with("; Path=/; HttpOnly"));
    let token = cookie
        .strip_prefix("session=")
        .unwrap()
        .strip_suffix("; Path=/; HttpOnly")
        .unwrap();
    (app, format!("session={token}"))
}

#[test]
fn end_to_end_register_login_list_create() {
    let (mut app, cookie) = signed_in_app();

    let r = response(app.handle(get("/api/restaurants", Some(&cookie))));
    assert_eq!(r.status, 200);
    assert_eq!(
        text(&r),
        "<p class='text-gray-500'>Vous n'avez pas encore ajouté de restaurant.</p>"
    );

    let r = response(app.handle(post_create(
        "/api/restaurants",
        &cookie,
        CreateRequest::Payload(RawCreate {
            name: "Chez X".to_owned(),
            city: "Lyon".to_owned(),
            description: None,
            rating: None,
            favorite: None,
        }),
    )));
    assert_eq!(r.status, 201);
    assert!(r.hx_trigger);
    match &r.body {
        Body::Row(row) => {
            assert_eq!(row.name, "Chez X");
            assert_eq!(row.city, "Lyon");
            assert!(!row.is_favorite);
            assert_eq!(row.rating, None);
            assert_eq!(row.id, 1);
        }
        Body::Text(t) => panic!("expected the created row, got {t}"),
    }
}

#[test]
fn unknown_session_token_is_unauthorized_never_ok() {
    let (mut app, _) = signed_in_app();
    let r = response(app.handle(get("/api/restaurants", Some("session=deadbeef"))));
    assert_eq!(r.status, 401);
    assert_eq!(text(&r), "{\"error\":\"Authentification requise\"}");
    let r = response(app.handle(get("/api/restaurants", None)));
    assert_eq!(r.status, 401);
}

#[test]
fn empty_state_fragment_matches_active_filter() {
    let (mut app, cookie) = signed_in_app();
    let r = response(app.handle(get("/api/restaurants?favorites=true", Some(&cookie))));
    assert_eq!(r.status, 200);
    assert_eq!(
        text(&r),
        "<p class='text-gray-500'>Vous n'avez encore aucun restaurant favori.</p>"
    );
}

#[test]
fn favorites_filter_never_shows_unflagged_rows() {
    let (mut app, cookie) = signed_in_app();
    for (name, fav) in [("flagged", Some("on")), ("plain", None)] {
        let r = response(app.handle(post_create(
            "/api/restaurants",
            &cookie,
            CreateRequest::Payload(RawCreate {
                name: name.to_owned(),
                city: "Lyon".to_owned(),
                description: None,
                rating: Some("4".to_owned()),
                favorite: fav.map(|s| s.to_owned()),
            }),
        )));
        assert_eq!(r.status, 201);
    }
    let r = response(app.handle(get("/api/restaurants?favorites=true", Some(&cookie))));
    let body = text(&r);
    assert!(body.contains("flagged"));
    assert!(!body.contains("plain"));
    assert!(body.contains("⭐⭐⭐⭐"));
}

#[test]
fn listing_caps_at_query_limit() {
    let (mut app, cookie) = signed_in_app();
    for name in ["one", "two", "three"] {
        let r = response(app.handle(post_create(
            "/api/restaurants",
            &cookie,
            CreateRequest::Payload(RawCreate {
                name: name.to_owned(),
                city: "Lyon".to_owned(),
                description: None,
                rating: None,
                favorite: None,
            }),
        )));
        assert_eq!(r.status, 201);
    }
    let r = response(app.handle(get("/api/restaurants?limit=2", Some(&cookie))));
    let body = text(&r);
    assert!(body.contains("three"));
    assert!(body.contains("two"));
    assert!(!body.contains("one"));
}

#[test]
fn unreadable_rating_is_bad_request_not_server_error() {
    let (mut app, cookie) = signed_in_app();
    let r = response(app.handle(post_create(
        "/api/restaurants",
        &cookie,
        CreateRequest::Payload(RawCreate {
            name: "Chez X".to_owned(),
            city: "Lyon".to_owned(),
            description: None,
            rating: Some("often".to_owned()),
            favorite: None,
        }),
    )));
    assert_eq!(r.status, 400);
}

#[test]
fn malformed_payload_is_bad_request_with_reason() {
    let (mut app, cookie) = signed_in_app();
    let r = response(app.handle(post_create(
        "/api/restaurants",
        &cookie,
        CreateRequest::Malformed {
            reason: "missing field `name`".to_owned(),
        },
    )));
    assert_eq!(r.status, 400);
    assert_eq!(
        text(&r),
        "{\"error\":\"Données invalides: missing field `name`\"}"
    );
}

#[test]
fn other_method_on_restaurants_is_not_allowed() {
    let (mut app, cookie) = signed_in_app();
    let mut req = get("/api/restaurants", Some(&cookie));
    req.method = Method::Other;
    let r = response(app.handle(req));
    assert_eq!(r.status, 405);
}

#[test]
fn second_registration_reports_conflict() {
    let mut app = App::new();
    let r = response(app.handle(post_form("/api/register", "username=bob&password=x")));
    assert_eq!(text(&r), "✅ Compte créé avec succès !");
    let r = response(app.handle(post_form("/api/register", "username=bob&password=y")));
    assert_eq!(
        text(&r),
        "❌ Erreur : ce nom d'utilisateur ou cet e-mail est déjà pris"
    );
}

#[test]
fn wrong_credentials_fail_indistinguishably() {
    let mut app = App::new();
    response(app.handle(post_form("/api/register", "username=carol&password=right")));
    let wrong_pw = response(app.handle(post_form("/api/login", "username=carol&password=bad")));
    let no_user = response(app.handle(post_form("/api/login", "username=nobody&password=bad")));
    assert_eq!(text(&wrong_pw), "❌ Identifiants incorrects");
    assert_eq!(text(&no_user), "❌ Identifiants incorrects");
    assert_eq!(wrong_pw.set_cookie, None);
}

#[test]
fn userinfo_greets_resolved_user_only() {
    let (mut app, cookie) = signed_in_app();
    let r = response(app.handle(get("/api/userinfo", Some(&cookie))));
    assert_eq!(text(&r), "👋 Bonjour, <strong>alice</strong> !");
    let r = response(app.handle(get("/api/userinfo", None)));
    assert_eq!(text(&r), "Utilisateur inconnu.");
}

#[test]
fn logout_expires_the_cookie() {
    let (mut app, cookie) = signed_in_app();
    let mut req = get("/api/logout", Some(&cookie));
    req.method = Method::Post;
    let r = response(app.handle(req));
    assert_eq!(
        r.set_cookie.as_deref(),
        Some("session=deleted; Path=/; Max-Age=0; HttpOnly")
    );
    assert_eq!(text(&r), "<script>window.location.href = \"/login.html\";</script>");
}

#[test]
fn dashboard_redirects_without_session_and_serves_with_one() {
    let (mut app, cookie) = signed_in_app();
    match app.handle(get("/dashboard", None)) {
        Reply::Response(r) => {
            assert_eq!(r.status, 200);
            assert_eq!(text(&r), "<script>window.location.href='/login.html';</script>");
        }
        Reply::File { path, .. } => panic!("expected redirect, got file {path}"),
    }
    match app.handle(get("/dashboard", Some(&cookie))) {
        Reply::File { path, content_type } => {
            assert_eq!(path, "../frontend/dashboard.html");
            assert_eq!(content_type, "text/html");
        }
        Reply::Response(_) => panic!("expected the dashboard document"),
    }
}

#[test]
fn document_routes_serve_files() {
    let mut app = App::new();
    match app.handle(get("/", None)) {
        Reply::File { path, content_type } => {
            assert_eq!(path, "../frontend/index.html");
            assert_eq!(content_type, "text/html");
        }
        Reply::Response(_) => panic!("expected the index document"),
    }
    match app.handle(get("/static/app.js", None)) {
        Reply::File { path, content_type } => {
            assert_eq!(path, "../frontend/static/app.js");
            assert_eq!(content_type, "application/javascript");
        }
        Reply::Response(_) => panic!("expected the asset"),
    }
    match app.handle(get("/login.html", None)) {
        Reply::File { path, .. } => assert_eq!(path, "../frontend/login.html"),
        Reply::Response(_) => panic!("expected the document"),
    }
    let r = response(app.handle(get("/missing", None)));
    assert_eq!(r.status, 404);
    assert_eq!(text(&r), "404 not found hihi");
}

#[test]
fn list_fragment_renders_fields_and_icons() {
    let (mut app, cookie) = signed_in_app();
    let r = response(app.handle(post_create(
        "/api/restaurants",
        &cookie,
        CreateRequest::Payload(RawCreate {
            name: "La Table".to_owned(),
            city: "Paris".to_owned(),
            description: Some("petite salle".to_owned()),
            rating: Some("2".to_owned()),
            favorite: Some("true".to_owned()),
        }),
    )));
    assert_eq!(r.status, 201);
    let r = response(app.handle(get("/api/restaurants", Some(&cookie))));
    let body = text(&r);
    assert!(body.starts_with("<ul class='space-y-4'>"));
    assert!(body.ends_with("</ul>"));
    assert!(body.contains("La Table"));
    assert!(body.contains("Paris"));
    assert!(body.contains("petite salle"));
    assert!(body.contains("❤️"));
    assert!(!body.contains("🤍"));
    assert!(body.contains("⭐⭐"));
    assert!(!body.contains("⭐⭐⭐"));
}

#[test]
fn static_path_with_parent_refs_is_refused() {
    let mut app = App::new();
    let r = response(app.handle(get("/static/../../etc/passwd", None)));
    assert_eq!(r.status, 404);
    match app.handle(get("/static/css/site.css", None)) {
        Reply::File { path, content_type } => {
            assert_eq!(path, "../frontend/static/css/site.css");
            assert_eq!(content_type, "text/css");
        }
        Reply::Response(_) => panic!("expected the asset"),
    }
}
