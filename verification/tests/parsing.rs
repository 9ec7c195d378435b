use gourmestre::coerce::{favorite_from_field, rating_from_field};
use gourmestre::cookie::extract_session_token;
use gourmestre::form::decoded_form_field;
use gourmestre::media::{path_escapes, static_content_type};
use gourmestre::routes::{classify, classify_api, path_of, ApiRoute, Route};

#[test]
fn cookie_plain_header_yields_token() {
    assert_eq!(extract_session_token("session=abc"), Some("abc".to_owned()));
}

#[test]
fn cookie_token_found_among_other_segments() {
    assert_eq!(
        extract_session_token("foo=bar; session=abc ; baz=qux"),
        Some("abc".to_owned())
    );
}

#[test]
fn cookie_empty_header_yields_none() {
    assert_eq!(extract_session_token(""), None);
}

#[test]
fn cookie_empty_remainder_yields_none() {
    assert_eq!(extract_session_token("session="), None);
}

#[test]
fn cookie_first_matching_segment_wins() {
    assert_eq!(
        extract_session_token("session=a; session=b"),
        Some("a".to_owned())
    );
}

#[test]
fn cookie_malformed_headers_yield_none() {
    assert_eq!(extract_session_token(";;;"), None);
    assert_eq!(extract_session_token("foo=bar"), None);
    assert_eq!(extract_session_token("xsession=a"), None);
}

#[test]
fn cookie_remainder_is_verbatim() {
    assert_eq!(extract_session_token("session==x"), Some("=x".to_owned()));
}

#[test]
fn routes_classify_all_classes() {
    assert!(matches!(classify("/"), Route::Root));
    match classify("/static/app.js") {
        Route::StaticAsset { file } => assert_eq!(file, "static/app.js"),
        other => panic!("wrong class: {other:?}"),
    }
    assert!(matches!(classify("/api/whatever"), Route::Api));
    assert!(matches!(classify("/dashboard"), Route::Dashboard));
    match classify("/login.html") {
        Route::HtmlPage { page } => assert_eq!(page, "/login.html"),
        other => panic!("wrong class: {other:?}"),
    }
    assert!(matches!(classify("/nothing-here"), Route::NotFound));
}

#[test]
fn routes_classify_api_exact_paths() {
    assert_eq!(classify_api("/api/userinfo"), ApiRoute::Userinfo);
    assert_eq!(classify_api("/api/register"), ApiRoute::Register);
    assert_eq!(classify_api("/api/login"), ApiRoute::Login);
    assert_eq!(classify_api("/api/logout"), ApiRoute::Logout);
    assert_eq!(classify_api("/api/restaurants"), ApiRoute::Restaurants);
    assert_eq!(classify_api("/api/other"), ApiRoute::Unknown);
}

#[test]
fn routes_path_cuts_query() {
    assert_eq!(path_of("/api/restaurants?favorites=true"), "/api/restaurants");
    assert_eq!(path_of("/plain"), "/plain");
    assert_eq!(path_of("/?x=1?y=2"), "/");
}

#[test]
fn form_field_reads_and_decodes() {
    assert_eq!(
        decoded_form_field("username=alice&password=p", "username"),
        "alice"
    );
    assert_eq!(
        decoded_form_field("username=alice&password=p", "password"),
        "p"
    );
    assert_eq!(decoded_form_field("username=a%20b", "username"), "a b");
}

#[test]
fn form_first_occurrence_wins() {
    assert_eq!(
        decoded_form_field("username=first&username=second", "username"),
        "first"
    );
}

#[test]
fn form_missing_field_reads_empty() {
    assert_eq!(decoded_form_field("password=p", "username"), "");
    assert_eq!(decoded_form_field("", "username"), "");
}

#[test]
fn form_piece_without_equals_is_dropped() {
    assert_eq!(decoded_form_field("junk&username=x", "username"), "x");
}

#[test]
fn rating_empty_stores_none() {
    assert_eq!(rating_from_field(Some(&String::new())), Ok(None));
    assert_eq!(rating_from_field(None), Ok(None));
}

#[test]
fn rating_numeric_stores_value() {
    assert_eq!(rating_from_field(Some(&"4".to_owned())), Ok(Some(4)));
    assert_eq!(rating_from_field(Some(&"-2".to_owned())), Ok(Some(-2)));
}

#[test]
fn rating_unreadable_is_refused() {
    assert_eq!(rating_from_field(Some(&"abc".to_owned())), Err(()));
    assert_eq!(rating_from_field(Some(&"99999".to_owned())), Err(()));
    assert_eq!(rating_from_field(Some(&"4.5".to_owned())), Err(()));
}

#[test]
fn favorite_reads_true_and_on_only() {
    assert!(favorite_from_field(Some(&"true".to_owned())));
    assert!(favorite_from_field(Some(&"on".to_owned())));
    assert!(!favorite_from_field(Some(&"TRUE".to_owned())));
    assert!(!favorite_from_field(Some(&"yes".to_owned())));
    assert!(!favorite_from_field(Some(&String::new())));
    assert!(!favorite_from_field(None));
}

#[test]
fn static_content_types_by_extension() {
    assert_eq!(static_content_type("static/app.js"), "application/javascript");
    assert_eq!(static_content_type("static/style.css"), "text/css");
    assert_eq!(static_content_type("static/page.html"), "text/html");
    assert_eq!(static_content_type("static/favicon.ico"), "image/x-icon");
    assert_eq!(static_content_type("static/photo.png"), "image/png");
    assert_eq!(static_content_type("static/unknown.zzz"), "application/octet-stream");
}

#[test]
fn asset_paths_with_adjacent_dots_escape() {
    assert!(path_escapes("static/../secret"));
    assert!(path_escapes(".."));
    assert!(path_escapes("static/a..b"));
    assert!(!path_escapes("static/app.js"));
    assert!(!path_escapes("static/a.b.c"));
    assert!(!path_escapes(""));
}
