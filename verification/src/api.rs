use vstd::prelude::*;

use vstd::string::StringExecFns;

use crate::coerce::{favorite_from_field, rating_from_field};
use crate::credentials::{bcrypt_accepts, bcrypt_digest_wf, spec_account_of, CredStore};
use crate::form::{decoded_form_field, spec_form_value};
use crate::http::{
    html_fragment, html_status, is_text_response, json_text, login_success, spec_session_cookie,
    Body, ContentType, HttpResponse,
};
use crate::numbers::spec_parse_int;
use crate::query::{list_params, query_pairs, spec_favorites, spec_limit, url_query_pairs};
use crate::render::{render_list, render_userinfo, spec_list_fragment, spec_userinfo};
use crate::restaurants::{
    spec_filtered, spec_limited, NewRestaurant, Restaurant, RestaurantStore,
};
use crate::sessions::{is_token_char, spec_resolve, SessionStore};
use crate::{AccountError, UserId};

verus! {

/// The user-info fragment: the greeting of the resolved user, or the
/// unknown-user line when no identity could be established.
pub fn userinfo_page(username: Option<&String>) -> (r: HttpResponse)
    ensures
        match username {
            Some(u) => is_text_response(r, 200, ContentType::Html, spec_userinfo(u@)),
            None => is_text_response(r, 200, ContentType::Html, "Utilisateur inconnu."@),
        },
{
    match username {
        Some(u) => html_fragment(render_userinfo(u.as_str())),
        None => html_fragment("Utilisateur inconnu.".to_owned()),
    }
}

/// Handles a registration form: reads the credential fields — first
/// occurrence winning, percent-decoded — and registers the account. A
/// taken username is reported as a conflict, and exactly then; the store
/// otherwise gains the account or, unavailable, stays as it was.
pub fn register(creds: &mut CredStore, body: &str) -> (r: HttpResponse)
    requires
        old(creds).wf(),
    ensures
        final(creds).wf(),
        ({
            let u = spec_form_value(body@, "username"@);
            let p = spec_form_value(body@, "password"@);
            if crate::credentials::spec_has_user(old(creds).accounts@, u) {
                &&& is_text_response(
                    r,
                    200,
                    ContentType::Html,
                    "❌ Erreur : ce nom d'utilisateur ou cet e-mail est déjà pris"@,
                )
                &&& *final(creds) == *old(creds)
            } else {
                ||| {
                    &&& is_text_response(
                        r,
                        200,
                        ContentType::Html,
                        "✅ Compte créé avec succès !"@,
                    )
                    &&& final(creds).accounts@ == old(creds).accounts@.push(
                        final(creds).accounts@.last(),
                    )
                    &&& final(creds).accounts@.last().username@ == u
                    &&& bcrypt_accepts(p, final(creds).accounts@.last().digest@)
                }
                ||| {
                    &&& is_text_response(
                        r,
                        500,
                        ContentType::Html,
                        "❌ Erreur : le service est indisponible"@,
                    )
                    &&& *final(creds) == *old(creds)
                }
            }
        }),
{
    let username = decoded_form_field(body, "username");
    let password = decoded_form_field(body, "password");
    match creds.create_account(username, &password) {
        Ok(_) => html_fragment("✅ Compte créé avec succès !".to_owned()),
        Err(AccountError::Conflict) => html_fragment(
            "❌ Erreur : ce nom d'utilisateur ou cet e-mail est déjà pris".to_owned(),
        ),
        Err(AccountError::Unavailable) => html_status(
            500,
            "❌ Erreur : le service est indisponible".to_owned(),
        ),
    }
}

/// The shape of a successful login: the dashboard redirect script, and a
/// fresh token bound to the account and set as the session cookie.
pub open spec fn login_succeeded(
    r: HttpResponse,
    pre: Seq<(String, UserId)>,
    post: Seq<(String, UserId)>,
    id: UserId,
) -> bool {
    &&& r.status == 200
    &&& r.content_type == ContentType::Html
    &&& r.body matches Body::Text(t) && t@ == "<script>window.location.href='/dashboard';</script>"@
    &&& post == pre.push(post.last())
    &&& post.last().1 == id
    &&& spec_resolve(pre, post.last().0@) is None
    &&& spec_resolve(post, post.last().0@) == Some(id)
    &&& r.set_cookie matches Some(c) && c@ == spec_session_cookie(post.last().0@)
    &&& post.last().0@.len() == 36
    &&& (forall|k: int| 0 <= k < post.last().0@.len() ==> is_token_char(#[trigger] post.last().0@[k]))
    &&& r.hx_trigger == false
}

/// Handles a login form: verifies the credentials and, when they match,
/// opens a session and sets its cookie. A wrong password and an unknown
/// username are deliberately the same failure; only a backing service
/// failing answers a generic server error.
pub fn login(creds: &CredStore, sessions: &mut SessionStore, body: &str) -> (r: HttpResponse)
    ensures
        ({
            let u = spec_form_value(body@, "username"@);
            let p = spec_form_value(body@, "password"@);
            match spec_account_of(creds.accounts@, u) {
                None => is_text_response(r, 200, ContentType::Html, "❌ Identifiants incorrects"@)
                    && *final(sessions) == *old(sessions),
                Some(acc) => {
                    if !bcrypt_digest_wf(acc.digest@) {
                        &&& is_text_response(
                            r,
                            500,
                            ContentType::Html,
                            "❌ Erreur : le service est indisponible"@,
                        )
                        &&& *final(sessions) == *old(sessions)
                    } else if !bcrypt_accepts(p, acc.digest@) {
                        &&& is_text_response(
                            r,
                            200,
                            ContentType::Html,
                            "❌ Identifiants incorrects"@,
                        )
                        &&& *final(sessions) == *old(sessions)
                    } else {
                        ||| login_succeeded(
                            r,
                            old(sessions).entries@,
                            final(sessions).entries@,
                            acc.id,
                        )
                        ||| (is_text_response(
                            r,
                            500,
                            ContentType::Html,
                            "❌ Erreur : le service est indisponible"@,
                        ) && *final(sessions) == *old(sessions))
                    }
                },
            }
        }),
{
    let username = decoded_form_field(body, "username");
    let password = decoded_form_field(body, "password");
    match creds.verify(username.as_str(), &password) {
        Ok(true) => {
            match creds.user_id_of(username.as_str()) {
                Some(id) => {
                    match sessions.create(id) {
                        Ok(t) => login_success(t.as_str()),
                        Err(_) => html_status(
                            500,
                            "❌ Erreur : le service est indisponible".to_owned(),
                        ),
                    }
                },
                None => {
                    proof {
                        assert(false);
                    }
                    html_status(500, "❌ Erreur : le service est indisponible".to_owned())
                },
            }
        },
        Ok(false) => html_fragment("❌ Identifiants incorrects".to_owned()),
        Err(_) => html_status(500, "❌ Erreur : le service est indisponible".to_owned()),
    }
}

/// The structured refusal of an API route reached without a resolved
/// session.
pub fn unauthorized() -> (r: HttpResponse)
    ensures
        is_text_response(r, 401, ContentType::Json, "{\"error\":\"Authentification requise\"}"@),
{
    json_text(401, "{\"error\":\"Authentification requise\"}")
}

/// The refusal of a method the restaurant route does not serve.
pub fn method_not_allowed() -> (r: HttpResponse)
    ensures
        is_text_response(r, 405, ContentType::Json, "{\"error\":\"Méthode non autorisée\"}"@),
{
    json_text(405, "{\"error\":\"Méthode non autorisée\"}")
}

/// The shape of a listing answer: under the query refinements of `target`,
/// a server error exactly on a negative cap, a distinct empty-state
/// fragment per filter when no row of `user` matches, and otherwise the
/// rendered newest-first list.
pub open spec fn listing_response(
    r: HttpResponse,
    all_rows: Seq<Restaurant>,
    user: UserId,
    target: Seq<char>,
) -> bool {
    let pairs = url_query_pairs(target);
    let fav = spec_favorites(pairs);
    let lim = spec_limit(pairs);
    let rows = spec_limited(spec_filtered(all_rows, user, fav), lim);
    if lim matches Some(l) && l < 0 {
        is_text_response(
            r,
            500,
            ContentType::Html,
            "<p class='text-red-500'>Erreur lors de la récupération des restaurants.</p>"@,
        )
    } else if rows.len() == 0 {
        if fav {
            is_text_response(
                r,
                200,
                ContentType::Html,
                "<p class='text-gray-500'>Vous n'avez encore aucun restaurant favori.</p>"@,
            )
        } else {
            is_text_response(
                r,
                200,
                ContentType::Html,
                "<p class='text-gray-500'>Vous n'avez pas encore ajouté de restaurant.</p>"@,
            )
        }
    } else {
        is_text_response(r, 200, ContentType::Html, spec_list_fragment(rows))
    }
}

/// The listing route: reads the `favorites` and `limit` refinements from
/// the query, lists the caller's rows newest first, and renders them —
/// a distinct empty-state fragment per filter, and the store's refusal of
/// the cap as a plain server error.
pub fn restaurants_get(store: &RestaurantStore, user: UserId, target: &str) -> (r: HttpResponse)
    ensures
        listing_response(r, store.rows@, user, target@),
{
    let pairs = query_pairs(target);
    let (fav, limit) = list_params(&pairs);
    match store.list_for_user(user, fav, limit) {
        Err(_) => html_status(
            500,
            "<p class='text-red-500'>Erreur lors de la récupération des restaurants.</p>"
                .to_owned(),
        ),
        Ok(rows) => {
            if rows.len() == 0 {
                if fav {
                    html_fragment(
                        "<p class='text-gray-500'>Vous n'avez encore aucun restaurant favori.</p>"
                            .to_owned(),
                    )
                } else {
                    html_fragment(
                        "<p class='text-gray-500'>Vous n'avez pas encore ajouté de restaurant.</p>"
                            .to_owned(),
                    )
                }
            } else {
                html_fragment(render_list(&rows))
            }
        },
    }
}

/// The raw fields of a create payload, text as the client sent it: the
/// numeric rating and the favorite flag still unread.
#[derive(Debug)]
pub struct RawCreate {
    pub name: String,
    pub city: String,
    pub description: Option<String>,
    pub rating: Option<String>,
    pub favorite: Option<String>,
}

/// A create request after the structured-payload codec: its decoded
/// fields, or the codec's refusal with its reason.
#[derive(Debug)]
pub enum CreateRequest {
    Payload(RawCreate),
    Malformed { reason: String },
}

/// Whether the rating field of a payload reads: absent, empty, or an
/// integer that fits the rating column.
pub open spec fn spec_rating_ok(rating: Option<String>) -> bool {
    match rating {
        None => true,
        Some(s) => s@.len() == 0 || (match spec_parse_int(s@) {
            Some(n) => i16::MIN <= n && n <= i16::MAX,
            None => false,
        }),
    }
}

/// The rating a well-formed field stores: nothing for absent or empty.
pub open spec fn spec_rating_value(rating: Option<String>) -> Option<i16> {
    match rating {
        None => None,
        Some(s) => if s@.len() == 0 {
            None
        } else {
            match spec_parse_int(s@) {
                Some(n) => Some(n as i16),
                None => None,
            }
        },
    }
}

/// The favorite flag a payload stores: exactly `"true"` or `"on"`.
pub open spec fn spec_favorite_value(favorite: Option<String>) -> bool {
    match favorite {
        None => false,
        Some(s) => s@ == "true"@ || s@ == "on"@,
    }
}

/// The shape of a successful creation: the created row carried as data,
/// a created status, and the refresh trigger for the listening client.
pub open spec fn created_ok(
    r: HttpResponse,
    pre: RestaurantStore,
    post: RestaurantStore,
    user: UserId,
    p: RawCreate,
) -> bool {
    &&& r.status == 201
    &&& r.content_type == ContentType::Json
    &&& r.set_cookie is None
    &&& r.hx_trigger == true
    &&& r.body matches Body::Row(row) && {
        &&& row.id == pre.next_id
        &&& row.owner_id == user
        &&& row.name@ == p.name@
        &&& row.city@ == p.city@
        &&& row.rating == spec_rating_value(p.rating)
        &&& (match (row.description, p.description) {
            (Some(a), Some(b)) => a@ == b@,
            (None, None) => true,
            _ => false,
        })
        &&& row.is_favorite == spec_favorite_value(p.favorite)
        &&& post.rows@ == pre.rows@.push(row)
    }
}

/// The answer of the create route to `req`, taking the table from `pre`
/// to `post`: a payload the codec refused, or whose rating does not read,
/// is a bad request carrying the reason and changes nothing; otherwise a
/// row is created exactly while identifiers remain, and only then does
/// the table change.
pub open spec fn create_response(
    r: HttpResponse,
    pre: RestaurantStore,
    post: RestaurantStore,
    user: UserId,
    req: CreateRequest,
) -> bool {
    match req {
        CreateRequest::Malformed { reason } => post == pre && is_text_response(
            r,
            400,
            ContentType::Json,
            "{\"error\":\"Données invalides: "@ + reason@ + "\"}"@,
        ),
        CreateRequest::Payload(p) => {
            if !spec_rating_ok(p.rating) {
                &&& post == pre
                &&& is_text_response(
                    r,
                    400,
                    ContentType::Json,
                    "{\"error\":\"Données invalides: le champ rating doit être vide ou un entier\"}"@,
                )
            } else if pre.next_id == i32::MAX {
                &&& post == pre
                &&& is_text_response(
                    r,
                    500,
                    ContentType::Json,
                    "{\"error\":\"Erreur interne du serveur\"}"@,
                )
            } else {
                created_ok(r, pre, post, user, p)
            }
        },
    }
}

/// The create route: a payload the codec refused, or whose rating does not
/// read, is a bad request with the reason — never a server failure; a
/// well-formed payload persists a row owned by the caller.
pub fn restaurants_post(store: &mut RestaurantStore, user: UserId, req: CreateRequest) -> (r:
    HttpResponse)
    requires
        old(store).wf(),
    ensures
        final(store).wf(),
        create_response(r, *old(store), *final(store), user, req),
{
    match req {
        CreateRequest::Malformed { reason } => {
            let mut msg = String::new();
            msg.append("{\"error\":\"Données invalides: ");
            msg.append(reason.as_str());
            msg.append("\"}");
            crate::http::json_status(400, msg)
        },
        CreateRequest::Payload(p) => {
            let rating = match rating_from_field(p.rating.as_ref()) {
                Ok(x) => x,
                Err(_) => {
                    return json_text(
                        400,
                        "{\"error\":\"Données invalides: le champ rating doit être vide ou un entier\"}",
                    );
                },
            };
            let favorite = favorite_from_field(p.favorite.as_ref());
            let nr = NewRestaurant {
                name: p.name,
                city: p.city,
                description: p.description,
                rating,
                is_favorite: favorite,
            };
            match store.create(user, nr) {
                Ok(row) => HttpResponse {
                    status: 201,
                    content_type: ContentType::Json,
                    body: Body::Row(row),
                    set_cookie: None,
                    hx_trigger: true,
                },
                Err(_) => json_text(500, "{\"error\":\"Erreur interne du serveur\"}"),
            }
        },
    }
}

} // verus!
