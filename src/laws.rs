use crate::http::{found_spec, Method, RequestView, STATUS_BAD_REQUEST, STATUS_FOUND, STATUS_NOT_FOUND, STATUS_OK};
use crate::pages::{HOME_HTML, LOGIN_HTML, PHISHING_HTML};
use crate::query::{decoded_query, params_from_query_spec, redirect_key, values_of};
use crate::redirect::allowed_redirects;
use crate::router::{response_spec, route_spec};
use vstd::prelude::*;

verus! {

/// The query of a request names no `redirect_url`: it decodes to pairs none
/// of which has that name, or it does not decode at all.
pub open spec fn lacks_redirect_param(q: Seq<char>) -> bool {
    match decoded_query(q) {
        Some(pairs) => values_of(pairs, redirect_key()).len() == 0,
        None => true,
    }
}

/// The route paths are told apart by their characters.
proof fn reveal_route_paths()
    ensures
        "/login"@ != "/phishing-site"@,
        "/login"@ != "/home"@,
        "/login"@ != "/vulnerable_redirect"@,
        "/login"@ != "/secure_redirect"@,
        "/phishing-site"@ != "/home"@,
        "/phishing-site"@ != "/vulnerable_redirect"@,
        "/phishing-site"@ != "/secure_redirect"@,
        "/home"@ != "/vulnerable_redirect"@,
        "/home"@ != "/secure_redirect"@,
        "/vulnerable_redirect"@ != "/secure_redirect"@,
{
    reveal_strlit("/login");
    reveal_strlit("/phishing-site");
    reveal_strlit("/home");
    reveal_strlit("/vulnerable_redirect");
    reveal_strlit("/secure_redirect");
    assert("/login"@.len() == 6);
    assert("/phishing-site"@.len() == 14);
    assert("/home"@.len() == 5);
    assert("/vulnerable_redirect"@.len() == 20);
    assert("/secure_redirect"@.len() == 16);
}

/// A `GET /secure_redirect` whose `redirect_url` is not on the allow list is
/// answered with a redirect to `/home`.
pub proof fn lemma_secure_redirect_falls_back(req: RequestView, s: Seq<char>)
    requires
        req.method == Method::Get,
        req.path == "/secure_redirect"@,
        params_from_query_spec(req.query) == Some(s),
        !allowed_redirects().contains(s),
    ensures
        response_spec(req).status == STATUS_FOUND,
        response_spec(req).location == Some("/home"@),
{
    reveal_route_paths();
}

/// A `GET /secure_redirect` whose `redirect_url` is on the allow list is
/// answered with a redirect to exactly that target.
pub proof fn lemma_secure_redirect_keeps_allowed(req: RequestView, s: Seq<char>)
    requires
        req.method == Method::Get,
        req.path == "/secure_redirect"@,
        params_from_query_spec(req.query) == Some(s),
        allowed_redirects().contains(s),
    ensures
        response_spec(req).status == STATUS_FOUND,
        response_spec(req).location == Some(s),
{
    reveal_route_paths();
}

/// Whatever `redirect_url` a `GET /secure_redirect` carries, the `Location`
/// of the answer is on the allow list.
pub proof fn lemma_secure_redirect_stays_inside(req: RequestView, s: Seq<char>)
    requires
        req.method == Method::Get,
        req.path == "/secure_redirect"@,
        params_from_query_spec(req.query) == Some(s),
    ensures
        response_spec(req).location matches Some(t) && allowed_redirects().contains(t),
{
    reveal_route_paths();
    assert(allowed_redirects()[0] == "/home"@);
}

/// A `GET /vulnerable_redirect` is answered with a redirect to its
/// `redirect_url`, verbatim, whatever that string is.
pub proof fn lemma_vulnerable_redirect_verbatim(req: RequestView, s: Seq<char>)
    requires
        req.method == Method::Get,
        req.path == "/vulnerable_redirect"@,
        params_from_query_spec(req.query) == Some(s),
    ensures
        response_spec(req) == found_spec(s),
{
    reveal_route_paths();
}

/// Either redirect endpoint answers a request without `redirect_url` with
/// 400 and no `Location`.
pub proof fn lemma_missing_param_is_bad_request(req: RequestView)
    requires
        req.method == Method::Get,
        req.path == "/vulnerable_redirect"@ || req.path == "/secure_redirect"@,
        lacks_redirect_param(req.query),
    ensures
        response_spec(req).status == STATUS_BAD_REQUEST,
        response_spec(req).location is None,
{
    reveal_route_paths();
}

/// `GET /login`, `/home` and `/phishing-site` are answered with 200, an HTML
/// content type and the page's fixed body, whatever the query.
pub proof fn lemma_pages_are_served(req: RequestView)
    requires
        req.method == Method::Get,
        req.path == "/login"@ || req.path == "/home"@ || req.path == "/phishing-site"@,
    ensures
        response_spec(req).status == STATUS_OK,
        response_spec(req).content_type == Some("text/html"@),
        response_spec(req).location is None,
        req.path == "/login"@ ==> response_spec(req).body == LOGIN_HTML@,
        req.path == "/home"@ ==> response_spec(req).body == HOME_HTML@,
        req.path == "/phishing-site"@ ==> response_spec(req).body == PHISHING_HTML@,
{
    reveal_route_paths();
}

/// A request whose method and path match no route is answered with 404.
pub proof fn lemma_unmatched_is_not_found(req: RequestView)
    requires
        route_spec(req.method, req.path) is None,
    ensures
        response_spec(req).status == STATUS_NOT_FOUND,
        response_spec(req).location is None,
{
}

/// Handling keeps no state: equal requests get equal responses, however often
/// and in whatever order they are made.
pub proof fn lemma_handling_is_repeatable(a: RequestView, b: RequestView)
    requires
        a == b,
    ensures
        response_spec(a) == response_spec(b),
{
}

} // verus!
