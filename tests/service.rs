use open_redirect::http::{
    Method, Request, RequestError, Response, STATUS_BAD_REQUEST, STATUS_FOUND, STATUS_NOT_FOUND,
    STATUS_OK,
};
use open_redirect::pages::{HOME_HTML, LOGIN_HTML, PHISHING_HTML};
use open_redirect::query::{redirect_params, redirect_params_from_pairs};
use open_redirect::redirect::{
    is_allowed_redirect, safe_target, secure_redirect, vulnerable_redirect, RedirectParams,
};
use open_redirect::router::{dispatch, handle, route, Route};

fn get(path: &str, query: &str) -> Response {
    handle(&Request::new(Method::Get, path.to_string(), query.to_string()))
}

fn assert_redirect(resp: &Response, target: &str) {
    assert_eq!(resp.status, 302);
    assert_eq!(resp.location.as_deref(), Some(target));
    assert!(resp.body.is_empty());
}

fn assert_bad_request(resp: &Response) {
    assert_eq!(resp.status, 400);
    assert_eq!(resp.location, None);
}

fn params(url: &str) -> RedirectParams {
    RedirectParams { redirect_url: url.to_string() }
}

#[test]
fn secure_redirect_falls_back_for_unlisted_targets() {
    for query in [
        "redirect_url=http%3A%2F%2Fevil.example%2Fphish",
        "redirect_url=javascript:alert(1)",
        "redirect_url=%2FHome",
        "redirect_url=/home/",
        "redirect_url=/hom",
        "redirect_url=/profile/edit",
        "redirect_url=",
        "redirect_url=%2Fsettings%20",
    ] {
        assert_redirect(&get("/secure_redirect", query), "/home");
    }
}

#[test]
fn secure_redirect_keeps_listed_targets() {
    assert_redirect(&get("/secure_redirect", "redirect_url=/home"), "/home");
    assert_redirect(&get("/secure_redirect", "redirect_url=/profile"), "/profile");
    assert_redirect(&get("/secure_redirect", "redirect_url=%2Fsettings"), "/settings");
    assert_redirect(&get("/secure_redirect", "x=1&redirect_url=/settings&y=2"), "/settings");
}

#[test]
fn vulnerable_redirect_passes_any_target() {
    assert_redirect(
        &get("/vulnerable_redirect", "redirect_url=http%3A%2F%2Fevil.example%2Fphish"),
        "http://evil.example/phish",
    );
    assert_redirect(
        &get("/vulnerable_redirect", "redirect_url=javascript%3Aalert%281%29"),
        "javascript:alert(1)",
    );
    assert_redirect(&get("/vulnerable_redirect", "redirect_url=a+b"), "a b");
    assert_redirect(&get("/vulnerable_redirect", "redirect_url="), "");
}

#[test]
fn vulnerable_redirect_without_param_is_bad_request() {
    assert_bad_request(&get("/vulnerable_redirect", ""));
    assert_bad_request(&get("/vulnerable_redirect", "redirect=/home"));
}

#[test]
fn secure_redirect_without_param_is_bad_request() {
    assert_bad_request(&get("/secure_redirect", ""));
    assert_bad_request(&get("/secure_redirect", "url=/profile"));
}

#[test]
fn repeated_param_is_bad_request() {
    assert_bad_request(&get("/secure_redirect", "redirect_url=/home&redirect_url=/profile"));
    assert_bad_request(&get("/vulnerable_redirect", "redirect_url=a&redirect_url=a"));
}

#[test]
fn pages_are_html() {
    for (path, body) in [("/login", LOGIN_HTML), ("/home", HOME_HTML), ("/phishing-site", PHISHING_HTML)] {
        let resp = get(path, "");
        assert_eq!(resp.status, 200);
        assert_eq!(resp.content_type.as_deref(), Some("text/html"));
        assert_eq!(resp.location, None);
        assert!(!resp.body.is_empty());
        assert_eq!(resp.body, body);
    }
    assert!(get("/login", "").body.contains("Login to MusiqueAimer"));
    assert!(get("/phishing-site", "").body.contains("Credit Card"));
}

#[test]
fn unknown_path_is_not_found() {
    let resp = get("/unknown-path", "");
    assert_eq!(resp.status, 404);
    assert_eq!(resp.location, None);
    assert_eq!(get("/Login", "").status, 404);
    assert_eq!(get("/login/", "").status, 404);
    assert_eq!(get("", "").status, 404);
}

#[test]
fn other_methods_are_not_found() {
    let req = Request::new(Method::Post, "/login".to_string(), String::new());
    assert_eq!(handle(&req).status, 404);
    let req = Request::new(Method::Head, "/secure_redirect".to_string(), "redirect_url=/home".to_string());
    assert_eq!(dispatch(&req).unwrap_err(), RequestError::NotFound);
}

#[test]
fn repeated_requests_give_equal_responses() {
    let requests = [
        ("/secure_redirect", "redirect_url=/profile"),
        ("/secure_redirect", "redirect_url=http://evil.example/phish"),
        ("/vulnerable_redirect", "redirect_url=javascript:alert(1)"),
        ("/vulnerable_redirect", ""),
        ("/secure_redirect", ""),
        ("/login", ""),
        ("/home", ""),
        ("/phishing-site", ""),
        ("/unknown-path", ""),
    ];
    let first: Vec<Response> = requests.iter().map(|(p, q)| get(p, q)).collect();
    for _ in 0..3 {
        for ((p, q), before) in requests.iter().zip(first.iter()) {
            let again = get(p, q);
            assert_eq!(again.status, before.status);
            assert_eq!(again.location, before.location);
            assert_eq!(again.content_type, before.content_type);
            assert_eq!(again.body, before.body);
        }
    }
}

#[test]
fn routes_match_exact_paths() {
    assert_eq!(route(Method::Get, &"/login".to_string()), Some(Route::Login));
    assert_eq!(route(Method::Get, &"/phishing-site".to_string()), Some(Route::PhishingSite));
    assert_eq!(route(Method::Get, &"/home".to_string()), Some(Route::Home));
    assert_eq!(route(Method::Get, &"/vulnerable_redirect".to_string()), Some(Route::VulnerableRedirect));
    assert_eq!(route(Method::Get, &"/secure_redirect".to_string()), Some(Route::SecureRedirect));
    assert_eq!(route(Method::Get, &"/secure_redirect/".to_string()), None);
    assert_eq!(route(Method::Delete, &"/home".to_string()), None);
}

#[test]
fn allow_list_is_exact() {
    assert!(is_allowed_redirect(&"/home".to_string()));
    assert!(is_allowed_redirect(&"/profile".to_string()));
    assert!(is_allowed_redirect(&"/settings".to_string()));
    assert!(!is_allowed_redirect(&"/Settings".to_string()));
    assert!(!is_allowed_redirect(&"/profile/".to_string()));
    assert!(!is_allowed_redirect(&"profile".to_string()));
    assert!(!is_allowed_redirect(&String::new()));
    assert_eq!(safe_target(&"/settings".to_string()), "/settings");
    assert_eq!(safe_target(&"https://example.com".to_string()), "/home");
}

#[test]
fn handlers_build_redirects() {
    assert_redirect(&vulnerable_redirect(&params("data:text/html,hi")), "data:text/html,hi");
    assert_redirect(&secure_redirect(&params("data:text/html,hi")), "/home");
    assert_redirect(&secure_redirect(&params("/profile")), "/profile");
    assert_eq!(secure_redirect(&params("/profile")).content_type, None);
}

#[test]
fn params_from_pairs_need_exactly_one_value() {
    let one = vec![
        ("a".to_string(), "1".to_string()),
        ("redirect_url".to_string(), "/x".to_string()),
    ];
    assert_eq!(redirect_params_from_pairs(&one).unwrap().redirect_url, "/x");
    assert_eq!(redirect_params_from_pairs(&Vec::new()).unwrap_err(), RequestError::BadRequest);
    let two = vec![
        ("redirect_url".to_string(), "/x".to_string()),
        ("redirect_url".to_string(), "/x".to_string()),
    ];
    assert_eq!(redirect_params_from_pairs(&two).unwrap_err(), RequestError::BadRequest);
    let other = vec![("Redirect_url".to_string(), "/x".to_string())];
    assert_eq!(redirect_params_from_pairs(&other).unwrap_err(), RequestError::BadRequest);
}

#[test]
fn query_strings_are_decoded() {
    assert_eq!(redirect_params("redirect_url=%2Fa%20b").unwrap().redirect_url, "/a b");
    assert_eq!(redirect_params("redirect%5Furl=/p").unwrap().redirect_url, "/p");
    assert_eq!(redirect_params("&&redirect_url=/p&").unwrap().redirect_url, "/p");
    assert_eq!(redirect_params("redirect_url").unwrap().redirect_url, "");
    assert_eq!(redirect_params("").unwrap_err(), RequestError::BadRequest);
}

#[test]
fn error_statuses() {
    assert_eq!(RequestError::BadRequest.status(), STATUS_BAD_REQUEST);
    assert_eq!(RequestError::NotFound.status(), STATUS_NOT_FOUND);
    let resp = RequestError::NotFound.to_response();
    assert_eq!((resp.status, resp.body.as_str()), (404, ""));
    assert_eq!((STATUS_OK, STATUS_FOUND), (200, 302));
}
