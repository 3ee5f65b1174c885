use crate::http::{
    empty_spec, error_status_spec, found_spec, Method, Request, RequestError, RequestView, Response,
    ResponseView,
};
use crate::pages::{home_page, home_page_spec, login_page, login_page_spec, phishing_page, phishing_page_spec};
use crate::query::{params_from_query_spec, redirect_params};
use crate::redirect::{safe_target_spec, secure_redirect, vulnerable_redirect};
use vstd::prelude::*;

verus! {

/// The endpoints of the service.
#[derive(Clone, Copy, Debug, PartialEq, Eq, Structural)]
pub enum Route {
    Login,
    PhishingSite,
    Home,
    VulnerableRedirect,
    SecureRedirect,
}

/// Exact path match, for `GET` only; anything else matches no route.
pub open spec fn route_spec(method: Method, path: Seq<char>) -> Option<Route> {
    if method != Method::Get {
        None
    } else if path == "/login"@ {
        Some(Route::Login)
    } else if path == "/phishing-site"@ {
        Some(Route::PhishingSite)
    } else if path == "/home"@ {
        Some(Route::Home)
    } else if path == "/vulnerable_redirect"@ {
        Some(Route::VulnerableRedirect)
    } else if path == "/secure_redirect"@ {
        Some(Route::SecureRedirect)
    } else {
        None
    }
}

/// What a request is answered with, or why it is refused.
pub open spec fn dispatch_spec(req: RequestView) -> Result<ResponseView, RequestError> {
    match route_spec(req.method, req.path) {
        None => Err(RequestError::NotFound),
        Some(Route::Login) => Ok(login_page_spec()),
        Some(Route::PhishingSite) => Ok(phishing_page_spec()),
        Some(Route::Home) => Ok(home_page_spec()),
        Some(Route::VulnerableRedirect) => match params_from_query_spec(req.query) {
            Some(url) => Ok(found_spec(url)),
            None => Err(RequestError::BadRequest),
        },
        Some(Route::SecureRedirect) => match params_from_query_spec(req.query) {
            Some(url) => Ok(found_spec(safe_target_spec(url))),
            None => Err(RequestError::BadRequest),
        },
    }
}

/// The response that answers a request, errors included.
pub open spec fn response_spec(req: RequestView) -> ResponseView {
    match dispatch_spec(req) {
        Ok(resp) => resp,
        Err(e) => empty_spec(error_status_spec(e)),
    }
}

pub open spec fn dispatch_result_view(r: Result<Response, RequestError>) -> Result<ResponseView, RequestError> {
    match r {
        Ok(resp) => Ok(resp@),
        Err(e) => Err(e),
    }
}

/// Matches a method and path against the route table.
pub fn route(method: Method, path: &String) -> (r: Option<Route>)
    ensures
        r == route_spec(method, path@),
{
    if method != Method::Get {
        return None;
    }
    if *path == "/login".to_owned() {
        Some(Route::Login)
    } else if *path == "/phishing-site".to_owned() {
        Some(Route::PhishingSite)
    } else if *path == "/home".to_owned() {
        Some(Route::Home)
    } else if *path == "/vulnerable_redirect".to_owned() {
        Some(Route::VulnerableRedirect)
    } else if *path == "/secure_redirect".to_owned() {
        Some(Route::SecureRedirect)
    } else {
        None
    }
}

/// Runs the handler that the request's route names.
pub fn dispatch(req: &Request) -> (r: Result<Response, RequestError>)
    ensures
        dispatch_result_view(r) == dispatch_spec(req@),
{
    match route(req.method, &req.path) {
        None => Err(RequestError::NotFound),
        Some(Route::Login) => Ok(login_page()),
        Some(Route::PhishingSite) => Ok(phishing_page()),
        Some(Route::Home) => Ok(home_page()),
        Some(Route::VulnerableRedirect) => match redirect_params(req.query.as_str()) {
            Ok(params) => Ok(vulnerable_redirect(&params)),
            Err(e) => Err(e),
        },
        Some(Route::SecureRedirect) => match redirect_params(req.query.as_str()) {
            Ok(params) => Ok(secure_redirect(&params)),
            Err(e) => Err(e),
        },
    }
}

/// Answers a request; a refused request gets a bodiless error response.
pub fn handle(req: &Request) -> (r: Response)
    ensures
        r@ == response_spec(req@),
{
    match dispatch(req) {
        Ok(resp) => resp,
        Err(e) => e.to_response(),
    }
}

} // verus!
