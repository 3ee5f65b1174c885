use crate::http::{found, found_spec, Response};
use vstd::prelude::*;

verus! {

/// The parameters of both redirect endpoints.
#[derive(Debug)]
pub struct RedirectParams {
    pub redirect_url: String,
}

/// The targets that the checked redirect accepts, in order.
pub open spec fn allowed_redirects() -> Seq<Seq<char>> {
    seq!["/home"@, "/profile"@, "/settings"@]
}

/// Where the checked redirect sends a target that is not allowed.
pub open spec fn default_redirect() -> Seq<char> {
    "/home"@
}

/// Exact, case-sensitive membership in the allow list.
pub open spec fn is_allowed_spec(url: Seq<char>) -> bool {
    allowed_redirects().contains(url)
}

/// The target of the checked redirect: the input if it is allowed, else the default.
pub open spec fn safe_target_spec(url: Seq<char>) -> Seq<char> {
    if is_allowed_spec(url) {
        url
    } else {
        default_redirect()
    }
}

/// Whether `url` equals one of the allowed targets, character for character.
pub fn is_allowed_redirect(url: &String) -> (r: bool)
    ensures
        r == is_allowed_spec(url@),
{
    let allowed: [&str; 3] = ["/home", "/profile", "/settings"];
    assert(allowed@.map_values(|s: &str| s@) =~= allowed_redirects());
    let mut i: usize = 0;
    while i < 3
        invariant
            0 <= i <= 3,
            allowed@.map_values(|s: &str| s@) == allowed_redirects(),
            forall|j: int| 0 <= j < i ==> allowed_redirects()[j] != url@,
        decreases 3 - i,
    {
        let candidate: String = allowed[i].to_owned();
        if candidate == *url {
            assert(allowed_redirects()[i as int] == url@);
            return true;
        }
        i = i + 1;
    }
    false
}

/// The target of the checked redirect for `url`.
pub fn safe_target(url: &String) -> (r: String)
    ensures
        r@ == safe_target_spec(url@),
{
    if is_allowed_redirect(url) {
        url.clone()
    } else {
        "/home".to_owned()
    }
}

/// The open redirect: a 302 whose `Location` is the supplied URL, unchecked.
pub fn vulnerable_redirect(params: &RedirectParams) -> (r: Response)
    ensures
        r@ == found_spec(params.redirect_url@),
{
    found(params.redirect_url.clone())
}

/// The checked redirect: a 302 to the supplied URL when it is on the allow
/// list, and to the default page otherwise.
pub fn secure_redirect(params: &RedirectParams) -> (r: Response)
    ensures
        r@ == found_spec(safe_target_spec(params.redirect_url@)),
        is_allowed_spec(safe_target_spec(params.redirect_url@)),
{
    proof {
        reveal_strlit("/home");
        assert(allowed_redirects()[0] == default_redirect());
    }
    found(safe_target(&params.redirect_url))
}

} // verus!
