use crate::http::{html_page, html_page_spec, Response, ResponseView};
use vstd::prelude::*;

verus! {

/// The legitimate login page.
pub const LOGIN_HTML: &'static str = "
<!DOCTYPE html>
<html>
<head>
    <title>Login - MusiqueAimer</title>
</head>
<body>
    <h1>Login to MusiqueAimer</h1>
    <p>Imagine a login form here. Once you log in, you will be redirected.</p>
</body>
</html>
";

/// The look-alike page that an open redirect can lead a user to.
pub const PHISHING_HTML: &'static str = "
<!DOCTYPE html>
<html>
<head>
    <title>OMG BIG SALE!!</title>
</head>
<body>
    <h1>Enter your Credit Card Details for a HUGE Discount!</h1>
    <form>
        <label for='cc'>Credit Card:</label>
        <input type='text' id='cc' name='cc'><br><br>
        <input type='submit' value='Get Discount!'>
    </form>
    <p style='color:red;'>We will now steal your details!</p>
</body>
</html>
";

/// The legitimate home page.
pub const HOME_HTML: &'static str = "
<!DOCTYPE html>
<html>
<head>
    <title>Home - MusiqueAimer</title>
</head>
<body>
    <h1>Welcome to MusiqueAimer!</h1>
    <p>Your legitimate user dashboard.</p>
</body>
</html>
";

pub open spec fn login_page_spec() -> ResponseView {
    html_page_spec(LOGIN_HTML@)
}

pub open spec fn phishing_page_spec() -> ResponseView {
    html_page_spec(PHISHING_HTML@)
}

pub open spec fn home_page_spec() -> ResponseView {
    html_page_spec(HOME_HTML@)
}

/// Serves the login page.
pub fn login_page() -> (r: Response)
    ensures
        r@ == login_page_spec(),
{
    html_page(LOGIN_HTML)
}

/// Serves the look-alike page.
pub fn phishing_page() -> (r: Response)
    ensures
        r@ == phishing_page_spec(),
{
    html_page(PHISHING_HTML)
}

/// Serves the home page.
pub fn home_page() -> (r: Response)
    ensures
        r@ == home_page_spec(),
{
    html_page(HOME_HTML)
}

} // verus!
