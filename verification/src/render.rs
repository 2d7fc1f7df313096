//! The two response bodies the handler can owe: the failure fragment that
//! re-renders the login form with a fixed message, and the success page
//! that redirects client-side.

use vstd::prelude::*;
use vstd::string::StringExecFns;

verus! {

/// The one human-readable message every rejected login attempt carries,
/// identical for an unknown identifier and for a wrong secret.
pub open spec fn rejection_message() -> Seq<char> {
    "Wrong username or password"@
}

/// The failure fragment rendered around a message.
pub open spec fn partial_of(msg: Seq<char>) -> Seq<char> {
    "<p class=\"login-error\">"@ + msg + "</p>"@
}

/// Render the login form's failure fragment around a message.
pub fn login_partial(msg: &str) -> (s: String)
    ensures
        s@ == partial_of(msg@),
{
    let mut s = String::from_str("<p class=\"login-error\">");
    s.append(msg);
    s.append("</p>");
    s
}

/// The body a rejected attempt is answered with.
pub open spec fn rejection_body() -> Seq<char> {
    partial_of(rejection_message())
}

/// The body a successful login is answered with: a zero-delay client-side
/// redirect directive, not an HTTP redirect status.
pub open spec fn success_body_text() -> Seq<char> {
    "loading...\n<meta http-equiv=\"refresh\" content=\"0\" />"@
}

/// Render the success body.
pub fn success_body() -> (s: String)
    ensures
        s@ == success_body_text(),
{
    "loading...\n<meta http-equiv=\"refresh\" content=\"0\" />".to_owned()
}

} // verus!
