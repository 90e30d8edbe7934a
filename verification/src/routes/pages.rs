//! The page that sends a browser to the login page or the dashboard.

use vstd::prelude::*;
use crate::routes::reply::{html_reply, Reply};

verus! {

/// The body of the index page: a script that goes to `/dashboard` when a
/// token is stored in the browser, and to `/login` otherwise.
pub open spec fn index_html() -> Seq<char> {
    "<script>
            if (localStorage.getItem('jwt_token')) {
                window.location.href = '/dashboard';
            } else {
                window.location.href = '/login';
            }
        </script>"@
}

/// The reply to `GET /`.
pub fn index() -> (r: Reply)
    ensures
        crate::routes::reply::is_html_reply(r, index_html()),
{
    html_reply(String::from_str("<script>
            if (localStorage.getItem('jwt_token')) {
                window.location.href = '/dashboard';
            } else {
                window.location.href = '/login';
            }
        </script>"))
}

} // verus!
