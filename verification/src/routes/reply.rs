//! The HTTP replies that the handlers give, as plain values.

use vstd::prelude::*;

verus! {

/// An HTTP reply: status code, optional content type, and body text.
pub struct Reply {
    pub status: u16,
    pub content_type: Option<String>,
    pub body: String,
}

/// `r` has status `status`, no content type, and body `body`.
pub open spec fn is_plain_reply(r: Reply, status: u16, body: Seq<char>) -> bool {
    r.status == status && r.content_type is None && r.body@ == body
}

/// `r` is a 200 reply with content type `text/html` and body `body`.
pub open spec fn is_html_reply(r: Reply, body: Seq<char>) -> bool {
    &&& r.status == 200
    &&& r.content_type matches Some(t) && t@ == "text/html"@
    &&& r.body@ == body
}

/// A reply with no content type.
pub fn plain_reply(status: u16, body: String) -> (r: Reply)
    ensures
        r.status == status,
        r.content_type is None,
        r.body == body,
{
    Reply { status, content_type: None, body }
}

/// A 200 reply carrying an HTML page.
pub fn html_reply(body: String) -> (r: Reply)
    ensures
        is_html_reply(r, body@),
{
    Reply { status: 200, content_type: Some(String::from_str("text/html")), body }
}

/// The reply for the outcome of rendering a template: the page, or a 500
/// reply naming the template error.
pub fn rendered_page_reply(rendered: Result<String, String>) -> (r: Reply)
    ensures
        rendered matches Ok(html) ==> is_html_reply(r, html@),
        rendered matches Err(e) ==> is_plain_reply(r, 500, "Template error: "@ + e@),
{
    match rendered {
        Ok(html) => html_reply(html),
        Err(e) => {
            let mut body = String::from_str("Template error: ");
            body.append(e.as_str());
            plain_reply(500, body)
        },
    }
}

} // verus!
