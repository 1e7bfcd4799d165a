//! Resolving a public path to a source file. The live blog is asked for the
//! page; its HTML names the page's source file, which must then lie in the
//! source tree once the caller has canonicalized it. The caller performs the
//! HTTP request and the canonicalization; each step's decision is made here.
use crate::config::Config;
use crate::outside::{first_capture, first_group, join_url, joined_url};
use crate::paths::{join_path, joined_path, normalize_path, normalized, path_starts_with, starts_with_path};
use crate::reply::{forbidden, forbidden_text, Reply, Status};
use vstd::prelude::*;

verus! {

/// The link to the creation form for `path`, under the service's own URL.
pub open spec fn publish_link(base: Seq<char>, path: Seq<char>) -> Seq<char> {
    if base.len() > 0 && base.last() == '/' {
        base + "publish"@ + path
    } else {
        base + "/publish"@ + path
    }
}

/// An HTML document that sends the browser on to `link` at once.
pub open spec fn redirect_body(link: Seq<char>) -> Seq<char> {
    "<head><meta http-equiv=\"Refresh\" content=\"0; URL="@ + link + "\"></head>"@
}

/// The request path of a page under `/edit`: what follows the prefix.
pub fn edit_request_path(full: &str) -> (r: Option<String>)
    ensures
        r is Some <==> (full@.len() >= 5 && full@.take(5) == "/edit"@),
        r matches Some(p) ==> p@ == full@.skip(5),
{
    let n = full.unicode_len();
    if n < 5 {
        return None;
    }
    let head = String::from_str(full.substring_char(0, 5));
    let prefix = String::from_str("/edit");
    if head == prefix {
        Some(String::from_str(full.substring_char(5, n)))
    } else {
        None
    }
}

/// The answer for a page that the live blog does not serve (yet): a redirect
/// to the creation form for the same path. It is no error.
pub fn redirect_to_publish(public_url: &str, request_path: &str) -> (r: Reply)
    ensures
        r.status == Status::Success,
        r.html,
        r.body@ == redirect_body(publish_link(public_url@, request_path@)),
{
    let n = public_url.unicode_len();
    let mut body = String::from_str("<head><meta http-equiv=\"Refresh\" content=\"0; URL=");
    body.append(public_url);
    if n > 0 && public_url.get_char(n - 1) == '/' {
        body.append("publish");
    } else {
        body.append("/publish");
    }
    body.append(request_path);
    body.append("\"></head>");
    Reply { status: Status::Success, html: true, body }
}

/// The diagnostic when the page's path cannot be joined onto the blog URL.
pub open spec fn join_failure_text(path: Seq<char>) -> Seq<char> {
    "cannot join "@ + path + " onto the blog URL"@
}

/// The live blog's URL of the page at `request_path`.
pub fn page_url(config: &Config, request_path: &str) -> (r: Result<String, Reply>)
    ensures
        joined_url(config.blog_url@, request_path@) matches Some(u) ==> (r matches Ok(s) && s@
            == u),
        joined_url(config.blog_url@, request_path@) is None ==> (r matches Err(e) && e.status
            == Status::ServerError && e.body@ == join_failure_text(request_path@)),
{
    match join_url(config.blog_url.as_str(), request_path) {
        Some(u) => Ok(u),
        None => {
            let mut body = String::from_str("cannot join ");
            body.append(request_path);
            body.append(" onto the blog URL");
            Err(Reply::server_error(body))
        },
    }
}

/// Judges the status of the live blog's answer: `None` to go on and read the
/// page when it is a success (2xx), otherwise the redirect to the creation
/// form.
pub fn after_status(config: &Config, request_path: &str, status: u16) -> (r: Option<Reply>)
    ensures
        (200 <= status < 300) ==> r is None,
        !(200 <= status < 300) ==> (r matches Some(p) && p.status == Status::Success && p.html
            && p.body@ == redirect_body(publish_link(config.url@, request_path@))),
{
    if 200 <= status && status < 300 {
        None
    } else {
        Some(redirect_to_publish(config.url.as_str(), request_path))
    }
}

/// The diagnostic when the path pattern finds nothing in the page.
pub open spec fn no_match_text(pattern: Seq<char>, page: Seq<char>) -> Seq<char> {
    "nothing matching "@ + pattern + " in "@ + page
}

/// Judges the candidate named by `capture`, the first capture group of the
/// path pattern in `page`: no capture is a failure of the service. The
/// capture is taken as a path under the source tree; when, with `.` and `..`
/// collapsed lexically, that path already leaves the tree, it is refused as
/// forbidden at once, whether or not anything exists there. Otherwise the
/// joined path is given for canonicalization and the check of [`confine`].
pub fn candidate_from_capture(config: &Config, page: &str, capture: Option<String>) -> (r: Result<
    String,
    Reply,
>)
    ensures
        capture is None ==> (r matches Err(e) && e.status == Status::ServerError && e.body@
            == no_match_text(config.path_regex@, page@)),
        capture matches Some(c) ==> ({
            let j = joined_path(config.blog_dir@, c@);
            &&& starts_with_path(normalized(j), config.blog_dir@) ==> (r matches Ok(p) && p@ == j)
            &&& !starts_with_path(normalized(j), config.blog_dir@) ==> (r matches Err(e)
                && e.status == Status::BadRequest && e.body@ == forbidden_text())
        }),
{
    match capture {
        Some(c) => {
            let joined = join_path(config.blog_dir.as_str(), c.as_str());
            let lexical = normalize_path(joined.as_str());
            if path_starts_with(lexical.as_str(), config.blog_dir.as_str()) {
                Ok(joined)
            } else {
                Err(forbidden())
            }
        },
        None => {
            let mut body = String::from_str("nothing matching ");
            body.append(config.path_regex.as_str());
            body.append(" in ");
            body.append(page);
            Err(Reply::server_error(body))
        },
    }
}

/// The candidate source file that the page names through the path pattern;
/// see [`candidate_from_capture`].
pub fn source_candidate(config: &Config, page: &str) -> (r: Result<String, Reply>)
    ensures
        first_capture(config.path_regex@, page@) is None ==> (r matches Err(e) && e.status
            == Status::ServerError && e.body@ == no_match_text(config.path_regex@, page@)),
        first_capture(config.path_regex@, page@) matches Some(c) ==> ({
            let j = joined_path(config.blog_dir@, c);
            &&& starts_with_path(normalized(j), config.blog_dir@) ==> (r matches Ok(p) && p@ == j)
            &&& !starts_with_path(normalized(j), config.blog_dir@) ==> (r matches Err(e)
                && e.status == Status::BadRequest && e.body@ == forbidden_text())
        }),
{
    let capture = first_group(config.path_regex.as_str(), page);
    candidate_from_capture(config, page, capture)
}

/// The containment check on a canonical path: it is accepted only when it
/// lies under the source tree, component by component; any other path,
/// however it was reached (`..`, a symbolic link, an absolute capture), is
/// refused as forbidden.
pub fn confine(config: &Config, canonical: &str) -> (r: Result<String, Reply>)
    ensures
        starts_with_path(canonical@, config.blog_dir@) ==> (r matches Ok(p) && p@ == canonical@),
        !starts_with_path(canonical@, config.blog_dir@) ==> (r matches Err(e) && e.status
            == Status::BadRequest && e.body@ == forbidden_text()),
{
    if path_starts_with(canonical, config.blog_dir.as_str()) {
        Ok(String::from_str(canonical))
    } else {
        Err(forbidden())
    }
}

} // verus!
