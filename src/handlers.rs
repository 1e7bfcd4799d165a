//! The decisions of the request handlers: which form fields are required,
//! where a new post goes, which pipeline an edit starts, and which command a
//! revert runs. Form fields arrive as `Option`s: `None` when the form lacks
//! the field.
use crate::command::with_argument;
use crate::config::Config;
use crate::paths::{
    collapsed, is_absolute, join_path, joined_path, lemma_normalized_confinement, normalize_path,
    normalized, path_components, path_starts_with, pieces, starts_with_path,
};
use crate::pipeline::{initial, option_view, Action, Change, RevisionPipeline};
use crate::reply::{forbidden, forbidden_text, Reply, Status};
use crate::text::{copy_texts, first_word, is_first_word, split_on, split_text, texts};
use crate::outside::unicode_space;
use vstd::prelude::*;

verus! {

/// Where a new post named `filename` goes: the name taken as a path under the
/// source tree, normalized lexically.
pub open spec fn publish_path(root: Seq<char>, filename: Seq<char>) -> Seq<char> {
    normalized(joined_path(root, filename))
}

/// Checks a creation request: both the file name and the content are
/// required, and the new file must lie under the source tree. Gives the path
/// of the new file.
pub fn publish_target(config: &Config, filename: Option<String>, content: Option<String>) -> (r:
    Result<String, Reply>)
    ensures
        filename is None ==> (r matches Err(e) && e.status == Status::BadRequest && e.body@
            == "missing filename"@),
        (filename is Some && content is None) ==> (r matches Err(e) && e.status
            == Status::BadRequest && e.body@ == "missing content"@),
        filename matches Some(f) ==> (content is Some ==> {
            let p = publish_path(config.blog_dir@, f@);
            &&& starts_with_path(p, config.blog_dir@) ==> (r matches Ok(t) && t@ == p)
            &&& !starts_with_path(p, config.blog_dir@) ==> (r matches Err(e) && e.status
                == Status::BadRequest && e.body@ == forbidden_text())
        }),
{
    let filename = match filename {
        Some(f) => f,
        None => return Err(Reply::bad_request("missing filename")),
    };
    if content.is_none() {
        return Err(Reply::bad_request("missing content"));
    }
    let joined = join_path(config.blog_dir.as_str(), filename.as_str());
    let target = normalize_path(joined.as_str());
    if path_starts_with(target.as_str(), config.blog_dir.as_str()) {
        Ok(target)
    } else {
        Err(forbidden())
    }
}

/// Starts the pipeline that creates the post at `target`, unless a file is
/// already there.
pub fn start_publish(
    config: &Config,
    target: &str,
    content: String,
    note: Option<String>,
    exists: bool,
) -> (r: Result<(RevisionPipeline, Action), Reply>)
    ensures
        exists ==> (r matches Err(e) && e.status == Status::BadRequest && e.body@
            == "already exists"@),
        (!exists && starts_with_path(target@, config.blog_dir@)) ==> (r matches Ok((p, a)) && p.wf()
            && p@ == initial(config, target@, Change::Write(content), option_view(note)) && a@
            == p@.plan[0]),
        (!exists && !starts_with_path(target@, config.blog_dir@)) ==> (r matches Err(e)
            && e.status == Status::BadRequest && e.body@ == forbidden_text()),
{
    if exists {
        return Err(Reply::bad_request("already exists"));
    }
    RevisionPipeline::start(config, target, Change::Write(content), note)
}

/// Whether the form's `delete` field asks for deletion.
pub open spec fn asks_delete(delete: Option<String>) -> bool {
    delete matches Some(d) && d@ == "on"@
}

/// Starts the pipeline for an edit of the resolved file `target`: deletion
/// when the `delete` field is `on`, otherwise the new content. The content
/// field is required either way.
pub fn start_edit(
    config: &Config,
    target: &str,
    content: Option<String>,
    delete: Option<String>,
    note: Option<String>,
) -> (r: Result<(RevisionPipeline, Action), Reply>)
    ensures
        content is None ==> (r matches Err(e) && e.status == Status::BadRequest && e.body@
            == "no content from form?"@),
        content matches Some(c) ==> (starts_with_path(target@, config.blog_dir@) ==> (r matches Ok(
            (p, a),
        ) && p.wf() && a@ == p@.plan[0] && p@ == initial(
            config,
            target@,
            if asks_delete(delete) {
                Change::Remove
            } else {
                Change::Write(c)
            },
            option_view(note),
        ))),
        content is Some ==> (!starts_with_path(target@, config.blog_dir@) ==> (r matches Err(e)
            && e.status == Status::BadRequest && e.body@ == forbidden_text())),
{
    let content = match content {
        Some(c) => c,
        None => return Err(Reply::bad_request("no content from form?")),
    };
    let on = String::from_str("on");
    let remove = match &delete {
        Some(d) => *d == on,
        None => false,
    };
    let change = if remove {
        Change::Remove
    } else {
        Change::Write(content)
    };
    RevisionPipeline::start(config, target, change, note)
}

/// The answer when the resolved file cannot be read.
pub fn unreadable(path: &str) -> (r: Reply)
    ensures
        r.status == Status::ServerError,
        r.body@ == "couldn't read "@ + path@,
{
    let mut body = String::from_str("couldn't read ");
    body.append(path);
    Reply::server_error(body)
}

/// The command line that lists the revisions.
pub fn list_command(config: &Config) -> (r: Vec<String>)
    ensures
        texts(r@) == texts(config.list_revisions@),
{
    copy_texts(&config.list_revisions)
}

/// The revisions in the listing command's output, one per line, verbatim.
pub fn revision_entries(output: &str) -> (r: Vec<String>)
    ensures
        texts(r@) == split_on(output@, '\n'),
{
    split_text(output, '\n')
}

/// The command line that reverts the revision chosen in the form: the revert
/// command with the first whitespace-delimited word of the `revision` field,
/// and that word only. Unlike an edit, a revert changes only the source and
/// revision-control trees: the site is not rebuilt or redeployed until the
/// next edit does so.
pub fn revert_command(config: &Config, revision: Option<String>) -> (r: Result<Vec<String>, Reply>)
    ensures
        revision is None ==> (r matches Err(e) && e.status == Status::BadRequest && e.body@
            == "no revision from form?"@),
        revision matches Some(v) ==> ((forall|j: int|
            0 <= j < v@.len() ==> unicode_space(#[trigger] v@[j])) ==> (r matches Err(e)
            && e.status == Status::BadRequest && e.body@ == "no hash in revision "@ + v@)),
        revision matches Some(v) ==> (!(forall|j: int|
            0 <= j < v@.len() ==> unicode_space(#[trigger] v@[j])) ==> (r matches Ok(argv)
            && texts(argv@).drop_last() == texts(config.revert_revision@) && is_first_word(
            v@,
            texts(argv@).last(),
        ))),
{
    let revision = match revision {
        Some(v) => v,
        None => return Err(Reply::bad_request("no revision from form?")),
    };
    match first_word(revision.as_str()) {
        Some(w) => {
            let argv = with_argument(&config.revert_revision, w.as_str());
            assert(texts(argv@).drop_last() =~= texts(config.revert_revision@));
            Ok(argv)
        },
        None => {
            let mut body = String::from_str("no hash in revision ");
            body.append(revision.as_str());
            Err(Reply::text(Status::BadRequest, body))
        },
    }
}

/// The answer that carries a command's outcome: its output on success, its
/// diagnostic as a failure of the service otherwise.
pub fn command_reply(outcome: Result<String, String>) -> (r: Reply)
    ensures
        !r.html,
        outcome matches Ok(o) ==> (r.status == Status::Success && r.body@ == o@),
        outcome matches Err(e) ==> (r.status == Status::ServerError && r.body@ == e@),
{
    match outcome {
        Ok(o) => Reply::text(Status::Success, o),
        Err(e) => Reply::server_error(e),
    }
}

/// A new post named `filename` is accepted under an absolute source root
/// exactly when, with `.` and `..` collapsed lexically, the root's components
/// still begin the components of root and name joined: a name whose `..`
/// climb above the root is refused, whether or not anything exists there.
pub proof fn lemma_publish_confinement(root: Seq<char>, filename: Seq<char>)
    requires
        is_absolute(root),
    ensures
        starts_with_path(publish_path(root, filename), root) <==> path_components(root).is_prefix_of(
            collapsed(pieces(joined_path(root, filename))),
        ),
{
    let j = joined_path(root, filename);
    if !is_absolute(filename) {
        assert(j[0] == root[0]);
    }
    lemma_normalized_confinement(j, root);
}

} // verus!
