use blog_editor::command::{command_outcome, with_argument};
use blog_editor::config::Config;
use blog_editor::handlers::{
    command_reply, list_command, publish_target, revert_command, revision_entries, start_edit,
    start_publish, unreadable,
};
use blog_editor::pipeline::{Action, RevisionPipeline};
use blog_editor::reply::{Reply, Status};
use blog_editor::resolve::{
    after_status, confine, edit_request_path, page_url, redirect_to_publish, source_candidate,
};
use blog_editor::text::first_word;

fn words(v: &[&str]) -> Vec<String> {
    v.iter().map(|s| s.to_string()).collect()
}

fn config() -> Config {
    Config {
        url: "https://editor.example/".to_string(),
        blog_url: "https://blog.example/".to_string(),
        path_regex: "<!-- source: ([^ ]+) -->".to_string(),
        blog_dir: "/srv/blog".to_string(),
        blog_build_dir: "/srv/blog/public".to_string(),
        dest_dir: "/var/www".to_string(),
        build_command: words(&["zola", "build"]),
        create_revision: words(&["git", "commit", "-m"]),
        stage_revision: words(&["git", "add"]),
        reset_command: words(&["git", "reset", "--hard"]),
        list_revisions: words(&["git", "log", "--oneline"]),
        revert_revision: words(&["git", "revert", "--no-edit"]),
    }
}

fn argv(a: &Action) -> Vec<String> {
    match a {
        Action::Run { argv } => argv.clone(),
        _ => panic!("expected a command"),
    }
}

fn finish(a: Action) -> Reply {
    match a {
        Action::Finish { reply } => reply,
        _ => panic!("expected the answer"),
    }
}

/// Runs a pipeline to its end, every step succeeding with `out`.
fn run_ok(mut p: RevisionPipeline, first: Action, out: &str) -> (Vec<Action>, Reply) {
    let mut seen = vec![first];
    loop {
        let next = p.step(Ok(out.to_string()));
        if p.is_finished() {
            return (seen, finish(next));
        }
        seen.push(next);
    }
}

#[test]
fn traversal_in_a_new_post_name_is_refused() {
    let c = config();
    let r = publish_target(&c, Some("a/../b/../../etc/passwd".to_string()), Some("x".to_string()));
    let e = r.err().unwrap();
    assert_eq!(e.status, Status::BadRequest);
    assert_eq!(e.status.code(), 400);
    assert_eq!(e.body, "cheating bastard");
}

#[test]
fn new_post_name_within_the_tree_is_accepted() {
    let c = config();
    let r = publish_target(&c, Some("drafts/../hello.md".to_string()), Some("Hi".to_string()));
    assert_eq!(r.ok().unwrap(), "/srv/blog/hello.md");
}

#[test]
fn absolute_post_name_outside_is_refused() {
    let c = config();
    let r = publish_target(&c, Some("/etc/passwd".to_string()), Some("Hi".to_string()));
    assert_eq!(r.err().unwrap().status, Status::BadRequest);
}

#[test]
fn publish_requires_both_fields() {
    let c = config();
    let e = publish_target(&c, None, Some("Hi".to_string())).err().unwrap();
    assert_eq!(e.body, "missing filename");
    let e = publish_target(&c, Some("a.md".to_string()), None).err().unwrap();
    assert_eq!(e.body, "missing content");
}

#[test]
fn publish_writes_then_refuses_a_second_time() {
    let c = config();
    let target = publish_target(&c, Some("hello.md".to_string()), Some("Hi".to_string()))
        .ok()
        .unwrap();
    let (p, first) = start_publish(&c, &target, "Hi".to_string(), None, false).ok().unwrap();
    match &first {
        Action::WriteFile { path, content } => {
            assert_eq!(path, "/srv/blog/hello.md");
            assert_eq!(content, "Hi");
        }
        _ => panic!("expected the write first"),
    }
    let (_, reply) = run_ok(p, first, "");
    assert_eq!(reply.status, Status::Success);
    assert!(reply.body.contains("wrote to /srv/blog/hello.md"));

    let again = start_publish(&c, &target, "Hi".to_string(), None, true).err().unwrap();
    assert_eq!(again.status.code(), 400);
    assert_eq!(again.body, "already exists");
}

#[test]
fn successful_edit_commits_before_the_last_deploy() {
    let c = config();
    let (p, first) = start_edit(
        &c,
        "/srv/blog/posts/x.md",
        Some("new".to_string()),
        None,
        Some("typo".to_string()),
    )
    .ok()
    .unwrap();
    let (seen, reply) = run_ok(p, first, "ok.");
    assert_eq!(seen.len(), 9);
    assert_eq!(argv(&seen[1]), words(&["zola", "build"]));
    assert!(matches!(&seen[2], Action::ClearDir { path } if path == "/var/www"));
    assert!(
        matches!(&seen[3], Action::CopyDir { from, to } if from == "/srv/blog/public" && to == "/var/www")
    );
    assert_eq!(argv(&seen[4]), words(&["git", "add", "/srv/blog/posts/x.md"]));
    assert_eq!(argv(&seen[5]), words(&["git", "commit", "-m", "typo - edit posts/x.md"]));
    assert_eq!(argv(&seen[6]), words(&["zola", "build"]));
    assert!(matches!(&seen[7], Action::ClearDir { path } if path == "/var/www"));
    assert!(matches!(&seen[8], Action::CopyDir { .. }));
    assert_eq!(reply.status, Status::Success);
    assert_eq!(reply.body, "wrote to /srv/blog/posts/x.md\n\nok.ok.ok.ok.ok.ok.ok.ok.ok.");
}

#[test]
fn delete_removes_and_commits_a_deletion() {
    let c = config();
    let (p, first) = start_edit(
        &c,
        "/srv/blog/old.md",
        Some(String::new()),
        Some("on".to_string()),
        None,
    )
    .ok()
    .unwrap();
    assert!(matches!(&first, Action::RemoveFile { path } if path == "/srv/blog/old.md"));
    let (seen, reply) = run_ok(p, first, "");
    assert_eq!(argv(&seen[5]), words(&["git", "commit", "-m", "delete old.md"]));
    assert_eq!(reply.body, "deleted /srv/blog/old.md\n\n");
}

#[test]
fn delete_flag_other_than_on_edits() {
    let c = config();
    let (_, first) = start_edit(
        &c,
        "/srv/blog/a.md",
        Some("text".to_string()),
        Some("off".to_string()),
        None,
    )
    .ok()
    .unwrap();
    assert!(matches!(first, Action::WriteFile { .. }));
}

#[test]
fn edit_requires_content() {
    let c = config();
    let e = start_edit(&c, "/srv/blog/a.md", None, None, None).err().unwrap();
    assert_eq!(e.status, Status::BadRequest);
    assert_eq!(e.body, "no content from form?");
}

#[test]
fn edit_outside_the_tree_is_refused() {
    let c = config();
    let e = start_edit(&c, "/etc/passwd", Some("x".to_string()), None, None).err().unwrap();
    assert_eq!(e.status, Status::BadRequest);
}

#[test]
fn failed_build_resets_and_reports_both() {
    let c = config();
    let (mut p, _) = start_edit(&c, "/srv/blog/a.md", Some("x".to_string()), None, None)
        .ok()
        .unwrap();
    let build = p.step(Ok(String::new()));
    assert_eq!(argv(&build), words(&["zola", "build"]));
    let reset = p.step(Err("failed: zola build".to_string()));
    assert_eq!(argv(&reset), words(&["git", "reset", "--hard"]));
    let reply = finish(p.step(Ok("HEAD is now at abc".to_string())));
    assert_eq!(reply.status.code(), 500);
    assert_eq!(reply.body, "failed: zola build\n\nhad to reset\n\nHEAD is now at abc");
    assert!(p.is_finished());
}

#[test]
fn failed_reset_is_reported_after_the_failure() {
    let c = config();
    let (mut p, _) = start_edit(&c, "/srv/blog/a.md", Some("x".to_string()), None, None)
        .ok()
        .unwrap();
    for _ in 0..4 {
        p.step(Ok(String::new()));
    }
    let reset = p.step(Err("commit failed".to_string()));
    assert_eq!(argv(&reset), words(&["git", "reset", "--hard"]));
    let reply = finish(p.step(Err("no repository".to_string())));
    assert_eq!(reply.status, Status::ServerError);
    assert_eq!(reply.body, "commit failed\n\nfailed resetting\n\nno repository");
}

#[test]
fn revert_uses_the_first_word_only() {
    let c = config();
    let a = revert_command(&c, Some("abc123 fix typo".to_string())).ok().unwrap();
    assert_eq!(a, words(&["git", "revert", "--no-edit", "abc123"]));
    let a = revert_command(&c, Some("\t abc123\tfix".to_string())).ok().unwrap();
    assert_eq!(a.last().unwrap(), "abc123");
}

#[test]
fn revert_errors() {
    let c = config();
    let e = revert_command(&c, None).err().unwrap();
    assert_eq!(e.body, "no revision from form?");
    let e = revert_command(&c, Some("   ".to_string())).err().unwrap();
    assert_eq!(e.status, Status::BadRequest);
    assert_eq!(e.body, "no hash in revision    ");
}

#[test]
fn first_word_cases() {
    assert_eq!(first_word("  abc def"), Some("abc".to_string()));
    assert_eq!(first_word("abc"), Some("abc".to_string()));
    assert_eq!(first_word("\u{3000}x\u{2003}y"), Some("x".to_string()));
    assert_eq!(first_word(""), None);
    assert_eq!(first_word(" \n\t"), None);
}

#[test]
fn revision_list_is_one_entry_per_line() {
    assert_eq!(
        revision_entries("abc one\ndef two\n"),
        words(&["abc one", "def two", ""])
    );
    assert_eq!(revision_entries(""), words(&[""]));
    assert_eq!(list_command(&config()), words(&["git", "log", "--oneline"]));
}

#[test]
fn unpublished_page_redirects_to_the_creation_form() {
    let c = config();
    let path = edit_request_path("/edit/some/post").unwrap();
    assert_eq!(path, "/some/post");
    let r = after_status(&c, &path, 404).unwrap();
    assert_eq!(r.status, Status::Success);
    assert_eq!(r.status.code(), 200);
    assert!(r.html);
    assert_eq!(
        r.body,
        "<head><meta http-equiv=\"Refresh\" content=\"0; URL=https://editor.example/publish/some/post\"></head>"
    );
    assert!(after_status(&c, &path, 200).is_none());
    assert!(after_status(&c, &path, 299).is_none());
    assert!(after_status(&c, &path, 301).is_some());
}

#[test]
fn redirect_base_without_slash() {
    let r = redirect_to_publish("https://editor.example", "/p");
    assert!(r.body.contains("URL=https://editor.example/publish/p\""));
}

#[test]
fn edit_prefix_is_required() {
    assert_eq!(edit_request_path("/edit"), Some(String::new()));
    assert_eq!(edit_request_path("/publish"), None);
    assert_eq!(edit_request_path("/ed"), None);
}

#[test]
fn page_url_joins_onto_the_blog() {
    let c = config();
    let u = page_url(&c, "/some/post").ok().unwrap();
    assert_eq!(u, "https://blog.example/some/post");
    assert_eq!(page_url(&c, "../x").ok().unwrap(), "https://blog.example/x");
}

#[test]
fn page_url_fails_on_a_bad_blog_url() {
    let mut c = config();
    c.blog_url = "not a url".to_string();
    let e = page_url(&c, "/p").err().unwrap();
    assert_eq!(e.status.code(), 500);
    assert_eq!(e.body, "cannot join /p onto the blog URL");
}

#[test]
fn source_path_comes_from_the_capture() {
    let c = config();
    let page = "<html><!-- source: posts/x.md --></html>";
    assert_eq!(source_candidate(&c, page).ok().unwrap(), "/srv/blog/posts/x.md");
    let e = source_candidate(&c, "<html></html>").err().unwrap();
    assert_eq!(e.status, Status::ServerError);
    assert_eq!(e.body, "nothing matching <!-- source: ([^ ]+) --> in <html></html>");
}

#[test]
fn escaping_capture_is_forbidden_before_canonicalization() {
    let c = config();
    let page = "<!-- source: a/../../../etc/missing -->";
    let e = source_candidate(&c, page).err().unwrap();
    assert_eq!(e.status, Status::BadRequest);
    assert_eq!(e.body, "cheating bastard");
    let e = source_candidate(&c, "<!-- source: /etc/passwd -->").err().unwrap();
    assert_eq!(e.body, "cheating bastard");
    let ok = source_candidate(&c, "<!-- source: drafts/../x.md -->").ok().unwrap();
    assert_eq!(ok, "/srv/blog/drafts/../x.md");
}

#[test]
fn traversal_after_canonicalization_is_forbidden() {
    let c = config();
    let e = confine(&c, "/srv/etc/passwd").err().unwrap();
    assert_eq!(e.status, Status::BadRequest);
    assert_eq!(e.body, "cheating bastard");
    assert_eq!(confine(&c, "/srv/blog/posts/x.md").ok().unwrap(), "/srv/blog/posts/x.md");
    assert!(confine(&c, "/srv/blog-other/x.md").is_err());
}

#[test]
fn command_outcomes() {
    let a = words(&["git", "add", "x"]);
    assert_eq!(command_outcome(&a, true, b"fine\n", b"").ok().unwrap(), "fine\n");
    assert_eq!(command_outcome(&a, true, b"a\xffb", b"").ok().unwrap(), "a\u{fffd}b");
    let e = command_outcome(&a, false, b"out", b"err").err().unwrap();
    assert_eq!(e, "failed: git add x\nstdout:\nout\nstderr:\nerr");
    assert_eq!(with_argument(&words(&["git"]), "log"), words(&["git", "log"]));
}

#[test]
fn replies() {
    let r = command_reply(Ok("done".to_string()));
    assert_eq!((r.status, r.body.as_str()), (Status::Success, "done"));
    let r = command_reply(Err("bad".to_string()));
    assert_eq!(r.status.code(), 500);
    assert_eq!(unreadable("/srv/blog/a.md").body, "couldn't read /srv/blog/a.md");
    let r = Reply::not_found("/nope");
    assert_eq!((r.status.code(), r.body.as_str()), (404, "404: /nope"));
}
