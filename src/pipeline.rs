//! The revision pipeline: change a source file, rebuild and deploy the site,
//! stage and commit the change, rebuild and deploy again; on any failure, reset
//! the working tree and report the failure together with the reset's outcome.
//!
//! The pipeline is a state machine. The caller performs each [`Action`] it
//! hands out, one at a time, and feeds back the outcome (standard output on
//! success, a diagnostic on failure), until the pipeline hands out
//! [`Action::Finish`]. Callers that share one source tree must run one pipeline
//! at a time: the working tree and the deploy directory are shared.
use crate::config::Config;
use crate::paths::{path_starts_with, relative_path, relative_to, starts_with_path};
use crate::reply::{forbidden, forbidden_text, Reply, Status};
use crate::text::{copy_texts, texts};
use crate::command::with_argument;
use vstd::prelude::*;

verus! {

/// One effect for the caller to perform.
pub enum Action {
    /// Write `content` to the file at `path`.
    WriteFile { path: String, content: String },
    /// Remove the file at `path`.
    RemoveFile { path: String },
    /// Run a command line in the source tree.
    Run { argv: Vec<String> },
    /// Remove the directory at `path` with everything in it, if it exists.
    ClearDir { path: String },
    /// Copy the directory `from`, recursively, to `to`.
    CopyDir { from: String, to: String },
    /// Answer the request; nothing more is to be done.
    Finish { reply: Reply },
}

/// The mathematical value of an [`Action`].
pub enum ActionView {
    WriteFile { path: Seq<char>, content: Seq<char> },
    RemoveFile { path: Seq<char> },
    Run { argv: Seq<Seq<char>> },
    ClearDir { path: Seq<char> },
    CopyDir { from: Seq<char>, to: Seq<char> },
    Finish { status: Status, html: bool, body: Seq<char> },
}

impl View for Action {
    type V = ActionView;

    open spec fn view(&self) -> ActionView {
        match self {
            Action::WriteFile { path, content } => ActionView::WriteFile {
                path: path@,
                content: content@,
            },
            Action::RemoveFile { path } => ActionView::RemoveFile { path: path@ },
            Action::Run { argv } => ActionView::Run { argv: texts(argv@) },
            Action::ClearDir { path } => ActionView::ClearDir { path: path@ },
            Action::CopyDir { from, to } => ActionView::CopyDir { from: from@, to: to@ },
            Action::Finish { reply } => ActionView::Finish {
                status: reply.status,
                html: reply.html,
                body: reply.body@,
            },
        }
    }
}

/// The change made to the source file.
pub enum Change {
    /// New content for the file (created if it does not exist).
    Write(String),
    /// The file goes away.
    Remove,
}

#[derive(Clone, Copy, Debug, PartialEq, Eq, Structural)]
pub enum Phase {
    /// Working through the plan.
    Running,
    /// A step failed; the reset command is running.
    Resetting,
    /// The answer has been handed out.
    Finished,
}

/// The state of a pipeline, mathematically.
pub struct PipelineView {
    /// The steps, in order.
    pub plan: Seq<ActionView>,
    /// The command line that resets the working tree.
    pub reset: Seq<Seq<char>>,
    /// The first line of the answer on success.
    pub headline: Seq<char>,
    /// The step in flight while running.
    pub pos: nat,
    pub phase: Phase,
    /// The standard output of the steps completed so far, in order.
    pub output: Seq<char>,
    /// The diagnostic of the step that failed.
    pub failure: Seq<char>,
}

/// The steps of a change: the change itself, a rebuild and deploy, staging,
/// committing, and a second rebuild and deploy.
pub open spec fn plan(
    change: ActionView,
    build: Seq<Seq<char>>,
    stage: Seq<Seq<char>>,
    commit: Seq<Seq<char>>,
    built: Seq<char>,
    deployed: Seq<char>,
) -> Seq<ActionView> {
    seq![
        change,
        ActionView::Run { argv: build },
        ActionView::ClearDir { path: deployed },
        ActionView::CopyDir { from: built, to: deployed },
        ActionView::Run { argv: stage },
        ActionView::Run { argv: commit },
        ActionView::Run { argv: build },
        ActionView::ClearDir { path: deployed },
        ActionView::CopyDir { from: built, to: deployed },
    ]
}

/// The outcome of an action as the pipeline reads it.
pub open spec fn outcome_view(ev: Result<String, String>) -> Result<Seq<char>, Seq<char>> {
    match ev {
        Ok(o) => Ok(o@),
        Err(e) => Err(e@),
    }
}

/// The diagnostic of a failed pipeline: the failure first, then what the reset
/// gave.
pub open spec fn reset_report(failure: Seq<char>, reset: Result<Seq<char>, Seq<char>>) -> Seq<
    char,
> {
    match reset {
        Ok(o) => failure + "\n\nhad to reset\n\n"@ + o,
        Err(e) => failure + "\n\nfailed resetting\n\n"@ + e,
    }
}

/// The answer of a pipeline that ran through: the headline, a blank line, and
/// all the output.
pub open spec fn success_body(headline: Seq<char>, output: Seq<char>) -> Seq<char> {
    headline + "\n\n"@ + output
}

/// One transition: the state after `ev` and the next action.
pub open spec fn advance(s: PipelineView, ev: Result<Seq<char>, Seq<char>>) -> (PipelineView, ActionView) {
    match s.phase {
        Phase::Running => match ev {
            Ok(o) => if s.pos + 1 < s.plan.len() {
                (
                    PipelineView { pos: s.pos + 1, output: s.output + o, ..s },
                    s.plan[(s.pos + 1) as int],
                )
            } else {
                (
                    PipelineView { phase: Phase::Finished, output: s.output + o, ..s },
                    ActionView::Finish {
                        status: Status::Success,
                        html: false,
                        body: success_body(s.headline, s.output + o),
                    },
                )
            },
            Err(e) => (
                PipelineView { phase: Phase::Resetting, failure: e, ..s },
                ActionView::Run { argv: s.reset },
            ),
        },
        _ => (
            PipelineView { phase: Phase::Finished, ..s },
            ActionView::Finish {
                status: Status::ServerError,
                html: false,
                body: reset_report(s.failure, ev),
            },
        ),
    }
}

/// The verb of a change in its commit message.
pub open spec fn verb(remove: bool) -> Seq<char> {
    if remove {
        "delete"@
    } else {
        "edit"@
    }
}

/// The commit message: the note and ` - ` when there is a note, then the verb,
/// a space, and the file's path relative to the source tree.
pub open spec fn commit_message(note: Option<Seq<char>>, verb: Seq<char>, rel: Seq<char>) -> Seq<
    char,
> {
    match note {
        Some(n) => n + " - "@ + verb + " "@ + rel,
        None => verb + " "@ + rel,
    }
}

/// The first line of the answer on success.
pub open spec fn headline(remove: bool, target: Seq<char>) -> Seq<char> {
    if remove {
        "deleted "@ + target
    } else {
        "wrote to "@ + target
    }
}

pub open spec fn change_action(target: Seq<char>, change: Change) -> ActionView {
    match change {
        Change::Write(c) => ActionView::WriteFile { path: target, content: c@ },
        Change::Remove => ActionView::RemoveFile { path: target },
    }
}

pub open spec fn is_remove(change: Change) -> bool {
    change is Remove
}

pub open spec fn option_view(o: Option<String>) -> Option<Seq<char>> {
    match o {
        Some(s) => Some(s@),
        None => None,
    }
}

/// The pipeline for `change` to the file `target` under `config`, as it
/// starts: the first step in flight, no output yet.
pub open spec fn initial(config: &Config, target: Seq<char>, change: Change, note: Option<
    Seq<char>,
>) -> PipelineView {
    let message = commit_message(
        note,
        verb(is_remove(change)),
        relative_to(target, config.blog_dir@),
    );
    PipelineView {
        plan: plan(
            change_action(target, change),
            texts(config.build_command@),
            texts(config.stage_revision@).push(target),
            texts(config.create_revision@).push(message),
            config.blog_build_dir@,
            config.dest_dir@,
        ),
        reset: texts(config.reset_command@),
        headline: headline(is_remove(change), target),
        pos: 0,
        phase: Phase::Running,
        output: Seq::empty(),
        failure: Seq::empty(),
    }
}

/// A pipeline in progress.
pub struct RevisionPipeline {
    target: String,
    remove: bool,
    content: String,
    build: Vec<String>,
    stage: Vec<String>,
    commit: Vec<String>,
    reset: Vec<String>,
    built: String,
    deployed: String,
    headline: String,
    pos: usize,
    phase: Phase,
    output: String,
    failure: String,
}

impl View for RevisionPipeline {
    type V = PipelineView;

    closed spec fn view(&self) -> PipelineView {
        PipelineView {
            plan: plan(
                if self.remove {
                    ActionView::RemoveFile { path: self.target@ }
                } else {
                    ActionView::WriteFile { path: self.target@, content: self.content@ }
                },
                texts(self.build@),
                texts(self.stage@),
                texts(self.commit@),
                self.built@,
                self.deployed@,
            ),
            reset: texts(self.reset@),
            headline: self.headline@,
            pos: self.pos as nat,
            phase: self.phase,
            output: self.output@,
            failure: self.failure@,
        }
    }
}

impl RevisionPipeline {
    /// The step in flight lies within the plan.
    pub open spec fn wf(&self) -> bool {
        &&& self@.plan.len() == 9
        &&& self@.pos < 9
    }

    /// Starts the pipeline for `change` to `target` and hands out its first
    /// step. A target outside the source tree is refused.
    pub fn start(config: &Config, target: &str, change: Change, note: Option<String>) -> (r: Result<
        (RevisionPipeline, Action),
        Reply,
    >)
        ensures
            starts_with_path(target@, config.blog_dir@) ==> (r matches Ok((p, a)) && p.wf() && p@
                == initial(config, target@, change, option_view(note)) && a@ == p@.plan[0]),
            !starts_with_path(target@, config.blog_dir@) ==> (r matches Err(e) && e.status
                == Status::BadRequest && e.body@ == forbidden_text()),
    {
        if !path_starts_with(target, config.blog_dir.as_str()) {
            return Err(forbidden());
        }
        let rel = relative_path(target, config.blog_dir.as_str());
        let remove = match &change {
            Change::Write(_) => false,
            Change::Remove => true,
        };
        let content = match change {
            Change::Write(c) => c,
            Change::Remove => String::new(),
        };
        let mut message = match note {
            Some(n) => {
                let mut m = n;
                m.append(" - ");
                m
            },
            None => String::new(),
        };
        message.append(if remove { "delete" } else { "edit" });
        message.append(" ");
        message.append(rel.as_str());
        let mut headline = String::from_str(if remove { "deleted " } else { "wrote to " });
        headline.append(target);
        let p = RevisionPipeline {
            target: String::from_str(target),
            remove,
            content,
            build: copy_texts(&config.build_command),
            stage: with_argument(&config.stage_revision, target),
            commit: with_argument(&config.create_revision, message.as_str()),
            reset: copy_texts(&config.reset_command),
            built: config.blog_build_dir.clone(),
            deployed: config.dest_dir.clone(),
            headline,
            pos: 0,
            phase: Phase::Running,
            output: String::new(),
            failure: String::new(),
        };
        assert(p@ =~= initial(config, target@, change, option_view(note)));
        let a = p.planned(0);
        Ok((p, a))
    }

    /// The `k`-th step of the plan.
    fn planned(&self, k: usize) -> (r: Action)
        requires
            k < 9,
        ensures
            r@ == self@.plan[k as int],
    {
        if k == 0 {
            if self.remove {
                Action::RemoveFile { path: self.target.clone() }
            } else {
                Action::WriteFile { path: self.target.clone(), content: self.content.clone() }
            }
        } else if k == 1 || k == 6 {
            Action::Run { argv: copy_texts(&self.build) }
        } else if k == 2 || k == 7 {
            Action::ClearDir { path: self.deployed.clone() }
        } else if k == 3 || k == 8 {
            Action::CopyDir { from: self.built.clone(), to: self.deployed.clone() }
        } else if k == 4 {
            Action::Run { argv: copy_texts(&self.stage) }
        } else {
            Action::Run { argv: copy_texts(&self.commit) }
        }
    }

    /// Whether the answer has been handed out.
    pub fn is_finished(&self) -> (r: bool)
        ensures
            r == (self@.phase == Phase::Finished),
    {
        self.phase == Phase::Finished
    }

    /// Takes the outcome of the action in flight and hands out the next one.
    pub fn step(&mut self, event: Result<String, String>) -> (r: Action)
        requires
            old(self).wf(),
            old(self)@.phase != Phase::Finished,
        ensures
            final(self).wf(),
            (final(self)@, r@) == advance(old(self)@, outcome_view(event)),
    {
        match self.phase {
            Phase::Running => match event {
                Ok(o) => {
                    self.output.append(o.as_str());
                    if self.pos + 1 < 9 {
                        self.pos = self.pos + 1;
                        self.planned(self.pos)
                    } else {
                        self.phase = Phase::Finished;
                        let mut body = self.headline.clone();
                        body.append("\n\n");
                        body.append(self.output.as_str());
                        Action::Finish { reply: Reply::text(Status::Success, body) }
                    }
                },
                Err(e) => {
                    self.phase = Phase::Resetting;
                    self.failure = e;
                    Action::Run { argv: copy_texts(&self.reset) }
                },
            },
            _ => {
                self.phase = Phase::Finished;
                let mut body = self.failure.clone();
                match event {
                    Ok(o) => {
                        body.append("\n\nhad to reset\n\n");
                        body.append(o.as_str());
                    },
                    Err(e) => {
                        body.append("\n\nfailed resetting\n\n");
                        body.append(e.as_str());
                    },
                }
                Action::Finish { reply: Reply::server_error(body) }
            },
        }
    }
}

/// Feeds the successful outputs `outs` to a pipeline in state `s`, one after
/// another: the state reached and the actions handed out, in order.
pub open spec fn run_through(s: PipelineView, outs: Seq<Seq<char>>) -> (PipelineView, Seq<ActionView>)
    decreases outs.len(),
{
    if outs.len() == 0 {
        (s, Seq::empty())
    } else {
        let (s1, a) = advance(s, Ok(outs[0]));
        let (s2, rest) = run_through(s1, outs.skip(1));
        (s2, seq![a] + rest)
    }
}

/// The texts `outs` one after another.
pub open spec fn concat(outs: Seq<Seq<char>>) -> Seq<char>
    decreases outs.len(),
{
    if outs.len() == 0 {
        Seq::empty()
    } else {
        outs[0] + concat(outs.skip(1))
    }
}

proof fn lemma_run_from(s: PipelineView, outs: Seq<Seq<char>>)
    requires
        s.phase == Phase::Running,
        s.plan.len() == 9,
        s.pos < 9,
        outs.len() == 9 - s.pos,
    ensures
        run_through(s, outs).1 =~= s.plan.subrange((s.pos + 1) as int, 9).push(
            ActionView::Finish {
                status: Status::Success,
                html: false,
                body: success_body(s.headline, s.output + concat(outs)),
            },
        ),
        run_through(s, outs).0.phase == Phase::Finished,
    decreases outs.len(),
{
    let (s1, a) = advance(s, Ok(outs[0]));
    assert(concat(outs) == outs[0] + concat(outs.skip(1)));
    if outs.len() == 1 {
        assert(outs.skip(1).len() == 0);
        assert(concat(outs.skip(1)) =~= Seq::<char>::empty());
        assert(s.output + concat(outs) =~= s.output + outs[0]);
    } else {
        lemma_run_from(s1, outs.skip(1));
        assert(s1.output + concat(outs.skip(1)) =~= s.output + concat(outs));
    }
}

/// When every step succeeds, a pipeline hands out the steps of its plan in
/// order and then a success answer carrying all of their output. The plan
/// commits the change and only then rebuilds the site and deploys the fresh
/// build output, so the site served at the end is built from the committed
/// tree.
pub proof fn lemma_success_follows_plan(
    config: &Config,
    target: Seq<char>,
    change: Change,
    note: Option<Seq<char>>,
    outs: Seq<Seq<char>>,
)
    requires
        outs.len() == 9,
    ensures
        ({
            let s = initial(config, target, change, note);
            &&& run_through(s, outs).1 == s.plan.skip(1).push(
                ActionView::Finish {
                    status: Status::Success,
                    html: false,
                    body: success_body(s.headline, concat(outs)),
                },
            )
            &&& run_through(s, outs).0.phase == Phase::Finished
            &&& s.plan[4] == ActionView::Run { argv: texts(config.stage_revision@).push(target) }
            &&& s.plan[5] is Run
            &&& s.plan[6] == ActionView::Run { argv: texts(config.build_command@) }
            &&& s.plan[7] == ActionView::ClearDir { path: config.dest_dir@ }
            &&& s.plan[8] == ActionView::CopyDir {
                from: config.blog_build_dir@,
                to: config.dest_dir@,
            }
        }),
{
    let s = initial(config, target, change, note);
    lemma_run_from(s, outs);
    assert(s.output + concat(outs) =~= concat(outs));
    assert(s.plan.subrange(1, 9) =~= s.plan.skip(1));
}

/// When a step fails, the pipeline runs the reset command next; its answer is
/// then a server error whose text starts with the failure and goes on with the
/// outcome of the reset.
pub proof fn lemma_failure_resets(
    s: PipelineView,
    failure: Seq<char>,
    reset: Result<Seq<char>, Seq<char>>,
)
    requires
        s.phase == Phase::Running,
    ensures
        ({
            let (s1, a1) = advance(s, Err(failure));
            let (s2, a2) = advance(s1, reset);
            &&& a1 == ActionView::Run { argv: s.reset }
            &&& s1.phase == Phase::Resetting
            &&& a2 == ActionView::Finish {
                status: Status::ServerError,
                html: false,
                body: reset_report(failure, reset),
            }
            &&& s2.phase == Phase::Finished
            &&& reset_report(failure, reset).subrange(0, failure.len() as int) == failure
        }),
{
    let r = reset_report(failure, reset);
    assert(r.subrange(0, failure.len() as int) =~= failure);
}

} // verus!
