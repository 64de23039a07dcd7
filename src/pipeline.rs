use vstd::prelude::*;

use crate::config::{BootstrapRequest, RequestView};
use crate::protocol::{
    asset_file, asset_url, key_text, Action, ActionView, Asset, ErrorView, Event, EventView,
    IdentityKey, PipelineError, Stage,
};
use crate::remote::{page_of, remote_url, repository_page, trim_text, trimmed, url_of};
use crate::template::{template_text, SetupTemplate};

verus! {

/// The pipeline as a mathematical state.
pub struct PipelineView {
    pub request: RequestView,
    pub stage: Stage,
    /// The last text handed back that a later action carries on:
    /// a prompted identity value, or a downloaded document.
    pub received: Seq<char>,
    /// The owner of the remote repository, once read.
    pub owner: Seq<char>,
    pub error: Option<ErrorView>,
}

pub open spec fn is_terminal(s: Stage) -> bool {
    s == Stage::Finished || s == Stage::Halted
}

pub open spec fn is_success(status: u16) -> bool {
    200 <= status <= 299
}

/// The state in which a run starts.
pub open spec fn begin(q: RequestView) -> PipelineView {
    PipelineView {
        request: q,
        stage: Stage::Preflight,
        received: Seq::empty(),
        owner: Seq::empty(),
        error: None,
    }
}

pub open spec fn goto(p: PipelineView, s: Stage) -> PipelineView {
    PipelineView { stage: s, ..p }
}

pub open spec fn halt(p: PipelineView, e: ErrorView) -> PipelineView {
    PipelineView { stage: Stage::Halted, error: Some(e), ..p }
}

pub open spec fn unexpected(p: PipelineView) -> PipelineView {
    halt(p, ErrorView::UnexpectedEvent { stage: p.stage })
}

/// The step after an identity setting has been found or written.
pub open spec fn after_identity(k: IdentityKey) -> Stage {
    match k {
        IdentityKey::Name => Stage::IdentityRead(IdentityKey::Email),
        IdentityKey::Email => Stage::ToolProbe,
    }
}

/// The step after the manifest is written: no installation for the blank template.
pub open spec fn after_manifest(t: SetupTemplate) -> Stage {
    if t == SetupTemplate::Blank {
        Stage::AssetFetch(Asset::IgnoreRules)
    } else {
        Stage::DependencyAdd
    }
}

/// The step after a document is written.
pub open spec fn after_asset(a: Asset) -> Stage {
    match a {
        Asset::IgnoreRules => Stage::AssetFetch(Asset::License),
        Asset::License => Stage::RepositoryInit,
    }
}

/// The step that follows one answered by `Done`, where that is its answer.
/// The initial commit is left out: what follows it depends on the request.
pub open spec fn next_on_done(t: SetupTemplate, s: Stage) -> Option<Stage> {
    match s {
        Stage::IdentityWrite(k) => Some(after_identity(k)),
        Stage::ToolProbe => Some(Stage::DirectoryCreate),
        Stage::ToolInstall => Some(Stage::DirectoryCreate),
        Stage::DirectoryCreate => Some(Stage::DirectoryEnter),
        Stage::DirectoryEnter => Some(Stage::EnvironmentInit),
        Stage::EnvironmentInit => Some(Stage::EnvironmentCreate),
        Stage::EnvironmentCreate => Some(Stage::ManifestWrite),
        Stage::ManifestWrite => Some(after_manifest(t)),
        Stage::DependencyAdd => Some(Stage::DependencySync),
        Stage::DependencySync => Some(Stage::AssetFetch(Asset::IgnoreRules)),
        Stage::AssetWrite(a) => Some(after_asset(a)),
        Stage::RepositoryInit => Some(Stage::RepositoryConfigure),
        Stage::RepositoryConfigure => Some(Stage::RepositoryStage),
        Stage::RepositoryStage => Some(Stage::RepositoryCommit),
        Stage::BranchRename => Some(Stage::OwnerRead),
        Stage::RemoteAdd => Some(Stage::RemotePush),
        Stage::RemotePush => Some(Stage::Finished),
        _ => None,
    }
}

/// After the initial commit: done without remote hosting; otherwise the
/// credential is checked again and the remote repository is created.
pub open spec fn after_commit(p: PipelineView) -> PipelineView {
    match p.request.remote {
        None => goto(p, Stage::Finished),
        Some(r) => if r.token.len() == 0 {
            halt(p, ErrorView::MissingCredential)
        } else {
            goto(p, Stage::RemoteCreate)
        },
    }
}

/// How the pipeline moves on the result of its current action. A finished
/// or halted pipeline stays as it is; every failure halts it, except that a
/// failed probe of the package manager leads to installing it.
pub open spec fn step(p: PipelineView, e: EventView) -> PipelineView {
    if is_terminal(p.stage) {
        p
    } else {
        match e {
            EventView::Failed { failure } => if p.stage == Stage::ToolProbe {
                goto(p, Stage::ToolInstall)
            } else {
                halt(p, ErrorView::StepFailed { stage: p.stage, failure })
            },
            EventView::Done => if p.stage == Stage::RepositoryCommit {
                after_commit(p)
            } else {
                match next_on_done(p.request.template, p.stage) {
                    Some(s) => goto(p, s),
                    None => unexpected(p),
                }
            },
            EventView::PathChecked { exists } => if p.stage == Stage::Preflight {
                if exists {
                    halt(p, ErrorView::DirectoryExists { path: p.request.project_name })
                } else {
                    goto(p, Stage::IdentityRead(IdentityKey::Name))
                }
            } else {
                unexpected(p)
            },
            EventView::Text { value } => match p.stage {
                Stage::IdentityRead(k) => if trimmed(value).len() == 0 {
                    goto(p, Stage::IdentityPrompt(k))
                } else {
                    goto(p, after_identity(k))
                },
                Stage::IdentityPrompt(k) => if trimmed(value).len() == 0 {
                    halt(p, ErrorView::EmptyIdentity { key: k })
                } else {
                    PipelineView { stage: Stage::IdentityWrite(k), received: trimmed(value), ..p }
                },
                Stage::OwnerRead => PipelineView {
                    stage: Stage::RemoteAdd,
                    owner: trimmed(value),
                    ..p
                },
                _ => unexpected(p),
            },
            EventView::Response { status, body } => match p.stage {
                Stage::AssetFetch(a) => if is_success(status) {
                    PipelineView { stage: Stage::AssetWrite(a), received: body, ..p }
                } else {
                    halt(p, ErrorView::HttpStatus { stage: p.stage, status })
                },
                Stage::RemoteCreate => if is_success(status) {
                    goto(p, Stage::BranchRename)
                } else {
                    halt(p, ErrorView::RemoteRejected { status, body })
                },
                _ => unexpected(p),
            },
        }
    }
}

pub open spec fn run_view(program: Seq<char>, args: Seq<Seq<char>>) -> ActionView {
    ActionView::Run { program, args }
}

/// The fixed name of the dependency manifest.
pub open spec fn manifest_file() -> Seq<char> {
    "requirements.txt"@
}

/// What a state outside `wf` asks for: to stop, reporting its step.
pub open spec fn stray(p: PipelineView) -> ActionView {
    ActionView::Halt { error: ErrorView::UnexpectedEvent { stage: p.stage } }
}

/// The action that a state asks the caller to carry out.
pub open spec fn stage_action(p: PipelineView) -> ActionView {
    let q = p.request;
    match p.stage {
        Stage::Preflight => ActionView::CheckPath { path: q.project_name },
        Stage::IdentityRead(k) => ActionView::ReadGlobalIdentity { key: k },
        Stage::IdentityPrompt(k) => ActionView::Prompt { key: k },
        Stage::IdentityWrite(k) => run_view(
            "git"@,
            seq!["config"@, "--global"@, key_text(k), p.received],
        ),
        Stage::ToolProbe => run_view("uv"@, seq!["--version"@]),
        Stage::ToolInstall => run_view("pip"@, seq!["install"@, "uv"@]),
        Stage::DirectoryCreate => ActionView::CreateDirectory { path: q.project_name },
        Stage::DirectoryEnter => ActionView::EnterDirectory { path: q.project_name },
        Stage::EnvironmentInit => run_view("uv"@, seq!["init"@, "."@]),
        Stage::EnvironmentCreate => run_view("uv"@, seq!["venv"@, ".venv"@]),
        Stage::ManifestWrite => ActionView::WriteFile {
            path: manifest_file(),
            content: template_text(q.template),
        },
        Stage::DependencyAdd => run_view("uv"@, seq!["add"@, "-r"@, manifest_file()]),
        Stage::DependencySync => run_view("uv"@, seq!["sync"@]),
        Stage::AssetFetch(a) => ActionView::Fetch { url: asset_url(a) },
        Stage::AssetWrite(a) => ActionView::WriteFile { path: asset_file(a), content: p.received },
        Stage::RepositoryInit => run_view("git"@, seq!["init"@]),
        Stage::RepositoryConfigure => run_view("git"@, seq!["config"@, "core.autocrlf"@, "true"@]),
        Stage::RepositoryStage => run_view("git"@, seq!["add"@, "."@]),
        Stage::RepositoryCommit => run_view("git"@, seq!["commit"@, "-m"@, "Initial commit"@]),
        Stage::RemoteCreate => match q.remote {
            Some(r) => ActionView::CreateRemoteRepository {
                token: r.token,
                name: r.name,
                private: r.private,
            },
            None => stray(p),
        },
        Stage::BranchRename => run_view("git"@, seq!["branch"@, "-M"@, "main"@]),
        Stage::OwnerRead => ActionView::ReadGlobalIdentity { key: IdentityKey::Name },
        Stage::RemoteAdd => match q.remote {
            Some(r) => run_view(
                "git"@,
                seq!["remote"@, "add"@, "origin"@, remote_url(p.owner, r.name)],
            ),
            None => stray(p),
        },
        Stage::RemotePush => run_view("git"@, seq!["push"@, "-u"@, "origin"@, "main"@]),
        Stage::Finished => ActionView::Finish {
            page: match q.remote {
                Some(r) => Some(repository_page(p.owner, r.name)),
                None => None,
            },
        },
        Stage::Halted => match p.error {
            Some(e) => ActionView::Halt { error: e },
            None => stray(p),
        },
    }
}


/// Whether a state is one that a run can be in: a halted pipeline holds its
/// error, an identity setting is only ever written with a non-empty value,
/// and only a request with remote hosting reaches the remote steps.
pub open spec fn wf(p: PipelineView) -> bool {
    &&& (p.stage == Stage::Halted <==> p.error is Some)
    &&& (p.stage is IdentityWrite ==> p.received.len() > 0)
    &&& (p.stage == Stage::RemoteCreate || p.stage == Stage::BranchRename || p.stage
        == Stage::OwnerRead || p.stage == Stage::RemoteAdd || p.stage == Stage::RemotePush)
        ==> p.request.remote is Some
}

/// Every state that a run reaches is well-formed: a step keeps `wf`.
pub proof fn lemma_step_keeps_wf(p: PipelineView, e: EventView)
    requires
        wf(p),
    ensures
        wf(step(p, e)),
{
}

/// The bootstrap pipeline: it tells its caller which action to carry out
/// next and moves on the result that the caller hands back.
pub struct Pipeline {
    request: BootstrapRequest,
    stage: Stage,
    received: String,
    owner: String,
    error: Option<PipelineError>,
}

impl View for Pipeline {
    type V = PipelineView;

    closed spec fn view(&self) -> PipelineView {
        PipelineView {
            request: self.request@,
            stage: self.stage,
            received: self.received@,
            owner: self.owner@,
            error: match self.error {
                Some(e) => Some(e@),
                None => None,
            },
        }
    }
}

fn run1(program: &str, a: &str) -> (r: Action)
    ensures
        r@ == run_view(program@, seq![a@]),
{
    let args = vec![a.to_owned()];
    assert(args.deep_view() =~= seq![a@]);
    Action::Run { program: program.to_owned(), args }
}

fn run2(program: &str, a: &str, b: &str) -> (r: Action)
    ensures
        r@ == run_view(program@, seq![a@, b@]),
{
    let args = vec![a.to_owned(), b.to_owned()];
    assert(args.deep_view() =~= seq![a@, b@]);
    Action::Run { program: program.to_owned(), args }
}

fn run3(program: &str, a: &str, b: &str, c: &str) -> (r: Action)
    ensures
        r@ == run_view(program@, seq![a@, b@, c@]),
{
    let args = vec![a.to_owned(), b.to_owned(), c.to_owned()];
    assert(args.deep_view() =~= seq![a@, b@, c@]);
    Action::Run { program: program.to_owned(), args }
}

fn run4(program: &str, a: &str, b: &str, c: &str, d: &str) -> (r: Action)
    ensures
        r@ == run_view(program@, seq![a@, b@, c@, d@]),
{
    let args = vec![a.to_owned(), b.to_owned(), c.to_owned(), d.to_owned()];
    assert(args.deep_view() =~= seq![a@, b@, c@, d@]);
    Action::Run { program: program.to_owned(), args }
}

fn identity_next(k: IdentityKey) -> (r: Stage)
    ensures
        r == after_identity(k),
{
    match k {
        IdentityKey::Name => Stage::IdentityRead(IdentityKey::Email),
        IdentityKey::Email => Stage::ToolProbe,
    }
}

fn done_next(t: SetupTemplate, s: Stage) -> (r: Option<Stage>)
    ensures
        r == next_on_done(t, s),
{
    match s {
        Stage::IdentityWrite(k) => Some(identity_next(k)),
        Stage::ToolProbe => Some(Stage::DirectoryCreate),
        Stage::ToolInstall => Some(Stage::DirectoryCreate),
        Stage::DirectoryCreate => Some(Stage::DirectoryEnter),
        Stage::DirectoryEnter => Some(Stage::EnvironmentInit),
        Stage::EnvironmentInit => Some(Stage::EnvironmentCreate),
        Stage::EnvironmentCreate => Some(Stage::ManifestWrite),
        Stage::ManifestWrite => if t.is_blank() {
            Some(Stage::AssetFetch(Asset::IgnoreRules))
        } else {
            Some(Stage::DependencyAdd)
        },
        Stage::DependencyAdd => Some(Stage::DependencySync),
        Stage::DependencySync => Some(Stage::AssetFetch(Asset::IgnoreRules)),
        Stage::AssetWrite(Asset::IgnoreRules) => Some(Stage::AssetFetch(Asset::License)),
        Stage::AssetWrite(Asset::License) => Some(Stage::RepositoryInit),
        Stage::RepositoryInit => Some(Stage::RepositoryConfigure),
        Stage::RepositoryConfigure => Some(Stage::RepositoryStage),
        Stage::RepositoryStage => Some(Stage::RepositoryCommit),
        Stage::BranchRename => Some(Stage::OwnerRead),
        Stage::RemoteAdd => Some(Stage::RemotePush),
        Stage::RemotePush => Some(Stage::Finished),
        _ => None,
    }
}

impl Pipeline {
    /// Starts a run of the pipeline for a request; the first action checks
    /// that the project directory does not exist yet.
    pub fn start(request: BootstrapRequest) -> (r: (Pipeline, Action))
        ensures
            r.0@ == begin(request@),
            r.1@ == stage_action(r.0@),
            wf(r.0@),
    {
        let pipeline = Pipeline {
            request,
            stage: Stage::Preflight,
            received: String::new(),
            owner: String::new(),
            error: None,
        };
        let action = pipeline.action();
        (pipeline, action)
    }

    /// The step whose result is awaited.
    pub fn stage(&self) -> (r: Stage)
        ensures
            r == self@.stage,
    {
        self.stage
    }

    /// Whether the run has finished or halted.
    pub fn is_over(&self) -> (r: bool)
        ensures
            r == is_terminal(self@.stage),
    {
        self.stage == Stage::Finished || self.stage == Stage::Halted
    }

    /// Hands back the result of the current action and returns the next
    /// action; once the run is over, the final action is repeated.
    pub fn advance(&mut self, event: Event) -> (r: Action)
        ensures
            final(self)@ == step(old(self)@, event@),
            r@ == stage_action(final(self)@),
            wf(old(self)@) ==> wf(final(self)@),
    {
        self.transition(event);
        proof {
            if wf(old(self)@) {
                lemma_step_keeps_wf(old(self)@, event@);
            }
        }
        self.action()
    }

    fn halt(&mut self, e: PipelineError)
        ensures
            final(self)@ == halt(old(self)@, e@),
    {
        self.stage = Stage::Halted;
        self.error = Some(e);
    }

    fn unexpected(&mut self)
        ensures
            final(self)@ == unexpected(old(self)@),
    {
        let stage = self.stage;
        self.halt(PipelineError::UnexpectedEvent { stage });
    }

    fn transition(&mut self, event: Event)
        ensures
            final(self)@ == step(old(self)@, event@),
    {
        if self.is_over() {
            return;
        }
        match event {
            Event::Failed { failure } => {
                if self.stage == Stage::ToolProbe {
                    self.stage = Stage::ToolInstall;
                } else {
                    let stage = self.stage;
                    self.halt(PipelineError::StepFailed { stage, failure });
                }
            },
            Event::Done => {
                if self.stage == Stage::RepositoryCommit {
                    self.after_commit();
                } else {
                    match done_next(self.request.template, self.stage) {
                        Some(s) => {
                            self.stage = s;
                        },
                        None => {
                            self.unexpected();
                        },
                    }
                }
            },
            Event::PathChecked { exists } => {
                if self.stage == Stage::Preflight {
                    if exists {
                        let path = self.request.project_name.clone();
                        self.halt(PipelineError::DirectoryExists { path });
                    } else {
                        self.stage = Stage::IdentityRead(IdentityKey::Name);
                    }
                } else {
                    self.unexpected();
                }
            },
            Event::Text { value } => {
                match self.stage {
                    Stage::IdentityRead(k) => {
                        let current = trim_text(value.as_str());
                        if current.as_str().is_empty() {
                            self.stage = Stage::IdentityPrompt(k);
                        } else {
                            self.stage = identity_next(k);
                        }
                    },
                    Stage::IdentityPrompt(k) => {
                        let typed = trim_text(value.as_str());
                        if typed.as_str().is_empty() {
                            self.halt(PipelineError::EmptyIdentity { key: k });
                        } else {
                            self.stage = Stage::IdentityWrite(k);
                            self.received = typed;
                        }
                    },
                    Stage::OwnerRead => {
                        self.stage = Stage::RemoteAdd;
                        self.owner = trim_text(value.as_str());
                    },
                    _ => {
                        self.unexpected();
                    },
                }
            },
            Event::Response { status, body } => {
                match self.stage {
                    Stage::AssetFetch(a) => {
                        if 200 <= status && status <= 299 {
                            self.stage = Stage::AssetWrite(a);
                            self.received = body;
                        } else {
                            let stage = self.stage;
                            self.halt(PipelineError::HttpStatus { stage, status });
                        }
                    },
                    Stage::RemoteCreate => {
                        if 200 <= status && status <= 299 {
                            self.stage = Stage::BranchRename;
                        } else {
                            self.halt(PipelineError::RemoteRejected { status, body });
                        }
                    },
                    _ => {
                        self.unexpected();
                    },
                }
            },
        }
    }

    fn after_commit(&mut self)
        ensures
            final(self)@ == after_commit(old(self)@),
    {
        let missing = match &self.request.remote {
            None => {
                self.stage = Stage::Finished;
                return;
            },
            Some(r) => r.token.as_str().is_empty(),
        };
        if missing {
            self.halt(PipelineError::MissingCredential);
        } else {
            self.stage = Stage::RemoteCreate;
        }
    }

    fn stray(&self) -> (r: Action)
        ensures
            r@ == stray(self@),
    {
        Action::Halt { error: PipelineError::UnexpectedEvent { stage: self.stage } }
    }

    /// The action that the current state asks for.
    pub fn action(&self) -> (r: Action)
        ensures
            r@ == stage_action(self@),
    {
        match self.stage {
            Stage::Preflight => Action::CheckPath { path: self.request.project_name.clone() },
            Stage::IdentityRead(k) => Action::ReadGlobalIdentity { key: k },
            Stage::IdentityPrompt(k) => Action::Prompt { key: k },
            Stage::IdentityWrite(k) => run4(
                "git",
                "config",
                "--global",
                k.config_key(),
                self.received.as_str(),
            ),
            Stage::ToolProbe => run1("uv", "--version"),
            Stage::ToolInstall => run2("pip", "install", "uv"),
            Stage::DirectoryCreate => Action::CreateDirectory {
                path: self.request.project_name.clone(),
            },
            Stage::DirectoryEnter => Action::EnterDirectory {
                path: self.request.project_name.clone(),
            },
            Stage::EnvironmentInit => run2("uv", "init", "."),
            Stage::EnvironmentCreate => run2("uv", "venv", ".venv"),
            Stage::ManifestWrite => Action::WriteFile {
                path: String::from_str("requirements.txt"),
                content: self.request.template.content(),
            },
            Stage::DependencyAdd => run3("uv", "add", "-r", "requirements.txt"),
            Stage::DependencySync => run1("uv", "sync"),
            Stage::AssetFetch(a) => Action::Fetch { url: a.url().to_owned() },
            Stage::AssetWrite(a) => Action::WriteFile {
                path: a.file_name().to_owned(),
                content: self.received.clone(),
            },
            Stage::RepositoryInit => run1("git", "init"),
            Stage::RepositoryConfigure => run3("git", "config", "core.autocrlf", "true"),
            Stage::RepositoryStage => run2("git", "add", "."),
            Stage::RepositoryCommit => run3("git", "commit", "-m", "Initial commit"),
            Stage::RemoteCreate => match &self.request.remote {
                Some(r) => Action::CreateRemoteRepository {
                    token: r.token.clone(),
                    name: r.name.clone(),
                    private: r.private,
                },
                None => self.stray(),
            },
            Stage::BranchRename => run3("git", "branch", "-M", "main"),
            Stage::OwnerRead => Action::ReadGlobalIdentity { key: IdentityKey::Name },
            Stage::RemoteAdd => match &self.request.remote {
                Some(r) => {
                    let url = url_of(self.owner.as_str(), r.name.as_str());
                    run4("git", "remote", "add", "origin", url.as_str())
                },
                None => self.stray(),
            },
            Stage::RemotePush => run4("git", "push", "-u", "origin", "main"),
            Stage::Finished => Action::Finish {
                page: match &self.request.remote {
                    Some(r) => Some(page_of(self.owner.as_str(), r.name.as_str())),
                    None => None,
                },
            },
            Stage::Halted => match &self.error {
                Some(e) => Action::Halt { error: e.duplicate() },
                None => self.stray(),
            },
        }
    }
}

} // verus!
