use vstd::prelude::*;

verus! {

/// A global version-control identity setting.
#[derive(Clone, Copy, Debug, PartialEq, Eq, Structural)]
pub enum IdentityKey {
    Name,
    Email,
}

/// The configuration key of an identity setting.
pub open spec fn key_text(k: IdentityKey) -> Seq<char> {
    match k {
        IdentityKey::Name => "user.name"@,
        IdentityKey::Email => "user.email"@,
    }
}

impl IdentityKey {
    /// The configuration key of this setting.
    pub fn config_key(&self) -> (r: &'static str)
        ensures
            r@ == key_text(*self),
    {
        match self {
            IdentityKey::Name => "user.name",
            IdentityKey::Email => "user.email",
        }
    }
}

/// A document fetched over the network into the project.
#[derive(Clone, Copy, Debug, PartialEq, Eq, Structural)]
pub enum Asset {
    IgnoreRules,
    License,
}

pub open spec fn asset_url(a: Asset) -> Seq<char> {
    match a {
        Asset::IgnoreRules => "https://raw.githubusercontent.com/github/gitignore/main/Python.gitignore"@,
        Asset::License => "https://www.apache.org/licenses/LICENSE-2.0.txt"@,
    }
}

pub open spec fn asset_file(a: Asset) -> Seq<char> {
    match a {
        Asset::IgnoreRules => ".gitignore"@,
        Asset::License => "LICENSE"@,
    }
}

impl Asset {
    /// Where the document is fetched from.
    pub fn url(&self) -> (r: &'static str)
        ensures
            r@ == asset_url(*self),
    {
        match self {
            Asset::IgnoreRules => "https://raw.githubusercontent.com/github/gitignore/main/Python.gitignore",
            Asset::License => "https://www.apache.org/licenses/LICENSE-2.0.txt",
        }
    }

    /// The file the document is written to.
    pub fn file_name(&self) -> (r: &'static str)
        ensures
            r@ == asset_file(*self),
    {
        match self {
            Asset::IgnoreRules => ".gitignore",
            Asset::License => "LICENSE",
        }
    }
}

/// The step of the pipeline whose result is awaited.
#[derive(Clone, Copy, Debug, PartialEq, Eq, Structural)]
pub enum Stage {
    Preflight,
    IdentityRead(IdentityKey),
    IdentityPrompt(IdentityKey),
    IdentityWrite(IdentityKey),
    ToolProbe,
    ToolInstall,
    DirectoryCreate,
    DirectoryEnter,
    EnvironmentInit,
    EnvironmentCreate,
    ManifestWrite,
    DependencyAdd,
    DependencySync,
    AssetFetch(Asset),
    AssetWrite(Asset),
    RepositoryInit,
    RepositoryConfigure,
    RepositoryStage,
    RepositoryCommit,
    RemoteCreate,
    BranchRename,
    OwnerRead,
    RemoteAdd,
    RemotePush,
    Finished,
    Halted,
}

/// What kind of collaborator failed.
#[derive(Clone, Copy, Debug, PartialEq, Eq, Structural)]
pub enum FailureKind {
    /// An external program could not be started.
    Spawn,
    /// An external program exited with a non-zero status.
    Exit,
    /// A file-system operation failed.
    Io,
    /// A network connection failed.
    Transport,
    /// Interactive input could not be read.
    Input,
}

/// A failure reported by a collaborator, with its diagnostic text.
#[derive(Clone, Debug)]
pub struct Failure {
    pub kind: FailureKind,
    pub detail: String,
}

pub struct FailureView {
    pub kind: FailureKind,
    pub detail: Seq<char>,
}

impl View for Failure {
    type V = FailureView;

    open spec fn view(&self) -> FailureView {
        FailureView { kind: self.kind, detail: self.detail@ }
    }
}

/// The result of carrying out an action, handed back to the pipeline.
#[derive(Clone, Debug)]
pub enum Event {
    /// Whether the checked path exists.
    PathChecked { exists: bool },
    /// A text obtained: an identity value read or typed in.
    Text { value: String },
    /// A program, file or directory operation succeeded.
    Done,
    /// The action failed.
    Failed { failure: Failure },
    /// An HTTP response.
    Response { status: u16, body: String },
}

pub enum EventView {
    PathChecked { exists: bool },
    Text { value: Seq<char> },
    Done,
    Failed { failure: FailureView },
    Response { status: u16, body: Seq<char> },
}

impl View for Event {
    type V = EventView;

    open spec fn view(&self) -> EventView {
        match self {
            Event::PathChecked { exists } => EventView::PathChecked { exists: *exists },
            Event::Text { value } => EventView::Text { value: value@ },
            Event::Done => EventView::Done,
            Event::Failed { failure } => EventView::Failed { failure: failure@ },
            Event::Response { status, body } => EventView::Response { status: *status, body: body@ },
        }
    }
}

/// Why the pipeline halted.
#[derive(Clone, Debug)]
pub enum PipelineError {
    /// The project directory already exists.
    DirectoryExists { path: String },
    /// The value typed in for an unset identity setting is empty.
    EmptyIdentity { key: IdentityKey },
    /// Remote hosting was asked for without an access token.
    MissingCredential,
    /// A step failed; the cause is the collaborator's report.
    StepFailed { stage: Stage, failure: Failure },
    /// A download answered with a status outside 200..=299.
    HttpStatus { stage: Stage, status: u16 },
    /// The hosting service refused to create the repository.
    RemoteRejected { status: u16, body: String },
    /// The event does not answer the action of the step.
    UnexpectedEvent { stage: Stage },
}

impl Failure {
    /// A copy of this failure.
    pub fn duplicate(&self) -> (r: Failure)
        ensures
            r@ == self@,
    {
        Failure { kind: self.kind, detail: self.detail.clone() }
    }
}

impl PipelineError {
    /// A copy of this error.
    pub fn duplicate(&self) -> (r: PipelineError)
        ensures
            r@ == self@,
    {
        match self {
            PipelineError::DirectoryExists { path } => PipelineError::DirectoryExists {
                path: path.clone(),
            },
            PipelineError::EmptyIdentity { key } => PipelineError::EmptyIdentity { key: *key },
            PipelineError::MissingCredential => PipelineError::MissingCredential,
            PipelineError::StepFailed { stage, failure } => PipelineError::StepFailed {
                stage: *stage,
                failure: failure.duplicate(),
            },
            PipelineError::HttpStatus { stage, status } => PipelineError::HttpStatus {
                stage: *stage,
                status: *status,
            },
            PipelineError::RemoteRejected { status, body } => PipelineError::RemoteRejected {
                status: *status,
                body: body.clone(),
            },
            PipelineError::UnexpectedEvent { stage } => PipelineError::UnexpectedEvent {
                stage: *stage,
            },
        }
    }
}

pub enum ErrorView {
    DirectoryExists { path: Seq<char> },
    EmptyIdentity { key: IdentityKey },
    MissingCredential,
    StepFailed { stage: Stage, failure: FailureView },
    HttpStatus { stage: Stage, status: u16 },
    RemoteRejected { status: u16, body: Seq<char> },
    UnexpectedEvent { stage: Stage },
}

impl View for PipelineError {
    type V = ErrorView;

    open spec fn view(&self) -> ErrorView {
        match self {
            PipelineError::DirectoryExists { path } => ErrorView::DirectoryExists { path: path@ },
            PipelineError::EmptyIdentity { key } => ErrorView::EmptyIdentity { key: *key },
            PipelineError::MissingCredential => ErrorView::MissingCredential,
            PipelineError::StepFailed { stage, failure } => ErrorView::StepFailed {
                stage: *stage,
                failure: failure@,
            },
            PipelineError::HttpStatus { stage, status } => ErrorView::HttpStatus {
                stage: *stage,
                status: *status,
            },
            PipelineError::RemoteRejected { status, body } => ErrorView::RemoteRejected {
                status: *status,
                body: body@,
            },
            PipelineError::UnexpectedEvent { stage } => ErrorView::UnexpectedEvent { stage: *stage },
        }
    }
}

/// A side effect for the caller to carry out; its result comes back as an `Event`.
#[derive(Clone, Debug)]
pub enum Action {
    /// Report whether `path` exists: `PathChecked`.
    CheckPath { path: String },
    /// Read the global identity setting: `Text` (empty when unset).
    ReadGlobalIdentity { key: IdentityKey },
    /// Ask the user for the value of a setting: `Text`.
    Prompt { key: IdentityKey },
    /// Run a program and wait for it: `Done` or `Failed`.
    Run { program: String, args: Vec<String> },
    /// Create a directory: `Done` or `Failed`.
    CreateDirectory { path: String },
    /// Make a directory the working directory: `Done` or `Failed`.
    EnterDirectory { path: String },
    /// Write a file in the working directory: `Done` or `Failed`.
    WriteFile { path: String, content: String },
    /// HTTP GET: `Response` or `Failed`.
    Fetch { url: String },
    /// Create the remote repository through the hosting API: `Response` or `Failed`.
    CreateRemoteRepository { token: String, name: String, private: bool },
    /// The pipeline completed; the page of the remote repository, if one was made.
    Finish { page: Option<String> },
    /// The pipeline stopped on an error.
    Halt { error: PipelineError },
}

pub enum ActionView {
    CheckPath { path: Seq<char> },
    ReadGlobalIdentity { key: IdentityKey },
    Prompt { key: IdentityKey },
    Run { program: Seq<char>, args: Seq<Seq<char>> },
    CreateDirectory { path: Seq<char> },
    EnterDirectory { path: Seq<char> },
    WriteFile { path: Seq<char>, content: Seq<char> },
    Fetch { url: Seq<char> },
    CreateRemoteRepository { token: Seq<char>, name: Seq<char>, private: bool },
    Finish { page: Option<Seq<char>> },
    Halt { error: ErrorView },
}

impl View for Action {
    type V = ActionView;

    open spec fn view(&self) -> ActionView {
        match self {
            Action::CheckPath { path } => ActionView::CheckPath { path: path@ },
            Action::ReadGlobalIdentity { key } => ActionView::ReadGlobalIdentity { key: *key },
            Action::Prompt { key } => ActionView::Prompt { key: *key },
            Action::Run { program, args } => ActionView::Run {
                program: program@,
                args: args.deep_view(),
            },
            Action::CreateDirectory { path } => ActionView::CreateDirectory { path: path@ },
            Action::EnterDirectory { path } => ActionView::EnterDirectory { path: path@ },
            Action::WriteFile { path, content } => ActionView::WriteFile {
                path: path@,
                content: content@,
            },
            Action::Fetch { url } => ActionView::Fetch { url: url@ },
            Action::CreateRemoteRepository { token, name, private } =>
                ActionView::CreateRemoteRepository { token: token@, name: name@, private: *private },
            Action::Finish { page } => ActionView::Finish {
                page: match page {
                    Some(p) => Some(p@),
                    None => None,
                },
            },
            Action::Halt { error } => ActionView::Halt { error: error@ },
        }
    }
}

} // verus!
