use vstd::prelude::*;

use crate::config::{credential_missing, resolution, RequestView};
use crate::pipeline::{
    after_identity, begin, is_success, is_terminal, manifest_file, run_view, stage_action, step,
    PipelineView,
};
use crate::protocol::{key_text, ActionView, Asset, ErrorView, EventView, IdentityKey, Stage};
use crate::remote::trimmed;
use crate::template::{template_named, template_text, SetupTemplate};

verus! {

/// The state after the results `es` are handed back in order.
pub open spec fn run(p: PipelineView, es: Seq<EventView>) -> PipelineView
    decreases es.len(),
{
    if es.len() == 0 {
        p
    } else {
        run(step(p, es[0]), es.drop_first())
    }
}

/// A finished or halted pipeline stays as it is, whatever results follow.
pub proof fn lemma_terminal_stays(p: PipelineView, es: Seq<EventView>)
    requires
        is_terminal(p.stage),
    ensures
        run(p, es) == p,
    decreases es.len(),
{
    if es.len() > 0 {
        lemma_terminal_stays(step(p, es[0]), es.drop_first());
    }
}

/// A run first checks whether the project directory exists. If it does,
/// the run halts on that answer with the directory-exists error, and no
/// later result makes it ask for any other action.
pub proof fn lemma_existing_directory_halts(q: RequestView, later: Seq<EventView>)
    ensures
        stage_action(begin(q)) == (ActionView::CheckPath { path: q.project_name }),
        run(step(begin(q), EventView::PathChecked { exists: true }), later).stage == Stage::Halted,
        stage_action(run(step(begin(q), EventView::PathChecked { exists: true }), later)) == (
        ActionView::Halt { error: ErrorView::DirectoryExists { path: q.project_name } }),
{
    lemma_terminal_stays(step(begin(q), EventView::PathChecked { exists: true }), later);
}

/// An unrecognised template identifier is refused during resolution, so no
/// request exists and no pipeline step can run.
pub proof fn lemma_unknown_template_refused(
    project_name: Seq<char>,
    setup: Seq<char>,
    remote_requested: bool,
    remote_name: Option<Seq<char>>,
    private: bool,
    token: Option<Seq<char>>,
)
    requires
        template_named(setup) is None,
    ensures
        resolution(project_name, setup, remote_requested, remote_name, private, token) == Err::<
            RequestView,
            _,
        >(crate::config::ConfigError::InvalidTemplate),
{
}

/// Remote hosting asked for without a non-empty token is refused during
/// resolution, before any step runs: whatever the template, no request comes
/// out, and with a recognised template the error is the missing credential.
pub proof fn lemma_missing_credential_refused(
    project_name: Seq<char>,
    setup: Seq<char>,
    remote_name: Option<Seq<char>>,
    private: bool,
    token: Option<Seq<char>>,
)
    requires
        credential_missing(token),
    ensures
        resolution(project_name, setup, true, remote_name, private, token) is Err,
        template_named(setup) is Some ==> resolution(
            project_name,
            setup,
            true,
            remote_name,
            private,
            token,
        ) == Err::<RequestView, _>(crate::config::ConfigError::MissingCredential),
{
}

/// A run never goes past the identity check with a setting unset: it moves
/// on from reading a setting only when the value read is not blank, and from
/// asking for one only to write the non-empty, trimmed value typed in; an
/// empty answer halts the run.
pub proof fn lemma_identity_never_empty(p: PipelineView, e: EventView, k: IdentityKey)
    ensures
        p.stage == Stage::IdentityRead(k) && step(p, e).stage == after_identity(k) ==> (e is Text
            && trimmed(e->Text_value).len() > 0),
        p.stage == Stage::IdentityPrompt(k) && e is Text ==> if trimmed(e->Text_value).len() == 0 {
            step(p, e).stage == Stage::Halted && step(p, e).error == Some(
                ErrorView::EmptyIdentity { key: k },
            )
        } else {
            step(p, e).stage == Stage::IdentityWrite(k) && step(p, e).received == trimmed(
                e->Text_value,
            ) && stage_action(step(p, e)) == run_view(
                "git"@,
                seq!["config"@, "--global"@, key_text(k), trimmed(e->Text_value)],
            )
        },
        p.stage == Stage::IdentityWrite(k) && step(p, e).stage == after_identity(k) ==> e
            is Done,
{
}

/// The manifest step writes exactly the template's text to the manifest
/// file. For the blank template that text is empty and the run goes on to
/// the downloads; for the others it goes on to installing the dependencies.
pub proof fn lemma_manifest_written(p: PipelineView)
    requires
        p.stage == Stage::ManifestWrite,
    ensures
        stage_action(p) == (ActionView::WriteFile {
            path: manifest_file(),
            content: template_text(p.request.template),
        }),
        p.request.template == SetupTemplate::Blank ==> template_text(p.request.template).len() == 0
            && step(p, EventView::Done).stage == Stage::AssetFetch(Asset::IgnoreRules),
        p.request.template != SetupTemplate::Blank ==> step(p, EventView::Done).stage
            == Stage::DependencyAdd,
{
}

pub open spec fn installs(s: Stage) -> bool {
    s == Stage::DependencyAdd || s == Stage::DependencySync
}

/// With the blank template a run never reaches the install steps, whatever
/// results are handed back.
pub proof fn lemma_blank_never_installs(p: PipelineView, es: Seq<EventView>)
    requires
        p.request.template == SetupTemplate::Blank,
        !installs(p.stage),
    ensures
        !installs(run(p, es).stage),
        run(p, es).request == p.request,
    decreases es.len(),
{
    if es.len() > 0 {
        lemma_blank_never_installs(step(p, es[0]), es.drop_first());
    }
}

/// A run of the blank template never asks to add or synchronise the
/// dependencies, whatever results are handed back.
pub proof fn lemma_blank_run_spawns_no_install(q: RequestView, es: Seq<EventView>)
    requires
        q.template == SetupTemplate::Blank,
    ensures
        stage_action(run(begin(q), es)) != run_view("uv"@, seq!["add"@, "-r"@, manifest_file()]),
        stage_action(run(begin(q), es)) != run_view("uv"@, seq!["sync"@]),
{
    lemma_blank_never_installs(begin(q), es);
    let p = run(begin(q), es);
    reveal_strlit("uv");
    reveal_strlit("git");
    reveal_strlit("pip");
    reveal_strlit("add");
    reveal_strlit("sync");
    reveal_strlit("--version");
    reveal_strlit("init");
    reveal_strlit("venv");
    assert("uv"@.len() == 2);
    assert("git"@.len() == 3);
    assert("pip"@.len() == 3);
    assert("--version"@.len() == 9);
    assert("sync"@.len() == 4);
    assert("init"@.len() == 4);
    assert("venv"@.len() == 4);
    assert("add"@.len() == 3);
    match p.stage {
        Stage::ToolProbe => {
            assert(seq!["--version"@][0] != seq!["sync"@][0]);
        },
        Stage::EnvironmentInit => {
            assert(seq!["init"@, "."@].len() == 2);
        },
        Stage::EnvironmentCreate => {
            assert(seq!["venv"@, ".venv"@].len() == 2);
        },
        _ => {},
    }
}

/// When a download answers with a status outside 200..=299, the run halts
/// at once with that status: no later result makes it write a file, run a
/// program or fetch anything.
pub proof fn lemma_failed_download_halts(
    p: PipelineView,
    a: Asset,
    status: u16,
    body: Seq<char>,
    later: Seq<EventView>,
)
    requires
        p.stage == Stage::AssetFetch(a),
        !is_success(status),
    ensures
        run(step(p, EventView::Response { status, body }), later).stage == Stage::Halted,
        stage_action(run(step(p, EventView::Response { status, body }), later)) == (
        ActionView::Halt { error: ErrorView::HttpStatus { stage: Stage::AssetFetch(a), status } }),
{
    lemma_terminal_stays(step(p, EventView::Response { status, body }), later);
}


/// The position of each step in the fixed order of a run.
pub open spec fn rank(s: Stage) -> int {
    match s {
        Stage::Preflight => 0,
        Stage::IdentityRead(IdentityKey::Name) => 1,
        Stage::IdentityPrompt(IdentityKey::Name) => 2,
        Stage::IdentityWrite(IdentityKey::Name) => 3,
        Stage::IdentityRead(IdentityKey::Email) => 4,
        Stage::IdentityPrompt(IdentityKey::Email) => 5,
        Stage::IdentityWrite(IdentityKey::Email) => 6,
        Stage::ToolProbe => 7,
        Stage::ToolInstall => 8,
        Stage::DirectoryCreate => 9,
        Stage::DirectoryEnter => 10,
        Stage::EnvironmentInit => 11,
        Stage::EnvironmentCreate => 12,
        Stage::ManifestWrite => 13,
        Stage::DependencyAdd => 14,
        Stage::DependencySync => 15,
        Stage::AssetFetch(Asset::IgnoreRules) => 16,
        Stage::AssetWrite(Asset::IgnoreRules) => 17,
        Stage::AssetFetch(Asset::License) => 18,
        Stage::AssetWrite(Asset::License) => 19,
        Stage::RepositoryInit => 20,
        Stage::RepositoryConfigure => 21,
        Stage::RepositoryStage => 22,
        Stage::RepositoryCommit => 23,
        Stage::RemoteCreate => 24,
        Stage::BranchRename => 25,
        Stage::OwnerRead => 26,
        Stage::RemoteAdd => 27,
        Stage::RemotePush => 28,
        Stage::Finished => 29,
        Stage::Halted => 30,
    }
}

/// The steps run in one fixed order, none twice: every result handed to a
/// running pipeline moves it to a later step or ends the run. So the
/// identity checks come before the package manager is probed, the directory
/// is created before the manifest is written, both downloads are written
/// before the initial commit, and the remote steps come last.
pub proof fn lemma_steps_move_forward(p: PipelineView, e: EventView)
    requires
        !is_terminal(p.stage),
    ensures
        rank(step(p, e).stage) > rank(p.stage),
{
}

} // verus!
