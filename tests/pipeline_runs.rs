use pycargo::config::{resolve, BootstrapRequest, RemoteSettings};
use pycargo::pipeline::Pipeline;
use pycargo::protocol::{
    Action, Asset, Event, Failure, FailureKind, IdentityKey, PipelineError, Stage,
};
use pycargo::template::SetupTemplate;

/// A simulated environment that answers the pipeline's actions.
struct World {
    existing: Vec<String>,
    user_name: String,
    user_email: String,
    typed: Vec<String>,
    uv_present: bool,
    ignore_status: u16,
    remote_status: u16,
    failing_program: Option<(String, String)>,
    files: Vec<(String, String)>,
    runs: Vec<Vec<String>>,
    fetched: Vec<String>,
    remote_calls: Vec<(String, String, bool)>,
    actions: usize,
}

impl World {
    fn clean() -> World {
        World {
            existing: Vec::new(),
            user_name: "alice\n".to_string(),
            user_email: "alice@example.org\n".to_string(),
            typed: Vec::new(),
            uv_present: true,
            ignore_status: 200,
            remote_status: 201,
            failing_program: None,
            files: Vec::new(),
            runs: Vec::new(),
            fetched: Vec::new(),
            remote_calls: Vec::new(),
            actions: 0,
        }
    }

    fn answer(&mut self, action: &Action) -> Event {
        self.actions += 1;
        match action {
            Action::CheckPath { path } => Event::PathChecked {
                exists: self.existing.contains(path),
            },
            Action::ReadGlobalIdentity { key } => Event::Text {
                value: match key {
                    IdentityKey::Name => self.user_name.clone(),
                    IdentityKey::Email => self.user_email.clone(),
                },
            },
            Action::Prompt { .. } => Event::Text {
                value: self.typed.remove(0),
            },
            Action::Run { program, args } => {
                let mut line = vec![program.clone()];
                line.extend(args.iter().cloned());
                self.runs.push(line);
                if let Some((p, a)) = &self.failing_program {
                    if p == program && args.first() == Some(a) {
                        return Event::Failed {
                            failure: Failure {
                                kind: FailureKind::Exit,
                                detail: "boom".to_string(),
                            },
                        };
                    }
                }
                if program == "uv" && args[0] == "--version" && !self.uv_present {
                    return Event::Failed {
                        failure: Failure {
                            kind: FailureKind::Spawn,
                            detail: "not found".to_string(),
                        },
                    };
                }
                Event::Done
            }
            Action::CreateDirectory { path } => {
                self.existing.push(path.clone());
                Event::Done
            }
            Action::EnterDirectory { .. } => Event::Done,
            Action::WriteFile { path, content } => {
                self.files.push((path.clone(), content.clone()));
                Event::Done
            }
            Action::Fetch { url } => {
                self.fetched.push(url.clone());
                if url.ends_with("Python.gitignore") {
                    Event::Response {
                        status: self.ignore_status,
                        body: "__pycache__/\n".to_string(),
                    }
                } else {
                    Event::Response {
                        status: 200,
                        body: "Apache License\n".to_string(),
                    }
                }
            }
            Action::CreateRemoteRepository {
                token,
                name,
                private,
            } => {
                self.remote_calls.push((token.clone(), name.clone(), *private));
                Event::Response {
                    status: self.remote_status,
                    body: "{\"message\":\"name already exists\"}".to_string(),
                }
            }
            Action::Finish { .. } | Action::Halt { .. } => Event::Done,
        }
    }

    fn file(&self, name: &str) -> Option<&String> {
        self.files.iter().find(|(p, _)| p == name).map(|(_, c)| c)
    }

    fn count_runs(&self, line: &[&str]) -> usize {
        self.runs.iter().filter(|r| r.iter().map(|s| s.as_str()).eq(line.iter().copied())).count()
    }
}

fn drive(world: &mut World, request: BootstrapRequest) -> Action {
    let (mut pipeline, mut action) = Pipeline::start(request);
    while !pipeline.is_over() {
        let event = world.answer(&action);
        action = pipeline.advance(event);
    }
    action
}

fn local(name: &str, template: &str) -> BootstrapRequest {
    resolve(name.to_string(), template, false, None, false, None).unwrap()
}

#[test]
fn existing_directory_halts_before_anything_else() {
    let mut world = World::clean();
    world.existing.push("demo".to_string());
    let last = drive(&mut world, local("demo", "basic"));
    match last {
        Action::Halt {
            error: PipelineError::DirectoryExists { path },
        } => assert_eq!(path, "demo"),
        other => panic!("unexpected {:?}", other),
    }
    assert_eq!(world.actions, 1);
    assert!(world.runs.is_empty());
    assert!(world.files.is_empty());
}

#[test]
fn halted_pipeline_stays_halted() {
    let mut world = World::clean();
    world.existing.push("demo".to_string());
    let (mut pipeline, _) = Pipeline::start(local("demo", "basic"));
    let a = pipeline.advance(Event::PathChecked { exists: true });
    assert!(matches!(a, Action::Halt { .. }));
    for event in [Event::Done, Event::PathChecked { exists: false }] {
        let a = pipeline.advance(event);
        assert!(matches!(
            a,
            Action::Halt {
                error: PipelineError::DirectoryExists { .. }
            }
        ));
        assert_eq!(pipeline.stage(), Stage::Halted);
    }
}

#[test]
fn clean_basic_run_completes() {
    let mut world = World::clean();
    let last = drive(&mut world, local("demo", "basic"));
    assert!(matches!(last, Action::Finish { page: None }));
    assert_eq!(
        world.file("requirements.txt").unwrap(),
        "numpy\npandas\nmatplotlib\n"
    );
    assert_eq!(world.count_runs(&["git", "commit", "-m", "Initial commit"]), 1);
    assert_eq!(world.count_runs(&["uv", "add", "-r", "requirements.txt"]), 1);
    assert_eq!(world.count_runs(&["uv", "sync"]), 1);
    assert!(world.remote_calls.is_empty());
    assert_eq!(world.file(".gitignore").unwrap(), "__pycache__/\n");
    assert_eq!(world.file("LICENSE").unwrap(), "Apache License\n");
    assert!(world.existing.contains(&"demo".to_string()));
}

#[test]
fn clean_run_follows_the_step_order() {
    let mut world = World::clean();
    drive(&mut world, local("demo", "advanced"));
    let expected: Vec<Vec<&str>> = vec![
        vec!["uv", "--version"],
        vec!["uv", "init", "."],
        vec!["uv", "venv", ".venv"],
        vec!["uv", "add", "-r", "requirements.txt"],
        vec!["uv", "sync"],
        vec!["git", "init"],
        vec!["git", "config", "core.autocrlf", "true"],
        vec!["git", "add", "."],
        vec!["git", "commit", "-m", "Initial commit"],
    ];
    let got: Vec<Vec<&str>> = world
        .runs
        .iter()
        .map(|r| r.iter().map(|s| s.as_str()).collect())
        .collect();
    assert_eq!(got, expected);
    let names: Vec<&str> = world.files.iter().map(|(p, _)| p.as_str()).collect();
    assert_eq!(names, vec!["requirements.txt", ".gitignore", "LICENSE"]);
}

#[test]
fn blank_run_writes_empty_manifest_and_installs_nothing() {
    let mut world = World::clean();
    let last = drive(&mut world, local("demo", "blank"));
    assert!(matches!(last, Action::Finish { page: None }));
    assert_eq!(world.file("requirements.txt").unwrap(), "");
    assert_eq!(world.count_runs(&["uv", "add", "-r", "requirements.txt"]), 0);
    assert_eq!(world.count_runs(&["uv", "sync"]), 0);
    assert_eq!(world.count_runs(&["git", "commit", "-m", "Initial commit"]), 1);
}

#[test]
fn every_template_writes_its_text() {
    for t in [
        SetupTemplate::Basic,
        SetupTemplate::Advanced,
        SetupTemplate::DataScience,
        SetupTemplate::Blank,
    ] {
        let mut world = World::clean();
        drive(&mut world, local("demo", t.name()));
        assert_eq!(world.file("requirements.txt").unwrap(), &t.content());
    }
}

#[test]
fn ignore_rules_not_found_halts() {
    let mut world = World::clean();
    world.ignore_status = 404;
    let last = drive(&mut world, local("demo", "basic"));
    match last {
        Action::Halt {
            error: PipelineError::HttpStatus { stage, status },
        } => {
            assert_eq!(stage, Stage::AssetFetch(Asset::IgnoreRules));
            assert_eq!(status, 404);
        }
        other => panic!("unexpected {:?}", other),
    }
    assert!(world.file("LICENSE").is_none());
    assert!(world.file(".gitignore").is_none());
    assert_eq!(world.fetched.len(), 1);
    assert_eq!(world.count_runs(&["git", "init"]), 0);
}

#[test]
fn unset_identity_is_prompted_and_stored() {
    let mut world = World::clean();
    world.user_email = String::new();
    world.typed.push("  ada@example.org \n".to_string());
    let last = drive(&mut world, local("demo", "blank"));
    assert!(matches!(last, Action::Finish { .. }));
    assert_eq!(
        world.count_runs(&["git", "config", "--global", "user.email", "ada@example.org"]),
        1
    );
    assert!(world.typed.is_empty());
}

#[test]
fn missing_package_manager_is_installed() {
    let mut world = World::clean();
    world.uv_present = false;
    let last = drive(&mut world, local("demo", "blank"));
    assert!(matches!(last, Action::Finish { .. }));
    assert_eq!(world.count_runs(&["pip", "install", "uv"]), 1);
}

#[test]
fn failed_program_halts_with_its_stage() {
    let mut world = World::clean();
    world.failing_program = Some(("uv".to_string(), "init".to_string()));
    let last = drive(&mut world, local("demo", "basic"));
    match last {
        Action::Halt {
            error: PipelineError::StepFailed { stage, failure },
        } => {
            assert_eq!(stage, Stage::EnvironmentInit);
            assert_eq!(failure.kind, FailureKind::Exit);
            assert_eq!(failure.detail, "boom");
        }
        other => panic!("unexpected {:?}", other),
    }
    assert!(world.files.is_empty());
}

#[test]
fn failed_install_of_package_manager_halts() {
    let mut world = World::clean();
    world.uv_present = false;
    world.failing_program = Some(("pip".to_string(), "install".to_string()));
    let last = drive(&mut world, local("demo", "basic"));
    assert!(matches!(
        last,
        Action::Halt {
            error: PipelineError::StepFailed {
                stage: Stage::ToolInstall,
                ..
            }
        }
    ));
    assert!(!world.existing.contains(&"demo".to_string()));
}

#[test]
fn remote_run_creates_and_pushes() {
    let mut world = World::clean();
    let q = resolve(
        "demo".to_string(),
        "basic",
        true,
        None,
        true,
        Some("tok".to_string()),
    )
    .unwrap();
    let last = drive(&mut world, q);
    match last {
        Action::Finish { page: Some(page) } => {
            assert_eq!(page, "https://github.com/alice/demo")
        }
        other => panic!("unexpected {:?}", other),
    }
    assert_eq!(
        world.remote_calls,
        vec![("tok".to_string(), "demo".to_string(), true)]
    );
    let n = world.runs.len();
    let tail: Vec<Vec<&str>> = world.runs[n - 4..]
        .iter()
        .map(|r| r.iter().map(|s| s.as_str()).collect())
        .collect();
    assert_eq!(
        tail,
        vec![
            vec!["git", "commit", "-m", "Initial commit"],
            vec!["git", "branch", "-M", "main"],
            vec![
                "git",
                "remote",
                "add",
                "origin",
                "https://github.com/alice/demo.git"
            ],
            vec!["git", "push", "-u", "origin", "main"],
        ]
    );
}

#[test]
fn rejected_remote_creation_halts() {
    let mut world = World::clean();
    world.remote_status = 422;
    let q = resolve(
        "demo".to_string(),
        "blank",
        true,
        Some("taken".to_string()),
        false,
        Some("tok".to_string()),
    )
    .unwrap();
    let last = drive(&mut world, q);
    match last {
        Action::Halt {
            error: PipelineError::RemoteRejected { status, body },
        } => {
            assert_eq!(status, 422);
            assert_eq!(body, "{\"message\":\"name already exists\"}");
        }
        other => panic!("unexpected {:?}", other),
    }
    assert_eq!(world.count_runs(&["git", "branch", "-M", "main"]), 0);
}

#[test]
fn empty_token_in_request_halts_after_commit() {
    let mut world = World::clean();
    let q = BootstrapRequest {
        project_name: "demo".to_string(),
        template: SetupTemplate::Blank,
        remote: Some(RemoteSettings {
            name: "demo".to_string(),
            private: false,
            token: String::new(),
        }),
    };
    let last = drive(&mut world, q);
    assert!(matches!(
        last,
        Action::Halt {
            error: PipelineError::MissingCredential
        }
    ));
    assert!(world.remote_calls.is_empty());
}

#[test]
fn unexpected_event_halts() {
    let (mut pipeline, action) = Pipeline::start(local("demo", "basic"));
    assert!(matches!(action, Action::CheckPath { .. }));
    let a = pipeline.advance(Event::Done);
    assert!(matches!(
        a,
        Action::Halt {
            error: PipelineError::UnexpectedEvent {
                stage: Stage::Preflight
            }
        }
    ));
    assert!(pipeline.is_over());
}

#[test]
fn owner_name_is_trimmed() {
    let mut world = World::clean();
    world.user_name = "  bob \n".to_string();
    let q = resolve(
        "demo".to_string(),
        "blank",
        true,
        None,
        false,
        Some("tok".to_string()),
    )
    .unwrap();
    let last = drive(&mut world, q);
    assert!(matches!(last, Action::Finish { page: Some(ref p) } if p == "https://github.com/bob/demo"));
}

#[test]
fn blank_identity_value_is_prompted() {
    let mut world = World::clean();
    world.user_name = " \n".to_string();
    world.typed.push("Ada".to_string());
    let last = drive(&mut world, local("demo", "blank"));
    assert!(matches!(last, Action::Finish { .. }));
    assert_eq!(world.count_runs(&["git", "config", "--global", "user.name", "Ada"]), 1);
}

#[test]
fn empty_identity_answer_halts() {
    let mut world = World::clean();
    world.user_email = String::new();
    world.typed.push("   \n".to_string());
    let last = drive(&mut world, local("demo", "basic"));
    assert!(matches!(
        last,
        Action::Halt {
            error: PipelineError::EmptyIdentity {
                key: IdentityKey::Email
            }
        }
    ));
    assert!(world.runs.is_empty());
    assert!(!world.existing.contains(&"demo".to_string()));
}

#[test]
fn owner_name_loses_unicode_white_space() {
    let mut world = World::clean();
    world.user_name = "\u{3000}carol\u{a0}\n".to_string();
    let q = resolve(
        "demo".to_string(),
        "blank",
        true,
        None,
        false,
        Some("tok".to_string()),
    )
    .unwrap();
    let last = drive(&mut world, q);
    assert!(matches!(last, Action::Finish { page: Some(ref p) } if p == "https://github.com/carol/demo"));
}
