use superfuse::command::{Action, Command, Event, Stage};
use superfuse::error::SuperfuseError;
use superfuse::listing::Report;
use superfuse::storage::{DbFailure, DbFailureKind, FileMapping};

fn mapping(path: &str, template: &str) -> FileMapping {
    FileMapping {
        id: 1,
        virtual_path: path.to_string(),
        template_path: template.to_string(),
        created_at: "t0".to_string(),
        updated_at: "t1".to_string(),
    }
}

fn feed(stage: Stage, event: Event) -> (Stage, Action) {
    assert!(stage.expects(&event));
    stage.step(event)
}

#[test]
fn add_checks_resolves_then_inserts() {
    let (stage, action) = Stage::begin(Command::Add {
        path: "/config/app.yaml".to_string(),
        template: "templates/app.hbs".to_string(),
    });
    assert!(matches!(action, Action::CheckTemplate(ref t) if t == "templates/app.hbs"));
    let (stage, action) = feed(stage, Event::TemplateChecked(true));
    assert!(matches!(action, Action::Canonicalize(ref t) if t == "templates/app.hbs"));
    let (stage, action) = feed(stage, Event::Canonicalized(Ok("/abs/templates/app.hbs".to_string())));
    match action {
        Action::InsertMapping { ref virtual_path, ref template_path } => {
            assert_eq!(virtual_path, "/config/app.yaml");
            assert_eq!(template_path, "/abs/templates/app.hbs");
        }
        other => panic!("unexpected {other:?}"),
    }
    let (stage, action) =
        feed(stage, Event::MappingInserted(Ok(mapping("/config/app.yaml", "/abs/templates/app.hbs"))));
    assert!(stage.is_done());
    match action {
        Action::Finish(Ok(Report::Added(m))) => assert_eq!(m.template_path, "/abs/templates/app.hbs"),
        other => panic!("unexpected {other:?}"),
    }
}

#[test]
fn add_with_a_missing_template_writes_nothing() {
    let (stage, _) = Stage::begin(Command::Add { path: "/a".to_string(), template: "nope.hbs".to_string() });
    let (stage, action) = feed(stage, Event::TemplateChecked(false));
    assert!(stage.is_done());
    match action {
        Action::Finish(Err(SuperfuseError::TemplateNotFound(t))) => assert_eq!(t, "nope.hbs"),
        other => panic!("unexpected {other:?}"),
    }
    assert!(!stage.expects(&Event::Canonicalized(Ok("x".to_string()))));
}

#[test]
fn add_of_a_taken_path_fails() {
    let (stage, _) = Stage::begin(Command::Add { path: "/a".to_string(), template: "a.hbs".to_string() });
    let (stage, _) = feed(stage, Event::TemplateChecked(true));
    let (stage, _) = feed(stage, Event::Canonicalized(Ok("/t/a.hbs".to_string())));
    let refused = DbFailure {
        kind: DbFailureKind::Database("UNIQUE constraint failed: mappings.virtual_path".to_string()),
        detail: "error returned from database".to_string(),
    };
    let (_, action) = feed(stage, Event::MappingInserted(Err(refused)));
    match action {
        Action::Finish(Err(SuperfuseError::MappingAlreadyExists(p))) => assert_eq!(p, "/a"),
        other => panic!("unexpected {other:?}"),
    }
}

#[test]
fn canonicalisation_failure_is_an_io_error() {
    let (stage, _) = Stage::begin(Command::Update { path: "/a".to_string(), template: "a.hbs".to_string() });
    let (stage, _) = feed(stage, Event::TemplateChecked(true));
    let (stage, action) = feed(stage, Event::Canonicalized(Err("permission denied".to_string())));
    assert!(stage.is_done());
    match action {
        Action::Finish(Err(SuperfuseError::Io(m))) => assert_eq!(m, "permission denied"),
        other => panic!("unexpected {other:?}"),
    }
}

#[test]
fn update_of_a_missing_path_fails() {
    let (stage, _) = Stage::begin(Command::Update { path: "/a".to_string(), template: "a.hbs".to_string() });
    let (stage, _) = feed(stage, Event::TemplateChecked(true));
    let (stage, action) = feed(stage, Event::Canonicalized(Ok("/t/a.hbs".to_string())));
    assert!(matches!(action, Action::UpdateMapping { .. }));
    let gone = DbFailure { kind: DbFailureKind::RowNotFound, detail: "no rows returned".to_string() };
    let (_, action) = feed(stage, Event::MappingUpdated(Err(gone)));
    match action {
        Action::Finish(Err(SuperfuseError::MappingNotFound(p))) => assert_eq!(p, "/a"),
        other => panic!("unexpected {other:?}"),
    }
}

#[test]
fn remove_reports_the_path() {
    let (stage, action) = Stage::begin(Command::Remove { path: "/a".to_string() });
    assert!(matches!(action, Action::RemoveMapping(ref p) if p == "/a"));
    let (_, action) = feed(stage, Event::MappingRemoved(Ok(1)));
    match action {
        Action::Finish(Ok(Report::Removed(p))) => assert_eq!(p, "/a"),
        other => panic!("unexpected {other:?}"),
    }
    let (stage, _) = Stage::begin(Command::Remove { path: "/b".to_string() });
    let (_, action) = feed(stage, Event::MappingRemoved(Ok(0)));
    assert!(matches!(action, Action::Finish(Err(SuperfuseError::MappingNotFound(_)))));
}

#[test]
fn list_reports_the_rows() {
    let (stage, action) = Stage::begin(Command::List);
    assert!(matches!(action, Action::ListMappings));
    let (_, action) = feed(stage, Event::MappingsListed(Ok(vec![mapping("/a", "/t")])));
    match action {
        Action::Finish(Ok(Report::Listed(ms))) => assert_eq!(ms.len(), 1),
        other => panic!("unexpected {other:?}"),
    }
}

#[test]
fn start_mounts_serves_and_unmounts() {
    let (stage, action) = Stage::begin(Command::Start {
        mount_point: "/mnt/superfuse".to_string(),
        auto_unmount: true,
        allow_root: true,
        n_threads: 4,
        clone_fd: true,
    });
    assert!(matches!(action, Action::StartProvider));
    let (stage, action) = feed(stage, Event::ProviderStarted(Ok(())));
    match action {
        Action::Mount(ref r) => {
            assert_eq!(r.mount_point, "/mnt/superfuse");
            assert_eq!(r.n_threads, 4);
        }
        ref other => panic!("unexpected {other:?}"),
    }
    let (stage, action) = feed(stage, Event::Mounted(Ok(())));
    assert!(matches!(action, Action::AwaitShutdown));
    let (stage, action) = feed(stage, Event::ShutdownRequested(Ok(())));
    assert!(matches!(action, Action::Unmount));
    let (stage, action) = feed(stage, Event::Unmounted(Ok(())));
    assert!(stage.is_done());
    assert!(matches!(action, Action::Finish(Ok(Report::Stopped))));
}

#[test]
fn start_fails_when_the_provider_does_not_start() {
    let (stage, _) = Stage::begin(Command::Start {
        mount_point: "/mnt".to_string(),
        auto_unmount: true,
        allow_root: true,
        n_threads: 4,
        clone_fd: true,
    });
    let (stage, action) = feed(stage, Event::ProviderStarted(Err("connection refused".to_string())));
    assert!(stage.is_done());
    match action {
        Action::Finish(Err(SuperfuseError::Provider(m))) => assert_eq!(m, "connection refused"),
        other => panic!("unexpected {other:?}"),
    }
}

#[test]
fn mount_failure_is_an_io_error() {
    let (stage, _) = Stage::begin(Command::Start {
        mount_point: "/mnt".to_string(),
        auto_unmount: false,
        allow_root: false,
        n_threads: 1,
        clone_fd: false,
    });
    let (stage, _) = feed(stage, Event::ProviderStarted(Ok(())));
    let (_, action) = feed(stage, Event::Mounted(Err("fusermount3 not found".to_string())));
    assert!(matches!(action, Action::Finish(Err(SuperfuseError::Io(_)))));
}

