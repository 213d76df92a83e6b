use superfuse::error::SuperfuseError;
use superfuse::storage::{
    finish_add_mapping, finish_init_db, finish_list_mappings, finish_remove_mapping,
    finish_update_mapping, unique_violation, validate_template_exists, DbFailure, DbFailureKind,
    FileMapping,
};

fn mapping(id: i64, path: &str, template: &str) -> FileMapping {
    FileMapping {
        id,
        virtual_path: path.to_string(),
        template_path: template.to_string(),
        created_at: "2024-01-01 00:00:00".to_string(),
        updated_at: "2024-01-02 00:00:00".to_string(),
    }
}

fn failure(kind: DbFailureKind, detail: &str) -> DbFailure {
    DbFailure { kind, detail: detail.to_string() }
}

#[test]
fn validate_template_exists_refuses_missing_files() {
    assert_eq!(validate_template_exists("/t/a.hbs".to_string(), true).unwrap(), "/t/a.hbs");
    match validate_template_exists("/t/b.hbs".to_string(), false) {
        Err(SuperfuseError::TemplateNotFound(p)) => assert_eq!(p, "/t/b.hbs"),
        other => panic!("unexpected {other:?}"),
    }
}

#[test]
fn unique_violation_reads_the_database_message() {
    let f = failure(
        DbFailureKind::Database("UNIQUE constraint failed: mappings.virtual_path".to_string()),
        "error returned from database: UNIQUE constraint failed: mappings.virtual_path",
    );
    assert!(unique_violation(&f));
    let g = failure(DbFailureKind::Database("disk I/O error".to_string()), "disk I/O error");
    assert!(!unique_violation(&g));
    let h = failure(DbFailureKind::Other, "UNIQUE constraint");
    assert!(!unique_violation(&h));
}

#[test]
fn adding_a_taken_path_reports_it_exists() {
    let f = failure(
        DbFailureKind::Database("UNIQUE constraint failed: mappings.virtual_path".to_string()),
        "whatever",
    );
    match finish_add_mapping("/config/app.yaml".to_string(), Err(f)) {
        Err(SuperfuseError::MappingAlreadyExists(p)) => assert_eq!(p, "/config/app.yaml"),
        other => panic!("unexpected {other:?}"),
    }
}

#[test]
fn adding_reports_other_database_errors() {
    let f = failure(DbFailureKind::Other, "pool timed out");
    match finish_add_mapping("/a".to_string(), Err(f)) {
        Err(SuperfuseError::Database(d)) => assert_eq!(d, "pool timed out"),
        other => panic!("unexpected {other:?}"),
    }
    let m = finish_add_mapping("/a".to_string(), Ok(mapping(3, "/a", "/t/a.hbs"))).unwrap();
    assert_eq!(m.id, 3);
    assert_eq!(m.template_path, "/t/a.hbs");
}

#[test]
fn removing_nothing_reports_not_found() {
    match finish_remove_mapping("/gone".to_string(), Ok(0)) {
        Err(SuperfuseError::MappingNotFound(p)) => assert_eq!(p, "/gone"),
        other => panic!("unexpected {other:?}"),
    }
    assert!(finish_remove_mapping("/here".to_string(), Ok(1)).is_ok());
    match finish_remove_mapping("/x".to_string(), Err(failure(DbFailureKind::Other, "locked"))) {
        Err(SuperfuseError::Database(d)) => assert_eq!(d, "locked"),
        other => panic!("unexpected {other:?}"),
    }
}

#[test]
fn updating_a_missing_path_reports_not_found() {
    match finish_update_mapping("/gone".to_string(), Err(failure(DbFailureKind::RowNotFound, "no rows"))) {
        Err(SuperfuseError::MappingNotFound(p)) => assert_eq!(p, "/gone"),
        other => panic!("unexpected {other:?}"),
    }
    let f = failure(
        DbFailureKind::Database("UNIQUE constraint failed".to_string()),
        "error returned from database: UNIQUE constraint failed",
    );
    match finish_update_mapping("/a".to_string(), Err(f)) {
        Err(SuperfuseError::Database(d)) => {
            assert_eq!(d, "error returned from database: UNIQUE constraint failed")
        }
        other => panic!("unexpected {other:?}"),
    }
}

#[test]
fn listing_and_opening_pass_rows_and_report_failures() {
    let rows = finish_list_mappings(Ok(vec![mapping(1, "/a", "/t")])).unwrap();
    assert_eq!(rows.len(), 1);
    assert!(finish_list_mappings(Err(failure(DbFailureKind::Other, "x"))).is_err());
    assert!(finish_init_db(Ok(())).is_ok());
    match finish_init_db(Err(failure(DbFailureKind::Other, "cannot open"))) {
        Err(SuperfuseError::Database(d)) => assert_eq!(d, "cannot open"),
        other => panic!("unexpected {other:?}"),
    }
}

#[test]
fn error_messages_match_their_descriptions() {
    assert_eq!(SuperfuseError::NoDataDir.message(), "could not determine data directory for superfuse");
    assert_eq!(
        SuperfuseError::CreateDir { path: "/x".to_string(), source: "denied".to_string() }.message(),
        "failed to create directory /x: denied"
    );
    assert_eq!(SuperfuseError::Database("boom".to_string()).message(), "database error: boom");
    assert_eq!(SuperfuseError::MappingNotFound("/a".to_string()).message(), "mapping not found for path: /a");
    assert_eq!(
        SuperfuseError::MappingAlreadyExists("/a".to_string()).message(),
        "mapping already exists for path: /a"
    );
    assert_eq!(SuperfuseError::TemplateNotFound("/t".to_string()).message(), "template file not found: /t");
    assert_eq!(SuperfuseError::Template("bad".to_string()).message(), "template error: bad");
    assert_eq!(SuperfuseError::Io("eof".to_string()).message(), "io error: eof");
    assert_eq!(
        SuperfuseError::Provider("down".to_string()).message(),
        "superposition provider error: down"
    );
    assert_eq!(
        SuperfuseError::MissingSetting("SUPERPOSITION_TOKEN".to_string()).message(),
        "missing required environment variable: SUPERPOSITION_TOKEN"
    );
}
