use superfuse::listing::{all_printable, can_print, print_mappings, report_lines, Report};
use superfuse::storage::FileMapping;

fn mapping(id: i64, path: &str, template: &str, updated: &str) -> FileMapping {
    FileMapping {
        id,
        virtual_path: path.to_string(),
        template_path: template.to_string(),
        created_at: "2024-01-01 00:00:00".to_string(),
        updated_at: updated.to_string(),
    }
}

fn expected_row(id: i64, path: &str, template: &str, updated: &str) -> String {
    format!("{:<6} {:<40} {:<40} {:<20}", id, path, template, updated)
}

#[test]
fn an_empty_listing_says_so() {
    assert_eq!(print_mappings(&vec![]), vec!["No mappings found.".to_string()]);
}

#[test]
fn a_listing_has_header_rule_and_rows() {
    let ms = vec![
        mapping(1, "/config/app.yaml", "/templates/app.hbs", "2024-05-01 10:00:00"),
        mapping(22, "/config/db.yaml", "/templates/db.hbs", "2024-05-02 11:30:00"),
    ];
    let lines = print_mappings(&ms);
    assert_eq!(lines.len(), 4);
    assert_eq!(lines[0], format!("{:<6} {:<40} {:<40} {:<20}", "ID", "Virtual Path", "Template Path", "Updated"));
    assert_eq!(lines[1], "-".repeat(106));
    assert_eq!(lines[2], expected_row(1, "/config/app.yaml", "/templates/app.hbs", "2024-05-01 10:00:00"));
    assert_eq!(lines[3], expected_row(22, "/config/db.yaml", "/templates/db.hbs", "2024-05-02 11:30:00"));
}

#[test]
fn long_cells_are_shortened() {
    let long_path = format!("/{}", "p".repeat(60));
    let ms = vec![mapping(-5, &long_path, "/t", "2024-05-01 10:00:00.123456")];
    let lines = print_mappings(&ms);
    let shortened_path = format!("{}...", &long_path[..37]);
    assert_eq!(lines[2], expected_row(-5, &shortened_path, "/t", "2024-05-01 10:00:..."));
}

#[test]
fn cells_that_cannot_be_cut_are_flagged() {
    let awkward = format!("{}é", "a".repeat(36)) + &"b".repeat(10);
    let ms = vec![mapping(1, &awkward, "/t", "now")];
    assert!(!all_printable(&ms));
    assert!(!can_print(&Report::Listed(ms)));
    assert!(all_printable(&vec![mapping(1, "/a", "/t", "now")]));
}

#[test]
fn reports_name_what_changed() {
    let m = mapping(1, "/config/app.yaml", "/templates/app.hbs", "now");
    assert_eq!(report_lines(&Report::Added(m.clone())), vec!["Added mapping: /config/app.yaml -> /templates/app.hbs"]);
    assert_eq!(report_lines(&Report::Updated(m)), vec!["Updated mapping: /config/app.yaml -> /templates/app.hbs"]);
    assert_eq!(report_lines(&Report::Removed("/config/app.yaml".to_string())), vec!["Removed mapping: /config/app.yaml"]);
    assert!(report_lines(&Report::Stopped).is_empty());
    assert_eq!(report_lines(&Report::Listed(vec![])), vec!["No mappings found."]);
}
