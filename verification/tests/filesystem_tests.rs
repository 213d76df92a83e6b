use superfuse::filesystem::{evaluation_context, open_reply, read_slice, FsTable, OpenReply, ReadTarget, ROOT_INODE};
use superfuse::render::{read_rendered, render};
use superfuse::storage::FileMapping;
use superfuse::tree::{split_path, NodeKind};

fn mapping(id: i64, path: &str, template: &str) -> FileMapping {
    FileMapping {
        id,
        virtual_path: path.to_string(),
        template_path: template.to_string(),
        created_at: "t0".to_string(),
        updated_at: "t1".to_string(),
    }
}

fn mappings() -> Vec<FileMapping> {
    vec![
        mapping(1, "/config/app.yaml", "/t/app.hbs"),
        mapping(2, "/config/db.yaml", "/t/db.hbs"),
        mapping(3, "/top.conf", "/t/top.hbs"),
        mapping(4, "/config/nested/x.yaml", "/t/x.hbs"),
    ]
}

#[test]
fn split_path_drops_empty_components() {
    assert_eq!(split_path("/config/app.yaml"), vec!["config", "app.yaml"]);
    assert_eq!(split_path("//a///b/"), vec!["a", "b"]);
    assert!(split_path("/").is_empty());
    assert_eq!(split_path("plain"), vec!["plain"]);
}

#[test]
fn the_root_lists_top_level_names() {
    let t = FsTable::new();
    let entries = t.readdir(&mappings(), ROOT_INODE).unwrap();
    let names: Vec<_> = entries.iter().map(|e| (e.name.as_str(), e.kind)).collect();
    assert_eq!(names, vec![("config", NodeKind::Directory), ("top.conf", NodeKind::File)]);
    assert!(entries.iter().all(|e| e.ino.is_none()));
}

#[test]
fn lookup_gives_inodes_and_kinds() {
    let ms = mappings();
    let mut t = FsTable::new();
    let (config, kind) = t.lookup(&ms, ROOT_INODE, "config").unwrap();
    assert_eq!((config, kind), (2, NodeKind::Directory));
    let (app, kind) = t.lookup(&ms, config, "app.yaml").unwrap();
    assert_eq!((app, kind), (3, NodeKind::File));
    // a second lookup finds the same inode
    assert_eq!(t.lookup(&ms, ROOT_INODE, "config"), Some((2, NodeKind::Directory)));
    assert_eq!(t.lookup(&ms, ROOT_INODE, "missing"), None);
    assert_eq!(t.lookup(&ms, 99, "config"), None);
    assert_eq!(t.kind(&ms, app), Some(NodeKind::File));
    assert_eq!(t.kind(&ms, ROOT_INODE), Some(NodeKind::Directory));
    let entries = t.readdir(&ms, config).unwrap();
    let listed: Vec<_> = entries.iter().map(|e| (e.name.as_str(), e.kind, e.ino)).collect();
    assert_eq!(
        listed,
        vec![
            ("app.yaml", NodeKind::File, Some(3)),
            ("db.yaml", NodeKind::File, None),
            ("nested", NodeKind::Directory, None),
        ]
    );
    assert!(t.readdir(&ms, app).is_none());
}

#[test]
fn every_open_gets_handle_zero() {
    assert_eq!(open_reply(), OpenReply { handle: 0, direct_io: false });
}

#[test]
fn the_evaluation_context_ends_with_the_label() {
    let target = ReadTarget {
        mapping: 0,
        context: vec![("env".to_string(), "prod".to_string())],
        label: Some("production".to_string()),
    };
    assert_eq!(
        evaluation_context(&target),
        vec![
            ("env".to_string(), "prod".to_string()),
            ("context".to_string(), "production".to_string())
        ]
    );
    let plain = ReadTarget { mapping: 0, context: vec![], label: None };
    assert!(evaluation_context(&plain).is_empty());
}

#[test]
fn context_components_and_labels_select_the_reading() {
    let ms = mappings();
    let mut t = FsTable::new();
    let (ctx, kind) = t.lookup(&ms, ROOT_INODE, "env=prod").unwrap();
    assert_eq!(kind, NodeKind::Directory);
    let (ctx2, _) = t.lookup(&ms, ctx, "region=eu=west").unwrap();
    let (config, _) = t.lookup(&ms, ctx2, "config").unwrap();
    let (file, kind) = t.lookup(&ms, config, "db.yaml@production").unwrap();
    assert_eq!(kind, NodeKind::File);
    let target = t.read_target(&ms, file).unwrap();
    assert_eq!(target.mapping, 1);
    assert_eq!(
        target.context,
        vec![
            ("env".to_string(), "prod".to_string()),
            ("region".to_string(), "eu=west".to_string())
        ]
    );
    assert_eq!(target.label, Some("production".to_string()));
    let (plain, _) = t.lookup(&ms, ROOT_INODE, "top.conf").unwrap();
    let target = t.read_target(&ms, plain).unwrap();
    assert_eq!(target.mapping, 2);
    assert!(target.context.is_empty());
    assert_eq!(target.label, None);
    assert!(t.read_target(&ms, config).is_none());
}

#[test]
fn read_slice_cuts_at_the_end() {
    let data = b"host: example\n".to_vec();
    assert_eq!(read_slice(&data, 0, 4), b"host".to_vec());
    assert_eq!(read_slice(&data, 6, 100), b"example\n".to_vec());
    assert!(read_slice(&data, 100, 4).is_empty());
    assert!(read_slice(&data, u64::MAX, u32::MAX).is_empty());
}

#[test]
fn render_fills_the_template() {
    let values = r#"{"database": {"host": "db.local", "port": 5432}}"#;
    let out = render("host: {{database.host}}\nport: {{database.port}}\n", values).unwrap();
    assert_eq!(out, b"host: db.local\nport: 5432\n".to_vec());
    assert!(render("{{#if}}", values).is_err());
    assert!(render("{{x}}", "not json").is_err());
}

#[test]
fn a_read_gives_a_slice_of_the_rendered_template() {
    let values = r#"{"name": "superfuse"}"#;
    assert_eq!(read_rendered("app: {{name}}", values, 5, 5).unwrap(), b"super".to_vec());
    assert_eq!(read_rendered("app: {{name}}", values, 10, 100).unwrap(), b"fuse".to_vec());
    assert!(read_rendered("app: {{name}}", values, 100, 4).unwrap().is_empty());
}
