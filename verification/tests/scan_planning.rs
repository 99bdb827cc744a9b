use projclean::fsview::FsEntry;
use projclean::rules::{get_clean_rules, ProjectCleanRule};
use projclean::scanner::{any_targets, scan_entries, TargetAction};

fn file(path: &str, name: &str, parent: &str) -> FsEntry {
    FsEntry {
        path: path.to_string(),
        file_name: Some(name.to_string()),
        parent: Some(parent.to_string()),
        is_file: true,
        is_dir: false,
        size: 0,
    }
}

fn dir(path: &str, name: &str, parent: &str) -> FsEntry {
    FsEntry {
        path: path.to_string(),
        file_name: Some(name.to_string()),
        parent: Some(parent.to_string()),
        is_file: false,
        is_dir: true,
        size: 0,
    }
}

fn rust_project_tree() -> Vec<FsEntry> {
    vec![
        dir("root/proj", "proj", "root"),
        file("root/proj/Cargo.toml", "Cargo.toml", "root/proj"),
        dir("root/proj/target", "target", "root/proj"),
        dir("root/proj/target/debug", "debug", "root/proj/target"),
        file("root/proj/target/debug/bin", "bin", "root/proj/target/debug"),
    ]
}

#[test]
fn marker_file_reports_its_parent_as_project_root() {
    let rules = get_clean_rules();
    let findings = scan_entries(&rust_project_tree(), &rules, true, false);
    assert_eq!(findings.len(), 1);
    let f = &findings[0];
    assert_eq!(f.project_root, "root/proj");
    assert_eq!(f.project_type, "Rust");
    assert_eq!(f.marker_file, "Cargo.toml");
    // Exactly the rule's declared artifact directory names are checked.
    assert_eq!(f.checked_dirs, vec!["target".to_string()]);
    assert_eq!(f.targets.len(), 1);
    assert_eq!(f.targets[0].path, "root/proj/target");
    assert_eq!(f.targets[0].artifact_name, "target");
    assert_eq!(f.targets[0].project_type, "Rust");
}

#[test]
fn preview_mode_plans_only_previews() {
    let rules = get_clean_rules();
    for auto_confirm in [false, true] {
        let findings = scan_entries(&rust_project_tree(), &rules, true, auto_confirm);
        assert_eq!(findings[0].targets[0].action, TargetAction::Preview);
    }
}

#[test]
fn apply_with_auto_confirm_plans_deletion_without_asking() {
    let rules = get_clean_rules();
    let findings = scan_entries(&rust_project_tree(), &rules, false, true);
    assert_eq!(findings[0].targets[0].action, TargetAction::Delete);
}

#[test]
fn apply_without_auto_confirm_asks_first() {
    let rules = get_clean_rules();
    let findings = scan_entries(&rust_project_tree(), &rules, false, false);
    assert_eq!(findings[0].targets[0].action, TargetAction::AskUser);
}

#[test]
fn preview_twice_on_unchanged_tree_reports_the_same_findings() {
    let rules = get_clean_rules();
    let first = scan_entries(&rust_project_tree(), &rules, true, false);
    let second = scan_entries(&rust_project_tree(), &rules, true, false);
    assert_eq!(first.len(), second.len());
    for (a, b) in first.iter().zip(second.iter()) {
        assert_eq!(a.project_root, b.project_root);
        assert_eq!(a.project_type, b.project_type);
        assert_eq!(a.marker_file, b.marker_file);
        assert_eq!(a.targets.len(), b.targets.len());
        for (x, y) in a.targets.iter().zip(b.targets.iter()) {
            assert_eq!(x.path, y.path);
            assert_eq!(x.artifact_name, y.artifact_name);
            assert_eq!(x.action, y.action);
        }
    }
}

#[test]
fn project_without_artifact_dirs_reports_no_cleanable_target() {
    let rules = get_clean_rules();
    let entries = vec![
        dir("r/app", "app", "r"),
        file("r/app/package.json", "package.json", "r/app"),
        file("r/app/index.js", "index.js", "r/app"),
    ];
    let findings = scan_entries(&entries, &rules, true, false);
    assert_eq!(findings.len(), 1);
    assert_eq!(findings[0].project_type, "Node.js");
    assert_eq!(findings[0].checked_dirs, vec!["node_modules".to_string()]);
    assert!(findings[0].targets.is_empty());
    // The scan-level accumulator stays false when no target exists anywhere.
    assert!(!any_targets(&findings));
}

#[test]
fn a_directory_named_like_a_marker_is_not_a_match() {
    let rules = get_clean_rules();
    let entries = vec![dir("r/Cargo.toml", "Cargo.toml", "r")];
    let findings = scan_entries(&entries, &rules, true, false);
    assert!(findings.is_empty());
}

#[test]
fn entries_without_name_or_parent_are_skipped() {
    let rules = get_clean_rules();
    let mut nameless = file("r/x", "Cargo.toml", "r");
    nameless.file_name = None;
    let mut parentless = file("Cargo.toml", "Cargo.toml", "r");
    parentless.parent = None;
    let findings = scan_entries(&vec![nameless, parentless], &rules, true, false);
    assert!(findings.is_empty());
}

#[test]
fn first_rule_wins_when_two_rules_share_a_marker() {
    let shared = |kind: &str, dirname: &str| ProjectCleanRule {
        project_type: kind.to_string(),
        identifier_file: "build.lock".to_string(),
        directories_to_clean: vec![dirname.to_string()],
        description: String::new(),
    };
    let rules = vec![shared("First", "out"), shared("Second", "cache")];
    let entries = vec![
        file("r/p/build.lock", "build.lock", "r/p"),
        dir("r/p/out", "out", "r/p"),
        dir("r/p/cache", "cache", "r/p"),
    ];
    let findings = scan_entries(&entries, &rules, true, false);
    assert_eq!(findings.len(), 1);
    // Only the first matching rule is applied: its directory is the one
    // checked and found, the second rule's never is.
    assert_eq!(findings[0].project_type, "First");
    assert_eq!(findings[0].targets.len(), 1);
    assert_eq!(findings[0].targets[0].path, "r/p/out");
}

#[test]
fn each_matching_marker_file_is_processed_independently() {
    let rules = get_clean_rules();
    let entries = vec![
        file("r/a/Cargo.toml", "Cargo.toml", "r/a"),
        dir("r/a/target", "target", "r/a"),
        file("r/b/package.json", "package.json", "r/b"),
        dir("r/b/node_modules", "node_modules", "r/b"),
    ];
    let findings = scan_entries(&entries, &rules, false, true);
    assert_eq!(findings.len(), 2);
    assert_eq!(findings[0].project_type, "Rust");
    assert_eq!(findings[0].targets[0].path, "r/a/target");
    assert_eq!(findings[1].project_type, "Node.js");
    assert_eq!(findings[1].targets[0].path, "r/b/node_modules");
    // Apply mode with auto-confirm plans every found target for deletion.
    for f in &findings {
        for t in &f.targets {
            assert_eq!(t.action, TargetAction::Delete);
        }
    }
    assert!(any_targets(&findings));
}
