use projclean::rules::{get_clean_rules, ProjectCleanRule};
use projclean::scanner::{deletion_confirmed, find_matching_rule, planned_action, TargetAction};

#[test]
fn registry_has_rust_and_node_rules_in_order() {
    let rules = get_clean_rules();
    assert_eq!(rules.len(), 2);
    assert_eq!(rules[0].project_type, "Rust");
    assert_eq!(rules[0].identifier_file, "Cargo.toml");
    assert_eq!(rules[0].directories_to_clean, vec!["target".to_string()]);
    assert_eq!(rules[1].project_type, "Node.js");
    assert_eq!(rules[1].identifier_file, "package.json");
    assert_eq!(rules[1].directories_to_clean, vec!["node_modules".to_string()]);
    assert!(!rules[0].description.is_empty());
    assert!(!rules[1].description.is_empty());
}

#[test]
fn matching_finds_each_marker() {
    let rules = get_clean_rules();
    assert_eq!(find_matching_rule(&"Cargo.toml".to_string(), &rules), Some(0));
    assert_eq!(find_matching_rule(&"package.json".to_string(), &rules), Some(1));
    assert_eq!(find_matching_rule(&"README.md".to_string(), &rules), None);
    assert_eq!(find_matching_rule(&"".to_string(), &rules), None);
}

fn rule(kind: &str, marker: &str, dir: &str) -> ProjectCleanRule {
    ProjectCleanRule {
        project_type: kind.to_string(),
        identifier_file: marker.to_string(),
        directories_to_clean: vec![dir.to_string()],
        description: String::new(),
    }
}

#[test]
fn first_matching_rule_wins_on_duplicate_markers() {
    let rules = vec![
        rule("First", "build.lock", "out"),
        rule("Second", "build.lock", "cache"),
        rule("Third", "other.lock", "tmp"),
    ];
    assert_eq!(find_matching_rule(&"build.lock".to_string(), &rules), Some(0));
    assert_eq!(find_matching_rule(&"other.lock".to_string(), &rules), Some(2));
}

#[test]
fn planned_action_follows_mode_flags() {
    // A dry run previews, whatever the auto-confirm flag says.
    assert_eq!(planned_action(true, false), TargetAction::Preview);
    assert_eq!(planned_action(true, true), TargetAction::Preview);
    // Apply mode deletes under auto-confirm, otherwise asks.
    assert_eq!(planned_action(false, true), TargetAction::Delete);
    assert_eq!(planned_action(false, false), TargetAction::AskUser);
}

#[test]
fn only_an_explicit_yes_confirms_deletion() {
    assert!(deletion_confirmed(Some(true)));
    assert!(!deletion_confirmed(Some(false)));
    assert!(!deletion_confirmed(None));
}
