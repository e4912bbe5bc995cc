use devya::rules::{build_rule_tree, sort_file, sorted_with_parent, RuleFileNoContent, RuleFileNode};
use std::cmp::Ordering;

fn row(id: i32, name: &str, parent_id: Option<i32>, is_dir: bool) -> RuleFileNoContent {
    RuleFileNoContent {
        id,
        name: name.to_string(),
        parent_id,
        is_dir,
        created_at: 1_700_000_000_000 + id as i64,
        updated_at: 1_700_000_000_500 + id as i64,
    }
}

fn names(nodes: &[RuleFileNode]) -> Vec<String> {
    nodes.iter().map(|n| n.rule_file.name.clone()).collect()
}

#[test]
fn empty_store_gives_empty_forest() {
    let forest = build_rule_tree(&Vec::new());
    assert!(forest.is_empty());
}

#[test]
fn folders_come_before_files_then_by_name() {
    let rows = vec![
        row(1, "zeta.rule", None, false),
        row(2, "beta", None, true),
        row(3, "alpha.rule", None, false),
        row(4, "alpha", None, true),
    ];
    let forest = build_rule_tree(&rows);
    assert_eq!(names(&forest), vec!["alpha", "beta", "alpha.rule", "zeta.rule"]);
}

#[test]
fn children_nest_under_their_parent() {
    let rows = vec![
        row(1, "root", None, true),
        row(2, "b.rule", Some(1), false),
        row(3, "sub", Some(1), true),
        row(4, "a.rule", Some(1), false),
        row(5, "deep.rule", Some(3), false),
    ];
    let forest = build_rule_tree(&rows);
    assert_eq!(forest.len(), 1);
    let root = &forest[0];
    assert_eq!(root.rule_file.id, 1);
    assert_eq!(names(&root.children), vec!["sub", "a.rule", "b.rule"]);
    let sub = &root.children[0];
    assert_eq!(names(&sub.children), vec!["deep.rule"]);
    assert!(sub.children[0].children.is_empty());
    assert!(root.children[1].children.is_empty());
    assert_eq!(sub.children[0].rule_file.created_at, 1_700_000_000_005);
    assert_eq!(sub.children[0].rule_file.updated_at, 1_700_000_000_505);
}

#[test]
fn rows_with_a_missing_parent_are_left_out() {
    let rows = vec![row(1, "kept", None, false), row(2, "orphan", Some(99), false)];
    let forest = build_rule_tree(&rows);
    assert_eq!(names(&forest), vec!["kept"]);
    assert!(forest[0].children.is_empty());
}

#[test]
fn equal_siblings_keep_their_stored_order() {
    let rows = vec![
        row(7, "same", None, false),
        row(3, "same", None, false),
        row(5, "same", None, false),
    ];
    let forest = build_rule_tree(&rows);
    let ids: Vec<i32> = forest.iter().map(|n| n.rule_file.id).collect();
    assert_eq!(ids, vec![7, 3, 5]);
}

#[test]
fn names_compare_by_code_point() {
    let upper = row(1, "Zeta", None, false);
    let lower = row(2, "alpha", None, false);
    assert_eq!(sort_file(&upper, &lower), Ordering::Less);
    let prefix = row(3, "ab", None, false);
    let longer = row(4, "abc", None, false);
    assert_eq!(sort_file(&prefix, &longer), Ordering::Less);
    assert_eq!(sort_file(&longer, &prefix), Ordering::Greater);
    let dir = row(5, "zzz", None, true);
    assert_eq!(sort_file(&dir, &lower), Ordering::Less);
    assert_eq!(sort_file(&lower, &dir), Ordering::Greater);
    assert_eq!(sort_file(&prefix, &row(6, "ab", None, false)), Ordering::Equal);
    let accented = row(7, "é", None, false);
    assert_eq!(sort_file(&lower, &accented), Ordering::Less);
}

#[test]
fn siblings_under_a_parent_are_sorted() {
    let rows = vec![
        row(1, "c", Some(10), false),
        row(2, "a", Some(10), false),
        row(3, "x", Some(11), true),
        row(4, "b", Some(10), true),
    ];
    let kids = sorted_with_parent(&rows, Some(10));
    let ids: Vec<i32> = kids.iter().map(|r| r.id).collect();
    assert_eq!(ids, vec![4, 2, 1]);
}
