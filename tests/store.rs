use devya::store::{
    RuleDirMutation, RuleDirRecord, RuleFileMutation, RuleFileQuery, RuleFileRecord, StoreError,
};

fn file(id: i32, is_dir: bool, content: Option<&str>) -> RuleFileRecord {
    RuleFileRecord {
        id,
        name: format!("f{}", id),
        parent_id: None,
        is_dir,
        content: content.map(|c| c.to_string()),
        created_at: 10,
        updated_at: 20,
    }
}

#[test]
fn content_lookup_rules() {
    assert_eq!(RuleFileQuery::find_content_by_id(None), Err(StoreError::RecordNotFound));
    assert_eq!(RuleFileQuery::find_content_by_id(Some(&file(1, true, None))), Err(StoreError::DirHasNoContent));
    assert_eq!(RuleFileQuery::find_content_by_id(Some(&file(2, false, None))), Ok(String::new()));
    assert_eq!(RuleFileQuery::find_content_by_id(Some(&file(3, false, Some("x=1")))), Ok("x=1".to_string()));
    assert_eq!(StoreError::RecordNotFound.message(), "Invalid ID");
    assert_eq!(StoreError::DirHasNoContent.message(), "Invalid ID of Dir");
}

#[test]
fn update_content_only_for_files() {
    assert_eq!(RuleFileMutation::update_content_by_id(None, "a".into()).err(), Some(StoreError::RecordNotFound));
    assert_eq!(RuleFileMutation::update_content_by_id(Some(file(1, true, None)), "a".into()).err(), Some(StoreError::DirHasNoContent));
    let updated = RuleFileMutation::update_content_by_id(Some(file(2, false, Some("old"))), "new".into()).unwrap();
    assert_eq!(updated.content.as_deref(), Some("new"));
    assert_eq!(updated.id, 2);
    assert_eq!(updated.updated_at, 20);
}

#[test]
fn upsert_replaces_only_name_and_parent() {
    let u = RuleFileMutation::upsert(Some(2), "renamed", true, Some(9), 99);
    assert_eq!(u.id, Some(2));
    assert_eq!(u.updated_at, 99);
    let merged = RuleFileMutation::merge_upsert(file(2, false, Some("keep")), &u);
    assert_eq!(merged.name, "renamed");
    assert_eq!(merged.parent_id, Some(9));
    assert!(!merged.is_dir);
    assert_eq!(merged.content.as_deref(), Some("keep"));
    assert_eq!(merged.updated_at, 20);
}

#[test]
fn folder_upsert_replaces_only_name_and_parent() {
    let u = RuleDirMutation::upsert(None, "dir", Some(1), 5);
    assert_eq!(u.id, None);
    assert_eq!(u.name, "dir");
    let existing = RuleDirRecord { id: 3, name: "old".into(), parent_id: None, created_at: 1, updated_at: 2 };
    let merged = RuleDirMutation::merge_upsert(existing, &u);
    assert_eq!((merged.id, merged.name.as_str(), merged.parent_id, merged.created_at, merged.updated_at), (3, "dir", Some(1), 1, 2));
}

#[test]
fn listing_drops_content() {
    let rows = vec![file(1, false, Some("secret")), file(2, true, None)];
    let listed = RuleFileQuery::find_all(&rows);
    assert_eq!(listed.len(), 2);
    assert_eq!(listed[0].id, 1);
    assert_eq!(listed[0].name, "f1");
    assert!(listed[1].is_dir);
}
