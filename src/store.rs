//! Rules of the rule store: what a lookup by id yields, what an upsert
//! writes, and how an upsert meets a row that already has its id.
//!
//! The store itself is a relational database reached by the caller; these
//! functions take the rows it returned and say what follows.
use crate::rules::RuleFileNoContent;
use vstd::prelude::*;

verus! {

/// Why a rule-store operation failed.
#[derive(PartialEq, Eq, Structural, Debug, Clone, Copy)]
pub enum StoreError {
    /// No row has the id.
    RecordNotFound,
    /// The id names a folder, which has no content.
    DirHasNoContent,
}

impl StoreError {
    /// The error's text.
    pub fn message(&self) -> (r: &'static str)
        ensures
            *self == StoreError::RecordNotFound ==> r@ == "Invalid ID"@,
            *self == StoreError::DirHasNoContent ==> r@ == "Invalid ID of Dir"@,
    {
        match self {
            StoreError::RecordNotFound => "Invalid ID",
            StoreError::DirHasNoContent => "Invalid ID of Dir",
        }
    }
}

/// A stored rule file or folder. Folders have no content. Timestamps are
/// milliseconds since the Unix epoch.
pub struct RuleFileRecord {
    pub id: i32,
    pub name: String,
    pub parent_id: Option<i32>,
    pub is_dir: bool,
    pub content: Option<String>,
    pub created_at: i64,
    pub updated_at: i64,
}

/// A stored rule folder.
pub struct RuleDirRecord {
    pub id: i32,
    pub name: String,
    pub parent_id: Option<i32>,
    pub created_at: i64,
    pub updated_at: i64,
}

/// Queries over rule folders.
pub struct RuleDirQuery;

/// Queries over rule files.
pub struct RuleFileQuery;

/// Changes to rule files.
pub struct RuleFileMutation;

/// Changes to rule folders.
pub struct RuleDirMutation;

/// A row to insert, or to merge into the row that already has its id.
pub struct RuleFileUpsert {
    /// The id to write, or none to let the store assign one.
    pub id: Option<i32>,
    pub name: String,
    pub is_dir: bool,
    pub parent_id: Option<i32>,
    pub updated_at: i64,
}

/// A folder row to insert, or to merge into the row that already has its id.
pub struct RuleDirUpsert {
    pub id: Option<i32>,
    pub name: String,
    pub parent_id: Option<i32>,
    pub updated_at: i64,
}

impl RuleFileQuery {
    /// The content of the row that a lookup by id `found`: an error when
    /// there is none or it is a folder; a file without content reads as
    /// empty text.
    pub fn find_content_by_id(found: Option<&RuleFileRecord>) -> (r: Result<String, StoreError>)
        ensures
            found is None ==> r == Err::<String, StoreError>(StoreError::RecordNotFound),
            found is Some && found->Some_0.is_dir ==> r == Err::<String, StoreError>(
                StoreError::DirHasNoContent,
            ),
            found is Some && !found->Some_0.is_dir ==> r is Ok && r->Ok_0@ == match found->Some_0.content {
                Some(c) => c@,
                None => Seq::<char>::empty(),
            },
    {
        match found {
            None => Err(StoreError::RecordNotFound),
            Some(row) => {
                if row.is_dir {
                    Err(StoreError::DirHasNoContent)
                } else {
                    match &row.content {
                        Some(c) => Ok(c.clone()),
                        None => Ok(String::new()),
                    }
                }
            },
        }
    }

    /// The rows without their content.
    pub fn find_all(rows: &Vec<RuleFileRecord>) -> (r: Vec<RuleFileNoContent>)
        ensures
            r@.len() == rows@.len(),
            forall|i: int|
                0 <= i < rows@.len() ==> {
                    &&& #[trigger] r@[i].id == rows@[i].id
                    &&& r@[i].name@ == rows@[i].name@
                    &&& r@[i].parent_id == rows@[i].parent_id
                    &&& r@[i].is_dir == rows@[i].is_dir
                    &&& r@[i].created_at == rows@[i].created_at
                    &&& r@[i].updated_at == rows@[i].updated_at
                },
    {
        let mut out: Vec<RuleFileNoContent> = Vec::new();
        let mut i: usize = 0;
        while i < rows.len()
            invariant
                i <= rows@.len(),
                out@.len() == i,
                forall|j: int|
                    0 <= j < i ==> {
                        &&& #[trigger] out@[j].id == rows@[j].id
                        &&& out@[j].name@ == rows@[j].name@
                        &&& out@[j].parent_id == rows@[j].parent_id
                        &&& out@[j].is_dir == rows@[j].is_dir
                        &&& out@[j].created_at == rows@[j].created_at
                        &&& out@[j].updated_at == rows@[j].updated_at
                    },
            decreases rows@.len() - i,
        {
            let row = &rows[i];
            out.push(
                RuleFileNoContent {
                    id: row.id,
                    name: row.name.clone(),
                    parent_id: row.parent_id,
                    is_dir: row.is_dir,
                    created_at: row.created_at,
                    updated_at: row.updated_at,
                },
            );
            i = i + 1;
        }
        out
    }
}

impl RuleFileMutation {
    /// The row that an upsert writes, stamped `now`.
    pub fn upsert(id: Option<i32>, name: &str, is_dir: bool, parent_id: Option<i32>, now: i64) -> (r:
        RuleFileUpsert)
        ensures
            r.id == id,
            r.name@ == name@,
            r.is_dir == is_dir,
            r.parent_id == parent_id,
            r.updated_at == now,
    {
        RuleFileUpsert { id, name: name.to_owned(), is_dir, parent_id, updated_at: now }
    }

    /// The row after the upsert `u` met `existing`, the row that already
    /// has its id: only the name and the parent are replaced.
    pub fn merge_upsert(existing: RuleFileRecord, u: &RuleFileUpsert) -> (r: RuleFileRecord)
        ensures
            r.name@ == u.name@,
            r.parent_id == u.parent_id,
            r.id == existing.id,
            r.is_dir == existing.is_dir,
            r.content == existing.content,
            r.created_at == existing.created_at,
            r.updated_at == existing.updated_at,
    {
        RuleFileRecord { name: u.name.clone(), parent_id: u.parent_id, ..existing }
    }

    /// The row after its content was set to `content`, for the row that a
    /// lookup by id `found`: an error when there is none or it is a folder.
    pub fn update_content_by_id(found: Option<RuleFileRecord>, content: String) -> (r: Result<
        RuleFileRecord,
        StoreError,
    >)
        ensures
            found is None ==> r is Err && r->Err_0 == StoreError::RecordNotFound,
            found is Some && found->Some_0.is_dir ==> r is Err && r->Err_0
                == StoreError::DirHasNoContent,
            found is Some && !found->Some_0.is_dir ==> r is Ok && r->Ok_0.content == Some(content)
                && r->Ok_0.id == found->Some_0.id && r->Ok_0.name == found->Some_0.name
                && r->Ok_0.parent_id == found->Some_0.parent_id && !r->Ok_0.is_dir
                && r->Ok_0.created_at == found->Some_0.created_at && r->Ok_0.updated_at
                == found->Some_0.updated_at,
    {
        match found {
            None => Err(StoreError::RecordNotFound),
            Some(row) => {
                if row.is_dir {
                    Err(StoreError::DirHasNoContent)
                } else {
                    Ok(RuleFileRecord { content: Some(content), ..row })
                }
            },
        }
    }
}

impl RuleDirMutation {
    /// The folder row that an upsert writes, stamped `now`.
    pub fn upsert(id: Option<i32>, name: &str, parent_id: Option<i32>, now: i64) -> (r:
        RuleDirUpsert)
        ensures
            r.id == id,
            r.name@ == name@,
            r.parent_id == parent_id,
            r.updated_at == now,
    {
        RuleDirUpsert { id, name: name.to_owned(), parent_id, updated_at: now }
    }

    /// The folder row after the upsert `u` met `existing`, the row that
    /// already has its id: only the name and the parent are replaced.
    pub fn merge_upsert(existing: RuleDirRecord, u: &RuleDirUpsert) -> (r: RuleDirRecord)
        ensures
            r.name@ == u.name@,
            r.parent_id == u.parent_id,
            r.id == existing.id,
            r.created_at == existing.created_at,
            r.updated_at == existing.updated_at,
    {
        RuleDirRecord { name: u.name.clone(), parent_id: u.parent_id, ..existing }
    }
}

} // verus!
