//! The rule-file tree: stored rule files and folders, each row naming its
//! parent, arranged as a forest with folders before files among siblings and
//! siblings ordered by name.
use core::cmp::Ordering;
use vstd::prelude::*;
use vstd::string::*;

verus! {

/// A stored rule file or folder, without its content.
/// Timestamps are milliseconds since the Unix epoch.
pub struct RuleFileNoContent {
    pub id: i32,
    pub name: String,
    pub parent_id: Option<i32>,
    pub is_dir: bool,
    pub created_at: i64,
    pub updated_at: i64,
}

/// What a stored row holds, with its name as a character sequence.
pub ghost struct RuleRow {
    pub id: i32,
    pub name: Seq<char>,
    pub parent_id: Option<i32>,
    pub is_dir: bool,
    pub created_at: i64,
    pub updated_at: i64,
}

impl View for RuleFileNoContent {
    type V = RuleRow;

    open spec fn view(&self) -> RuleRow {
        RuleRow {
            id: self.id,
            name: self.name@,
            parent_id: self.parent_id,
            is_dir: self.is_dir,
            created_at: self.created_at,
            updated_at: self.updated_at,
        }
    }
}

impl RuleFileNoContent {
    /// A copy of this row.
    pub fn duplicate(&self) -> (r: Self)
        ensures
            r@ == self@,
    {
        RuleFileNoContent {
            id: self.id,
            name: self.name.clone(),
            parent_id: self.parent_id,
            is_dir: self.is_dir,
            created_at: self.created_at,
            updated_at: self.updated_at,
        }
    }
}

/// A row together with the nodes of the rows whose parent it is.
pub struct RuleFileNode {
    pub rule_file: RuleFileNoContent,
    pub children: Vec<RuleFileNode>,
}

/// The rows of a sequence of stored rows.
pub open spec fn rows_of(v: Seq<RuleFileNoContent>) -> Seq<RuleRow> {
    v.map_values(|r: RuleFileNoContent| r@)
}

/// Lexicographic comparison of `a` and `b` by code point, from position `i` on.
pub open spec fn lex_cmp_from(a: Seq<char>, b: Seq<char>, i: int) -> Ordering
    decreases a.len() - i,
{
    if i >= a.len() {
        if i >= b.len() {
            Ordering::Equal
        } else {
            Ordering::Less
        }
    } else if i >= b.len() {
        Ordering::Greater
    } else if a[i] != b[i] {
        if (a[i] as u32) < (b[i] as u32) {
            Ordering::Less
        } else {
            Ordering::Greater
        }
    } else {
        lex_cmp_from(a, b, i + 1)
    }
}

/// Lexicographic comparison of two names by code point. For UTF-8 text
/// this is the same order as comparing the encoded bytes.
pub open spec fn lex_cmp(a: Seq<char>, b: Seq<char>) -> Ordering {
    lex_cmp_from(a, b, 0)
}

/// Sibling order: folders before files, then by name.
pub open spec fn file_order(a: RuleRow, b: RuleRow) -> Ordering {
    if !a.is_dir && b.is_dir {
        Ordering::Greater
    } else if a.is_dir && !b.is_dir {
        Ordering::Less
    } else {
        lex_cmp(a.name, b.name)
    }
}

/// `a` stands strictly before `b` among siblings.
pub open spec fn precedes(a: RuleRow, b: RuleRow) -> bool {
    file_order(a, b) == Ordering::Less
}

/// The rows of `rows` whose parent is `parent`, in their stored order.
pub open spec fn with_parent(rows: Seq<RuleRow>, parent: Option<i32>) -> Seq<RuleRow>
    decreases rows.len(),
{
    if rows.len() == 0 {
        Seq::empty()
    } else {
        let rest = with_parent(rows.drop_last(), parent);
        if rows.last().parent_id == parent {
            rest.push(rows.last())
        } else {
            rest
        }
    }
}

/// Where `x` goes in the sorted `s`, looking from position `j` on: before
/// the first entry that it strictly precedes, so that equal entries keep
/// the order in which they came.
pub open spec fn insert_pos(s: Seq<RuleRow>, x: RuleRow, j: int) -> int
    decreases s.len() - j,
{
    if j >= s.len() {
        s.len() as int
    } else if precedes(x, s[j]) {
        j
    } else {
        insert_pos(s, x, j + 1)
    }
}

/// The stable sort of `s` by sibling order.
pub open spec fn sorted_rows(s: Seq<RuleRow>) -> Seq<RuleRow>
    decreases s.len(),
{
    if s.len() == 0 {
        Seq::empty()
    } else {
        let done = sorted_rows(s.drop_last());
        done.insert(insert_pos(done, s.last(), 0), s.last())
    }
}

/// The siblings under `parent`, in sibling order.
pub open spec fn siblings(rows: Seq<RuleRow>, parent: Option<i32>) -> Seq<RuleRow> {
    sorted_rows(with_parent(rows, parent))
}

/// `n` holds the subtree of its row in `rows`, expanded `depth` levels down.
pub open spec fn subtree_built(n: RuleFileNode, rows: Seq<RuleRow>, depth: nat) -> bool
    decreases depth,
{
    if depth == 0 {
        n.children@.len() == 0
    } else {
        let kids = siblings(rows, Some(n.rule_file.id));
        &&& n.children@.len() == kids.len()
        &&& forall|i: int|
            0 <= i < kids.len() ==> {
                &&& #[trigger] n.children@[i].rule_file@ == kids[i]
                &&& subtree_built(n.children@[i], rows, (depth - 1) as nat)
            }
    }
}

/// `f` is the forest of `rows`: the rows without a parent in sibling order,
/// each with its subtree. No path in it holds more rows than `rows` does,
/// so expanding each root as deep as there are rows builds it whole.
pub open spec fn forest_built(f: Seq<RuleFileNode>, rows: Seq<RuleRow>) -> bool {
    let roots = siblings(rows, None);
    &&& f.len() == roots.len()
    &&& forall|i: int|
        0 <= i < roots.len() ==> {
            &&& #[trigger] f[i].rule_file@ == roots[i]
            &&& subtree_built(f[i], rows, rows.len())
        }
}

/// No file stands before a folder in `s`.
pub open spec fn folders_first(s: Seq<RuleRow>) -> bool {
    forall|i: int, j: int| 0 <= i < j < s.len() && #[trigger] s[j].is_dir ==> #[trigger] s[i].is_dir
}

/// Every row of `s` has the parent `parent` and is one of `rows`.
pub open spec fn all_from(s: Seq<RuleRow>, rows: Seq<RuleRow>, parent: Option<i32>) -> bool {
    forall|k: int| 0 <= k < s.len() ==> #[trigger] s[k].parent_id == parent && rows.contains(s[k])
}

proof fn lemma_insert_pos(s: Seq<RuleRow>, x: RuleRow, j: int)
    requires
        0 <= j <= s.len(),
    ensures
        j <= insert_pos(s, x, j) <= s.len(),
        forall|k: int| j <= k < insert_pos(s, x, j) ==> !precedes(x, #[trigger] s[k]),
        insert_pos(s, x, j) < s.len() ==> precedes(x, s[insert_pos(s, x, j)]),
    decreases s.len() - j,
{
    if j < s.len() && !precedes(x, s[j]) {
        lemma_insert_pos(s, x, j + 1);
    }
}

/// No row of `s` strictly precedes one that stands before it.
pub open spec fn in_sibling_order(s: Seq<RuleRow>) -> bool {
    forall|i: int, j: int| 0 <= i < j < s.len() ==> !precedes(#[trigger] s[j], #[trigger] s[i])
}

proof fn lemma_lex_less_transitive(a: Seq<char>, b: Seq<char>, c: Seq<char>, i: int)
    requires
        0 <= i,
        lex_cmp_from(a, b, i) == Ordering::Less,
        lex_cmp_from(b, c, i) == Ordering::Less,
    ensures
        lex_cmp_from(a, c, i) == Ordering::Less,
    decreases a.len() - i,
{
    if i < a.len() && i < b.len() && i < c.len() && a[i] == b[i] && b[i] == c[i] {
        lemma_lex_less_transitive(a, b, c, i + 1);
    }
}

proof fn lemma_lex_reflexive(a: Seq<char>, i: int)
    requires
        0 <= i,
    ensures
        lex_cmp_from(a, a, i) == Ordering::Equal,
    decreases a.len() - i,
{
    if i < a.len() {
        lemma_lex_reflexive(a, i + 1);
    }
}

proof fn lemma_precedes_transitive(a: RuleRow, b: RuleRow, c: RuleRow)
    requires
        precedes(a, b),
        precedes(b, c),
    ensures
        precedes(a, c),
{
    if a.is_dir == b.is_dir && b.is_dir == c.is_dir {
        lemma_lex_less_transitive(a.name, b.name, c.name, 0);
    }
}

proof fn lemma_sorted_rows_folders_first(s: Seq<RuleRow>)
    ensures
        folders_first(sorted_rows(s)),
        in_sibling_order(sorted_rows(s)),
        sorted_rows(s).len() == s.len(),
        forall|k: int| 0 <= k < s.len() ==> s.contains(#[trigger] sorted_rows(s)[k]),
    decreases s.len(),
{
    if s.len() > 0 {
        let done = sorted_rows(s.drop_last());
        let x = s.last();
        lemma_sorted_rows_folders_first(s.drop_last());
        lemma_insert_pos(done, x, 0);
        let pos = insert_pos(done, x, 0);
        let r = done.insert(pos, x);
        assert(r == sorted_rows(s));
        assert forall|k: int| 0 <= k < s.len() implies s.contains(#[trigger] r[k]) by {
            if k < pos {
                assert(s.drop_last().contains(done[k]));
            } else if k > pos {
                assert(s.drop_last().contains(done[k - 1]));
            } else {
                assert(s[s.len() - 1] == x);
            }
        }
        assert forall|i: int, j: int| 0 <= i < j < r.len() implies !precedes(#[trigger] r[j], #[trigger] r[i]) by {
            if j < pos {
                assert(!precedes(done[j], done[i]));
            } else if j == pos {
                assert(!precedes(x, done[i]));
            } else if i < pos {
                assert(!precedes(done[j - 1], done[i]));
            } else if i == pos {
                let d = done[j - 1];
                if precedes(d, x) {
                    lemma_precedes_transitive(d, x, done[pos]);
                    if j - 1 == pos {
                        lemma_lex_reflexive(d.name, 0);
                    } else {
                        assert(!precedes(done[j - 1], done[pos]));
                    }
                }
            } else {
                assert(!precedes(done[j - 1], done[i - 1]));
            }
        }
        assert forall|i: int, j: int| 0 <= i < j < r.len() && #[trigger] r[j].is_dir implies #[trigger] r[i].is_dir by {
            if x.is_dir {
                if i == pos {
                } else if j == pos {
                    assert(!precedes(x, done[i]));
                } else if i < pos && j > pos {
                    assert(!precedes(x, done[i]));
                }
            } else {
                if j == pos {
                } else if i == pos {
                    assert(precedes(x, done[pos]));
                    assert(done[j - 1].is_dir);
                    assert(done[pos].is_dir);
                } else if i < pos && j > pos {
                    assert(done[j - 1].is_dir);
                }
            }
        }
    }
}

proof fn lemma_with_parent(rows: Seq<RuleRow>, parent: Option<i32>)
    ensures
        all_from(with_parent(rows, parent), rows, parent),
    decreases rows.len(),
{
    if rows.len() > 0 {
        lemma_with_parent(rows.drop_last(), parent);
        let w = with_parent(rows, parent);
        assert forall|k: int| 0 <= k < w.len() implies #[trigger] w[k].parent_id == parent && rows.contains(w[k]) by {
            let rest = with_parent(rows.drop_last(), parent);
            if k < rest.len() {
                assert(rows.drop_last().contains(rest[k]));
                let t = choose|t: int| 0 <= t < rows.drop_last().len() && rows.drop_last()[t] == rest[k];
                assert(rows[t] == rest[k]);
            } else {
                assert(rows[rows.len() - 1] == w[k]);
            }
        }
    }
}

/// Among the children of any folder, and among the rows without a parent,
/// folders come before files and no row strictly precedes one before it in
/// sibling order; and every one of them is a stored row whose parent is
/// that folder.
pub proof fn lemma_siblings_well_formed(rows: Seq<RuleRow>, parent: Option<i32>)
    ensures
        folders_first(siblings(rows, parent)),
        in_sibling_order(siblings(rows, parent)),
        all_from(siblings(rows, parent), rows, parent),
{
    let w = with_parent(rows, parent);
    lemma_with_parent(rows, parent);
    lemma_sorted_rows_folders_first(w);
    let s = siblings(rows, parent);
    assert forall|k: int| 0 <= k < s.len() implies #[trigger] s[k].parent_id == parent && rows.contains(s[k]) by {
        assert(w.contains(s[k]));
        let t = choose|t: int| 0 <= t < w.len() && w[t] == s[k];
        assert(w[t].parent_id == parent && rows.contains(w[t]));
    }
}

/// Compares two names by code point.
fn cmp_names(a: &String, b: &String) -> (r: Ordering)
    ensures
        r == lex_cmp(a@, b@),
{
    let la = a.unicode_len();
    let lb = b.unicode_len();
    let mut i: usize = 0;
    while i < la && i < lb
        invariant
            la == a@.len(),
            lb == b@.len(),
            i <= la,
            i <= lb,
            lex_cmp(a@, b@) == lex_cmp_from(a@, b@, i as int),
        decreases la - i,
    {
        let ca = a.get_char(i);
        let cb = b.get_char(i);
        if ca != cb {
            if (ca as u32) < (cb as u32) {
                return Ordering::Less;
            } else {
                return Ordering::Greater;
            }
        }
        i = i + 1;
    }
    if i >= la {
        if i >= lb {
            Ordering::Equal
        } else {
            Ordering::Less
        }
    } else {
        Ordering::Greater
    }
}

/// Sibling order of two rows: folders before files, then by name.
pub fn sort_file(a: &RuleFileNoContent, b: &RuleFileNoContent) -> (r: Ordering)
    ensures
        r == file_order(a@, b@),
{
    if !a.is_dir && b.is_dir {
        Ordering::Greater
    } else if a.is_dir && !b.is_dir {
        Ordering::Less
    } else {
        cmp_names(&a.name, &b.name)
    }
}

/// Inserts `x` into the sorted `out` after every entry that it does not
/// strictly precede.
fn insert_sorted(out: &mut Vec<RuleFileNoContent>, x: RuleFileNoContent)
    ensures
        rows_of(final(out)@) == rows_of(old(out)@).insert(
            insert_pos(rows_of(old(out)@), x@, 0),
            x@,
        ),
{
    let ghost s = rows_of(out@);
    let mut j: usize = 0;
    let mut found = false;
    while !found && j < out.len()
        invariant
            s == rows_of(out@),
            j <= out.len(),
            insert_pos(s, x@, 0) == insert_pos(s, x@, j as int),
            found ==> j < out.len() && precedes(x@, s[j as int]),
        decreases out.len() - j + (if found { 0int } else { 1int }),
    {
        match sort_file(&x, &out[j]) {
            Ordering::Less => {
                found = true;
            },
            _ => {
                j = j + 1;
            },
        }
    }
    assert(insert_pos(s, x@, j as int) == j);
    let ghost pos = j;
    out.insert(j, x);
    assert(rows_of(out@) =~= s.insert(pos as int, x@));
}

/// The rows of `rows` whose parent is `parent`, in sibling order; rows that
/// compare equal keep their stored order.
pub fn sorted_with_parent(rows: &Vec<RuleFileNoContent>, parent: Option<i32>) -> (r: Vec<
    RuleFileNoContent,
>)
    ensures
        rows_of(r@) == siblings(rows_of(rows@), parent),
{
    let ghost all = rows_of(rows@);
    let mut out: Vec<RuleFileNoContent> = Vec::new();
    let mut i: usize = 0;
    while i < rows.len()
        invariant
            all == rows_of(rows@),
            i <= rows.len(),
            rows_of(out@) == sorted_rows(with_parent(all.take(i as int), parent)),
        decreases rows.len() - i,
    {
        assert(all.take(i + 1).drop_last() =~= all.take(i as int));
        let same = match (rows[i].parent_id, parent) {
            (Some(p), Some(q)) => p == q,
            (None, None) => true,
            _ => false,
        };
        if same {
            let ghost before = with_parent(all.take(i as int), parent);
            assert(with_parent(all.take(i + 1), parent) == before.push(all[i as int]));
            assert(before.push(all[i as int]).drop_last() =~= before);
            insert_sorted(&mut out, rows[i].duplicate());
        }
        i = i + 1;
    }
    assert(all.take(rows.len() as int) =~= all);
    out
}

/// The node of `row` with its subtree in `rows`, expanded `depth` levels down.
pub fn build_tree(rows: &Vec<RuleFileNoContent>, row: &RuleFileNoContent, depth: usize) -> (r:
    RuleFileNode)
    ensures
        r.rule_file@ == row@,
        subtree_built(r, rows_of(rows@), depth as nat),
    decreases depth,
{
    let mut children: Vec<RuleFileNode> = Vec::new();
    if depth > 0 {
        let kids = sorted_with_parent(rows, Some(row.id));
        let ghost want = siblings(rows_of(rows@), Some(row.id));
        let mut k: usize = 0;
        while k < kids.len()
            invariant
                rows_of(kids@) == want,
                depth > 0,
                k <= kids.len(),
                children@.len() == k,
                forall|j: int|
                    0 <= j < k ==> {
                        &&& #[trigger] children@[j].rule_file@ == want[j]
                        &&& subtree_built(children@[j], rows_of(rows@), (depth - 1) as nat)
                    },
            decreases kids.len() - k,
        {
            let child = build_tree(rows, &kids[k], depth - 1);
            children.push(child);
            k = k + 1;
        }
    }
    RuleFileNode { rule_file: row.duplicate(), children }
}

/// Arranges the stored rows as a forest: the rows without a parent, in
/// sibling order, each holding the nodes of its children in sibling order,
/// and so on down. Rows whose parent is not among the rows are left out.
pub fn build_rule_tree(rows: &Vec<RuleFileNoContent>) -> (r: Vec<RuleFileNode>)
    ensures
        forest_built(r@, rows_of(rows@)),
{
    let roots = sorted_with_parent(rows, None);
    let ghost want = siblings(rows_of(rows@), None);
    assert(rows_of(rows@).len() == rows@.len());
    let mut out: Vec<RuleFileNode> = Vec::new();
    let mut k: usize = 0;
    while k < roots.len()
        invariant
            rows_of(roots@) == want,
            k <= roots.len(),
            out@.len() == k,
            forall|j: int|
                0 <= j < k ==> {
                    &&& #[trigger] out@[j].rule_file@ == want[j]
                    &&& subtree_built(out@[j], rows_of(rows@), rows@.len())
                },
        decreases roots.len() - k,
    {
        out.push(build_tree(rows, &roots[k], rows.len()));
        k = k + 1;
    }
    assert(want.len() == roots@.len());
    out
}

} // verus!
