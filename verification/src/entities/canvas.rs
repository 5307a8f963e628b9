//! Canvases: the units an operator draws on, nested into trees by `parent`.
//!
//! Besides the stored row and the inputs of the queries that read and write
//! it, this module holds the one piece of canvas logic that runs in memory:
//! assembling the tree below a root out of the flat list of its canvases.
use crate::text::{
    lemma_text_lt_asymmetric, lemma_text_lt_irreflexive, lemma_text_lt_total,
    lemma_text_lt_transitive, text_less, text_lt,
};
use crate::entities::tree::{MAX_DEPTH, NESTING_TOO_DEEP};
use vstd::prelude::*;

verus! {

/// The record key of an `orchestration_canvas` row.
pub type CanvasId = String;

/// The conflict reported when a subcanvas would be created under a canvas that
/// does not exist.
pub const PARENT_MISSING: &'static str = "the parent canvas does not exist";

/// `BEGIN` for the multi-statement reads: one snapshot for every statement in
/// the transaction, so a tree read while an edit commits is either all before
/// or all after it.
pub const SNAPSHOT_READ: &'static str = "BEGIN ISOLATION LEVEL REPEATABLE READ READ ONLY";

/// The root identity and generation a validated write fences against: the tree
/// as the snapshot read it.
#[derive(Debug, Clone)]
pub struct CanvasFence {
    pub root: CanvasId,
    pub generation: i64,
}

/// A position on the dashboard canvas, stored as the `position_x` /
/// `position_y` columns of the row it belongs to.
#[derive(Debug, Clone, Copy, PartialEq, Eq, Structural)]
pub struct CanvasUiPosition {
    pub x: i64,
    pub y: i64,
}

impl Default for CanvasUiPosition {
    /// The canvas origin.
    fn default() -> (p: Self)
        ensures
            p.x == 0 && p.y == 0,
    {
        CanvasUiPosition { x: 0, y: 0 }
    }
}

#[derive(Debug, Clone)]
pub struct CanvasEntity {
    pub id: CanvasId,
    pub name: String,
    pub description: String,
    /// The canvas this one is drawn inside; `None` for a root.
    pub parent: Option<CanvasId>,
    /// Where it is drawn on its parent.
    pub position: CanvasUiPosition,
    /// Bumped by every mutating transaction; the derivation fence.
    pub generation: i64,
    /// The generation the stored config views were derived from.
    pub derived_generation: i64,
}

/// A copy of an optional text, field for field.
pub(crate) fn copy_opt_text(s: &Option<String>) -> (r: Option<String>)
    ensures
        r == *s,
{
    match s {
        Some(v) => Some(v.clone()),
        None => None,
    }
}

impl CanvasEntity {
    /// A field-for-field copy.
    pub(crate) fn copied(&self) -> (r: Self)
        ensures
            r == *self,
    {
        CanvasEntity {
            id: self.id.clone(),
            name: self.name.clone(),
            description: self.description.clone(),
            parent: copy_opt_text(&self.parent),
            position: self.position,
            generation: self.generation,
            derived_generation: self.derived_generation,
        }
    }
}

/// The `orchestration_canvas` columns a [`CanvasEntity`] is made of: one field
/// per column, the position still flat.
pub struct CanvasRow {
    pub id: CanvasId,
    pub name: String,
    pub description: String,
    pub parent: Option<CanvasId>,
    pub position_x: i64,
    pub position_y: i64,
    pub generation: i64,
    pub derived_generation: i64,
}

impl CanvasRow {
    /// The entity the row stores: the two position columns become one position.
    pub fn into_entity(self) -> (c: CanvasEntity)
        ensures
            c.id == self.id,
            c.name == self.name,
            c.description == self.description,
            c.parent == self.parent,
            c.position == (CanvasUiPosition { x: self.position_x, y: self.position_y }),
            c.generation == self.generation,
            c.derived_generation == self.derived_generation,
    {
        CanvasEntity {
            id: self.id,
            name: self.name,
            description: self.description,
            parent: self.parent,
            position: CanvasUiPosition { x: self.position_x, y: self.position_y },
            generation: self.generation,
            derived_generation: self.derived_generation,
        }
    }
}

/// A canvas tree, children ordered by id.
#[derive(Debug)]
pub struct CanvasTree {
    pub canvas: CanvasEntity,
    pub children: Vec<CanvasTree>,
}

/// The mathematical shape of a [`CanvasTree`].
pub struct CanvasTreeModel {
    pub canvas: CanvasEntity,
    pub children: Seq<CanvasTreeModel>,
}

pub open spec fn tree_view(t: CanvasTree) -> CanvasTreeModel
    decreases t,
{
    CanvasTreeModel { canvas: t.canvas, children: forest_view(t.children@) }
}

pub open spec fn forest_view(ts: Seq<CanvasTree>) -> Seq<CanvasTreeModel>
    decreases ts,
{
    if ts.len() == 0 {
        Seq::empty()
    } else {
        forest_view(ts.drop_last()).push(tree_view(ts.last()))
    }
}

pub open spec fn opt_tree_view(t: Option<CanvasTree>) -> Option<CanvasTreeModel> {
    match t {
        Some(tree) => Some(tree_view(tree)),
        None => None,
    }
}

impl View for CanvasTree {
    type V = CanvasTreeModel;

    open spec fn view(&self) -> CanvasTreeModel {
        tree_view(*self)
    }
}

/// The texts of a list of strings.
pub open spec fn texts(v: Seq<String>) -> Seq<Seq<char>> {
    v.map_values(|s: String| s@)
}

/// The position of the last canvas with this id, or `-1`: a later row for the
/// same id replaces an earlier one, as in a map keyed by id.
pub open spec fn last_index_of(cs: Seq<CanvasEntity>, id: Seq<char>) -> int
    decreases cs.len(),
{
    if cs.len() == 0 {
        -1
    } else if cs.last().id@ == id {
        cs.len() - 1
    } else {
        last_index_of(cs.drop_last(), id)
    }
}

/// The ids of the canvases whose parent is `id`, in list order.
pub open spec fn child_ids(cs: Seq<CanvasEntity>, id: Seq<char>) -> Seq<Seq<char>>
    decreases cs.len(),
{
    if cs.len() == 0 {
        Seq::empty()
    } else {
        let rest = child_ids(cs.drop_last(), id);
        if cs.last().parent is Some && cs.last().parent->0@ == id {
            rest.push(cs.last().id@)
        } else {
            rest
        }
    }
}

/// `x` placed before the first element of `s` that does not sort before it.
pub open spec fn insert_sorted(x: Seq<char>, s: Seq<Seq<char>>) -> Seq<Seq<char>>
    decreases s.len(),
{
    if s.len() == 0 {
        seq![x]
    } else if text_lt(s[0], x) {
        seq![s[0]] + insert_sorted(x, s.drop_first())
    } else {
        seq![x] + s
    }
}

/// `s` in ascending order.
pub open spec fn sort_texts(s: Seq<Seq<char>>) -> Seq<Seq<char>>
    decreases s.len(),
{
    if s.len() == 0 {
        s
    } else {
        insert_sorted(s.last(), sort_texts(s.drop_last()))
    }
}

/// The tree below `id` out of the flat list `cs`, with `taken` the ids already
/// placed elsewhere: `None` when `id` is deeper than 32 levels, has no row, or
/// was placed already; otherwise its row with the trees of its children, by id.
pub open spec fn assemble_spec(
    cs: Seq<CanvasEntity>,
    id: Seq<char>,
    taken: Seq<Seq<char>>,
    depth: int,
) -> (Option<CanvasTreeModel>, Seq<Seq<char>>)
    decreases 33 - depth, 0int, 0int,
{
    if depth > 32 {
        (None, taken)
    } else {
        let i = last_index_of(cs, id);
        if i < 0 || taken.contains(id) {
            (None, taken)
        } else {
            let kids = assemble_list_spec(
                cs,
                sort_texts(child_ids(cs, id)),
                taken.push(id),
                depth + 1,
            );
            (Some(CanvasTreeModel { canvas: cs[i], children: kids.0 }), kids.1)
        }
    }
}

/// The trees of `ids` in order, each placed after the ones before it.
pub open spec fn assemble_list_spec(
    cs: Seq<CanvasEntity>,
    ids: Seq<Seq<char>>,
    taken: Seq<Seq<char>>,
    depth: int,
) -> (Seq<CanvasTreeModel>, Seq<Seq<char>>)
    decreases 33 - depth, 1int, ids.len(),
{
    if ids.len() == 0 {
        (Seq::empty(), taken)
    } else {
        let front = assemble_list_spec(cs, ids.drop_last(), taken, depth);
        let last = assemble_spec(cs, ids.last(), front.1, depth);
        (
            match last.0 {
                Some(t) => front.0.push(t),
                None => front.0,
            },
            last.1,
        )
    }
}

pub(crate) fn last_index(cs: &Vec<CanvasEntity>, id: &String) -> (r: Option<usize>)
    ensures
        match r {
            Some(i) => i as int == last_index_of(cs@, id@),
            None => last_index_of(cs@, id@) == -1,
        },
        last_index_of(cs@, id@) < cs@.len(),
{
    let mut found: Option<usize> = None;
    let mut i: usize = 0;
    while i < cs.len()
        invariant
            i <= cs@.len(),
            match found {
                Some(k) => k as int == last_index_of(cs@.take(i as int), id@),
                None => last_index_of(cs@.take(i as int), id@) == -1,
            },
        decreases cs@.len() - i,
    {
        proof {
            assert(cs@.take(i + 1).drop_last() =~= cs@.take(i as int));
        }
        if cs[i].id == *id {
            found = Some(i);
        }
        i = i + 1;
    }
    proof {
        assert(cs@.take(cs@.len() as int) =~= cs@);
        lemma_last_index_bound(cs@, id@);
    }
    found
}

pub(crate) proof fn lemma_last_index_bound(cs: Seq<CanvasEntity>, id: Seq<char>)
    ensures
        -1 <= last_index_of(cs, id) < cs.len(),
        last_index_of(cs, id) >= 0 ==> cs[last_index_of(cs, id)].id@ == id,
    decreases cs.len(),
{
    if cs.len() > 0 {
        lemma_last_index_bound(cs.drop_last(), id);
    }
}

pub(crate) fn contains_text(v: &Vec<String>, id: &String) -> (r: bool)
    ensures
        r == texts(v@).contains(id@),
{
    let mut i: usize = 0;
    while i < v.len()
        invariant
            i <= v@.len(),
            forall|k: int| 0 <= k < i ==> v@[k]@ != id@,
        decreases v@.len() - i,
    {
        if v[i] == *id {
            assert(texts(v@)[i as int] == id@);
            return true;
        }
        i = i + 1;
    }
    proof {
        if texts(v@).contains(id@) {
            let k = choose|k: int| 0 <= k < texts(v@).len() && texts(v@)[k] == id@;
            assert(v@[k]@ == id@);
        }
    }
    false
}

fn children_of(cs: &Vec<CanvasEntity>, id: &String) -> (r: Vec<String>)
    ensures
        texts(r@) == child_ids(cs@, id@),
{
    let mut out: Vec<String> = Vec::new();
    let mut i: usize = 0;
    while i < cs.len()
        invariant
            i <= cs@.len(),
            texts(out@) == child_ids(cs@.take(i as int), id@),
        decreases cs@.len() - i,
    {
        proof {
            assert(cs@.take(i + 1).drop_last() =~= cs@.take(i as int));
            assert(cs@.take(i + 1).last() == cs@[i as int]);
        }
        let ghost before = out@;
        match &cs[i].parent {
            Some(p) => {
                if *p == *id {
                    out.push(cs[i].id.clone());
                    assert(texts(out@) =~= texts(before).push(cs@[i as int].id@));
                }
            },
            None => {},
        }
        i = i + 1;
    }
    assert(cs@.take(cs@.len() as int) =~= cs@);
    out
}

/// The first position of `s` whose element does not sort before `x`.
spec fn insert_position(x: Seq<char>, s: Seq<Seq<char>>) -> int
    decreases s.len(),
{
    if s.len() == 0 {
        0
    } else if text_lt(s[0], x) {
        1 + insert_position(x, s.drop_first())
    } else {
        0
    }
}

proof fn lemma_insert_sorted_split(x: Seq<char>, s: Seq<Seq<char>>)
    ensures
        0 <= insert_position(x, s) <= s.len(),
        insert_sorted(x, s) =~= s.take(insert_position(x, s)).push(x) + s.skip(
            insert_position(x, s),
        ),
        forall|k: int| 0 <= k < insert_position(x, s) ==> text_lt(#[trigger] s[k], x),
        insert_position(x, s) < s.len() ==> !text_lt(s[insert_position(x, s)], x),
    decreases s.len(),
{
    if s.len() > 0 && text_lt(s[0], x) {
        lemma_insert_sorted_split(x, s.drop_first());
        let p = insert_position(x, s.drop_first());
        assert forall|k: int| 0 <= k < insert_position(x, s) implies text_lt(#[trigger] s[k], x) by {
            if k > 0 {
                assert(s[k] == s.drop_first()[k - 1]);
            }
        }
    }
}

fn insert_text(v: &mut Vec<String>, x: String)
    ensures
        texts(final(v)@) == insert_sorted(x@, texts(old(v)@)),
{
    let ghost s = texts(v@);
    let mut p: usize = 0;
    while p < v.len() && text_less(v[p].as_str(), x.as_str())
        invariant
            p <= v@.len(),
            s == texts(v@),
            forall|k: int| 0 <= k < p ==> text_lt(#[trigger] s[k], x@),
        decreases v@.len() - p,
    {
        p = p + 1;
    }
    proof {
        lemma_insert_sorted_split(x@, s);
        let q = insert_position(x@, s);
        // the first element that does not sort before `x` is at `p`
        if q < p {
            assert(text_lt(s[q], x@));
        }
        if p < q {
            assert(text_lt(s[p as int], x@));
        }
    }
    let ghost before = v@;
    v.insert(p, x);
    proof {
        assert(texts(v@) =~= s.take(p as int).push(x@) + s.skip(p as int));
    }
}

fn sort_ids(v: Vec<String>) -> (r: Vec<String>)
    ensures
        texts(r@) == sort_texts(texts(v@)),
{
    let mut out: Vec<String> = Vec::new();
    let mut i: usize = 0;
    while i < v.len()
        invariant
            i <= v@.len(),
            texts(out@) == sort_texts(texts(v@.take(i as int))),
        decreases v@.len() - i,
    {
        proof {
            assert(texts(v@.take(i + 1)).drop_last() =~= texts(v@.take(i as int)));
            assert(texts(v@.take(i + 1)).last() == v@[i as int]@);
        }
        insert_text(&mut out, v[i].clone());
        i = i + 1;
    }
    assert(v@.take(v@.len() as int) =~= v@);
    out
}

fn assemble(id: &String, canvases: &Vec<CanvasEntity>, taken: &mut Vec<String>, depth: usize) -> (r:
    Option<CanvasTree>)
    requires
        depth <= 33,
    ensures
        (opt_tree_view(r), texts(final(taken)@)) == assemble_spec(
            canvases@,
            id@,
            texts(old(taken)@),
            depth as int,
        ),
    decreases 33 - depth,
{
    if depth > 32 {
        return None;
    }
    let found = last_index(canvases, id);
    let idx = match found {
        Some(i) => i,
        None => {
            return None;
        },
    };
    if contains_text(taken, id) {
        return None;
    }
    let ghost taken0 = texts(taken@);
    taken.push(id.clone());
    assert(texts(taken@) =~= taken0.push(id@));
    let kids = sort_ids(children_of(canvases, id));
    let ghost kid_texts = texts(kids@);
    let ghost start = texts(taken@);
    let mut children: Vec<CanvasTree> = Vec::new();
    let mut k: usize = 0;
    while k < kids.len()
        invariant
            k <= kids@.len(),
            depth < 33,
            kid_texts == texts(kids@),
            (forest_view(children@), texts(taken@)) == assemble_list_spec(
                canvases@,
                kid_texts.take(k as int),
                start,
                depth + 1,
            ),
        decreases kids@.len() - k,
    {
        proof {
            assert(kid_texts.take(k + 1).drop_last() =~= kid_texts.take(k as int));
            assert(kid_texts.take(k + 1).last() == kids@[k as int]@);
        }
        let child = assemble(&kids[k], canvases, taken, depth + 1);
        match child {
            Some(c) => {
                let ghost prev = children@;
                children.push(c);
                assert(children@.drop_last() =~= prev);
            },
            None => {},
        }
        k = k + 1;
    }
    assert(kid_texts.take(kids@.len() as int) =~= kid_texts);
    Some(CanvasTree { canvas: canvases[idx].copied(), children })
}

/// The tree below `root` out of a flat list of its canvases: every node is
/// the last row with its id, no id appears twice, children ascend strictly by
/// id, and a chain deeper than 32 levels is cut off rather than followed.
pub fn assemble_tree(root: &CanvasId, canvases: Vec<CanvasEntity>) -> (r: Option<CanvasTree>)
    ensures
        opt_tree_view(r) == assemble_spec(canvases@, root@, Seq::empty(), 0).0,
        r is Some <==> last_index_of(canvases@, root@) >= 0,
        r matches Some(t) ==> t.canvas.id@ == root@ && t.canvas == canvases@[last_index_of(
            canvases@,
            root@,
        )],
        opt_tree_view(r) matches Some(m) ==> {
            &&& tree_rows(m, canvases@)
            &&& tree_ordered(m)
            &&& tree_ids(m).no_duplicates()
            &&& unique_ids(canvases@) ==> tree_parented(m)
        },
{
    proof {
        lemma_last_index_bound(canvases@, root@);
        lemma_assemble_shape(canvases@, root@, Seq::empty(), 0);
        if unique_ids(canvases@) {
            lemma_assemble_parented(canvases@, root@, Seq::empty(), 0);
        }
        if let Some(m) = assemble_spec(canvases@, root@, Seq::empty(), 0).0 {
            assert(Seq::<Seq<char>>::empty() + tree_ids(m) =~= tree_ids(m));
        }
    }
    let mut taken: Vec<String> = Vec::new();
    assert(texts(taken@) =~= Seq::<Seq<char>>::empty());
    assemble(root, &canvases, &mut taken, 0)
}

/// No two canvases of the list share an id.
pub open spec fn unique_ids(cs: Seq<CanvasEntity>) -> bool {
    forall|i: int, j: int| 0 <= i < cs.len() && 0 <= j < cs.len() && #[trigger] cs[i].id@ == #[trigger] cs[j].id@ ==> i == j
}

/// Every node of the tree is drawn inside the node above it.
pub open spec fn tree_parented(t: CanvasTreeModel) -> bool
    decreases t,
{
    forest_parented(t.children, t.canvas.id@)
}

/// Every tree of the forest hangs below `parent` and is itself parented.
pub open spec fn forest_parented(ts: Seq<CanvasTreeModel>, parent: Seq<char>) -> bool
    decreases ts,
{
    if ts.len() == 0 {
        true
    } else {
        &&& forest_parented(ts.drop_last(), parent)
        &&& ts.last().canvas.parent is Some
        &&& ts.last().canvas.parent->0@ == parent
        &&& tree_parented(ts.last())
    }
}

proof fn lemma_child_ids_member(cs: Seq<CanvasEntity>, p: Seq<char>, x: Seq<char>)
    requires
        child_ids(cs, p).contains(x),
    ensures
        exists|j: int|
            0 <= j < cs.len() && (#[trigger] cs[j]).id@ == x && cs[j].parent is Some
                && cs[j].parent->0@ == p,
    decreases cs.len(),
{
    let rest = child_ids(cs.drop_last(), p);
    if cs.last().parent is Some && cs.last().parent->0@ == p && cs.last().id@ == x {
        assert(cs[cs.len() - 1] == cs.last());
    } else {
        if cs.last().parent is Some && cs.last().parent->0@ == p {
            let k = choose|k: int| 0 <= k < child_ids(cs, p).len() && child_ids(cs, p)[k] == x;
            assert(rest.push(cs.last().id@)[k] == x);
            assert(k < rest.len());
            assert(rest[k] == x);
        }
        assert(rest.contains(x));
        lemma_child_ids_member(cs.drop_last(), p, x);
        let j = choose|j: int|
            0 <= j < cs.drop_last().len() && (#[trigger] cs.drop_last()[j]).id@ == x
                && cs.drop_last()[j].parent is Some && cs.drop_last()[j].parent->0@ == p;
        assert(cs[j] == cs.drop_last()[j]);
    }
}

proof fn lemma_insert_sorted_members(x: Seq<char>, s: Seq<Seq<char>>, y: Seq<char>)
    requires
        insert_sorted(x, s).contains(y),
    ensures
        y == x || s.contains(y),
{
    lemma_insert_sorted_split(x, s);
    let p = insert_position(x, s);
    let k = choose|k: int| 0 <= k < insert_sorted(x, s).len() && insert_sorted(x, s)[k] == y;
    if k < p {
        assert(s[k] == y);
    } else if k > p {
        assert(s[k - 1] == y);
    }
}

proof fn lemma_sort_texts_members(s: Seq<Seq<char>>, y: Seq<char>)
    requires
        sort_texts(s).contains(y),
    ensures
        s.contains(y),
    decreases s.len(),
{
    if s.len() > 0 {
        lemma_insert_sorted_members(s.last(), sort_texts(s.drop_last()), y);
        if y != s.last() {
            lemma_sort_texts_members(s.drop_last(), y);
            let k = choose|k: int| 0 <= k < s.drop_last().len() && s.drop_last()[k] == y;
            assert(s[k] == y);
        } else {
            assert(s[s.len() - 1] == y);
        }
    }
}

proof fn lemma_assemble_parented(cs: Seq<CanvasEntity>, id: Seq<char>, taken: Seq<Seq<char>>, depth: int)
    requires
        unique_ids(cs),
    ensures
        assemble_spec(cs, id, taken, depth).0 matches Some(t) ==> tree_parented(t) && t.canvas.id@
            == id,
    decreases 33 - depth, 0int, 0int,
{
    if depth <= 32 {
        let i = last_index_of(cs, id);
        lemma_last_index_bound(cs, id);
        if i >= 0 && !taken.contains(id) {
            let ids = sort_texts(child_ids(cs, id));
            assert forall|x: Seq<char>| ids.contains(x) implies child_ids(cs, id).contains(x) by {
                lemma_sort_texts_members(child_ids(cs, id), x);
            }
            lemma_assemble_list_parented(cs, ids, id, taken.push(id), depth + 1);
        }
    }
}

proof fn lemma_assemble_list_parented(
    cs: Seq<CanvasEntity>,
    ids: Seq<Seq<char>>,
    parent: Seq<char>,
    taken: Seq<Seq<char>>,
    depth: int,
)
    requires
        unique_ids(cs),
        forall|x: Seq<char>| ids.contains(x) ==> child_ids(cs, parent).contains(x),
    ensures
        forest_parented(assemble_list_spec(cs, ids, taken, depth).0, parent),
    decreases 33 - depth, 1int, ids.len(),
{
    if ids.len() > 0 {
        assert forall|x: Seq<char>| ids.drop_last().contains(x) implies child_ids(
            cs,
            parent,
        ).contains(x) by {
            let k = choose|k: int| 0 <= k < ids.drop_last().len() && ids.drop_last()[k] == x;
            assert(ids[k] == x);
            assert(ids.contains(x));
        }
        lemma_assemble_list_parented(cs, ids.drop_last(), parent, taken, depth);
        let front = assemble_list_spec(cs, ids.drop_last(), taken, depth);
        lemma_assemble_parented(cs, ids.last(), front.1, depth);
        let last = assemble_spec(cs, ids.last(), front.1, depth);
        if let Some(t) = last.0 {
            assert(ids.contains(ids.last())) by {
                assert(ids[ids.len() - 1] == ids.last());
            }
            lemma_child_ids_member(cs, parent, ids.last());
            let j = choose|j: int|
                0 <= j < cs.len() && (#[trigger] cs[j]).id@ == ids.last() && cs[j].parent is Some
                    && cs[j].parent->0@ == parent;
            lemma_last_index_bound(cs, ids.last());
            let i = last_index_of(cs, ids.last());
            assert(cs[i].id@ == cs[j].id@);
            assert(i == j);
            assert(front.0.push(t).drop_last() =~= front.0);
        }
    }
}

/// When no two canvases share an id, the assembled tree is a real canvas
/// tree: each canvas in it is drawn inside the canvas it hangs below.
pub proof fn lemma_assembled_tree_is_parented(root: CanvasId, canvases: Seq<CanvasEntity>)
    requires
        unique_ids(canvases),
    ensures
        assemble_spec(canvases, root@, Seq::empty(), 0).0 matches Some(t) ==> tree_parented(t),
{
    lemma_assemble_parented(canvases, root@, Seq::empty(), 0);
}

/// No later text of `s` sorts before an earlier one.
pub open spec fn texts_ascending(s: Seq<Seq<char>>) -> bool {
    forall|i: int, j: int| 0 <= i < j < s.len() ==> !text_lt(#[trigger] s[j], #[trigger] s[i])
}

proof fn lemma_insert_sorted_ascending(x: Seq<char>, s: Seq<Seq<char>>)
    requires
        texts_ascending(s),
    ensures
        texts_ascending(insert_sorted(x, s)),
{
    lemma_insert_sorted_split(x, s);
    let p = insert_position(x, s);
    let r = insert_sorted(x, s);
    assert forall|i: int, j: int| 0 <= i < j < r.len() implies !text_lt(#[trigger] r[j], #[trigger] r[i]) by {
        if j < p {
            assert(r[i] == s[i] && r[j] == s[j]);
        } else if j == p {
            assert(r[i] == s[i] && r[j] == x);
            assert(text_lt(s[i], x));
            lemma_text_lt_asymmetric(s[i], x);
        } else if i < p {
            assert(r[i] == s[i] && r[j] == s[j - 1]);
        } else if i == p {
            assert(r[i] == x && r[j] == s[j - 1]);
            assert(!text_lt(s[p], x));
            if text_lt(s[j - 1], x) {
                if j - 1 > p {
                    assert(!text_lt(s[j - 1], s[p]));
                    lemma_text_lt_total(s[p], s[j - 1]);
                    if text_lt(s[p], s[j - 1]) {
                        lemma_text_lt_transitive(s[p], s[j - 1], x);
                    }
                }
            }
        } else {
            assert(r[i] == s[i - 1] && r[j] == s[j - 1]);
        }
    }
}

proof fn lemma_sort_texts_ascending(s: Seq<Seq<char>>)
    ensures
        texts_ascending(sort_texts(s)),
    decreases s.len(),
{
    if s.len() > 0 {
        lemma_sort_texts_ascending(s.drop_last());
        lemma_insert_sorted_ascending(s.last(), sort_texts(s.drop_last()));
    }
}

/// The ids of a tree: its root's, then those of its children's trees in
/// order.
pub open spec fn tree_ids(t: CanvasTreeModel) -> Seq<Seq<char>>
    decreases t,
{
    seq![t.canvas.id@] + forest_ids(t.children)
}

/// The ids of the trees of a forest, tree after tree.
pub open spec fn forest_ids(ts: Seq<CanvasTreeModel>) -> Seq<Seq<char>>
    decreases ts,
{
    if ts.len() == 0 {
        Seq::empty()
    } else {
        forest_ids(ts.drop_last()) + tree_ids(ts.last())
    }
}

/// Every node of the tree is a row of `cs`: the last row with its id.
pub open spec fn tree_rows(t: CanvasTreeModel, cs: Seq<CanvasEntity>) -> bool
    decreases t,
{
    &&& 0 <= last_index_of(cs, t.canvas.id@)
    &&& t.canvas == cs[last_index_of(cs, t.canvas.id@)]
    &&& forest_rows(t.children, cs)
}

/// Every node of every tree of the forest is a row of `cs`.
pub open spec fn forest_rows(ts: Seq<CanvasTreeModel>, cs: Seq<CanvasEntity>) -> bool
    decreases ts,
{
    if ts.len() == 0 {
        true
    } else {
        forest_rows(ts.drop_last(), cs) && tree_rows(ts.last(), cs)
    }
}

/// The children of every node ascend strictly by id.
pub open spec fn tree_ordered(t: CanvasTreeModel) -> bool
    decreases t,
{
    forest_ordered(t.children)
}

/// The trees of the forest ascend strictly by their root's id, and each is
/// ordered itself.
pub open spec fn forest_ordered(ts: Seq<CanvasTreeModel>) -> bool
    decreases ts,
{
    if ts.len() == 0 {
        true
    } else {
        &&& forest_ordered(ts.drop_last())
        &&& tree_ordered(ts.last())
        &&& forall|k: int|
            0 <= k < ts.len() - 1 ==> text_lt(#[trigger] ts[k].canvas.id@, ts.last().canvas.id@)
    }
}

proof fn lemma_forest_ids_hold_roots(ts: Seq<CanvasTreeModel>, k: int)
    requires
        0 <= k < ts.len(),
    ensures
        forest_ids(ts).contains(ts[k].canvas.id@),
    decreases ts.len(),
{
    let front = forest_ids(ts.drop_last());
    let last = tree_ids(ts.last());
    if k < ts.len() - 1 {
        lemma_forest_ids_hold_roots(ts.drop_last(), k);
        assert(ts.drop_last()[k] == ts[k]);
        let m = choose|m: int| 0 <= m < front.len() && front[m] == ts[k].canvas.id@;
        assert((front + last)[m] == front[m]);
    } else {
        assert(last[0] == ts.last().canvas.id@);
        assert((front + last)[front.len() as int] == last[0]);
    }
}

proof fn lemma_assemble_shape(cs: Seq<CanvasEntity>, id: Seq<char>, taken: Seq<Seq<char>>, depth: int)
    ensures
        assemble_spec(cs, id, taken, depth).0 is None ==> assemble_spec(cs, id, taken, depth).1
            == taken,
        assemble_spec(cs, id, taken, depth).0 matches Some(t) ==> {
            &&& assemble_spec(cs, id, taken, depth).1 == taken + tree_ids(t)
            &&& t.canvas.id@ == id
            &&& !taken.contains(id)
            &&& tree_rows(t, cs)
            &&& tree_ordered(t)
        },
        taken.no_duplicates() ==> assemble_spec(cs, id, taken, depth).1.no_duplicates(),
    decreases 33 - depth, 0int, 0int,
{
    if depth <= 32 {
        let i = last_index_of(cs, id);
        lemma_last_index_bound(cs, id);
        if i >= 0 && !taken.contains(id) {
            let ids = sort_texts(child_ids(cs, id));
            lemma_sort_texts_ascending(child_ids(cs, id));
            lemma_assemble_list_shape(cs, ids, taken.push(id), depth + 1);
            let kids = assemble_list_spec(cs, ids, taken.push(id), depth + 1);
            let t = CanvasTreeModel { canvas: cs[i], children: kids.0 };
            assert(taken.push(id) + forest_ids(kids.0) =~= taken + tree_ids(t));
            if taken.no_duplicates() {
                assert(taken.push(id).no_duplicates()) by {
                    assert forall|a: int, b: int|
                        0 <= a < taken.push(id).len() && 0 <= b < taken.push(id).len() && a != b
                            implies taken.push(id)[a] != taken.push(id)[b] by {
                        if a < taken.len() && b < taken.len() {
                            assert(taken.push(id)[a] == taken[a] && taken.push(id)[b] == taken[b]);
                        } else if a < taken.len() {
                            assert(taken.push(id)[a] == taken[a]);
                            assert(taken.contains(taken[a]));
                        } else if b < taken.len() {
                            assert(taken.push(id)[b] == taken[b]);
                            assert(taken.contains(taken[b]));
                        }
                    }
                }
            }
        }
    }
}

proof fn lemma_assemble_list_shape(
    cs: Seq<CanvasEntity>,
    ids: Seq<Seq<char>>,
    taken: Seq<Seq<char>>,
    depth: int,
)
    requires
        texts_ascending(ids),
    ensures
        assemble_list_spec(cs, ids, taken, depth).1 == taken + forest_ids(
            assemble_list_spec(cs, ids, taken, depth).0,
        ),
        forest_rows(assemble_list_spec(cs, ids, taken, depth).0, cs),
        forest_ordered(assemble_list_spec(cs, ids, taken, depth).0),
        forall|k: int|
            0 <= k < assemble_list_spec(cs, ids, taken, depth).0.len() ==> ids.contains(
                (#[trigger] assemble_list_spec(cs, ids, taken, depth).0[k]).canvas.id@,
            ),
        taken.no_duplicates() ==> assemble_list_spec(cs, ids, taken, depth).1.no_duplicates(),
    decreases 33 - depth, 1int, ids.len(),
{
    if ids.len() == 0 {
        assert(taken + Seq::<Seq<char>>::empty() =~= taken);
    } else {
        let init = ids.drop_last();
        assert(texts_ascending(init)) by {
            assert forall|i: int, j: int| 0 <= i < j < init.len() implies !text_lt(
                #[trigger] init[j],
                #[trigger] init[i],
            ) by {
                assert(init[i] == ids[i] && init[j] == ids[j]);
            }
        }
        lemma_assemble_list_shape(cs, init, taken, depth);
        let front = assemble_list_spec(cs, init, taken, depth);
        lemma_assemble_shape(cs, ids.last(), front.1, depth);
        let last = assemble_spec(cs, ids.last(), front.1, depth);
        let out = assemble_list_spec(cs, ids, taken, depth);
        assert forall|k: int| 0 <= k < front.0.len() implies ids.contains(
            (#[trigger] front.0[k]).canvas.id@,
        ) by {
            assert(init.contains(front.0[k].canvas.id@));
            let m = choose|m: int| 0 <= m < init.len() && init[m] == front.0[k].canvas.id@;
            assert(ids[m] == init[m]);
        }
        if let Some(t) = last.0 {
            let forest = front.0.push(t);
            assert(out.0 == forest);
            assert(forest.drop_last() =~= front.0);
            assert(forest.last() == t);
            assert(forest_ids(forest) == forest_ids(front.0) + tree_ids(t));
            assert(taken + forest_ids(front.0) + tree_ids(t) =~= taken + (forest_ids(front.0)
                + tree_ids(t)));
            assert forall|k: int| 0 <= k < forest.len() - 1 implies text_lt(
                #[trigger] forest[k].canvas.id@,
                forest.last().canvas.id@,
            ) by {
                let c = front.0[k].canvas.id@;
                assert(forest[k] == front.0[k]);
                let m = choose|m: int| 0 <= m < init.len() && init[m] == c;
                assert(ids[m] == c);
                assert(ids[ids.len() - 1] == ids.last());
                assert(!text_lt(ids.last(), c));
                lemma_forest_ids_hold_roots(front.0, k);
                let q = choose|q: int| 0 <= q < forest_ids(front.0).len() && forest_ids(front.0)[q] == c;
                assert(front.1[taken.len() + q] == c);
                assert(front.1.contains(c));
                lemma_text_lt_total(c, ids.last());
            }
            assert forall|k: int| 0 <= k < forest.len() implies ids.contains(
                (#[trigger] forest[k]).canvas.id@,
            ) by {
                if k == forest.len() - 1 {
                    assert(ids[ids.len() - 1] == ids.last());
                } else {
                    assert(forest[k] == front.0[k]);
                }
            }
        } else {
            assert(out.0 == front.0);
        }
    }
}

#[derive(Debug)]
pub struct CreateCanvas {
    pub name: String,
    pub description: String,
    /// `Some` creates a subcanvas drawn at `position` inside that canvas.
    pub parent: Option<CanvasId>,
    pub position: CanvasUiPosition,
}

impl CreateCanvas {
    /// Whether a subcanvas may be created under a parent, given whether the
    /// parent row exists and how many ancestors it has: the parent must exist,
    /// and the new canvas must not sit [`MAX_DEPTH`] levels deep or deeper.
    pub fn check_parent(parent_exists: bool, parent_ancestors: usize) -> (r: Result<(), &'static str>)
        ensures
            !parent_exists ==> r == Err::<(), &'static str>(PARENT_MISSING),
            parent_exists && parent_ancestors >= MAX_DEPTH - 1 ==> r == Err::<(), &'static str>(
                NESTING_TOO_DEEP,
            ),
            parent_exists && parent_ancestors < MAX_DEPTH - 1 ==> r is Ok,
    {
        if !parent_exists {
            return Err(PARENT_MISSING);
        }
        if parent_ancestors >= (MAX_DEPTH - 1) as usize {
            return Err(NESTING_TOO_DEEP);
        }
        Ok(())
    }
}

/// Lists canvases; `include_subcanvases: false` lists only roots.
#[derive(Debug)]
pub struct ListCanvases {
    pub include_subcanvases: bool,
}

/// The root of the tree `canvas` belongs to (`canvas` itself for a root).
#[derive(Debug)]
pub struct FindRootCanvas {
    pub canvas: CanvasId,
}

/// The whole tree containing `canvas`, from its root. `None` when the canvas
/// does not exist.
#[derive(Debug)]
pub struct LoadCanvasTree {
    pub canvas: CanvasId,
}

#[derive(Debug)]
pub struct FindCanvasById {
    pub id: CanvasId,
}

/// Name, description and, when given, the position on the parent: nothing a
/// worker reads, so no generation bump.
#[derive(Debug)]
pub struct UpdateCanvasMeta {
    pub id: CanvasId,
    pub name: String,
    pub description: String,
    pub position: Option<CanvasUiPosition>,
}

/// Deletes a canvas with everything below it: subcanvases, servers, pods,
/// exits, groups, the edges leaving its pods, views and health history. The
/// service refuses first when something outside the subtree still leads into
/// it; the foreign keys are the race guard.
#[derive(Debug)]
pub struct DeleteCanvasRow {
    pub id: CanvasId,
}

/// The first canvas of `canvases` whose id is `id`.
pub open spec fn first_canvas(canvases: Seq<CanvasEntity>, id: Seq<char>) -> Option<CanvasEntity>
    decreases canvases.len(),
{
    if canvases.len() == 0 {
        None
    } else if canvases[0].id@ == id {
        Some(canvases[0])
    } else {
        first_canvas(canvases.drop_first(), id)
    }
}

/// The fence a write validated against a tree snapshot must pass: the root's
/// id and the generation the snapshot read it at. `None` when the snapshot
/// carries no row for the root (a canvas that does not exist), so a validated
/// caller fails closed rather than bumping unconditionally.
pub fn fence_of(root: &CanvasId, canvases: &Vec<CanvasEntity>) -> (r: Option<CanvasFence>)
    ensures
        match first_canvas(canvases@, root@) {
            Some(c) => r matches Some(f) && f.root == *root && f.generation == c.generation,
            None => r is None,
        },
{
    let mut i: usize = 0;
    assert(canvases@.skip(0) =~= canvases@);
    while i < canvases.len()
        invariant
            i <= canvases@.len(),
            first_canvas(canvases@, root@) == first_canvas(canvases@.skip(i as int), root@),
        decreases canvases@.len() - i,
    {
        proof {
            assert(canvases@.skip(i as int)[0] == canvases@[i as int]);
            assert(canvases@.skip(i as int).drop_first() =~= canvases@.skip(i + 1));
        }
        if canvases[i].id == *root {
            return Some(CanvasFence { root: root.clone(), generation: canvases[i].generation });
        }
        i = i + 1;
    }
    None
}

/// The ids of `canvases`, in order.
pub fn ids_of(canvases: &Vec<CanvasEntity>) -> (r: Vec<CanvasId>)
    ensures
        r@.len() == canvases@.len(),
        forall|i: int| 0 <= i < canvases@.len() ==> #[trigger] r@[i] == canvases@[i].id,
{
    let mut out: Vec<CanvasId> = Vec::new();
    let mut i: usize = 0;
    while i < canvases.len()
        invariant
            i <= canvases@.len(),
            out@.len() == i,
            forall|k: int| 0 <= k < i ==> #[trigger] out@[k] == canvases@[k].id,
        decreases canvases@.len() - i,
    {
        out.push(canvases[i].id.clone());
        i = i + 1;
    }
    out
}

/// The order a tree read lists its canvases in: the root first, then by id.
pub open spec fn listed_before(root: Seq<char>, a: CanvasEntity, b: CanvasEntity) -> bool {
    ||| a.id@ == root && b.id@ != root
    ||| (a.id@ == root) == (b.id@ == root) && text_lt(a.id@, b.id@)
}

proof fn lemma_listed_before_order(root: Seq<char>, a: CanvasEntity, b: CanvasEntity, c: CanvasEntity)
    ensures
        !listed_before(root, a, a),
        listed_before(root, a, b) ==> !listed_before(root, b, a),
        listed_before(root, a, b) || listed_before(root, b, a) || a.id@ == b.id@,
        listed_before(root, a, b) && listed_before(root, b, c) ==> listed_before(root, a, c),
        listed_before(root, a, b) && b.id@ == c.id@ ==> listed_before(root, a, c),
{
    lemma_text_lt_irreflexive(a.id@);
    lemma_text_lt_asymmetric(a.id@, b.id@);
    lemma_text_lt_total(a.id@, b.id@);
    if text_lt(a.id@, b.id@) && text_lt(b.id@, c.id@) {
        lemma_text_lt_transitive(a.id@, b.id@, c.id@);
    }
}

/// The canvases of a tree in the order a tree read lists them: the root first,
/// then by id. Nothing is lost or added.
pub fn root_first(root: &CanvasId, canvases: Vec<CanvasEntity>) -> (r: Vec<CanvasEntity>)
    ensures
        r@.to_multiset() == canvases@.to_multiset(),
        forall|i: int, j: int|
            0 <= i < j < r@.len() ==> !listed_before(root@, #[trigger] r@[j], #[trigger] r@[i]),
{
    broadcast use vstd::seq_lib::group_to_multiset_ensures;

    let ghost all = canvases@;
    let mut rest = canvases;
    let mut out: Vec<CanvasEntity> = Vec::new();
    while rest.len() > 0
        invariant
            all == canvases@,
            out@.to_multiset().add(rest@.to_multiset()) == all.to_multiset(),
            forall|i: int, j: int|
                0 <= i < j < out@.len() ==> !listed_before(root@, #[trigger] out@[j], #[trigger] out@[i]),
        decreases rest@.len(),
    {
        let ghost before = rest@;
        let x = rest.pop().unwrap();
        proof {
            assert(before == rest@.push(x));
        }
        let mut k: usize = 0;
        while k < out.len() && !before_in_listing(root, &x, &out[k])
            invariant
                k <= out@.len(),
                forall|a: int| 0 <= a < k ==> !listed_before(root@, x, #[trigger] out@[a]),
            decreases out@.len() - k,
        {
            k = k + 1;
        }
        let ghost old_out = out@;
        proof {
            assert forall|b: int| k <= b < old_out.len() implies !listed_before(
                root@,
                #[trigger] old_out[b],
                x,
            ) by {
                if b == k {
                    lemma_listed_before_order(root@, x, old_out[b], old_out[b]);
                } else {
                    lemma_listed_before_order(root@, old_out[k as int], old_out[b], x);
                    lemma_listed_before_order(root@, x, old_out[k as int], old_out[b]);
                    lemma_listed_before_order(root@, old_out[b], x, old_out[k as int]);
                }
            }
        }
        out.insert(k, x);
        proof {
            vstd::seq_lib::to_multiset_insert(old_out, k as int, x);
            assert(out@ == old_out.insert(k as int, x));
            assert forall|i: int, j: int|
                0 <= i < j < out@.len() implies !listed_before(root@, #[trigger] out@[j], #[trigger] out@[i]) by {
                if j < k {
                    assert(out@[i] == old_out[i] && out@[j] == old_out[j]);
                } else if j == k {
                    assert(out@[i] == old_out[i]);
                } else if i == k {
                    assert(out@[j] == old_out[j - 1]);
                } else if i < k {
                    assert(out@[i] == old_out[i] && out@[j] == old_out[j - 1]);
                } else {
                    assert(out@[i] == old_out[i - 1] && out@[j] == old_out[j - 1]);
                }
            }
            vstd::seq_lib::to_multiset_build(rest@, x);
            assert(before.to_multiset() =~= rest@.to_multiset().insert(x));
            assert(out@.to_multiset().add(rest@.to_multiset()) =~= old_out.to_multiset().add(
                before.to_multiset(),
            ));
        }
    }
    proof {
        assert(rest@.to_multiset() =~= vstd::multiset::Multiset::empty());
    }
    out
}

/// Whether `a` comes before `b` in a tree read's listing.
fn before_in_listing(root: &CanvasId, a: &CanvasEntity, b: &CanvasEntity) -> (r: bool)
    ensures
        r == listed_before(root@, *a, *b),
{
    let a_root = a.id == *root;
    let b_root = b.id == *root;
    (a_root && !b_root) || (a_root == b_root && text_less(a.id.as_str(), b.id.as_str()))
}

/// Where `id` first stands in `tree`, or `None` when it is not there.
pub open spec fn tree_position(tree: Seq<CanvasId>, id: Seq<char>) -> Option<int>
    decreases tree.len(),
{
    if tree.len() == 0 {
        None
    } else if tree[0]@ == id {
        Some(0)
    } else {
        match tree_position(tree.drop_first(), id) {
            Some(i) => Some(i + 1),
            None => None,
        }
    }
}

/// The sort key of a canvas in a walk's order: its place in the walk, before
/// everything that is in it when it is not.
pub open spec fn walk_key(tree: Seq<CanvasId>, c: CanvasEntity) -> int {
    match tree_position(tree, c.id@) {
        Some(i) => i,
        None => -1,
    }
}

fn position_in(tree: &Vec<CanvasId>, id: &CanvasId) -> (r: Option<usize>)
    ensures
        match tree_position(tree@, id@) {
            Some(i) => r matches Some(p) && p == i,
            None => r is None,
        },
{
    let mut i: usize = 0;
    assert(tree@.skip(0) =~= tree@);
    while i < tree.len()
        invariant
            i <= tree@.len(),
            match tree_position(tree@, id@) {
                Some(p) => tree_position(tree@.skip(i as int), id@) == Some(p - i),
                None => tree_position(tree@.skip(i as int), id@) is None,
            },
        decreases tree@.len() - i,
    {
        proof {
            assert(tree@.skip(i as int)[0] == tree@[i as int]);
            assert(tree@.skip(i as int).drop_first() =~= tree@.skip(i + 1));
        }
        if tree[i] == *id {
            return Some(i);
        }
        i = i + 1;
    }
    None
}

fn walk_key_of(tree: &Vec<CanvasId>, c: &CanvasEntity) -> (k: i64)
    requires
        tree@.len() < i64::MAX,
    ensures
        k == walk_key(tree@, *c),
{
    proof {
        lemma_tree_position_bound(tree@, c.id@);
    }
    match position_in(tree, &c.id) {
        Some(i) => {
            assert(tree_position(tree@, c.id@) == Some(i as int));
            i as i64
        },
        None => -1,
    }
}

proof fn lemma_tree_position_bound(tree: Seq<CanvasId>, id: Seq<char>)
    ensures
        tree_position(tree, id) matches Some(i) ==> 0 <= i < tree.len(),
    decreases tree.len(),
{
    if tree.len() > 0 {
        lemma_tree_position_bound(tree.drop_first(), id);
    }
}

/// The canvases of a tree in the order its walk visited them (the root first,
/// then by depth and id); a canvas the walk did not visit comes first. Nothing
/// is lost or added.
pub fn in_walk_order(tree: &Vec<CanvasId>, canvases: Vec<CanvasEntity>) -> (r: Vec<CanvasEntity>)
    requires
        tree@.len() < i64::MAX,
    ensures
        r@.to_multiset() == canvases@.to_multiset(),
        forall|i: int, j: int|
            0 <= i < j < r@.len() ==> walk_key(tree@, #[trigger] r@[i]) <= walk_key(
                tree@,
                #[trigger] r@[j],
            ),
{
    broadcast use vstd::seq_lib::group_to_multiset_ensures;

    let ghost all = canvases@;
    let mut rest = canvases;
    let mut out: Vec<CanvasEntity> = Vec::new();
    let mut keys: Vec<i64> = Vec::new();
    while rest.len() > 0
        invariant
            all == canvases@,
            tree@.len() < i64::MAX,
            keys@.len() == out@.len(),
            forall|a: int| 0 <= a < out@.len() ==> keys@[a] == walk_key(tree@, #[trigger] out@[a]),
            out@.to_multiset().add(rest@.to_multiset()) == all.to_multiset(),
            forall|i: int, j: int|
                0 <= i < j < out@.len() ==> walk_key(tree@, #[trigger] out@[i]) <= walk_key(
                    tree@,
                    #[trigger] out@[j],
                ),
        decreases rest@.len(),
    {
        let ghost before = rest@;
        let x = rest.pop().unwrap();
        let key = walk_key_of(tree, &x);
        let mut k: usize = 0;
        while k < out.len() && keys[k] <= key
            invariant
                k <= out@.len(),
                keys@.len() == out@.len(),
                forall|a: int| 0 <= a < out@.len() ==> keys@[a] == walk_key(tree@, #[trigger] out@[a]),
                forall|a: int| 0 <= a < k ==> walk_key(tree@, #[trigger] out@[a]) <= key,
            decreases out@.len() - k,
        {
            k = k + 1;
        }
        let ghost old_out = out@;
        proof {
            assert forall|b: int| k <= b < old_out.len() implies key < walk_key(tree@, #[trigger] old_out[b]) by {
                assert(keys@[k as int] == walk_key(tree@, old_out[k as int]));
                if b > k {
                    assert(walk_key(tree@, old_out[k as int]) <= walk_key(tree@, old_out[b]));
                }
            }
        }
        out.insert(k, x);
        keys.insert(k, key);
        proof {
            vstd::seq_lib::to_multiset_insert(old_out, k as int, x);
            vstd::seq_lib::to_multiset_build(rest@, x);
            assert(before == rest@.push(x));
            assert(before.to_multiset() =~= rest@.to_multiset().insert(x));
            assert(out@.to_multiset().add(rest@.to_multiset()) =~= old_out.to_multiset().add(
                before.to_multiset(),
            ));
            assert forall|a: int| 0 <= a < out@.len() implies keys@[a] == walk_key(
                tree@,
                #[trigger] out@[a],
            ) by {
                if a < k {
                    assert(out@[a] == old_out[a]);
                } else if a > k {
                    assert(out@[a] == old_out[a - 1]);
                }
            }
            assert forall|i: int, j: int|
                0 <= i < j < out@.len() implies walk_key(tree@, #[trigger] out@[i]) <= walk_key(
                tree@,
                #[trigger] out@[j],
            ) by {
                if j < k {
                    assert(out@[i] == old_out[i] && out@[j] == old_out[j]);
                } else if j == k {
                    assert(out@[i] == old_out[i]);
                } else if i == k {
                    assert(out@[j] == old_out[j - 1]);
                } else if i < k {
                    assert(out@[i] == old_out[i] && out@[j] == old_out[j - 1]);
                } else {
                    assert(out@[i] == old_out[i - 1] && out@[j] == old_out[j - 1]);
                }
            }
        }
    }
    proof {
        assert(rest@.to_multiset() =~= vstd::multiset::Multiset::empty());
    }
    out
}

} // verus!
