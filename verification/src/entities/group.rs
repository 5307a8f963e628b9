//! Groups: how the dashboard draws the graph.
//!
//! A group gathers pods, edges, exits and servers under a kind the dashboard
//! defines (a splitter, an aggregator, a rule), with whatever the dashboard
//! needs to remember about it in `props`. Nothing is derived from a group; a
//! member that goes away leaves its groups on its own.
use crate::entities::canvas::CanvasId;
use crate::entities::edge::EdgeId;
use crate::entities::exit::ExitId;
use crate::entities::pod::PodId;
use crate::entities::server::ServerId;
use vstd::prelude::*;

verus! {

/// The record key of an `orchestration_group` row.
pub type GroupId = String;

#[derive(Debug, Clone)]
pub struct GroupEntity {
    pub id: GroupId,
    pub canvas: CanvasId,
    pub kind: String,
    pub name: String,
    /// Whatever the dashboard keeps about the group, as JSON text.
    pub props: String,
    /// In the order they were given.
    pub members: Vec<GroupMember>,
}

#[derive(Debug, Clone)]
pub enum GroupMember {
    Pod(PodId),
    Edge(EdgeId),
    Exit(ExitId),
    Server(ServerId),
}

/// An `orchestration_group` row.
#[derive(Debug)]
pub struct GroupRow {
    pub id: GroupId,
    pub canvas: CanvasId,
    pub kind: String,
    pub name: String,
    pub props: String,
}

/// An `orchestration_group_member` row: exactly one of the four member
/// columns is meant to be set.
#[derive(Debug)]
pub struct MemberRow {
    pub group_id: GroupId,
    pub pod: Option<PodId>,
    pub edge: Option<EdgeId>,
    pub exit: Option<ExitId>,
    pub server: Option<ServerId>,
}

/// The member a membership row names; `None` unless exactly one column is set.
pub open spec fn row_member(row: MemberRow) -> Option<GroupMember> {
    match (row.pod, row.edge, row.exit, row.server) {
        (Some(p), None, None, None) => Some(GroupMember::Pod(p)),
        (None, Some(e), None, None) => Some(GroupMember::Edge(e)),
        (None, None, Some(x), None) => Some(GroupMember::Exit(x)),
        (None, None, None, Some(s)) => Some(GroupMember::Server(s)),
        _ => None,
    }
}

/// The members of group `id` among `rows`, in row order; rows that name no
/// single member are skipped.
pub open spec fn members_of(id: Seq<char>, rows: Seq<MemberRow>) -> Seq<GroupMember>
    decreases rows.len(),
{
    if rows.len() == 0 {
        Seq::empty()
    } else {
        let before = members_of(id, rows.drop_last());
        let row = rows.last();
        if row.group_id@ == id && row_member(row) is Some {
            before.push(row_member(row)->0)
        } else {
            before
        }
    }
}

fn opt_copy(s: &Option<String>) -> (r: Option<String>)
    ensures
        r == *s,
{
    match s {
        Some(v) => Some(v.clone()),
        None => None,
    }
}

fn member_of_row(row: &MemberRow) -> (r: Option<GroupMember>)
    ensures
        r == row_member(*row),
{
    match (opt_copy(&row.pod), opt_copy(&row.edge), opt_copy(&row.exit), opt_copy(&row.server)) {
        (Some(p), None, None, None) => Some(GroupMember::Pod(p)),
        (None, Some(e), None, None) => Some(GroupMember::Edge(e)),
        (None, None, Some(x), None) => Some(GroupMember::Exit(x)),
        (None, None, None, Some(s)) => Some(GroupMember::Server(s)),
        _ => None,
    }
}

/// The groups of the given rows with their members, in the order of `groups`:
/// each group gets the members its membership rows name, in row order.
pub fn assemble_groups(groups: Vec<GroupRow>, members: &Vec<MemberRow>) -> (r: Vec<GroupEntity>)
    ensures
        r@.len() == groups@.len(),
        forall|i: int|
            0 <= i < groups@.len() ==> {
                let g = #[trigger] r@[i];
                &&& g.id == groups@[i].id
                &&& g.canvas == groups@[i].canvas
                &&& g.kind == groups@[i].kind
                &&& g.name == groups@[i].name
                &&& g.props == groups@[i].props
                &&& g.members@ == members_of(groups@[i].id@, members@)
            },
{
    let mut groups = groups;
    let ghost all = groups@;
    let mut reversed: Vec<GroupEntity> = Vec::new();
    while groups.len() > 0
        invariant
            groups@.len() + reversed@.len() == all.len(),
            forall|k: int| 0 <= k < groups@.len() ==> #[trigger] groups@[k] == all[k],
            forall|k: int|
                0 <= k < reversed@.len() ==> {
                    let g = #[trigger] reversed@[k];
                    let row = all[all.len() - 1 - k];
                    &&& g.id == row.id
                    &&& g.canvas == row.canvas
                    &&& g.kind == row.kind
                    &&& g.name == row.name
                    &&& g.props == row.props
                    &&& g.members@ == members_of(row.id@, members@)
                },
        decreases groups@.len(),
    {
        let row = groups.pop().unwrap();
        let mut found: Vec<GroupMember> = Vec::new();
        let mut j: usize = 0;
        while j < members.len()
            invariant
                j <= members@.len(),
                found@ == members_of(row.id@, members@.take(j as int)),
            decreases members@.len() - j,
        {
            proof {
                assert(members@.take(j + 1).drop_last() =~= members@.take(j as int));
            }
            if members[j].group_id == row.id {
                match member_of_row(&members[j]) {
                    Some(m) => found.push(m),
                    None => {},
                }
            }
            j = j + 1;
        }
        proof {
            assert(members@.take(members@.len() as int) =~= members@);
        }
        reversed.push(
            GroupEntity {
                id: row.id,
                canvas: row.canvas,
                kind: row.kind,
                name: row.name,
                props: row.props,
                members: found,
            },
        );
    }
    let mut out: Vec<GroupEntity> = Vec::new();
    while reversed.len() > 0
        invariant
            reversed@.len() + out@.len() == all.len(),
            forall|k: int|
                0 <= k < reversed@.len() ==> {
                    let g = #[trigger] reversed@[k];
                    let row = all[all.len() - 1 - k];
                    &&& g.id == row.id
                    &&& g.canvas == row.canvas
                    &&& g.kind == row.kind
                    &&& g.name == row.name
                    &&& g.props == row.props
                    &&& g.members@ == members_of(row.id@, members@)
                },
            forall|k: int|
                0 <= k < out@.len() ==> {
                    let g = #[trigger] out@[k];
                    let row = all[k];
                    &&& g.id == row.id
                    &&& g.canvas == row.canvas
                    &&& g.kind == row.kind
                    &&& g.name == row.name
                    &&& g.props == row.props
                    &&& g.members@ == members_of(row.id@, members@)
                },
        decreases reversed@.len(),
    {
        let g = reversed.pop().unwrap();
        out.push(g);
    }
    out
}

/// The four member columns a membership is written with: the member's id in
/// its own column, the other three empty.
pub fn member_columns(member: &GroupMember) -> (r: (
    Option<PodId>,
    Option<EdgeId>,
    Option<ExitId>,
    Option<ServerId>,
))
    ensures
        row_member(MemberRow { group_id: arbitrary(), pod: r.0, edge: r.1, exit: r.2, server: r.3 })
            == Some(*member),
{
    match member {
        GroupMember::Pod(id) => (Some(id.clone()), None, None, None),
        GroupMember::Edge(id) => (None, Some(id.clone()), None, None),
        GroupMember::Exit(id) => (None, None, Some(id.clone()), None),
        GroupMember::Server(id) => (None, None, None, Some(id.clone())),
    }
}

/// The `position` column of the member at index `i`, saturating at
/// `i32::MAX` for a list longer than the column can count.
pub fn member_position(i: usize) -> (p: i32)
    ensures
        i <= i32::MAX ==> p == i,
        i > i32::MAX ==> p == i32::MAX,
{
    if i <= i32::MAX as usize {
        i as i32
    } else {
        i32::MAX
    }
}

} // verus!
