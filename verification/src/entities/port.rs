//! Ports: the connection points of a node, and the port logic every reshaping
//! transaction shares.
use crate::entities::batch::PortRef;
use crate::entities::node::NodeId;
use crate::text::text_eq;
use vstd::prelude::*;

verus! {

/// The record key of an `orchestration_port` row.
pub type PortId = String;

#[derive(Debug, Clone)]
pub struct PortEntity {
    pub id: PortId,
    pub owner: NodeId,
    pub kind: PortKind,
    pub direction: PortDirection,
    pub key: String,
    pub position: i64,
}

impl PortEntity {
    /// A field-for-field copy.
    pub fn copied(&self) -> (r: Self)
        ensures
            r == *self,
    {
        PortEntity {
            id: self.id.clone(),
            owner: self.owner.clone(),
            kind: self.kind,
            direction: self.direction,
            key: self.key.clone(),
            position: self.position,
        }
    }
}

#[derive(Debug, Clone, Copy, PartialEq, Eq, Structural, Hash, PartialOrd, Ord)]
pub enum PortKind {
    DeriveListen,
    DeriveDestination,
    /// A bundle port joins two universal nodes; it carries every channel of the
    /// source and is never walked by derivation.
    Bundle,
}

pub open spec fn port_kind_spelling(k: PortKind) -> Seq<char> {
    match k {
        PortKind::DeriveListen => "derive_listen"@,
        PortKind::DeriveDestination => "derive_destination"@,
        PortKind::Bundle => "bundle"@,
    }
}

impl PortKind {
    /// The stored spelling.
    pub fn as_str(self) -> (s: &'static str)
        ensures
            s@ == port_kind_spelling(self),
    {
        match self {
            PortKind::DeriveListen => "derive_listen",
            PortKind::DeriveDestination => "derive_destination",
            PortKind::Bundle => "bundle",
        }
    }

    /// The kind a stored spelling names; `None` for any other text.
    pub fn from_stored(text: &str) -> (r: Option<Self>)
        ensures
            r matches Some(k) ==> port_kind_spelling(k) == text@,
            r is None ==> forall|k: PortKind| port_kind_spelling(k) != text@,
    {
        if text_eq(text, "derive_listen") {
            Some(PortKind::DeriveListen)
        } else if text_eq(text, "derive_destination") {
            Some(PortKind::DeriveDestination)
        } else if text_eq(text, "bundle") {
            Some(PortKind::Bundle)
        } else {
            None
        }
    }
}

#[derive(Debug, Clone, Copy, PartialEq, Eq, Structural, Hash, PartialOrd, Ord)]
pub enum PortDirection {
    Input,
    Output,
}

pub open spec fn port_direction_spelling(d: PortDirection) -> Seq<char> {
    match d {
        PortDirection::Input => "input"@,
        PortDirection::Output => "output"@,
    }
}

impl PortDirection {
    /// The stored spelling.
    pub fn as_str(self) -> (s: &'static str)
        ensures
            s@ == port_direction_spelling(self),
    {
        match self {
            PortDirection::Input => "input",
            PortDirection::Output => "output",
        }
    }

    /// The direction a stored spelling names; `None` for any other text.
    pub fn from_stored(text: &str) -> (r: Option<Self>)
        ensures
            r matches Some(d) ==> port_direction_spelling(d) == text@,
            r is None ==> forall|d: PortDirection| port_direction_spelling(d) != text@,
    {
        if text_eq(text, "input") {
            Some(PortDirection::Input)
        } else if text_eq(text, "output") {
            Some(PortDirection::Output)
        } else {
            None
        }
    }
}

/// A port to create on a node: one row each, keyed by `key` on its owner.
#[derive(Debug, Clone)]
pub struct NewPort {
    pub kind: PortKind,
    pub direction: PortDirection,
    pub key: String,
    pub position: i64,
}

#[derive(Debug)]
pub struct FindPortById {
    pub id: PortId,
}

/// How one end of a batch edge is found inside the transaction.
#[derive(Debug, Clone)]
pub enum PortLookup {
    /// The reference names the port itself.
    Given(PortId),
    /// The port keyed `key` on the node `node`.
    OnNode { node: NodeId, key: String },
    /// The port keyed `key` on the lane node keyed `lane_key` in the tree.
    OnLane { lane_key: String, key: String },
    /// The reference cannot name any port.
    Unresolvable,
}

impl PortRef {
    /// How this reference is resolved: `{ port }` names an existing port;
    /// `{ node, key }` a port (possibly just created by a reshape) on an
    /// existing node; `{ lane_key, key }` a port on the lane node of that key,
    /// which may have been created moments earlier in the same transaction. A
    /// reference with a node or lane but no key, or with neither, names
    /// nothing.
    pub fn lookup(&self) -> (r: PortLookup)
        ensures
            match self.port {
                Some(p) => r == PortLookup::Given(p),
                None => match (self.key, self.node, self.lane_key) {
                    (Some(k), Some(n), _) => r == (PortLookup::OnNode { node: n, key: k }),
                    (Some(k), None, Some(l)) => r == (PortLookup::OnLane { lane_key: l, key: k }),
                    _ => r == PortLookup::Unresolvable,
                },
            },
    {
        if let Some(port) = &self.port {
            return PortLookup::Given(port.clone());
        }
        let key = match &self.key {
            Some(key) => key,
            None => {
                return PortLookup::Unresolvable;
            },
        };
        match (&self.node, &self.lane_key) {
            (Some(node), _) => PortLookup::OnNode { node: node.clone(), key: key.clone() },
            (None, Some(lane_key)) => PortLookup::OnLane {
                lane_key: lane_key.clone(),
                key: key.clone(),
            },
            (None, None) => PortLookup::Unresolvable,
        }
    }
}

} // verus!
