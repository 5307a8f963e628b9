use orchestration::entities::canvas::{
    assemble_tree, fence_of, in_walk_order, root_first, CanvasEntity, CanvasUiPosition,
    CreateCanvas, PARENT_MISSING,
};
use orchestration::entities::connection::EdgeConnectionEntity;
use orchestration::entities::node::NodeWithPorts;
use orchestration::entities::topology::{contents_of, CanvasTopology};
use orchestration::entities::decode::DecodeProblem;
use orchestration::entities::edge::{EdgeEntity, EdgeRow, EdgeTarget};
use orchestration::entities::exit::ExitRow;
use orchestration::entities::group::{assemble_groups, member_position, GroupMember, GroupRow, MemberRow};
use orchestration::entities::node::{attach_ports, NodeEntity};
use orchestration::entities::pod::{IngressKind, PodEntity, PodIngress, ProxyProtocolVersion, TlsConfig};
use orchestration::entities::port::{PortDirection, PortEntity, PortKind};
use orchestration::entities::tree::NESTING_TOO_DEEP;

fn canvas(id: &str, parent: Option<&str>, generation: i64) -> CanvasEntity {
    CanvasEntity {
        id: id.to_string(),
        name: id.to_string(),
        description: String::new(),
        parent: parent.map(str::to_string),
        position: CanvasUiPosition::default(),
        generation,
        derived_generation: 0,
    }
}

fn tls_pod() -> PodEntity {
    PodEntity {
        id: "p1".to_string(),
        canvas: "c1".to_string(),
        server: "s1".to_string(),
        name: "entry".to_string(),
        comment: String::new(),
        port: 443,
        bind_ip: None,
        advertise_ip: Some("203.0.113.7".to_string()),
        ingress: PodIngress::ClientTls {
            receive_proxy_protocol: Some(ProxyProtocolVersion::V1),
            tls: TlsConfig {
                sni: "a.example".to_string(),
                dns_provider: "d1".to_string(),
                domain_id: "z".to_string(),
                acme_directory: String::new(),
            },
        },
        route: Some("{}".to_string()),
    }
}

#[test]
fn a_pod_reads_back_as_written() {
    for pod in [tls_pod(), PodEntity { ingress: PodIngress::RelayQuic, ..tls_pod() }] {
        let row = pod.to_row();
        let back = row.into_entity().ok().expect("a written row decodes");
        assert_eq!(back.id, pod.id);
        assert_eq!(back.port, pod.port);
        assert_eq!(back.ingress.kind(), pod.ingress.kind());
        assert_eq!(back.ingress.receive_proxy_protocol(), pod.ingress.receive_proxy_protocol());
        assert_eq!(back.ingress.tls().map(|t| t.sni.clone()), pod.ingress.tls().map(|t| t.sni.clone()));
        assert_eq!(back.route, pod.route);
    }
}

#[test]
fn a_pod_row_with_mismatched_tls_columns_is_refused() {
    let mut row = tls_pod().to_row();
    row.ingress = IngressKind::RelayTcp;
    let err = row.into_entity().err().expect("refused");
    assert_eq!(err.column, "ingress");
    assert_eq!(err.problem, DecodeProblem::TlsMismatch(IngressKind::RelayTcp));
    let mut row = tls_pod().to_row();
    row.port = 70000;
    assert_eq!(row.into_entity().err().map(|e| e.problem), Some(DecodeProblem::PortOutOfRange(70000)));
}

#[test]
fn an_edge_reads_back_as_written_and_needs_one_target() {
    let edge = EdgeEntity {
        id: "e1".to_string(),
        source: "p1".to_string(),
        target: EdgeTarget::Pod("p2".to_string()),
        override_ip: None,
        override_port: Some(8443),
    };
    let back = edge.to_row().into_entity().ok().unwrap();
    assert!(matches!(&back.target, EdgeTarget::Pod(p) if p == "p2"));
    assert_eq!(back.override_port, Some(8443));
    let both = EdgeRow {
        id: "e2".to_string(),
        source_pod: "p1".to_string(),
        target_pod: Some("p2".to_string()),
        target_exit: Some("x1".to_string()),
        override_ip: None,
        override_port: None,
    };
    let err = both.into_entity().err().unwrap();
    assert_eq!(err.problem, DecodeProblem::NotOneTarget);
    assert_eq!(err.row, "e2");
    let bad_port = EdgeRow {
        id: "e3".to_string(),
        source_pod: "p1".to_string(),
        target_pod: None,
        target_exit: Some("x1".to_string()),
        override_ip: None,
        override_port: Some(-1),
    };
    assert_eq!(bad_port.into_entity().err().map(|e| e.problem), Some(DecodeProblem::PortOutOfRange(-1)));
}

#[test]
fn an_exit_row_gathers_its_position() {
    let exit = ExitRow {
        id: "x".to_string(),
        canvas: "c".to_string(),
        name: "n".to_string(),
        comment: String::new(),
        destination: "h:1".to_string(),
        send_proxy_protocol: None,
        position_x: 3,
        position_y: -4,
    }
    .into_entity();
    assert_eq!((exit.position.x, exit.position.y), (3, -4));
}

#[test]
fn groups_get_their_members_in_row_order() {
    let groups = vec![
        GroupRow { id: "g1".to_string(), canvas: "c".to_string(), kind: "k".to_string(), name: String::new(), props: "{}".to_string() },
        GroupRow { id: "g2".to_string(), canvas: "c".to_string(), kind: "k".to_string(), name: String::new(), props: "{}".to_string() },
    ];
    let member = |g: &str, pod: Option<&str>, server: Option<&str>| MemberRow {
        group_id: g.to_string(),
        pod: pod.map(str::to_string),
        edge: None,
        exit: None,
        server: server.map(str::to_string),
    };
    let members = vec![
        member("g2", Some("p9"), None),
        member("g1", Some("p1"), None),
        member("g1", Some("p2"), Some("s1")),
        member("g1", None, Some("s1")),
    ];
    let out = assemble_groups(groups, &members);
    assert_eq!(out.len(), 2);
    assert_eq!(out[0].members.len(), 2);
    assert!(matches!(&out[0].members[0], GroupMember::Pod(p) if p == "p1"));
    assert!(matches!(&out[0].members[1], GroupMember::Server(s) if s == "s1"));
    assert_eq!(out[1].members.len(), 1);
    assert_eq!(member_position(5), 5);
    assert_eq!(member_position(usize::MAX), i32::MAX);
}

#[test]
fn nodes_get_their_ports() {
    let node = |id: &str| NodeEntity {
        id: id.to_string(),
        canvas: "c".to_string(),
        name: String::new(),
        comment: String::new(),
        spec: "{}".to_string(),
        position: CanvasUiPosition::default(),
        lane: None,
    };
    let port = |id: &str, owner: &str| PortEntity {
        id: id.to_string(),
        owner: owner.to_string(),
        kind: PortKind::Bundle,
        direction: PortDirection::Input,
        key: id.to_string(),
        position: 0,
    };
    let out = attach_ports(vec![node("n1"), node("n2")], &vec![port("a", "n2"), port("b", "n1"), port("c", "n2")]);
    let keys: Vec<Vec<&str>> = out.iter().map(|n| n.ports.iter().map(|p| p.key.as_str()).collect()).collect();
    assert_eq!(keys, vec![vec!["b"], vec!["a", "c"]]);
}

#[test]
fn a_tree_is_assembled_below_its_root_and_fenced_at_its_generation() {
    let canvases = vec![canvas("b", Some("root"), 0), canvas("root", None, 7), canvas("a", Some("root"), 0), canvas("c", Some("a"), 0)];
    let fence = fence_of(&"root".to_string(), &canvases).unwrap();
    assert_eq!((fence.root.as_str(), fence.generation), ("root", 7));
    assert!(fence_of(&"gone".to_string(), &canvases).is_none());
    let tree = assemble_tree(&"root".to_string(), canvases).unwrap();
    let children: Vec<&str> = tree.children.iter().map(|t| t.canvas.id.as_str()).collect();
    assert_eq!(children, vec!["a", "b"]);
    assert_eq!(tree.children[0].children[0].canvas.id, "c");
}

#[test]
fn a_subcanvas_needs_a_shallow_existing_parent() {
    assert_eq!(CreateCanvas::check_parent(false, 0), Err(PARENT_MISSING));
    assert_eq!(CreateCanvas::check_parent(true, 31), Err(NESTING_TOO_DEEP));
    assert_eq!(CreateCanvas::check_parent(true, 30), Ok(()));
}

#[test]
fn a_tree_read_lists_the_root_first_then_by_id() {
    let canvases = vec![canvas("b", Some("r"), 0), canvas("r", None, 0), canvas("a", Some("r"), 0)];
    let ids: Vec<String> = root_first(&"r".to_string(), canvases).into_iter().map(|c| c.id).collect();
    assert_eq!(ids, vec!["r", "a", "b"]);
}

#[test]
fn a_graph_read_lists_canvases_in_walk_order() {
    let walk = vec!["r".to_string(), "z".to_string(), "a".to_string()];
    let canvases = vec![canvas("a", Some("z"), 0), canvas("r", None, 0), canvas("z", Some("r"), 0)];
    let ids: Vec<String> = in_walk_order(&walk, canvases).into_iter().map(|c| c.id).collect();
    assert_eq!(ids, vec!["r", "z", "a"]);
}

#[test]
fn a_canvas_shows_its_own_rows_and_its_ancestors_root_first() {
    let node = |id: &str, canvas: &str, ports: &[&str]| NodeWithPorts {
        node: NodeEntity {
            id: id.to_string(),
            canvas: canvas.to_string(),
            name: String::new(),
            comment: String::new(),
            spec: "{}".to_string(),
            position: CanvasUiPosition::default(),
            lane: None,
        },
        ports: ports
            .iter()
            .map(|p| PortEntity {
                id: p.to_string(),
                owner: id.to_string(),
                kind: PortKind::Bundle,
                direction: PortDirection::Output,
                key: p.to_string(),
                position: 0,
            })
            .collect(),
    };
    let edge = |id: &str, source: &str| EdgeConnectionEntity {
        id: id.to_string(),
        source: source.to_string(),
        target: "t".to_string(),
    };
    let rows = CanvasTopology {
        root: "r".to_string(),
        canvases: vec![canvas("r", None, 0), canvas("m", Some("r"), 0), canvas("c", Some("m"), 0), canvas("other", Some("r"), 0)],
        servers: Vec::new(),
        nodes: vec![node("n1", "c", &["p1"]), node("n2", "m", &["p2"]), node("n3", "c", &["p3"])],
        edges: vec![edge("e1", "p2"), edge("e2", "p3"), edge("e3", "p1")],
    };
    let contents = contents_of(canvas("c", Some("m"), 0), rows, vec!["m".to_string(), "r".to_string()], &vec!["other".to_string()]);
    let ancestors: Vec<&str> = contents.ancestors.iter().map(|c| c.id.as_str()).collect();
    assert_eq!(ancestors, vec!["r", "m"]);
    let nodes: Vec<&str> = contents.nodes.iter().map(|n| n.node.id.as_str()).collect();
    assert_eq!(nodes, vec!["n1", "n3"]);
    let edges: Vec<&str> = contents.edges.iter().map(|e| e.id.as_str()).collect();
    assert_eq!(edges, vec!["e2", "e3"]);
    assert_eq!(contents.import_targets.len(), 1);
    assert_eq!(contents.import_targets[0].id, "other");
}

#[test]
fn a_tree_holds_each_canvas_once_even_from_a_corrupt_list() {
    // "a" is listed twice (the later row wins) and "x" and "y" are each
    // other's parent under "a".
    let canvases = vec![
        canvas("root", None, 1),
        canvas("a", Some("root"), 1),
        canvas("x", Some("y"), 0),
        canvas("y", Some("x"), 0),
        canvas("a", Some("root"), 2),
        canvas("b", Some("root"), 0),
    ];
    let tree = assemble_tree(&"root".to_string(), canvases).unwrap();
    let children: Vec<(&str, i64)> =
        tree.children.iter().map(|t| (t.canvas.id.as_str(), t.canvas.generation)).collect();
    assert_eq!(children, vec![("a", 2), ("b", 0)]);
    assert!(tree.children.iter().all(|t| t.children.is_empty()));
}
