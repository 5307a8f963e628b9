use orchestration::entities::batch::{
    resolved_ends, ApplyTopologyBatch, BatchEdge, PortRef, BATCH_WITHOUT_CANVAS,
    UNRESOLVED_ENDPOINT,
};
use orchestration::entities::canvas::CanvasFence;
use orchestration::entities::port::PortLookup;

fn with_edges(canvas: Option<&str>, edges: &[&str]) -> ApplyTopologyBatch {
    let mut b = ApplyTopologyBatch::default();
    b.canvas = canvas.map(str::to_string);
    b.delete_edges = edges.iter().map(|e| e.to_string()).collect();
    b
}

#[test]
fn an_empty_batch_writes_nothing() {
    let b = ApplyTopologyBatch::default();
    assert!(b.is_empty());
    assert_eq!(b.target_canvas().err(), Some(BATCH_WITHOUT_CANVAS));
    assert!(!with_edges(None, &["e1"]).is_empty());
}

#[test]
fn extend_appends_section_by_section_and_keeps_the_first_canvas() {
    let mut a = with_edges(Some("c1"), &["e1"]);
    let mut b = with_edges(Some("c2"), &["e2", "e3"]);
    b.fence = Some(CanvasFence { root: "c2".to_string(), generation: 4 });
    b.add_edges.push(BatchEdge { source: PortRef::existing("x".to_string()), target: PortRef::on_lane("l", "in") });
    a.extend(b);
    assert_eq!(a.canvas.as_deref(), Some("c1"));
    assert_eq!(a.fence.as_ref().map(|f| f.generation), Some(4));
    assert_eq!(a.delete_edges, vec!["e1", "e2", "e3"]);
    assert_eq!(a.add_edges.len(), 1);
    assert!(!a.is_empty());
    let mut empty = ApplyTopologyBatch::default();
    empty.extend(ApplyTopologyBatch::default());
    assert!(empty.is_empty());
    assert_eq!(a.target_canvas().ok().map(|c| c.as_str()), Some("c1"));
}

#[test]
fn a_port_reference_names_how_it_is_found() {
    assert!(matches!(PortRef::existing("p".to_string()).lookup(), PortLookup::Given(p) if p == "p"));
    assert!(matches!(
        PortRef::on_node("n".to_string(), "k").lookup(),
        PortLookup::OnNode { node, key } if node == "n" && key == "k"
    ));
    assert!(matches!(
        PortRef::on_lane("lane", "k").lookup(),
        PortLookup::OnLane { lane_key, key } if lane_key == "lane" && key == "k"
    ));
    assert!(matches!(PortRef::default().lookup(), PortLookup::Unresolvable));
    let mut no_key = PortRef::on_node("n".to_string(), "k");
    no_key.key = None;
    assert!(matches!(no_key.lookup(), PortLookup::Unresolvable));
}

#[test]
fn both_ends_must_resolve() {
    assert_eq!(resolved_ends(Some("a".to_string()), Some("b".to_string())), Ok(("a".to_string(), "b".to_string())));
    assert_eq!(resolved_ends(None, Some("b".to_string())), Err(UNRESOLVED_ENDPOINT));
}
