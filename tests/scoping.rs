use lulu_ui::scope::{BridgeError, BuildStep, NodeKind, ScopeArena, UiNode};

#[test]
fn closed_handle_is_stale() {
    let mut a = ScopeArena::new();
    let root = a.open_root().unwrap();
    let child = a.open_child(root, "horizontal".to_string()).unwrap();
    assert_eq!(a.add_widget(child, "label".to_string()), Ok(2));
    assert_eq!(a.close(child), Ok(()));
    let before = a.node_count();
    assert_eq!(a.add_widget(child, "button".to_string()), Err(BridgeError::StaleHandle));
    assert_eq!(a.check(child), Err(BridgeError::StaleHandle));
    assert_eq!(a.close(child), Err(BridgeError::StaleHandle));
    assert_eq!(a.node_count(), before);
    // The outer handle is still good.
    assert_eq!(a.add_widget(root, "label".to_string()), Ok(3));
}

#[test]
fn stale_handle_stays_stale_after_later_calls() {
    let mut a = ScopeArena::new();
    let root = a.open_root().unwrap();
    let first = a.open_child(root, "group".to_string()).unwrap();
    a.close(first).unwrap();
    // A sibling opened at the same depth gets a different generation.
    let second = a.open_child(root, "group".to_string()).unwrap();
    assert_eq!(second.level, first.level);
    assert_ne!(second.generation, first.generation);
    assert_eq!(a.check(first), Err(BridgeError::StaleHandle));
    assert!(a.check(second).is_ok());
}

#[test]
fn outer_handle_is_busy_while_inner_call_runs() {
    let mut a = ScopeArena::new();
    let root = a.open_root().unwrap();
    let inner = a.open_child(root, "vertical".to_string()).unwrap();
    assert_eq!(a.add_widget(root, "label".to_string()), Err(BridgeError::Busy));
    assert_eq!(a.close(root), Err(BridgeError::Busy));
    assert_eq!(a.open_root(), Err(BridgeError::Busy));
    assert!(a.is_live(root));
    a.close(inner).unwrap();
    assert!(a.add_widget(root, "label".to_string()).is_ok());
}

#[test]
fn previous_frame_handles_are_stale() {
    let mut a = ScopeArena::new();
    let root = a.open_root().unwrap();
    a.add_widget(root, "label".to_string()).unwrap();
    a.begin_frame();
    assert_eq!(a.node_count(), 1);
    assert_eq!(a.depth(), 0);
    assert_eq!(a.check(root), Err(BridgeError::StaleHandle));
    let root2 = a.open_root().unwrap();
    assert_eq!(root2.level, root.level);
    assert_eq!(a.add_widget(root, "label".to_string()), Err(BridgeError::StaleHandle));
}

fn steps() -> Vec<BuildStep> {
    vec![
        BuildStep::Widget("heading".to_string()),
        BuildStep::Enter("horizontal".to_string()),
        BuildStep::Widget("button".to_string()),
        BuildStep::Widget("label".to_string()),
        BuildStep::Leave,
        BuildStep::Enter("scroll_area".to_string()),
        BuildStep::Widget("text_edit".to_string()),
    ]
}

#[test]
fn rebuilding_twice_gives_identical_trees() {
    let mut a = ScopeArena::new();
    a.rebuild(&steps()).unwrap();
    let first: Vec<UiNode> = (0..a.node_count())
        .map(|i| UiNode { parent: a.node(i).parent, kind: copy_kind(&a.node(i).kind) })
        .collect();
    // Leave some garbage open before the next frame.
    let r = a.open_root().unwrap();
    a.open_child(r, "window".to_string()).unwrap();
    a.rebuild(&steps()).unwrap();
    assert_eq!(a.node_count(), first.len());
    for (i, n) in first.iter().enumerate() {
        assert_eq!(a.node(i), n);
    }
    assert_eq!(a.depth(), 0);
    assert_eq!(first[3].parent, 2);
    assert_eq!(first[6].parent, 5);
    assert_eq!(first[0].kind, NodeKind::Root);
}

fn copy_kind(k: &NodeKind) -> NodeKind {
    match k {
        NodeKind::Root => NodeKind::Root,
        NodeKind::Container(s) => NodeKind::Container(s.clone()),
        NodeKind::Widget(s) => NodeKind::Widget(s.clone()),
    }
}

#[test]
fn rebuild_rejects_steps_after_last_leave() {
    let mut a = ScopeArena::new();
    let bad = vec![BuildStep::Leave, BuildStep::Widget("label".to_string())];
    assert_eq!(a.rebuild(&bad), Err(BridgeError::StaleHandle));
}
