use diff_it::bridge::{command_for, dispatch, update_display, ZoomCommand};
use diff_it::menu::{EntryKind, MenuError, MenuTree, UiError};
use diff_it::text::{percent_label, same_text};

fn label_of(tree: &MenuTree, id: &str) -> Option<String> {
    tree.lookup(id).map(|i| tree.entry(i).label.clone())
}

fn labels(tree: &MenuTree) -> Vec<String> {
    (0..tree.len()).map(|i| tree.entry(i).label.clone()).collect()
}

#[test]
fn build_holds_the_bridge_entries_once() {
    let tree = MenuTree::build();
    for id in ["zoom_level", "zoom_in", "zoom_out", "actual_size"] {
        let count = (0..tree.len()).filter(|&i| tree.entry(i).id == id).count();
        assert_eq!(count, 1, "{}", id);
    }
    let zl = tree.entry(tree.lookup("zoom_level").unwrap());
    assert_eq!(zl.label, "100%");
    assert_eq!(zl.kind, EntryKind::Display);
    assert!(!zl.enabled);
    let zin = tree.entry(tree.lookup("zoom_in").unwrap());
    assert_eq!(zin.accelerator.as_deref(), Some("CmdOrCtrl+="));
    let zout = tree.entry(tree.lookup("zoom_out").unwrap());
    assert_eq!(zout.accelerator.as_deref(), Some("CmdOrCtrl+-"));
    let actual = tree.entry(tree.lookup("actual_size").unwrap());
    assert_eq!(actual.accelerator.as_deref(), Some("CmdOrCtrl+0"));
    assert_eq!(actual.kind, EntryKind::Action);
}

#[test]
fn build_orders_the_top_level_menus() {
    let tree = MenuTree::build();
    let top: Vec<String> = (0..tree.len())
        .filter(|&i| tree.entry(i).parent.is_none())
        .map(|i| tree.entry(i).label.clone())
        .collect();
    assert_eq!(top, vec!["diff-it", "File", "Edit", "View", "Window"]);
    let zoom = tree.lookup("zoom_menu").unwrap();
    let view = tree.lookup("view_menu").unwrap();
    assert_eq!(tree.entry(zoom).parent, Some(view));
    assert_eq!(tree.entry(tree.lookup("zoom_level").unwrap()).parent, Some(zoom));
    assert_eq!(tree.entry(tree.lookup("actual_size").unwrap()).parent, Some(zoom));
}

#[test]
fn dispatch_zoom_in_sends_in() {
    let tree = MenuTree::build();
    assert!(tree.lookup("zoom_in").is_some());
    let e = dispatch("zoom_in", true).unwrap();
    assert_eq!(e.name, "menu-zoom");
    assert_eq!(e.payload, "in");
}

#[test]
fn dispatch_zoom_out_and_actual_size() {
    let e = dispatch("zoom_out", true).unwrap();
    assert_eq!((e.name.as_str(), e.payload.as_str()), ("menu-zoom", "out"));
    let e = dispatch("actual_size", true).unwrap();
    assert_eq!((e.name.as_str(), e.payload.as_str()), ("menu-zoom", "reset"));
}

#[test]
fn dispatch_close_window_sends_nothing() {
    assert!(dispatch("close_window", true).is_none());
}

#[test]
fn dispatch_other_ids_send_nothing() {
    let tree = MenuTree::build();
    for i in 0..tree.len() {
        let id = tree.entry(i).id.clone();
        let sent = dispatch(&id, true).is_some();
        let zoom = id == "zoom_in" || id == "zoom_out" || id == "actual_size";
        assert_eq!(sent, zoom, "{}", id);
    }
    for id in ["", "zoom", "zoom_inn", "Zoom_In", "zoom_level", "reset", "in"] {
        assert!(dispatch(id, true).is_none(), "{}", id);
    }
}

#[test]
fn dispatch_without_window_sends_nothing() {
    for id in ["zoom_in", "zoom_out", "actual_size", "undo"] {
        assert!(dispatch(id, false).is_none(), "{}", id);
    }
}

#[test]
fn command_mapping_and_payloads() {
    assert_eq!(command_for("zoom_in"), Some(ZoomCommand::In));
    assert_eq!(command_for("zoom_out"), Some(ZoomCommand::Out));
    assert_eq!(command_for("actual_size"), Some(ZoomCommand::Reset));
    assert_eq!(command_for("quit"), None);
    assert_eq!(ZoomCommand::In.payload(), "in");
    assert_eq!(ZoomCommand::Out.payload(), "out");
    assert_eq!(ZoomCommand::Reset.payload(), "reset");
}

#[test]
fn update_display_shows_150_percent() {
    let mut tree = MenuTree::build();
    update_display(&mut tree, 150);
    assert_eq!(label_of(&tree, "zoom_level").as_deref(), Some("150%"));
}

#[test]
fn update_display_touches_only_the_zoom_label() {
    let mut tree = MenuTree::build();
    let before = labels(&tree);
    update_display(&mut tree, 75);
    let after = labels(&tree);
    let zl = tree.lookup("zoom_level").unwrap();
    for i in 0..before.len() {
        if i == zl {
            assert_eq!(after[i], "75%");
        } else {
            assert_eq!(after[i], before[i]);
        }
    }
}

#[test]
fn update_display_twice_equals_once() {
    let mut once = MenuTree::build();
    update_display(&mut once, 125);
    let mut twice = MenuTree::build();
    update_display(&mut twice, 125);
    update_display(&mut twice, 125);
    assert_eq!(labels(&once), labels(&twice));
    assert_eq!(label_of(&twice, "zoom_level").as_deref(), Some("125%"));
}

#[test]
fn update_display_edge_values() {
    let mut tree = MenuTree::build();
    update_display(&mut tree, 0);
    assert_eq!(label_of(&tree, "zoom_level").as_deref(), Some("0%"));
    update_display(&mut tree, 100);
    assert_eq!(label_of(&tree, "zoom_level").as_deref(), Some("100%"));
    update_display(&mut tree, u32::MAX);
    assert_eq!(label_of(&tree, "zoom_level").as_deref(), Some("4294967295%"));
}

#[test]
fn update_display_without_zoom_level_changes_nothing() {
    let mut tree = MenuTree::new();
    let view = tree.add("view_menu", "View", EntryKind::Submenu, None, true, None).unwrap();
    tree.add("zoom_in", "Zoom In", EntryKind::Action, Some("CmdOrCtrl+="), true, Some(view)).unwrap();
    let before = labels(&tree);
    update_display(&mut tree, 150);
    assert_eq!(labels(&tree), before);
    let mut empty = MenuTree::new();
    update_display(&mut empty, 150);
    assert_eq!(empty.len(), 0);
}

#[test]
fn update_display_on_a_separator_named_zoom_level_changes_nothing() {
    let mut tree = MenuTree::new();
    tree.add("zoom_level", "", EntryKind::Separator, None, true, None).unwrap();
    update_display(&mut tree, 150);
    assert_eq!(label_of(&tree, "zoom_level").as_deref(), Some(""));
}

#[test]
fn set_label_rejections() {
    let mut tree = MenuTree::build();
    let n = tree.len();
    assert_eq!(tree.set_label(n, "x"), Err(UiError::PlatformRejected));
    let sep = tree.lookup("separator_1").unwrap();
    assert_eq!(tree.set_label(sep, "x"), Err(UiError::PlatformRejected));
    let quit = tree.lookup("quit").unwrap();
    assert_eq!(tree.set_label(quit, "Leave"), Ok(()));
    assert_eq!(tree.entry(quit).label, "Leave");
}

#[test]
fn add_rejections() {
    let mut tree = MenuTree::new();
    assert_eq!(tree.add("file_menu", "File", EntryKind::Submenu, None, true, None), Ok(0));
    assert_eq!(tree.add("close_window", "Close Window", EntryKind::Action, None, true, Some(0)), Ok(1));
    assert_eq!(
        tree.add("file_menu", "Again", EntryKind::Submenu, None, true, None),
        Err(MenuError::DuplicateId)
    );
    assert_eq!(
        tree.add("undo", "Undo", EntryKind::Action, None, true, Some(1)),
        Err(MenuError::InvalidParent)
    );
    assert_eq!(
        tree.add("redo", "Redo", EntryKind::Action, None, true, Some(7)),
        Err(MenuError::InvalidParent)
    );
    assert_eq!(tree.len(), 2);
}

#[test]
fn lookup_missing_id_is_none() {
    let tree = MenuTree::build();
    assert_eq!(tree.lookup("no_such_entry"), None);
    assert_eq!(tree.lookup(""), None);
    assert_eq!(tree.lookup("zoom_level"), Some(22));
}

#[test]
fn percent_label_values() {
    assert_eq!(percent_label(0), "0%");
    assert_eq!(percent_label(7), "7%");
    assert_eq!(percent_label(10), "10%");
    assert_eq!(percent_label(150), "150%");
    assert_eq!(percent_label(1005), "1005%");
}

#[test]
fn same_text_compares_characters() {
    assert!(same_text("zoom_in", "zoom_in"));
    assert!(!same_text("zoom_in", "zoom_out"));
    assert!(!same_text("zoom", "zoom_in"));
    assert!(same_text("", ""));
    assert!(same_text("Größe", "Größe"));
    assert!(!same_text("Größe", "Grösse"));
}

#[test]
fn update_display_on_a_submenu_named_zoom_level_changes_nothing() {
    let mut tree = MenuTree::new();
    let z = tree.add("zoom_level", "Z", EntryKind::Submenu, None, true, None).unwrap();
    tree.add("zoom_in", "Zoom In", EntryKind::Action, Some("CmdOrCtrl+="), true, Some(z)).unwrap();
    update_display(&mut tree, 150);
    assert_eq!(label_of(&tree, "zoom_level").as_deref(), Some("Z"));
    assert_eq!(label_of(&tree, "zoom_in").as_deref(), Some("Zoom In"));
}
