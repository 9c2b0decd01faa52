use skriv::menu::{
    action_for_id, nth_action, standard_bindings, standard_menu, standard_router, Binding,
    CommandItem, MenuAction, MenuEntry, MenuError, MenuGroup, Router, StandardItem, ACTION_COUNT,
};

const PAIRS: [(&str, &str); 10] = [
    ("command_palette", "menu-command-palette"),
    ("word_wrap", "menu-word-wrap"),
    ("toggle_comment", "menu-toggle-comment"),
    ("new_tab", "menu-new-tab"),
    ("open_file", "menu-open-file"),
    ("save_file", "menu-save-file"),
    ("save_file_as", "menu-save-file-as"),
    ("format_document", "menu-format-document"),
    ("column_selection", "menu-column-selection"),
    ("toggle_theme", "menu-toggle-theme"),
];

fn binding(id: &str, event: &str) -> Binding {
    Binding { id: id.to_string(), event: event.to_string() }
}

fn item(id: &str) -> MenuEntry {
    MenuEntry::Command(CommandItem { id: id.to_string(), label: id.to_string(), accelerator: None })
}

#[test]
fn actions_map_to_their_events() {
    for k in 0..ACTION_COUNT {
        let a = nth_action(k);
        assert_eq!((a.id(), a.event()), PAIRS[k]);
        assert_eq!(action_for_id(PAIRS[k].0), Some(a));
    }
    assert_eq!(action_for_id("quit"), None);
    assert_eq!(action_for_id(""), None);
}

#[test]
fn standard_router_dispatches_every_item() {
    let router = standard_router();
    for (id, event) in PAIRS {
        assert_eq!(router.dispatch(id), Some(event.to_string()));
    }
}

#[test]
fn unknown_identifier_is_ignored() {
    let router = standard_router();
    assert_eq!(router.dispatch("about"), None);
    assert_eq!(router.dispatch("new_tab "), None);
}

#[test]
fn standard_bindings_follow_action_order() {
    let b = standard_bindings();
    assert_eq!(b.len(), 10);
    for (k, (id, event)) in PAIRS.iter().enumerate() {
        assert_eq!(b[k].id, *id);
        assert_eq!(b[k].event, *event);
    }
}

#[test]
fn standard_menu_layout() {
    let menu = standard_menu();
    let titles: Vec<&str> = menu.iter().map(|g| g.title.as_str()).collect();
    assert_eq!(titles, vec!["skriv", "File", "Edit", "View", "Window", "Help"]);
    let sizes: Vec<usize> = menu.iter().map(|g| g.entries.len()).collect();
    assert_eq!(sizes, vec![9, 7, 11, 6, 2, 0]);
    let mut ids = Vec::new();
    for g in &menu {
        for e in &g.entries {
            if let MenuEntry::Command(c) = e {
                ids.push(c.id.clone());
            }
        }
    }
    assert_eq!(
        ids,
        vec![
            "new_tab", "open_file", "save_file", "save_file_as", "toggle_comment",
            "format_document", "column_selection", "command_palette", "word_wrap", "toggle_theme"
        ]
    );
    match &menu[0].entries[0] {
        MenuEntry::Standard(StandardItem::About, Some(label)) => assert_eq!(label, "About skriv"),
        _ => panic!("the application menu starts with About"),
    }
    match &menu[3].entries[2] {
        MenuEntry::Command(c) => {
            assert_eq!(c.label, "Word Wrap");
            assert_eq!(c.accelerator.as_deref(), Some("Alt+Z"));
        }
        _ => panic!("Word Wrap expected"),
    }
}

#[test]
fn build_fails_on_incomplete_mapping() {
    let mut bindings = standard_bindings();
    bindings.pop();
    match Router::build(standard_menu(), bindings) {
        Err(e) => assert_eq!(e, MenuError::Unmapped("toggle_theme".to_string())),
        Ok(_) => panic!("an unmapped item must fail the build"),
    }
}

#[test]
fn build_fails_on_duplicate_binding() {
    let menu = vec![MenuGroup { title: "File".to_string(), entries: vec![item("a")] }];
    let bindings = vec![binding("a", "menu-a"), binding("b", "menu-b"), binding("a", "menu-a2")];
    match Router::build(menu, bindings) {
        Err(e) => assert_eq!(e, MenuError::Duplicate("a".to_string())),
        Ok(_) => panic!("a duplicate binding must fail the build"),
    }
}

#[test]
fn build_accepts_custom_complete_mapping() {
    let menu = vec![MenuGroup {
        title: "Edit".to_string(),
        entries: vec![MenuEntry::Separator, item("x"), MenuEntry::Standard(StandardItem::Copy, None)],
    }];
    let router = match Router::build(menu, vec![binding("x", "menu-x"), binding("y", "menu-y")]) {
        Ok(r) => r,
        Err(e) => panic!("unexpected {:?}", e),
    };
    assert_eq!(router.dispatch("x"), Some("menu-x".to_string()));
    assert_eq!(router.dispatch("y"), Some("menu-y".to_string()));
    assert_eq!(router.dispatch("z"), None);
    assert_eq!(router.menu().len(), 1);
    assert!(matches!(MenuAction::NewTab.id(), "new_tab"));
}
