use dbflux::menu::AppIcon;
use dbflux::tab_bar::{
    group_band_starts, next_actionable_index, prev_actionable_index, tab_tooltip, window_title,
    tab_look, DocumentIcon, DocumentId, TabBar, TabBarEvent, TabContextMenu, TabDrag, TabGroupKey, TAB_MENU_CLOSE,
    TAB_MENU_CLOSE_ALL, TAB_MENU_CLOSE_LEFT, TAB_MENU_CLOSE_OTHERS, TAB_MENU_CLOSE_RIGHT,
    TAB_MENU_SEPARATOR,
};

#[test]
fn window_title_leads_with_the_document_then_its_database() {
    assert_eq!(
        window_title(Some(("flags", Some("monixa-test"))), "DBFlux"),
        "flags - monixa-test - DBFlux"
    );
}

#[test]
fn window_title_falls_back_to_the_product_alone() {
    assert_eq!(
        window_title(Some(("query.sql", None)), "DBFlux"),
        "query.sql - DBFlux"
    );
    assert_eq!(window_title(None, "DBFlux"), "DBFlux");
}

#[test]
fn tooltip_restores_the_qualified_name() {
    assert_eq!(
        tab_tooltip("flags", Some("monixa-test")),
        "monixa-test.flags"
    );
}

#[test]
fn tooltip_is_the_bare_title_without_a_group() {
    assert_eq!(tab_tooltip("query.sql", None), "query.sql");
}

#[test]
fn build_tab_menu_items_returns_correct_structure() {
    let items = TabBar::build_tab_menu_items();

    assert_eq!(items.len(), 6);
    assert_eq!(items[TAB_MENU_CLOSE].label_key, "document.tabs.menu.close");
    assert_eq!(items[TAB_MENU_CLOSE_OTHERS].label_key, "document.tabs.menu.close_others");
    assert_eq!(items[TAB_MENU_CLOSE_ALL].label_key, "document.tabs.menu.close_all");
    assert!(items[TAB_MENU_SEPARATOR].is_separator);
    assert_eq!(items[TAB_MENU_CLOSE_LEFT].label_key, "document.tabs.menu.close_left");
    assert_eq!(items[TAB_MENU_CLOSE_RIGHT].label_key, "document.tabs.menu.close_right");
}

#[test]
fn build_tab_menu_items_have_icons() {
    let items = TabBar::build_tab_menu_items();

    for (idx, item) in items.iter().enumerate() {
        if item.is_separator {
            assert!(item.icon.is_none(), "separator should have no icon");
        } else {
            assert!(item.icon.is_some(), "item {} should have an icon", idx);
        }
    }
    assert_eq!(items[TAB_MENU_CLOSE_LEFT].icon, Some(AppIcon::ChevronLeft));
    assert_eq!(items[TAB_MENU_CLOSE_RIGHT].icon, Some(AppIcon::ChevronRight));
}

#[test]
fn no_tab_menu_items_are_danger_or_submenu() {
    let items = TabBar::build_tab_menu_items();

    for item in &items {
        assert!(!item.is_danger);
        assert!(!item.has_submenu);
    }
}

#[test]
fn next_actionable_skips_separator() {
    let items = TabBar::build_tab_menu_items();

    // 0 -> 1 -> 2 -> 4 (skip separator at 3) -> 5
    assert_eq!(next_actionable_index(0, &items), 1);
    assert_eq!(next_actionable_index(1, &items), 2);
    assert_eq!(next_actionable_index(2, &items), 4);
    assert_eq!(next_actionable_index(4, &items), 5);
}

#[test]
fn next_actionable_stays_at_end() {
    let items = TabBar::build_tab_menu_items();
    assert_eq!(next_actionable_index(5, &items), 5);
}

#[test]
fn prev_actionable_skips_separator() {
    let items = TabBar::build_tab_menu_items();

    // 5 -> 4 -> 2 (skip separator at 3) -> 1 -> 0
    assert_eq!(prev_actionable_index(5, &items), 4);
    assert_eq!(prev_actionable_index(4, &items), 2);
    assert_eq!(prev_actionable_index(2, &items), 1);
    assert_eq!(prev_actionable_index(1, &items), 0);
}

#[test]
fn prev_actionable_stays_at_start() {
    let items = TabBar::build_tab_menu_items();
    assert_eq!(prev_actionable_index(0, &items), 0);
}

#[test]
fn menu_entries_ask_for_their_close_request() {
    let tab = DocumentId(7);
    let expected = [
        (TAB_MENU_CLOSE, Some(TabBarEvent::CloseTab(tab))),
        (TAB_MENU_CLOSE_OTHERS, Some(TabBarEvent::CloseOtherTabs(tab))),
        (TAB_MENU_CLOSE_ALL, Some(TabBarEvent::CloseAllTabs)),
        (TAB_MENU_SEPARATOR, None),
        (TAB_MENU_CLOSE_LEFT, Some(TabBarEvent::CloseTabsToLeft(tab))),
        (TAB_MENU_CLOSE_RIGHT, Some(TabBarEvent::CloseTabsToRight(tab))),
    ];
    for (index, event) in expected {
        let mut bar = TabBar::new();
        bar.open_context_menu_for(tab, 2);
        assert_eq!(bar.context_menu_execute_at(index), event);
        assert!(!bar.has_context_menu_open(), "running an entry closes the menu");
    }
    let mut bar = TabBar::new();
    assert_eq!(bar.context_menu_execute_at(TAB_MENU_CLOSE), None, "no menu, no request");
}

#[test]
fn keyboard_walks_the_menu_past_the_separator() {
    let mut bar = TabBar::new();
    bar.open_context_menu_for(DocumentId(1), 0);
    let mut seen = Vec::new();
    for _ in 0..6 {
        bar.context_menu_select_next();
        seen.push(bar.context_menu_state().unwrap().selected_index);
    }
    assert_eq!(seen, vec![1, 2, 4, 5, 5, 5]);
    bar.context_menu_select_prev();
    bar.context_menu_select_prev();
    assert_eq!(bar.context_menu_state().unwrap().selected_index, 2);
    assert_eq!(bar.context_menu_execute(), Some(TabBarEvent::CloseAllTabs));
}

#[test]
fn hover_moves_the_highlight_once() {
    let mut bar = TabBar::new();
    assert!(!bar.context_menu_hover_at(3), "nothing to highlight without a menu");
    bar.open_context_menu_for(DocumentId(1), 0);
    assert!(bar.context_menu_hover_at(4));
    assert!(!bar.context_menu_hover_at(4));
    assert_eq!(
        bar.context_menu_state(),
        Some(&TabContextMenu { tab_id: DocumentId(1), tab_index: 0, selected_index: 4 })
    );
    bar.close_context_menu();
    assert!(!bar.has_context_menu_open());
}

#[test]
fn menu_for_the_active_tab_finds_its_position() {
    let docs = [DocumentId(10), DocumentId(20), DocumentId(30)];
    let mut bar = TabBar::new();
    bar.open_context_menu_for_active(None, &docs);
    assert!(!bar.has_context_menu_open());
    bar.open_context_menu_for_active(Some(DocumentId(30)), &docs);
    assert_eq!(bar.context_menu_state().unwrap().tab_index, 2);
    bar.open_context_menu_for_active(Some(DocumentId(99)), &docs);
    assert_eq!(bar.context_menu_state().unwrap().tab_index, 0);
}

#[test]
fn drop_marker_follows_the_drag_and_clears_on_release() {
    let mut bar = TabBar::new();
    assert!(bar.drag_over(2));
    assert!(!bar.drag_over(2));
    assert!(bar.drag_over(3));
    let drag = TabDrag::new(0, "flags".to_string());
    assert_eq!(bar.drop_tab(&drag, 3), (0, 3));
    assert_eq!(drag.label, "flags");
    assert!(!bar.clear_drop_target());
    bar.drag_over(1);
    assert!(bar.clear_drop_target());
}

#[test]
fn newly_active_tab_is_scrolled_into_view_once() {
    let docs = [DocumentId(10), DocumentId(20)];
    let mut bar = TabBar::new();
    assert_eq!(bar.sync_active_tab(Some(DocumentId(20)), &docs), Some(1));
    assert_eq!(bar.sync_active_tab(Some(DocumentId(20)), &docs), None);
    assert_eq!(bar.sync_active_tab(None, &docs), None);
}

#[test]
fn band_label_marks_the_first_tab_of_each_database_run() {
    let key = |conn: u128, db: &str| Some(TabGroupKey { connection_id: Some(conn), database: db.to_string() });
    let groups = vec![key(1, "a"), key(1, "a"), None, key(1, "a"), key(2, "a"), key(2, "b")];
    assert_eq!(group_band_starts(&groups), vec![true, false, false, true, true, true]);
}

#[test]
fn tab_look_marks_the_active_busy_and_unsaved_tab() {
    let look = tab_look(2, DocumentId(7), DocumentIcon::RedisKey, Some(DocumentId(7)), true, true, Some(2));
    assert_eq!(look.icon, AppIcon::Hash);
    assert!(look.active && look.spinner && look.unsaved_dot && look.drop_marker);
    let other = tab_look(0, DocumentId(8), DocumentIcon::Buckets, Some(DocumentId(7)), false, false, Some(2));
    assert_eq!(other.icon, AppIcon::Box);
    assert!(!other.active && !other.spinner && !other.unsaved_dot && !other.drop_marker);
    assert_eq!(tab_look(0, DocumentId(1), DocumentIcon::Mongo, None, false, false, None).icon, AppIcon::Database);
}
