use dbflux::context_menu::{build_context_menu_items, build_menu_items, Command, ContextMenuAction};
use dbflux::context_menu::ContextMenuAction::{
    AddRow, ChartThisQuery, DeleteRow, DuplicateRow, Edit, EditInModal, InspectRow, Paste, SetDefault,
    SetNull, ViewValue,
};

fn actions(items: &[dbflux::context_menu::ContextMenuItem]) -> Vec<Option<ContextMenuAction>> {
    items.iter().map(|item| item.action).collect()
}

#[test]
fn editable_table_row_offers_every_edit() {
    let items = build_menu_items(true, false, true, true, true);
    assert_eq!(
        actions(&items),
        vec![
            Some(ContextMenuAction::Copy), Some(ViewValue), Some(Paste), Some(Edit), Some(EditInModal), None,
            Some(SetDefault), Some(SetNull), None, Some(AddRow), Some(InspectRow),
            Some(DuplicateRow), Some(DeleteRow), None, Some(ChartThisQuery),
        ]
    );
    assert!(items[12].is_danger);
    assert_eq!(items[0].label_key, "document.data.context_menu.item.copy");
}

#[test]
fn read_only_table_still_offers_view_value() {
    assert_eq!(actions(&build_menu_items(false, false, true, false, false)), vec![Some(ContextMenuAction::Copy), Some(ViewValue)]);
    assert_eq!(actions(&build_menu_items(false, false, false, false, false)), vec![Some(ContextMenuAction::Copy)]);
}

#[test]
fn document_view_menus() {
    assert_eq!(
        actions(&build_menu_items(true, true, true, true, true)),
        vec![Some(ContextMenuAction::Copy), Some(EditInModal), None, Some(AddRow), Some(DuplicateRow), Some(DeleteRow)]
    );
    assert_eq!(actions(&build_menu_items(true, true, false, false, false)), vec![Some(AddRow)]);
    assert!(build_menu_items(false, true, false, true, false).is_empty());
}

#[test]
fn shortcuts_come_from_the_bindings() {
    let bindings = vec![
        (Command::ResultsCopyCell, "cmd-c".to_string()),
        (Command::Delete, "x".to_string()),
        (Command::Delete, "d d".to_string()),
    ];
    let items = build_context_menu_items(true, false, true, false, false, &bindings);
    let copy = items.iter().find(|i| i.action == Some(ContextMenuAction::Copy)).unwrap();
    assert_eq!(copy.shortcut.as_deref(), Some("cmd-c"));
    let delete = items.iter().find(|i| i.action == Some(ContextMenuAction::DeleteRow)).unwrap();
    assert_eq!(delete.shortcut.as_deref(), Some("x"), "the first binding wins");
    let paste = items.iter().find(|i| i.action == Some(ContextMenuAction::Paste)).unwrap();
    assert_eq!(paste.shortcut, None, "paste has no results-grid command");
    let view = items.iter().find(|i| i.action == Some(ContextMenuAction::ViewValue)).unwrap();
    assert_eq!(view.shortcut, None, "no binding given for the value panel");
}
