//! The data grid's right-click menu: which entries appear for a given result
//! and cursor position, and which keyboard shortcut each advertises.

use vstd::prelude::*;
use vstd::string::*;

use crate::menu::AppIcon;

verus! {

/// What a context-menu entry does.
#[derive(Debug, Clone, Copy, PartialEq, Eq, Structural)]
pub enum ContextMenuAction {
    Copy,
    ViewValue,
    Paste,
    Edit,
    EditInModal,
    SetDefault,
    SetNull,
    AddRow,
    InspectRow,
    DuplicateRow,
    DeleteRow,
    ChartThisQuery,
}

/// The keymap commands the results grid binds.
#[derive(Debug, Clone, Copy, PartialEq, Eq, Structural)]
pub enum Command {
    ResultsCopyCell,
    ToggleValuePanel,
    Rename,
    ResultsAddRow,
    Delete,
}

/// One entry of the data grid's context menu.
#[derive(Debug, Clone)]
pub struct ContextMenuItem {
    /// Message-catalog key of the label; empty for a separator.
    pub label_key: String,
    pub action: Option<ContextMenuAction>,
    pub icon: Option<AppIcon>,
    pub is_separator: bool,
    pub is_danger: bool,
    /// The key that triggers the same action, as the keymap spells it.
    pub shortcut: Option<String>,
}

/// A menu entry as plain values.
pub struct MenuEntry {
    pub label: Seq<char>,
    pub action: Option<ContextMenuAction>,
    pub icon: Option<AppIcon>,
    pub is_separator: bool,
    pub is_danger: bool,
}

pub open spec fn entry_of(item: ContextMenuItem) -> MenuEntry {
    MenuEntry {
        label: item.label_key@,
        action: item.action,
        icon: item.icon,
        is_separator: item.is_separator,
        is_danger: item.is_danger,
    }
}

pub open spec fn entries_of(items: Seq<ContextMenuItem>) -> Seq<MenuEntry> {
    items.map_values(|item: ContextMenuItem| entry_of(item))
}

pub open spec fn act(label: Seq<char>, action: ContextMenuAction, icon: AppIcon, danger: bool) -> MenuEntry {
    MenuEntry { label, action: Some(action), icon: Some(icon), is_separator: false, is_danger: danger }
}

pub open spec fn sep() -> MenuEntry {
    MenuEntry { label: Seq::empty(), action: None, icon: None, is_separator: true, is_danger: false }
}

pub open spec fn when(cond: bool, entries: Seq<MenuEntry>) -> Seq<MenuEntry> {
    if cond {
        entries
    } else {
        Seq::empty()
    }
}

/// The entries of the menu over a document (key-value or document store) result.
pub open spec fn document_view_layout(is_editable: bool, has_row_target: bool) -> Seq<MenuEntry> {
    let row_items = when(has_row_target, seq![
        act("document.data.context_menu.item.copy"@, ContextMenuAction::Copy, AppIcon::Layers, false),
        act("document.data.context_menu.item.view_document"@, ContextMenuAction::EditInModal, AppIcon::Maximize2, false),
    ]);
    if is_editable {
        row_items + when(has_row_target, seq![sep()]) + seq![
            act("document.data.context_menu.item.add_document"@, ContextMenuAction::AddRow, AppIcon::Plus, false),
        ] + when(has_row_target, seq![
            act("document.data.context_menu.item.duplicate_document"@, ContextMenuAction::DuplicateRow, AppIcon::Layers, false),
            act("document.data.context_menu.item.delete_document"@, ContextMenuAction::DeleteRow, AppIcon::Delete, true),
        ])
    } else {
        row_items
    }
}

/// The entries of the menu over a table result.
pub open spec fn table_view_layout(
    is_editable: bool,
    has_row_target: bool,
    can_chart: bool,
    inspect_row_enabled: bool,
) -> Seq<MenuEntry> {
    seq![act("document.data.context_menu.item.copy"@, ContextMenuAction::Copy, AppIcon::Layers, false)]
        + when(has_row_target, seq![
            act("document.data.context_menu.item.view_value"@, ContextMenuAction::ViewValue, AppIcon::Maximize2, false),
        ])
        + when(is_editable,
            when(has_row_target, seq![
                act("document.data.context_menu.item.paste"@, ContextMenuAction::Paste, AppIcon::Download, false),
                act("document.data.context_menu.item.edit"@, ContextMenuAction::Edit, AppIcon::Pencil, false),
                act("document.data.context_menu.item.edit_in_modal"@, ContextMenuAction::EditInModal, AppIcon::Maximize2, false),
                sep(),
                act("document.data.context_menu.item.set_default"@, ContextMenuAction::SetDefault, AppIcon::RotateCcw, false),
                act("document.data.context_menu.item.set_null"@, ContextMenuAction::SetNull, AppIcon::X, false),
                sep(),
            ])
            + seq![act("document.data.context_menu.item.add_row"@, ContextMenuAction::AddRow, AppIcon::Plus, false)]
            + when(has_row_target,
                when(inspect_row_enabled, seq![
                    act("document.data.context_menu.item.inspect_row"@, ContextMenuAction::InspectRow, AppIcon::Info, false),
                ])
                + seq![
                    act("document.data.context_menu.item.duplicate_row"@, ContextMenuAction::DuplicateRow, AppIcon::Layers, false),
                    act("document.data.context_menu.item.delete_row"@, ContextMenuAction::DeleteRow, AppIcon::Delete, true),
                ]))
        + when(can_chart, seq![
            sep(),
            act("document.data.context_menu.item.chart_this_query"@, ContextMenuAction::ChartThisQuery, AppIcon::ChartSpline, false),
        ])
}

/// The entries of the data grid's context menu.
pub open spec fn context_menu_layout(
    is_editable: bool,
    is_document_view: bool,
    has_row_target: bool,
    can_chart: bool,
    inspect_row_enabled: bool,
) -> Seq<MenuEntry> {
    if is_document_view {
        document_view_layout(is_editable, has_row_target)
    } else {
        table_view_layout(is_editable, has_row_target, can_chart, inspect_row_enabled)
    }
}

fn push_action(
    items: &mut Vec<ContextMenuItem>,
    label_key: &str,
    action: ContextMenuAction,
    icon: AppIcon,
    is_danger: bool,
)
    ensures
        entries_of(final(items)@) == entries_of(old(items)@).push(act(label_key@, action, icon, is_danger)),
        final(items)@.len() == old(items)@.len() + 1,
        forall|i: int| 0 <= i < old(items)@.len() ==> final(items)@[i] == old(items)@[i],
        final(items)@.last().shortcut is None,
{
    items.push(ContextMenuItem {
        label_key: String::from_str(label_key),
        action: Some(action),
        icon: Some(icon),
        is_separator: false,
        is_danger,
        shortcut: None,
    });
    assert(entries_of(items@) =~= entries_of(old(items)@).push(act(label_key@, action, icon, is_danger)));
}

fn push_separator(items: &mut Vec<ContextMenuItem>)
    ensures
        entries_of(final(items)@) == entries_of(old(items)@).push(sep()),
        final(items)@.len() == old(items)@.len() + 1,
        forall|i: int| 0 <= i < old(items)@.len() ==> final(items)@[i] == old(items)@[i],
        final(items)@.last().shortcut is None,
{
    items.push(ContextMenuItem {
        label_key: String::new(),
        action: None,
        icon: None,
        is_separator: true,
        is_danger: false,
        shortcut: None,
    });
    assert(entries_of(items@) =~= entries_of(old(items)@).push(sep()));
}

/// The menu entries, without shortcuts.
pub fn build_menu_items(
    is_editable: bool,
    is_document_view: bool,
    has_row_target: bool,
    can_chart: bool,
    inspect_row_enabled: bool,
) -> (items: Vec<ContextMenuItem>)
    ensures
        entries_of(items@) == context_menu_layout(
            is_editable,
            is_document_view,
            has_row_target,
            can_chart,
            inspect_row_enabled,
        ),
        forall|i: int| 0 <= i < items@.len() ==> (#[trigger] items@[i]).shortcut is None,
{
    let mut items: Vec<ContextMenuItem> = Vec::new();
    proof {
        reveal_strlit("document.data.context_menu.item.copy");
    }
    if is_document_view {
        if has_row_target {
            push_action(&mut items, "document.data.context_menu.item.copy", ContextMenuAction::Copy, AppIcon::Layers, false);
            push_action(&mut items, "document.data.context_menu.item.view_document", ContextMenuAction::EditInModal, AppIcon::Maximize2, false);
        }
        if is_editable {
            if items.len() > 0 {
                push_separator(&mut items);
            }
            push_action(&mut items, "document.data.context_menu.item.add_document", ContextMenuAction::AddRow, AppIcon::Plus, false);
            if has_row_target {
                push_action(&mut items, "document.data.context_menu.item.duplicate_document", ContextMenuAction::DuplicateRow, AppIcon::Layers, false);
                push_action(&mut items, "document.data.context_menu.item.delete_document", ContextMenuAction::DeleteRow, AppIcon::Delete, true);
            }
        }
        assert(entries_of(items@) =~= document_view_layout(is_editable, has_row_target));
        return items;
    }

    push_action(&mut items, "document.data.context_menu.item.copy", ContextMenuAction::Copy, AppIcon::Layers, false);

    // Offered for read-only results too — the panel is how a long JSON or XML
    // value gets read at all. It still needs a row under the cursor.
    if has_row_target {
        push_action(&mut items, "document.data.context_menu.item.view_value", ContextMenuAction::ViewValue, AppIcon::Maximize2, false);
    }

    if is_editable {
        if has_row_target {
            push_action(&mut items, "document.data.context_menu.item.paste", ContextMenuAction::Paste, AppIcon::Download, false);
            push_action(&mut items, "document.data.context_menu.item.edit", ContextMenuAction::Edit, AppIcon::Pencil, false);
            push_action(&mut items, "document.data.context_menu.item.edit_in_modal", ContextMenuAction::EditInModal, AppIcon::Maximize2, false);
            push_separator(&mut items);
            push_action(&mut items, "document.data.context_menu.item.set_default", ContextMenuAction::SetDefault, AppIcon::RotateCcw, false);
            push_action(&mut items, "document.data.context_menu.item.set_null", ContextMenuAction::SetNull, AppIcon::X, false);
            push_separator(&mut items);
        }
        push_action(&mut items, "document.data.context_menu.item.add_row", ContextMenuAction::AddRow, AppIcon::Plus, false);
        if has_row_target {
            if inspect_row_enabled {
                push_action(&mut items, "document.data.context_menu.item.inspect_row", ContextMenuAction::InspectRow, AppIcon::Info, false);
            }
            push_action(&mut items, "document.data.context_menu.item.duplicate_row", ContextMenuAction::DuplicateRow, AppIcon::Layers, false);
            push_action(&mut items, "document.data.context_menu.item.delete_row", ContextMenuAction::DeleteRow, AppIcon::Delete, true);
        }
    }

    if can_chart {
        push_separator(&mut items);
        push_action(&mut items, "document.data.context_menu.item.chart_this_query", ContextMenuAction::ChartThisQuery, AppIcon::ChartSpline, false);
    }

    assert(entries_of(items@) =~= table_view_layout(is_editable, has_row_target, can_chart, inspect_row_enabled));
    items
}

/// The keymap command behind an action, for the actions the results grid binds.
pub open spec fn command_for(action: ContextMenuAction) -> Option<Command> {
    match action {
        ContextMenuAction::Copy => Some(Command::ResultsCopyCell),
        ContextMenuAction::ViewValue => Some(Command::ToggleValuePanel),
        ContextMenuAction::Edit => Some(Command::Rename),
        ContextMenuAction::AddRow => Some(Command::ResultsAddRow),
        ContextMenuAction::DeleteRow => Some(Command::Delete),
        _ => None,
    }
}

/// The command whose shortcut a menu action advertises, or `None` when the
/// action has no binding in the results grid. Read from the keymap rather
/// than spelled out, so a rebinding cannot leave the menu advertising a key
/// that no longer works.
pub fn action_command(action: ContextMenuAction) -> (r: Option<Command>)
    ensures
        r == command_for(action),
{
    match action {
        ContextMenuAction::Copy => Some(Command::ResultsCopyCell),
        ContextMenuAction::ViewValue => Some(Command::ToggleValuePanel),
        ContextMenuAction::Edit => Some(Command::Rename),
        ContextMenuAction::AddRow => Some(Command::ResultsAddRow),
        ContextMenuAction::DeleteRow => Some(Command::Delete),
        _ => None,
    }
}

/// The shortcut text bound to `command`: the first binding for it.
pub open spec fn binding_of(bindings: Seq<(Command, String)>, command: Command) -> Option<Seq<char>>
    decreases bindings.len(),
{
    if bindings.len() == 0 {
        None
    } else if bindings[0].0 == command {
        Some(bindings[0].1@)
    } else {
        binding_of(bindings.drop_first(), command)
    }
}

/// The shortcut an action advertises, given the keymap's bindings for the
/// results grid.
pub open spec fn shortcut_for(bindings: Seq<(Command, String)>, action: ContextMenuAction) -> Option<Seq<char>> {
    match command_for(action) {
        Some(command) => binding_of(bindings, command),
        None => None,
    }
}

fn lookup_binding(bindings: &[(Command, String)], command: Command) -> (r: Option<String>)
    ensures
        match r {
            Some(s) => binding_of(bindings@, command) == Some(s@),
            None => binding_of(bindings@, command) is None,
        },
{
    let mut i: usize = 0;
    assert(bindings@.skip(0) =~= bindings@);
    while i < bindings.len()
        invariant
            i <= bindings@.len(),
            binding_of(bindings@, command) == binding_of(bindings@.skip(i as int), command),
        decreases bindings.len() - i,
    {
        assert(bindings@.skip(i as int)[0] == bindings@[i as int]);
        if bindings[i].0 == command {
            return Some(bindings[i].1.clone());
        }
        assert(bindings@.skip(i as int).drop_first() =~= bindings@.skip(i + 1));
        i += 1;
    }
    None
}

/// The data grid's context menu for a result, with each entry's shortcut
/// taken from `bindings` (the keymap's bindings in the results grid).
pub fn build_context_menu_items(
    is_editable: bool,
    is_document_view: bool,
    has_row_target: bool,
    can_chart: bool,
    inspect_row_enabled: bool,
    bindings: &[(Command, String)],
) -> (items: Vec<ContextMenuItem>)
    ensures
        entries_of(items@) == context_menu_layout(
            is_editable,
            is_document_view,
            has_row_target,
            can_chart,
            inspect_row_enabled,
        ),
        forall|i: int| 0 <= i < items@.len() ==> match (#[trigger] items@[i]).action {
            Some(action) => match items@[i].shortcut {
                Some(s) => shortcut_for(bindings@, action) == Some(s@),
                None => shortcut_for(bindings@, action) is None,
            },
            None => items@[i].shortcut is None,
        },
{
    let mut items = build_menu_items(is_editable, is_document_view, has_row_target, can_chart, inspect_row_enabled);
    let ghost entries = entries_of(items@);
    let n = items.len();
    let mut i: usize = 0;
    while i < n
        invariant
            n == items@.len(),
            i <= n,
            entries_of(items@) == entries,
            forall|k: int| 0 <= k < i ==> match (#[trigger] items@[k]).action {
                Some(action) => match items@[k].shortcut {
                    Some(s) => shortcut_for(bindings@, action) == Some(s@),
                    None => shortcut_for(bindings@, action) is None,
                },
                None => items@[k].shortcut is None,
            },
            forall|k: int| i <= k < n ==> (#[trigger] items@[k]).shortcut is None,
        decreases n - i,
    {
        if let Some(action) = items[i].action {
            let shortcut = match action_command(action) {
                Some(command) => lookup_binding(bindings, command),
                None => None,
            };
            let item = items[i].clone_with_shortcut(shortcut);
            items.set(i, item);
            assert(entries_of(items@) =~= entries);
        }
        i += 1;
    }
    items
}

impl ContextMenuItem {
    /// A copy of this entry advertising `shortcut`.
    fn clone_with_shortcut(&self, shortcut: Option<String>) -> (r: Self)
        ensures
            entry_of(r) == entry_of(*self),
            r.shortcut == shortcut,
    {
        ContextMenuItem {
            label_key: self.label_key.clone(),
            action: self.action,
            icon: self.icon,
            is_separator: self.is_separator,
            is_danger: self.is_danger,
            shortcut,
        }
    }
}

// ---------------------------------------------------------------------------
// Laws of the context menu

/// Whether some entry of `entries` performs `action`.
pub open spec fn offers(entries: Seq<MenuEntry>, action: ContextMenuAction) -> bool {
    exists|i: int| 0 <= i < entries.len() && (#[trigger] entries[i]).action == Some(action)
}

/// Whether an action changes the data.
pub open spec fn is_edit_action(action: ContextMenuAction) -> bool {
    match action {
        ContextMenuAction::Paste | ContextMenuAction::Edit | ContextMenuAction::SetDefault
        | ContextMenuAction::SetNull | ContextMenuAction::AddRow | ContextMenuAction::DuplicateRow
        | ContextMenuAction::DeleteRow => true,
        _ => false,
    }
}

/// Whether separators only stand between entries: never first, never last,
/// never two in a row.
pub open spec fn separators_between_entries(entries: Seq<MenuEntry>) -> bool {
    &&& (entries.len() > 0 ==> !entries[0].is_separator && !entries.last().is_separator)
    &&& forall|i: int| 0 <= i < entries.len() - 1 && (#[trigger] entries[i]).is_separator
        ==> !entries[i + 1].is_separator
}

/// A table result offers "View value" exactly when there is a row under the
/// cursor — read-only results included, since the panel is how a long value
/// gets read at all.
pub proof fn law_view_value_needs_only_a_row(
    is_editable: bool,
    has_row_target: bool,
    can_chart: bool,
    inspect_row_enabled: bool,
)
    ensures
        offers(
            context_menu_layout(is_editable, false, has_row_target, can_chart, inspect_row_enabled),
            ContextMenuAction::ViewValue,
        ) == has_row_target,
{
    let e = context_menu_layout(is_editable, false, has_row_target, can_chart, inspect_row_enabled);
    if has_row_target {
        assert(e[1].action == Some(ContextMenuAction::ViewValue));
    } else {
        assert forall|i: int| 0 <= i < e.len() implies (#[trigger] e[i]).action != Some(ContextMenuAction::ViewValue) by {}
    }
}

/// A read-only result offers no entry that changes data.
pub proof fn law_read_only_results_offer_no_edits(
    is_document_view: bool,
    has_row_target: bool,
    can_chart: bool,
    inspect_row_enabled: bool,
)
    ensures
        forall|i: int|
            0 <= i < context_menu_layout(false, is_document_view, has_row_target, can_chart, inspect_row_enabled).len()
                ==> match (#[trigger] context_menu_layout(false, is_document_view, has_row_target, can_chart, inspect_row_enabled)[i]).action {
                    Some(action) => !is_edit_action(action),
                    None => true,
                },
{
}

/// The only entry marked dangerous is the one that deletes, and it appears
/// only for an editable result with a row under the cursor.
pub proof fn law_danger_is_deletion_of_an_editable_row(
    is_editable: bool,
    is_document_view: bool,
    has_row_target: bool,
    can_chart: bool,
    inspect_row_enabled: bool,
)
    ensures
        forall|i: int|
            0 <= i < context_menu_layout(is_editable, is_document_view, has_row_target, can_chart, inspect_row_enabled).len()
                && (#[trigger] context_menu_layout(is_editable, is_document_view, has_row_target, can_chart, inspect_row_enabled)[i]).is_danger
                ==> context_menu_layout(is_editable, is_document_view, has_row_target, can_chart, inspect_row_enabled)[i].action
                    == Some(ContextMenuAction::DeleteRow) && is_editable && has_row_target,
{
}

/// Separators only ever stand between two entries.
pub proof fn law_separators_stand_between_entries(
    is_editable: bool,
    is_document_view: bool,
    has_row_target: bool,
    can_chart: bool,
    inspect_row_enabled: bool,
)
    ensures
        separators_between_entries(
            context_menu_layout(is_editable, is_document_view, has_row_target, can_chart, inspect_row_enabled),
        ),
{
}

/// Whether every entry is shaped as a menu entry should be: a separator has
/// neither action nor icon, any other entry has both; an entry is marked
/// dangerous exactly when it deletes; and no action appears twice.
pub open spec fn entries_well_formed(entries: Seq<MenuEntry>) -> bool {
    &&& forall|i: int| 0 <= i < entries.len() ==> ((#[trigger] entries[i]).is_separator <==> entries[i].action is None)
    &&& forall|i: int| 0 <= i < entries.len() ==> ((#[trigger] entries[i]).is_separator <==> entries[i].icon is None)
    &&& forall|i: int| 0 <= i < entries.len() ==> ((#[trigger] entries[i]).is_danger <==> entries[i].action
        == Some(ContextMenuAction::DeleteRow))
    &&& forall|i: int, j: int|
        0 <= i < j < entries.len() && (#[trigger] entries[i]).action is Some ==> entries[i].action
            != (#[trigger] entries[j]).action
}

/// Every menu the grid builds is well formed: separators carry no action or
/// icon, every other entry carries both, deletion and only deletion is marked
/// dangerous, and no action is offered twice.
pub proof fn law_entries_are_well_formed(
    is_editable: bool,
    is_document_view: bool,
    has_row_target: bool,
    can_chart: bool,
    inspect_row_enabled: bool,
)
    ensures
        entries_well_formed(context_menu_layout(is_editable, is_document_view, has_row_target, can_chart, inspect_row_enabled)),
{
}

/// A table result offers "Chart this query" exactly when the query can be
/// charted, whether or not the result is editable and whatever the cursor is
/// on; it comes last, after a separator. A document result never offers it.
pub proof fn law_chart_offered_exactly_when_chartable(
    is_editable: bool,
    is_document_view: bool,
    has_row_target: bool,
    can_chart: bool,
    inspect_row_enabled: bool,
)
    ensures
        offers(context_menu_layout(is_editable, false, has_row_target, can_chart, inspect_row_enabled), ContextMenuAction::ChartThisQuery)
            == can_chart,
        can_chart ==> ({
            let e = context_menu_layout(is_editable, false, has_row_target, can_chart, inspect_row_enabled);
            &&& e.len() >= 2
            &&& e.last().action == Some(ContextMenuAction::ChartThisQuery)
            &&& e[e.len() - 2].is_separator
        }),
        !offers(context_menu_layout(is_editable, true, has_row_target, can_chart, inspect_row_enabled), ContextMenuAction::ChartThisQuery),
{
    let e = context_menu_layout(is_editable, false, has_row_target, can_chart, inspect_row_enabled);
    if can_chart {
        assert(e[e.len() - 1].action == Some(ContextMenuAction::ChartThisQuery));
    } else {
        assert forall|i: int| 0 <= i < e.len() implies (#[trigger] e[i]).action != Some(ContextMenuAction::ChartThisQuery) by {}
    }
    let d = context_menu_layout(is_editable, true, has_row_target, can_chart, inspect_row_enabled);
    assert forall|i: int| 0 <= i < d.len() implies (#[trigger] d[i]).action != Some(ContextMenuAction::ChartThisQuery) by {}
}

} // verus!
