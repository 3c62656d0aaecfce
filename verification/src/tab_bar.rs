//! Decisions behind the document tab bar: the window title, tab tooltips, the
//! tab context menu (its entries, keyboard navigation and what each entry
//! asks for), and the drag-to-reorder marker.
//!
//! Drawing the bar is the interface layer's job; it keeps a [`TabBar`] and
//! asks it what to do.

use vstd::prelude::*;
use vstd::string::*;

use crate::menu::{AppIcon, MenuItem};

verus! {

/// Identifies an open document (the 128-bit value of its UUID).
#[derive(Debug, Clone, Copy, PartialEq, Eq, Structural)]
pub struct DocumentId(pub u128);

/// Requests the tab bar sends to the workspace.
#[derive(Debug, Clone, Copy, PartialEq, Eq, Structural)]
pub enum TabBarEvent {
    NewTabRequested,
    CloseTab(DocumentId),
    CloseOtherTabs(DocumentId),
    CloseAllTabs,
    CloseTabsToLeft(DocumentId),
    CloseTabsToRight(DocumentId),
}

pub const TAB_MENU_CLOSE: usize = 0;
pub const TAB_MENU_CLOSE_OTHERS: usize = 1;
pub const TAB_MENU_CLOSE_ALL: usize = 2;
pub const TAB_MENU_SEPARATOR: usize = 3;
pub const TAB_MENU_CLOSE_LEFT: usize = 4;
pub const TAB_MENU_CLOSE_RIGHT: usize = 5;

/// `s` as an optional view.
pub open spec fn opt_str_view(s: Option<&str>) -> Option<Seq<char>> {
    match s {
        Some(t) => Some(t@),
        None => None,
    }
}

/// The window title: the active document, the database it belongs to, then
/// the product name.
pub open spec fn window_title_text(document: Option<(Seq<char>, Option<Seq<char>>)>, product: Seq<char>) -> Seq<char> {
    match document {
        Some((title, Some(group))) => title + " - "@ + group + " - "@ + product,
        Some((title, None)) => title + " - "@ + product,
        None => product,
    }
}

/// Title for the application window: the active document, the database it
/// belongs to, then the product name — so the part that changes is the part
/// the window list shows first.
pub fn window_title(document: Option<(&str, Option<&str>)>, product: &str) -> (r: String)
    ensures
        r@ == window_title_text(
            match document {
                Some((title, group)) => Some((title@, opt_str_view(group))),
                None => None,
            },
            product@,
        ),
{
    match document {
        Some((title, Some(group))) => {
            let mut out = String::from_str(title);
            out.append(" - ");
            out.append(group);
            out.append(" - ");
            out.append(product);
            out
        },
        Some((title, None)) => {
            let mut out = String::from_str(title);
            out.append(" - ");
            out.append(product);
            out
        },
        None => String::from_str(product),
    }
}

/// What a tab's tooltip says: the database and the title together, so two
/// tabs named `flags` in different databases stay tellable apart on hover.
pub fn tab_tooltip(title: &str, group: Option<&str>) -> (r: String)
    ensures
        r@ == (match group {
            Some(g) => g@ + "."@ + title@,
            None => title@,
        }),
{
    match group {
        Some(group) => {
            let mut out = String::from_str(group);
            out.append(".");
            out.append(title);
            out
        },
        None => String::from_str(title),
    }
}

/// What kind of document a tab holds.
#[derive(Debug, Clone, Copy, PartialEq, Eq, Structural)]
pub enum DocumentIcon {
    Sql,
    Table,
    Redis,
    RedisKey,
    Terminal,
    Mongo,
    Collection,
    Script,
    Audit,
    Chart,
    Dashboard,
    Buckets,
    ObjectBrowser,
    DumpAnalysis,
}

/// The icon a tab shows for its kind of document.
pub open spec fn icon_for(icon: DocumentIcon) -> AppIcon {
    match icon {
        DocumentIcon::Sql => AppIcon::Code,
        DocumentIcon::Table => AppIcon::Table,
        DocumentIcon::Redis => AppIcon::Database,
        DocumentIcon::RedisKey => AppIcon::Hash,
        DocumentIcon::Terminal => AppIcon::SquareTerminal,
        DocumentIcon::Mongo => AppIcon::Database,
        DocumentIcon::Collection => AppIcon::Folder,
        DocumentIcon::Script => AppIcon::ScrollText,
        DocumentIcon::Audit => AppIcon::ScrollText,
        DocumentIcon::Chart => AppIcon::ChartSpline,
        DocumentIcon::Dashboard => AppIcon::ChartSpline,
        DocumentIcon::Buckets => AppIcon::Box,
        DocumentIcon::ObjectBrowser => AppIcon::Folder,
        DocumentIcon::DumpAnalysis => AppIcon::HardDrive,
    }
}

/// How one tab is drawn.
#[derive(Debug, Clone, Copy, PartialEq, Eq, Structural)]
pub struct TabLook {
    pub icon: AppIcon,
    /// The active tab: stripe, wider, and the context menu anchors on it.
    pub active: bool,
    /// The amber dot of a document with unsaved changes.
    pub unsaved_dot: bool,
    /// A spinner in place of the close button while the document runs.
    pub spinner: bool,
    /// The insertion marker of a tab being dragged over this one.
    pub drop_marker: bool,
}

/// How tab `index` (document `id`, of kind `icon`) is drawn, given the
/// active document and the drop marker.
pub fn tab_look(
    index: usize,
    id: DocumentId,
    icon: DocumentIcon,
    active_id: Option<DocumentId>,
    executing: bool,
    modified: bool,
    drop_target_index: Option<usize>,
) -> (r: TabLook)
    ensures
        r.icon == icon_for(icon),
        r.active == (active_id == Some(id)),
        r.unsaved_dot == modified,
        r.spinner == executing,
        r.drop_marker == (drop_target_index == Some(index)),
{
    let app_icon = match icon {
        DocumentIcon::Sql => AppIcon::Code,
        DocumentIcon::Table => AppIcon::Table,
        DocumentIcon::Redis => AppIcon::Database,
        DocumentIcon::RedisKey => AppIcon::Hash,
        DocumentIcon::Terminal => AppIcon::SquareTerminal,
        DocumentIcon::Mongo => AppIcon::Database,
        DocumentIcon::Collection => AppIcon::Folder,
        DocumentIcon::Script => AppIcon::ScrollText,
        DocumentIcon::Audit => AppIcon::ScrollText,
        DocumentIcon::Chart => AppIcon::ChartSpline,
        DocumentIcon::Dashboard => AppIcon::ChartSpline,
        DocumentIcon::Buckets => AppIcon::Box,
        DocumentIcon::ObjectBrowser => AppIcon::Folder,
        DocumentIcon::DumpAnalysis => AppIcon::HardDrive,
    };
    let active = match active_id {
        Some(a) => a == id,
        None => false,
    };
    let drop_marker = match drop_target_index {
        Some(t) => t == index,
        None => false,
    };
    TabLook { icon: app_icon, active, unsaved_dot: modified, spinner: executing, drop_marker }
}

/// The next index after `current` that is not a separator, or `current` when
/// there is none.
pub open spec fn is_next_actionable(current: int, items: Seq<MenuItem>, r: int) -> bool {
    ||| (r == current && forall|k: int| current < k < items.len() ==> #[trigger] items[k].is_separator)
    ||| (current < r < items.len() && !items[r].is_separator && forall|k: int|
        current < k < r ==> #[trigger] items[k].is_separator)
}

/// The previous index before `current` that is not a separator, or `current`
/// when there is none.
pub open spec fn is_prev_actionable(current: int, items: Seq<MenuItem>, r: int) -> bool {
    ||| (r == current && forall|k: int| 0 <= k < current ==> #[trigger] items[k].is_separator)
    ||| (0 <= r < current && !items[r].is_separator && forall|k: int|
        r < k < current ==> #[trigger] items[k].is_separator)
}

/// Returns the next non-separator index after `current`, or `current` if at the end.
pub fn next_actionable_index(current: usize, items: &[MenuItem]) -> (r: usize)
    requires
        current < usize::MAX,
    ensures
        is_next_actionable(current as int, items@, r as int),
        current < items@.len() && !items@[current as int].is_separator ==> r < items@.len()
            && !items@[r as int].is_separator,
{
    let mut idx = current + 1;
    while idx < items.len()
        invariant
            current < idx,
            forall|k: int| current < k < idx ==> #[trigger] items@[k].is_separator,
        decreases items.len() - idx,
    {
        if !items[idx].is_separator {
            return idx;
        }
        idx += 1;
    }
    current
}

/// Returns the previous non-separator index before `current`, or `current` if at the start.
pub fn prev_actionable_index(current: usize, items: &[MenuItem]) -> (r: usize)
    requires
        current <= items@.len(),
    ensures
        is_prev_actionable(current as int, items@, r as int),
        current < items@.len() && !items@[current as int].is_separator ==> r < items@.len()
            && !items@[r as int].is_separator,
{
    if current == 0 {
        return current;
    }
    let mut idx = current - 1;
    loop
        invariant
            idx < current <= items@.len(),
            forall|k: int| idx < k < current ==> #[trigger] items@[k].is_separator,
        decreases idx,
    {
        if !items[idx].is_separator {
            return idx;
        }
        if idx == 0 {
            return current;
        }
        idx -= 1;
    }
}

/// The tab context menu's entries, in order.
pub open spec fn tab_menu_layout(items: Seq<MenuItem>) -> bool {
    &&& items.len() == 6
    &&& items[0].label_key@ == "document.tabs.menu.close"@ && items[0].icon == Some(AppIcon::X)
    &&& items[1].label_key@ == "document.tabs.menu.close_others"@ && items[1].icon == Some(AppIcon::X)
    &&& items[2].label_key@ == "document.tabs.menu.close_all"@ && items[2].icon == Some(AppIcon::X)
    &&& items[3].is_separator && items[3].icon is None
    &&& items[4].label_key@ == "document.tabs.menu.close_left"@ && items[4].icon == Some(AppIcon::ChevronLeft)
    &&& items[5].label_key@ == "document.tabs.menu.close_right"@ && items[5].icon == Some(AppIcon::ChevronRight)
    &&& forall|i: int| 0 <= i < 6 && i != 3 ==> !(#[trigger] items[i]).is_separator
    &&& forall|i: int| 0 <= i < 6 ==> !(#[trigger] items[i]).is_danger && !items[i].has_submenu
}

/// What the menu entry at `index` asks for on the tab `tab_id`.
pub open spec fn tab_menu_request(index: int, tab_id: DocumentId) -> Option<TabBarEvent> {
    if index == 0 {
        Some(TabBarEvent::CloseTab(tab_id))
    } else if index == 1 {
        Some(TabBarEvent::CloseOtherTabs(tab_id))
    } else if index == 2 {
        Some(TabBarEvent::CloseAllTabs)
    } else if index == 4 {
        Some(TabBarEvent::CloseTabsToLeft(tab_id))
    } else if index == 5 {
        Some(TabBarEvent::CloseTabsToRight(tab_id))
    } else {
        None
    }
}

/// Where the highlight goes on "next" from `s`: separators are skipped, and
/// the last entry stays put.
pub open spec fn tab_menu_next(s: int) -> int {
    if 0 <= s <= 1 {
        s + 1
    } else if s == 2 || s == 3 {
        4
    } else if s == 4 {
        5
    } else {
        s
    }
}

/// Where the highlight goes on "previous" from `s` (an entry, or just past
/// the last one): separators are skipped and the first entry stays put.
pub open spec fn tab_menu_prev(s: int) -> int {
    if 1 <= s <= 3 {
        s - 1
    } else if s == 4 {
        2
    } else if s == 5 || s == 6 {
        s - 1
    } else {
        s
    }
}

/// A tab being dragged to a new position in the bar.
#[derive(Debug, Clone)]
pub struct TabDrag {
    /// Where the tab sat when the drag started: the source index of the move,
    /// since by drop time the pointer only tells where it landed.
    pub index: usize,
    /// The label that follows the cursor.
    pub label: String,
}

impl TabDrag {
    pub fn new(index: usize, label: String) -> (r: Self)
        ensures
            r.index == index,
            r.label@ == label@,
    {
        TabDrag { index, label }
    }
}

/// Moving the highlight with the keyboard never lands on the separator or
/// past the entries: from an entry, "next" and "previous" reach an entry,
/// and running it asks for something.
pub proof fn law_tab_menu_highlight_stays_on_entries(s: int, tab_id: DocumentId)
    requires
        0 <= s < 6,
        s != TAB_MENU_SEPARATOR,
    ensures
        0 <= tab_menu_next(s) < 6 && tab_menu_next(s) != TAB_MENU_SEPARATOR,
        0 <= tab_menu_prev(s) < 6 && tab_menu_prev(s) != TAB_MENU_SEPARATOR,
        tab_menu_request(tab_menu_next(s), tab_id) is Some,
        tab_menu_request(tab_menu_prev(s), tab_id) is Some,
{
}

/// An open tab context menu.
#[derive(Debug, Clone, Copy, PartialEq, Eq, Structural)]
pub struct TabContextMenu {
    pub tab_id: DocumentId,
    pub tab_index: usize,
    pub selected_index: usize,
}

/// The tab bar's own state: the open context menu, the drop marker of a tab
/// being dragged, and the tab that was active at the last draw.
pub struct TabBar {
    pub context_menu: Option<TabContextMenu>,
    pub drop_target_index: Option<usize>,
    pub last_active_id: Option<DocumentId>,
}

impl TabBar {
    /// A bar with no menu open, nothing being dragged and no tab seen yet.
    pub fn new() -> (r: Self)
        ensures
            r.context_menu is None,
            r.drop_target_index is None,
            r.last_active_id is None,
    {
        TabBar { context_menu: None, drop_target_index: None, last_active_id: None }
    }

    pub fn context_menu_state(&self) -> (r: Option<&TabContextMenu>)
        ensures
            match r {
                Some(m) => self.context_menu == Some(*m),
                None => self.context_menu is None,
            },
    {
        self.context_menu.as_ref()
    }

    pub fn close_context_menu(&mut self)
        ensures
            final(self).context_menu is None,
            final(self).drop_target_index == old(self).drop_target_index,
            final(self).last_active_id == old(self).last_active_id,
    {
        self.context_menu = None;
    }

    /// Moves the menu's highlight to `index`; returns whether anything changed
    /// (and the bar needs redrawing).
    pub fn context_menu_hover_at(&mut self, index: usize) -> (changed: bool)
        ensures
            changed == (old(self).context_menu matches Some(m) && m.selected_index != index),
            final(self).context_menu == (match old(self).context_menu {
                Some(m) => Some(TabContextMenu { selected_index: index, ..m }),
                None => None,
            }),
            final(self).drop_target_index == old(self).drop_target_index,
            final(self).last_active_id == old(self).last_active_id,
    {
        match self.context_menu {
            Some(menu) => {
                if menu.selected_index != index {
                    self.context_menu = Some(TabContextMenu { selected_index: index, ..menu });
                    true
                } else {
                    false
                }
            },
            None => false,
        }
    }

    /// Runs the menu entry at `action_index`: the menu closes, and the request
    /// the entry stands for (if any) is returned for the workspace.
    pub fn context_menu_execute_at(&mut self, action_index: usize) -> (r: Option<TabBarEvent>)
        ensures
            final(self).context_menu is None,
            r == (match old(self).context_menu {
                Some(m) => tab_menu_request(action_index as int, m.tab_id),
                None => None,
            }),
            final(self).drop_target_index == old(self).drop_target_index,
            final(self).last_active_id == old(self).last_active_id,
    {
        let menu = match self.context_menu.take() {
            Some(menu) => menu,
            None => return None,
        };
        let tab_id = menu.tab_id;
        if action_index == TAB_MENU_CLOSE {
            Some(TabBarEvent::CloseTab(tab_id))
        } else if action_index == TAB_MENU_CLOSE_OTHERS {
            Some(TabBarEvent::CloseOtherTabs(tab_id))
        } else if action_index == TAB_MENU_CLOSE_ALL {
            Some(TabBarEvent::CloseAllTabs)
        } else if action_index == TAB_MENU_CLOSE_LEFT {
            Some(TabBarEvent::CloseTabsToLeft(tab_id))
        } else if action_index == TAB_MENU_CLOSE_RIGHT {
            Some(TabBarEvent::CloseTabsToRight(tab_id))
        } else {
            None
        }
    }

    /// The entries of the tab context menu.
    pub fn build_tab_menu_items() -> (r: Vec<MenuItem>)
        ensures
            tab_menu_layout(r@),
    {
        let mut items: Vec<MenuItem> = Vec::new();
        items.push(MenuItem::new("document.tabs.menu.close").icon(AppIcon::X));
        items.push(MenuItem::new("document.tabs.menu.close_others").icon(AppIcon::X));
        items.push(MenuItem::new("document.tabs.menu.close_all").icon(AppIcon::X));
        items.push(MenuItem::separator());
        items.push(MenuItem::new("document.tabs.menu.close_left").icon(AppIcon::ChevronLeft));
        items.push(MenuItem::new("document.tabs.menu.close_right").icon(AppIcon::ChevronRight));
        items
    }

    pub fn has_context_menu_open(&self) -> (r: bool)
        ensures
            r == (self.context_menu is Some),
    {
        self.context_menu.is_some()
    }

    /// Opens the menu for the tab the user right-clicked.
    pub fn open_context_menu_for(&mut self, tab_id: DocumentId, tab_index: usize)
        ensures
            final(self).context_menu == Some(TabContextMenu { tab_id, tab_index, selected_index: 0 }),
            final(self).drop_target_index == old(self).drop_target_index,
            final(self).last_active_id == old(self).last_active_id,
    {
        self.context_menu = Some(TabContextMenu { tab_id, tab_index, selected_index: 0 });
    }

    /// Opens the menu for the active tab (keyboard shortcut). `documents` are
    /// the open tabs in order; an active tab missing from them is taken as the
    /// first. Nothing happens without an active tab.
    pub fn open_context_menu_for_active(&mut self, active_id: Option<DocumentId>, documents: &[DocumentId])
        ensures
            match active_id {
                None => final(self).context_menu == old(self).context_menu,
                Some(id) => final(self).context_menu matches Some(m) && m.tab_id == id && m.selected_index == 0
                    && (if documents@.contains(id) {
                        m.tab_index < documents@.len() && documents@[m.tab_index as int] == id
                            && forall|k: int| 0 <= k < m.tab_index ==> #[trigger] documents@[k] != id
                    } else {
                        m.tab_index == 0
                    }),
            },
            final(self).drop_target_index == old(self).drop_target_index,
            final(self).last_active_id == old(self).last_active_id,
    {
        let active = match active_id {
            Some(id) => id,
            None => return,
        };
        let mut index: usize = 0;
        while index < documents.len()
            invariant
                index <= documents@.len(),
                forall|k: int| 0 <= k < index ==> #[trigger] documents@[k] != active,
            ensures
                index <= documents@.len(),
                forall|k: int| 0 <= k < index ==> #[trigger] documents@[k] != active,
                index < documents@.len() ==> documents@[index as int] == active,
            decreases documents.len() - index,
        {
            if documents[index] == active {
                break;
            }
            index += 1;
        }
        proof {
            if index < documents@.len() {
                assert(documents@[index as int] == active);
                assert(documents@.contains(active));
            } else {
                assert(!documents@.contains(active));
            }
        }
        let position = if index < documents.len() { index } else { 0 };
        self.context_menu = Some(TabContextMenu { tab_id: active, tab_index: position, selected_index: 0 });
    }

    /// Moves the highlight to the next entry that is not a separator.
    pub fn context_menu_select_next(&mut self)
        requires
            old(self).context_menu matches Some(m) ==> m.selected_index < usize::MAX,
        ensures
            match old(self).context_menu {
                None => final(self).context_menu is None,
                Some(m) => final(self).context_menu matches Some(n) && n.tab_id == m.tab_id
                    && n.tab_index == m.tab_index
                    && n.selected_index == tab_menu_next(m.selected_index as int),
            },
            final(self).drop_target_index == old(self).drop_target_index,
            final(self).last_active_id == old(self).last_active_id,
    {
        if let Some(menu) = self.context_menu {
            let items = Self::build_tab_menu_items();
            let next = next_actionable_index(menu.selected_index, items.as_slice());
            proof {
                let s = menu.selected_index as int;
                if s < 6 {
                    assert(!items@[4].is_separator && !items@[5].is_separator);
                    assert(!items@[1].is_separator && !items@[2].is_separator);
                    assert(items@[3].is_separator);
                }
            }
            self.context_menu = Some(TabContextMenu { selected_index: next, ..menu });
        }
    }

    /// Moves the highlight to the previous entry that is not a separator. The
    /// highlight must stand on an entry or just past the last one.
    pub fn context_menu_select_prev(&mut self)
        requires
            old(self).context_menu matches Some(m) ==> m.selected_index <= TAB_MENU_CLOSE_RIGHT + 1,
        ensures
            match old(self).context_menu {
                None => final(self).context_menu is None,
                Some(m) => final(self).context_menu matches Some(n) && n.tab_id == m.tab_id
                    && n.tab_index == m.tab_index
                    && n.selected_index == tab_menu_prev(m.selected_index as int),
            },
            final(self).drop_target_index == old(self).drop_target_index,
            final(self).last_active_id == old(self).last_active_id,
    {
        if let Some(menu) = self.context_menu {
            let items = Self::build_tab_menu_items();
            let prev = prev_actionable_index(menu.selected_index, items.as_slice());
            proof {
                assert(!items@[0].is_separator && !items@[1].is_separator && !items@[2].is_separator);
                assert(!items@[4].is_separator && !items@[5].is_separator);
                assert(items@[3].is_separator);
            }
            self.context_menu = Some(TabContextMenu { selected_index: prev, ..menu });
        }
    }

    /// Runs the highlighted entry.
    pub fn context_menu_execute(&mut self) -> (r: Option<TabBarEvent>)
        ensures
            final(self).context_menu is None,
            r == (match old(self).context_menu {
                Some(m) => tab_menu_request(m.selected_index as int, m.tab_id),
                None => None,
            }),
    {
        match self.context_menu {
            Some(menu) => self.context_menu_execute_at(menu.selected_index),
            None => None,
        }
    }
}

impl TabBar {
    /// A dragged tab hovers tab `index`: the drop marker moves there. Returns
    /// whether it moved (and the bar needs redrawing).
    pub fn drag_over(&mut self, index: usize) -> (changed: bool)
        ensures
            changed == (old(self).drop_target_index != Some(index)),
            final(self).drop_target_index == Some(index),
            final(self).context_menu == old(self).context_menu,
            final(self).last_active_id == old(self).last_active_id,
    {
        if self.drop_target_index != Some(index) {
            self.drop_target_index = Some(index);
            true
        } else {
            false
        }
    }

    /// The mouse was released over the strip. A drag that ends outside a tab
    /// leaves the marker behind; clearing it here covers every release.
    /// Returns whether a marker was shown.
    pub fn clear_drop_target(&mut self) -> (changed: bool)
        ensures
            changed == (old(self).drop_target_index is Some),
            final(self).drop_target_index is None,
            final(self).context_menu == old(self).context_menu,
            final(self).last_active_id == old(self).last_active_id,
    {
        let changed = self.drop_target_index.is_some();
        self.drop_target_index = None;
        changed
    }

    /// `drag` was dropped on tab `to`: the marker is cleared and the move for
    /// the tab manager (from the index the tab started at, to `to`) is
    /// returned.
    pub fn drop_tab(&mut self, drag: &TabDrag, to: usize) -> (r: (usize, usize))
        ensures
            r == (drag.index, to),
            final(self).drop_target_index is None,
            final(self).context_menu == old(self).context_menu,
            final(self).last_active_id == old(self).last_active_id,
    {
        self.drop_target_index = None;
        (drag.index, to)
    }

    /// Called on every draw with the active tab and the open tabs in order.
    /// When the active tab changed since the last draw, it is remembered and
    /// its position returned so it can be scrolled into view.
    pub fn sync_active_tab(&mut self, active_id: Option<DocumentId>, documents: &[DocumentId]) -> (r: Option<usize>)
        ensures
            final(self).last_active_id == active_id,
            old(self).last_active_id == active_id ==> r is None,
            r matches Some(i) ==> old(self).last_active_id != active_id && i < documents@.len()
                && Some(documents@[i as int]) == active_id
                && forall|k: int| 0 <= k < i ==> Some(#[trigger] documents@[k]) != active_id,
            (active_id matches Some(id) && old(self).last_active_id != active_id && documents@.contains(id)) ==> r is Some,
            final(self).context_menu == old(self).context_menu,
            final(self).drop_target_index == old(self).drop_target_index,
    {
        if active_id == self.last_active_id {
            return None;
        }
        self.last_active_id = active_id;
        let id = match active_id {
            Some(id) => id,
            None => return None,
        };
        let mut index: usize = 0;
        while index < documents.len()
            invariant
                index <= documents@.len(),
                forall|k: int| 0 <= k < index ==> #[trigger] documents@[k] != id,
                active_id == Some(id),
                self.last_active_id == active_id,
                old(self).last_active_id != active_id,
                self.context_menu == old(self).context_menu,
                self.drop_target_index == old(self).drop_target_index,
            decreases documents.len() - index,
        {
            if documents[index] == id {
                return Some(index);
            }
            index += 1;
        }
        assert(!documents@.contains(id));
        None
    }
}

/// What makes two neighbouring tabs share a band: same connection, same
/// database.
#[derive(Debug)]
pub struct TabGroupKey {
    pub connection_id: Option<u128>,
    pub database: String,
}

pub open spec fn same_group(a: Option<TabGroupKey>, b: Option<TabGroupKey>) -> bool {
    match (a, b) {
        (Some(x), Some(y)) => x.connection_id == y.connection_id && x.database@ == y.database@,
        (None, None) => true,
        _ => false,
    }
}

fn group_eq(a: &Option<TabGroupKey>, b: &Option<TabGroupKey>) -> (r: bool)
    ensures
        r == same_group(*a, *b),
{
    match (a, b) {
        (Some(x), Some(y)) => x.connection_id == y.connection_id && x.database == y.database,
        (None, None) => true,
        _ => false,
    }
}

/// Whether tab `i` starts a run of tabs of one database.
pub open spec fn starts_group(groups: Seq<Option<TabGroupKey>>, i: int) -> bool {
    groups[i] is Some && (i == 0 || !same_group(groups[i], groups[i - 1]))
}

/// For each tab (given its group, in bar order), whether its band carries the
/// database name: only the first tab of a run of the same database does, so
/// the name reads once per group.
pub fn group_band_starts(groups: &[Option<TabGroupKey>]) -> (r: Vec<bool>)
    ensures
        r@.len() == groups@.len(),
        forall|i: int| 0 <= i < groups@.len() ==> #[trigger] r@[i] == starts_group(groups@, i),
{
    let mut starts: Vec<bool> = Vec::new();
    let mut i: usize = 0;
    while i < groups.len()
        invariant
            i <= groups@.len(),
            starts@.len() == i,
            forall|k: int| 0 <= k < i ==> #[trigger] starts@[k] == starts_group(groups@, k),
        decreases groups.len() - i,
    {
        let start = groups[i].is_some() && (i == 0 || !group_eq(&groups[i], &groups[i - 1]));
        starts.push(start);
        i += 1;
    }
    starts
}

} // verus!
