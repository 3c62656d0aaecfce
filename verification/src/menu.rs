//! Menu entries shared by the tab bar and the data-grid context menu.
//!
//! A label is held as its message-catalog key; the interface layer resolves
//! it in the user's language when it draws the menu.

use vstd::prelude::*;
use vstd::string::*;

verus! {

/// The icons menus and tabs use.
#[derive(Debug, Clone, Copy, PartialEq, Eq, Structural)]
pub enum AppIcon {
    X,
    ChevronLeft,
    ChevronRight,
    Layers,
    Maximize2,
    Plus,
    Delete,
    Download,
    Pencil,
    RotateCcw,
    Info,
    ChartSpline,
    Code,
    Table,
    Database,
    Hash,
    SquareTerminal,
    Folder,
    ScrollText,
    Box,
    HardDrive,
}

/// One entry of a popup menu.
#[derive(Debug, Clone)]
pub struct MenuItem {
    /// Message-catalog key of the label; empty for a separator.
    pub label_key: String,
    pub icon: Option<AppIcon>,
    pub is_separator: bool,
    pub is_danger: bool,
    pub has_submenu: bool,
}

impl MenuItem {
    /// A plain entry with the given label and no icon.
    pub fn new(label_key: &str) -> (r: Self)
        ensures
            r.label_key@ == label_key@,
            r.icon is None,
            !r.is_separator,
            !r.is_danger,
            !r.has_submenu,
    {
        MenuItem {
            label_key: String::from_str(label_key),
            icon: None,
            is_separator: false,
            is_danger: false,
            has_submenu: false,
        }
    }

    /// This entry with `icon`.
    pub fn icon(self, icon: AppIcon) -> (r: Self)
        ensures
            r.label_key == self.label_key,
            r.icon == Some(icon),
            r.is_separator == self.is_separator,
            r.is_danger == self.is_danger,
            r.has_submenu == self.has_submenu,
    {
        MenuItem { icon: Some(icon), ..self }
    }

    /// A separator line.
    pub fn separator() -> (r: Self)
        ensures
            r.label_key@.len() == 0,
            r.icon is None,
            r.is_separator,
            !r.is_danger,
            !r.has_submenu,
    {
        MenuItem {
            label_key: String::new(),
            icon: None,
            is_separator: true,
            is_danger: false,
            has_submenu: false,
        }
    }
}

} // verus!
