//! The value panel's state: one cell's full value in an editor, read as JSON,
//! XML, or plain text.
//!
//! The panel is a real editor, not a viewer: saving hands the text back to
//! the grid as a pending change. What is saved is exactly what stands in the
//! editor; pretty-printing is an explicit action rather than something saving
//! does silently, so formatting a value to read it never rewrites what is
//! stored. While the editor holds an unsaved edit the panel does not follow
//! the cursor, so moving it cannot discard what the user typed.
//!
//! The interface layer draws the editor and reports each change of its text,
//! focus and the user's clicks; this type decides what they mean.

use vstd::prelude::*;
use vstd::string::*;

use crate::value_format::{
    compact_value, detect_format, detected_format, format_value, validate_value, validation_error,
    value_rendering, ValueFormat,
};

verus! {

/// Everything the panel needs to show one cell.
#[derive(Debug)]
pub struct ValuePanelTarget {
    /// Visual row index.
    pub row: usize,
    pub col: usize,
    pub column_name: String,
    /// The cell's text exactly as the edit buffer holds it.
    pub value: String,
    /// False for read-only results and read-only columns.
    pub editable: bool,
}

/// Emitted when the user saves; the grid routes it into its cell-save path.
#[derive(Debug, Clone, PartialEq, Eq)]
pub struct ValuePanelSaveEvent {
    pub row: usize,
    pub col: usize,
    pub value: String,
}

/// The two text transforms the panel's footer offers.
#[derive(Debug, Clone, Copy, PartialEq, Eq, Structural)]
pub enum ValueTransform {
    Format,
    Compact,
}

/// The text the editor opens with: the pretty-printed value when it formats,
/// otherwise the value untouched, so a malformed value is still readable and
/// fixable.
pub open spec fn opening_text(value: Seq<char>, format: ValueFormat, formatted: Result<Seq<char>, Seq<char>>) -> Seq<char> {
    match formatted {
        Ok(s) => s,
        Err(_) => value,
    }
}

/// Pretty-print on open when the value parses, otherwise show it untouched.
pub fn initial_text(value: &str, format: ValueFormat) -> (r: String)
    ensures
        r@ == opening_text(value@, format, value_rendering(value@, format, true)),
{
    let formatted = format_value(value, format);
    match formatted {
        Ok(text) => text,
        Err(_) => String::from_str(value),
    }
}

pub struct ValuePanelContent {
    pub target: ValuePanelTarget,
    pub format: ValueFormat,
    pub word_wrap: bool,
    /// The text last written into the editor. `is_modified` compares against
    /// this rather than against the cell, so pretty-printing alone does not
    /// count as an edit the user must resolve.
    pub loaded_text: String,
    /// What the editor currently holds.
    pub editor_text: String,
    /// Whether the editor holds the keyboard.
    pub editor_focused: bool,
    pub error: Option<String>,
}

/// Which controls the panel offers.
#[derive(Debug, Clone, Copy, PartialEq, Eq, Structural)]
pub struct PanelControls {
    /// The footer with Format/Compact and Revert/Save; a read-only cell shows
    /// a read-only note instead.
    pub footer: bool,
    /// Format and Compact, for the structured formats.
    pub transforms: bool,
    /// Revert and Save only mean something while the editor differs from what
    /// is stored, and saving resets that baseline.
    pub revert_enabled: bool,
    pub save_enabled: bool,
}

impl ValuePanelContent {
    /// A panel showing `target`, in the format detected from its value.
    pub fn new(target: ValuePanelTarget) -> (r: Self)
        ensures
            r.format == detected_format(target.value@),
            r.target == target,
            r.word_wrap,
            r.loaded_text@ == opening_text(target.value@, r.format, value_rendering(target.value@, r.format, true)),
            r.editor_text@ == r.loaded_text@,
            !r.editor_focused,
            r.error is None,
    {
        let format = detect_format(target.value.as_str());
        let text = initial_text(target.value.as_str(), format);
        let editor_text = text.clone();
        ValuePanelContent {
            target,
            format,
            word_wrap: true,
            loaded_text: text,
            editor_text,
            editor_focused: false,
            error: None,
        }
    }

    /// Whether the panel's editor currently owns the keyboard.
    pub fn editor_has_focus(&self) -> (r: bool)
        ensures
            r == self.editor_focused,
    {
        self.editor_focused
    }

    /// The editor gained or lost the keyboard.
    pub fn set_editor_focus(&mut self, focused: bool)
        ensures
            final(self).editor_focused == focused,
            final(self).editor_text == old(self).editor_text,
            final(self).loaded_text == old(self).loaded_text,
            final(self).format == old(self).format,
            final(self).error == old(self).error,
            final(self).target == old(self).target,
            final(self).word_wrap == old(self).word_wrap,
    {
        self.editor_focused = focused;
    }

    /// The user changed the editor's text.
    pub fn set_editor_text(&mut self, text: String)
        ensures
            final(self).editor_text == text,
            final(self).loaded_text == old(self).loaded_text,
            final(self).format == old(self).format,
            final(self).error == old(self).error,
            final(self).target == old(self).target,
            final(self).editor_focused == old(self).editor_focused,
            final(self).word_wrap == old(self).word_wrap,
    {
        self.editor_text = text;
    }

    /// Point the panel at a different cell, re-detecting the format.
    pub fn open(&mut self, target: ValuePanelTarget)
        ensures
            final(self).target == target,
            final(self).format == detected_format(target.value@),
            final(self).loaded_text@ == opening_text(
                target.value@,
                final(self).format,
                value_rendering(target.value@, final(self).format, true),
            ),
            final(self).editor_text@ == final(self).loaded_text@,
            !final(self).editor_focused,
            final(self).error is None,
            final(self).word_wrap == old(self).word_wrap,
    {
        self.format = detect_format(target.value.as_str());
        self.target = target;
        self.error = None;
        self.reload();
    }

    /// The controls the panel shows for its current state.
    pub fn controls(&self) -> (r: PanelControls)
        ensures
            r.footer == self.target.editable,
            r.transforms == (self.format != ValueFormat::Text),
            r.revert_enabled == (self.editor_text@ != self.loaded_text@),
            r.save_enabled == (self.editor_text@ != self.loaded_text@),
    {
        let modified = self.is_modified();
        PanelControls {
            footer: self.target.editable,
            transforms: self.format.is_structured(),
            revert_enabled: modified,
            save_enabled: modified,
        }
    }

    /// The cell the panel is currently showing.
    pub fn target_cell(&self) -> (r: (usize, usize))
        ensures
            r == (self.target.row, self.target.col),
    {
        (self.target.row, self.target.col)
    }

    /// Whether the editor holds something other than what was loaded into it.
    ///
    /// Drives whether the panel may follow the cursor: an unsaved edit pins it
    /// to its cell until the user saves or reverts.
    pub fn is_modified(&self) -> (r: bool)
        ensures
            r == (self.editor_text@ != self.loaded_text@),
    {
        self.editor_text != self.loaded_text
    }

    /// Rebuild the editor from the target value in the current format.
    fn reload(&mut self)
        ensures
            final(self).loaded_text@ == opening_text(
                old(self).target.value@,
                old(self).format,
                value_rendering(old(self).target.value@, old(self).format, true),
            ),
            final(self).editor_text@ == final(self).loaded_text@,
            !final(self).editor_focused,
            final(self).target == old(self).target,
            final(self).format == old(self).format,
            final(self).error == old(self).error,
            final(self).word_wrap == old(self).word_wrap,
    {
        let text = initial_text(self.target.value.as_str(), self.format);
        self.editor_text = text.clone();
        self.editor_focused = false;
        self.loaded_text = text;
    }

    /// Read the value in another format. The user's edits are carried across
    /// the switch rather than dropped; only the presentation changes.
    pub fn set_format(&mut self, format: ValueFormat)
        ensures
            old(self).format == format ==> *final(self) == *old(self),
            old(self).format != format ==> {
                &&& final(self).format == format
                &&& final(self).error is None
                &&& !final(self).editor_focused
                &&& final(self).target == old(self).target
                &&& final(self).word_wrap == old(self).word_wrap
                &&& final(self).loaded_text@ == opening_text(
                    old(self).target.value@,
                    format,
                    value_rendering(old(self).target.value@, format, true),
                )
                &&& (old(self).editor_text@ != old(self).loaded_text@ ==> final(self).editor_text@
                    == old(self).editor_text@)
                &&& (old(self).editor_text@ == old(self).loaded_text@ ==> final(self).editor_text@
                    == final(self).loaded_text@)
            },
    {
        if self.format == format {
            return;
        }
        let was_modified = self.editor_text != self.loaded_text;
        self.format = format;
        self.error = None;
        let fresh = initial_text(self.target.value.as_str(), format);
        if was_modified {
            self.loaded_text = fresh;
        } else {
            self.editor_text = fresh.clone();
            self.loaded_text = fresh;
        }
        self.editor_focused = false;
    }

    pub fn toggle_word_wrap(&mut self)
        ensures
            final(self).word_wrap == !old(self).word_wrap,
            final(self).editor_text == old(self).editor_text,
            final(self).loaded_text == old(self).loaded_text,
            final(self).format == old(self).format,
            final(self).error == old(self).error,
            final(self).target == old(self).target,
            final(self).editor_focused == old(self).editor_focused,
    {
        self.word_wrap = !self.word_wrap;
    }

    /// Pretty-print or compact what the editor holds; a failure leaves the
    /// text alone and shows the parser's message.
    pub fn apply_transform(&mut self, transform: ValueTransform)
        ensures
            value_rendering(old(self).editor_text@, old(self).format, transform == ValueTransform::Format)
                == (match final(self).error {
                None => Ok(final(self).editor_text@),
                Some(e) => Err::<Seq<char>, Seq<char>>(e@),
            }),
            final(self).error is Some ==> final(self).editor_text == old(self).editor_text,
            final(self).loaded_text == old(self).loaded_text,
            final(self).format == old(self).format,
            final(self).target == old(self).target,
            final(self).word_wrap == old(self).word_wrap,
            final(self).editor_focused == old(self).editor_focused,
    {
        let result = match transform {
            ValueTransform::Format => format_value(self.editor_text.as_str(), self.format),
            ValueTransform::Compact => compact_value(self.editor_text.as_str(), self.format),
        };
        match result {
            Ok(next) => {
                self.error = None;
                self.editor_text = next;
            },
            Err(error) => self.error = Some(error),
        }
    }

    /// Put back the text that was loaded into the editor.
    pub fn revert(&mut self)
        ensures
            final(self).editor_text@ == old(self).loaded_text@,
            final(self).loaded_text == old(self).loaded_text,
            final(self).error is None,
            final(self).format == old(self).format,
            final(self).target == old(self).target,
            final(self).word_wrap == old(self).word_wrap,
            final(self).editor_focused == old(self).editor_focused,
    {
        self.error = None;
        self.editor_text = self.loaded_text.clone();
    }

    /// Save what the editor holds. A value that is not well-formed for the
    /// current format is refused with the parser's message; otherwise the
    /// saved text becomes the new baseline and the save event is returned.
    pub fn save(&mut self) -> (r: Option<ValuePanelSaveEvent>)
        ensures
            r is Some <==> validation_error(old(self).editor_text@, old(self).format) is None,
            match r {
                Some(event) => {
                    &&& event.row == old(self).target.row
                    &&& event.col == old(self).target.col
                    &&& event.value@ == old(self).editor_text@
                    &&& final(self).loaded_text@ == old(self).editor_text@
                    &&& final(self).target.value@ == old(self).editor_text@
                    &&& final(self).editor_text == old(self).editor_text
                    &&& final(self).error is None
                },
                None => {
                    &&& final(self).error matches Some(e) && validation_error(old(self).editor_text@, old(self).format)
                        == Some(e@)
                    &&& final(self).editor_text == old(self).editor_text
                    &&& final(self).loaded_text == old(self).loaded_text
                    &&& final(self).target == old(self).target
                },
            },
            final(self).format == old(self).format,
            final(self).target.row == old(self).target.row,
            final(self).target.col == old(self).target.col,
            final(self).target.editable == old(self).target.editable,
    {
        let value = self.editor_text.clone();
        match validate_value(value.as_str(), self.format) {
            Err(error) => {
                self.error = Some(error);
                return None;
            },
            Ok(()) => {},
        }
        self.error = None;
        self.loaded_text = value.clone();
        self.target.value = value.clone();
        Some(ValuePanelSaveEvent { row: self.target.row, col: self.target.col, value })
    }
}

/// The editor opens with the formatted value whenever the value formats, in
/// every format (XML and JSON are opened pretty-printed), and with the value
/// untouched exactly when it does not.
pub proof fn law_formatted_values_open_formatted(value: Seq<char>, format: ValueFormat)
    ensures
        value_rendering(value, format, true) matches Ok(s) ==> opening_text(
            value,
            format,
            value_rendering(value, format, true),
        ) == s,
        value_rendering(value, format, true) is Err ==> opening_text(value, format, value_rendering(value, format, true))
            == value,
        format == ValueFormat::Text ==> opening_text(value, format, value_rendering(value, format, true)) == value,
{
}

} // verus!
