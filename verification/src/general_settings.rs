//! The General page of the settings window: the form's rows, keyboard
//! navigation over them, what activating a row does, the dropdown index
//! mappings, whether anything is unsaved, and the checks a save runs.
//!
//! The interface layer draws the page, owns the dropdowns and text inputs,
//! and carries out the effects this type asks for.

use vstd::prelude::*;
use vstd::string::*;

use crate::numbers::{decimal, is_digit, law_parse_reads_back_decimal, lemma_decimal_spells, parse_bounded, parse_unsigned, u64_to_decimal};
use crate::release_channel::{channel_of, ReleaseChannel, APP_VERSION};
use crate::text::{is_white_space, lemma_trim_space_of_solid, str_eq, trim_space, trim_str};

verus! {

#[derive(Debug, Clone, Copy, PartialEq, Eq, Structural)]
pub enum ThemeSetting {
    Dark,
    Mirage,
    Light,
}

#[derive(Debug, Clone, Copy, PartialEq, Eq, Structural)]
pub enum AppStyle {
    Default,
    Compact,
}

impl AppStyle {
    pub fn label(self) -> (r: &'static str)
        ensures
            r@ == (match self {
                AppStyle::Default => "Default"@,
                AppStyle::Compact => "Compact"@,
            }),
    {
        match self {
            AppStyle::Default => "Default",
            AppStyle::Compact => "Compact",
        }
    }
}

#[derive(Debug, Clone, Copy, PartialEq, Eq, Structural)]
pub enum StartupFocus {
    Sidebar,
    LastTab,
}

#[derive(Debug, Clone, Copy, PartialEq, Eq, Structural)]
pub enum RefreshPolicySetting {
    Manual,
    Interval,
}

/// The general settings as persisted.
#[derive(Debug)]
pub struct GeneralSettings {
    pub theme: ThemeSetting,
    pub style: AppStyle,
    /// Storage id of the chosen language; empty for "follow the system".
    pub language: String,
    pub restore_session_on_startup: bool,
    pub reopen_last_connections: bool,
    pub default_focus_on_startup: StartupFocus,
    pub max_history_entries: usize,
    pub auto_save_interval_ms: u64,
    pub default_refresh_policy: RefreshPolicySetting,
    pub default_refresh_interval_secs: u32,
    pub max_concurrent_background_tasks: usize,
    pub auto_refresh_pause_on_error: bool,
    pub auto_refresh_only_if_visible: bool,
    pub confirm_dangerous_queries: bool,
    pub dangerous_requires_where: bool,
    pub dangerous_requires_preview: bool,
    pub object_preview_size_limit_mib: u64,
    pub key_value_size_limit_mib: u64,
    pub check_for_updates: bool,
    pub skipped_update_version: String,
}

/// The rows of the form, in order.
#[derive(Debug, Clone, Copy, PartialEq, Eq, Structural)]
pub enum GeneralFormRow {
    Theme,
    Style,
    Language,
    RestoreSession,
    ReopenConnections,
    DefaultFocus,
    MaxHistory,
    AutoSaveInterval,
    DefaultRefreshPolicy,
    DefaultRefreshInterval,
    MaxBackgroundTasks,
    PauseRefreshOnError,
    RefreshOnlyIfVisible,
    ConfirmDangerous,
    RequiresWhere,
    RequiresPreview,
    ObjectPreviewLimit,
    KeyValueSizeLimit,
    CheckForUpdates,
    ShareStableDb,
    SaveButton,
}

/// What the interface layer has to do after the form handled an input.
#[derive(Debug, Clone, Copy, PartialEq, Eq, Structural)]
pub enum GeneralEffect {
    /// Hand the keyboard back to the settings sidebar.
    RequestFocusReturn,
    /// Give the keyboard to the text input of this row.
    FocusInput(GeneralFormRow),
    /// Open or close the dropdown of this row.
    ToggleDropdown(GeneralFormRow),
    DropdownSelectNext,
    DropdownSelectPrev,
    DropdownAccept,
    DropdownClose,
    /// Persist whether this nightly build shares the stable database.
    SetShareStableDb(bool),
    /// Validate the inputs and save the settings.
    Save,
}

/// Modifier keys held with a key.
#[derive(Debug, Clone, Copy, PartialEq, Eq, Structural)]
pub struct Modifiers {
    pub control: bool,
    pub alt: bool,
    pub shift: bool,
    pub platform: bool,
}

impl Modifiers {
    pub fn none() -> (r: Self)
        ensures
            r == (Modifiers { control: false, alt: false, shift: false, platform: false }),
    {
        Modifiers { control: false, alt: false, shift: false, platform: false }
    }

    pub fn shift() -> (r: Self)
        ensures
            r == (Modifiers { control: false, alt: false, shift: true, platform: false }),
    {
        Modifiers { control: false, alt: false, shift: true, platform: false }
    }
}

/// A key with its modifiers, the key named as the keymap names it
/// (`"j"`, `"down"`, `"enter"`, `"G"`, ...).
#[derive(Debug)]
pub struct KeyChord {
    pub key: String,
    pub modifiers: Modifiers,
}

/// The keys the form reacts to.
#[derive(Debug, Clone, Copy, PartialEq, Eq, Structural)]
pub enum FormKey {
    /// `j` or `down`, no modifier.
    Down,
    /// `k` or `up`, no modifier.
    Up,
    /// `l` or `right`, no modifier.
    Right,
    /// `enter`, no modifier.
    Enter,
    /// `escape`, no modifier.
    Escape,
    /// `tab`, no modifier.
    Tab,
    /// `tab` with shift.
    BackTab,
    /// `g`, no modifier.
    First,
    /// `G`, no modifier.
    Last,
    Other,
}

pub open spec fn no_modifiers(m: Modifiers) -> bool {
    m == Modifiers { control: false, alt: false, shift: false, platform: false }
}

pub open spec fn only_shift(m: Modifiers) -> bool {
    m == Modifiers { control: false, alt: false, shift: true, platform: false }
}

/// The form key a chord stands for.
pub open spec fn form_key(key: Seq<char>, m: Modifiers) -> FormKey {
    if no_modifiers(m) && (key == "j"@ || key == "down"@) {
        FormKey::Down
    } else if no_modifiers(m) && (key == "k"@ || key == "up"@) {
        FormKey::Up
    } else if no_modifiers(m) && (key == "l"@ || key == "right"@) {
        FormKey::Right
    } else if no_modifiers(m) && key == "enter"@ {
        FormKey::Enter
    } else if no_modifiers(m) && key == "escape"@ {
        FormKey::Escape
    } else if no_modifiers(m) && key == "tab"@ {
        FormKey::Tab
    } else if only_shift(m) && key == "tab"@ {
        FormKey::BackTab
    } else if no_modifiers(m) && key == "g"@ {
        FormKey::First
    } else if no_modifiers(m) && key == "G"@ {
        FormKey::Last
    } else {
        FormKey::Other
    }
}

/// Which form key `chord` is.
pub fn classify_chord(chord: &KeyChord) -> (r: FormKey)
    ensures
        r == form_key(chord.key@, chord.modifiers),
{
    let key = chord.key.as_str();
    let m = chord.modifiers;
    let plain = m == Modifiers::none();
    let shifted = m == Modifiers::shift();
    if plain && (str_eq(key, "j") || str_eq(key, "down")) {
        FormKey::Down
    } else if plain && (str_eq(key, "k") || str_eq(key, "up")) {
        FormKey::Up
    } else if plain && (str_eq(key, "l") || str_eq(key, "right")) {
        FormKey::Right
    } else if plain && str_eq(key, "enter") {
        FormKey::Enter
    } else if plain && str_eq(key, "escape") {
        FormKey::Escape
    } else if plain && str_eq(key, "tab") {
        FormKey::Tab
    } else if shifted && str_eq(key, "tab") {
        FormKey::BackTab
    } else if plain && str_eq(key, "g") {
        FormKey::First
    } else if plain && str_eq(key, "G") {
        FormKey::Last
    } else {
        FormKey::Other
    }
}

/// The rows of the form; the shared-database toggle only exists on nightly,
/// the only channel with a database of its own.
pub open spec fn form_rows(nightly: bool) -> Seq<GeneralFormRow> {
    seq![
        GeneralFormRow::Theme,
        GeneralFormRow::Style,
        GeneralFormRow::Language,
        GeneralFormRow::RestoreSession,
        GeneralFormRow::ReopenConnections,
        GeneralFormRow::DefaultFocus,
        GeneralFormRow::MaxHistory,
        GeneralFormRow::AutoSaveInterval,
        GeneralFormRow::DefaultRefreshPolicy,
        GeneralFormRow::DefaultRefreshInterval,
        GeneralFormRow::MaxBackgroundTasks,
        GeneralFormRow::PauseRefreshOnError,
        GeneralFormRow::RefreshOnlyIfVisible,
        GeneralFormRow::ConfirmDangerous,
        GeneralFormRow::RequiresWhere,
        GeneralFormRow::RequiresPreview,
        GeneralFormRow::ObjectPreviewLimit,
        GeneralFormRow::KeyValueSizeLimit,
        GeneralFormRow::CheckForUpdates,
    ] + if nightly {
        seq![GeneralFormRow::ShareStableDb, GeneralFormRow::SaveButton]
    } else {
        seq![GeneralFormRow::SaveButton]
    }
}

pub open spec fn row_at(nightly: bool, cursor: int) -> Option<GeneralFormRow> {
    if 0 <= cursor < form_rows(nightly).len() {
        Some(form_rows(nightly)[cursor])
    } else {
        None
    }
}

/// Whether this build is a nightly.
pub open spec fn nightly_build() -> bool {
    channel_of(APP_VERSION@) == ReleaseChannel::Nightly
}

/// Rows backed by a text input.
pub open spec fn is_input_row(row: GeneralFormRow) -> bool {
    match row {
        GeneralFormRow::MaxHistory | GeneralFormRow::AutoSaveInterval
        | GeneralFormRow::DefaultRefreshInterval | GeneralFormRow::MaxBackgroundTasks
        | GeneralFormRow::ObjectPreviewLimit | GeneralFormRow::KeyValueSizeLimit => true,
        _ => false,
    }
}

/// Rows backed by a dropdown.
pub open spec fn is_dropdown_row(row: GeneralFormRow) -> bool {
    match row {
        GeneralFormRow::Theme | GeneralFormRow::Style | GeneralFormRow::Language
        | GeneralFormRow::DefaultFocus | GeneralFormRow::DefaultRefreshPolicy => true,
        _ => false,
    }
}

pub open spec fn move_down(cursor: int, count: int) -> int {
    if cursor + 1 < count { cursor + 1 } else { cursor }
}

pub open spec fn move_up(cursor: int) -> int {
    if cursor > 0 { cursor - 1 } else { cursor }
}

/// Effect and editing flag of giving the keyboard to the row at `cursor`.
pub open spec fn focus_effects(row: Option<GeneralFormRow>) -> Seq<GeneralEffect> {
    match row {
        Some(r) => if is_input_row(r) { seq![GeneralEffect::FocusInput(r)] } else { Seq::empty() },
        None => Seq::empty(),
    }
}

pub open spec fn focus_editing(row: Option<GeneralFormRow>) -> bool {
    row matches Some(r) && is_input_row(r)
}

/// The settings with the checkbox of `row` flipped (other rows leave them alone).
pub open spec fn toggled(s: GeneralSettings, row: GeneralFormRow) -> GeneralSettings {
    match row {
        GeneralFormRow::CheckForUpdates => GeneralSettings { check_for_updates: !s.check_for_updates, ..s },
        GeneralFormRow::RestoreSession => GeneralSettings { restore_session_on_startup: !s.restore_session_on_startup, ..s },
        GeneralFormRow::ReopenConnections => GeneralSettings { reopen_last_connections: !s.reopen_last_connections, ..s },
        GeneralFormRow::PauseRefreshOnError => GeneralSettings { auto_refresh_pause_on_error: !s.auto_refresh_pause_on_error, ..s },
        GeneralFormRow::RefreshOnlyIfVisible => GeneralSettings { auto_refresh_only_if_visible: !s.auto_refresh_only_if_visible, ..s },
        GeneralFormRow::ConfirmDangerous => GeneralSettings { confirm_dangerous_queries: !s.confirm_dangerous_queries, ..s },
        GeneralFormRow::RequiresWhere => GeneralSettings { dangerous_requires_where: !s.dangerous_requires_where, ..s },
        GeneralFormRow::RequiresPreview => GeneralSettings { dangerous_requires_preview: !s.dangerous_requires_preview, ..s },
        _ => s,
    }
}

/// Effects of activating the row at the cursor (`l`, `right` or `enter`).
pub open spec fn activation_effects(row: Option<GeneralFormRow>, share_stable_db: bool) -> Seq<GeneralEffect> {
    match row {
        Some(r) => if is_dropdown_row(r) {
            seq![GeneralEffect::ToggleDropdown(r)]
        } else if is_input_row(r) {
            seq![GeneralEffect::FocusInput(r)]
        } else if r == GeneralFormRow::ShareStableDb {
            seq![GeneralEffect::SetShareStableDb(!share_stable_db)]
        } else if r == GeneralFormRow::SaveButton {
            seq![GeneralEffect::Save]
        } else {
            Seq::empty()
        },
        None => Seq::empty(),
    }
}

/// The form's state.
pub struct GeneralSection {
    /// The settings as edited so far.
    pub gen_settings: GeneralSettings,
    /// Index of the highlighted row.
    pub gen_form_cursor: usize,
    /// Whether a text input holds the keyboard.
    pub gen_editing_field: bool,
    /// Nightly-only: whether this build is opted into the stable database.
    pub gen_share_stable_db: bool,
    pub content_focused: bool,
    pub switching_input: bool,
}

/// The six numeric inputs' texts.
pub struct GeneralInputs {
    pub max_history: String,
    pub auto_save: String,
    pub refresh_interval: String,
    pub max_bg_tasks: String,
    pub object_preview_limit: String,
    pub key_value_size_limit: String,
}

/// The numeric inputs once they passed their checks.
#[derive(Debug, Clone, Copy, PartialEq, Eq, Structural)]
pub struct ValidatedNumbers {
    pub max_history_entries: usize,
    pub auto_save_interval_ms: u64,
    pub default_refresh_interval_secs: u32,
    pub max_concurrent_background_tasks: usize,
    pub object_preview_size_limit_mib: u64,
    pub key_value_size_limit_mib: u64,
}

/// The outcome of a key press on the form.
pub struct FormStep {
    pub cursor: int,
    pub editing: bool,
    /// The row whose checkbox the key flips, if any.
    pub toggles: Option<GeneralFormRow>,
    pub effects: Seq<GeneralEffect>,
}

/// What a key does in navigation mode (no input holds the keyboard and no
/// dropdown takes the key).
pub open spec fn navigation_step(nightly: bool, cursor: int, share: bool, key: FormKey) -> FormStep {
    let count = form_rows(nightly).len() as int;
    let row = row_at(nightly, cursor);
    match key {
        FormKey::Down | FormKey::Tab => FormStep { cursor: move_down(cursor, count), editing: false, toggles: None, effects: Seq::empty() },
        FormKey::Up | FormKey::BackTab => FormStep { cursor: move_up(cursor), editing: false, toggles: None, effects: Seq::empty() },
        FormKey::First => FormStep { cursor: 0, editing: false, toggles: None, effects: Seq::empty() },
        FormKey::Last => FormStep { cursor: count - 1, editing: false, toggles: None, effects: Seq::empty() },
        FormKey::Right | FormKey::Enter => FormStep {
            cursor,
            editing: focus_editing(row),
            toggles: row,
            effects: activation_effects(row, share),
        },
        _ => FormStep { cursor, editing: false, toggles: None, effects: Seq::empty() },
    }
}

/// What a key does while a text input holds the keyboard.
pub open spec fn editing_step(nightly: bool, cursor: int, key: FormKey) -> FormStep {
    let count = form_rows(nightly).len() as int;
    match key {
        FormKey::Escape => FormStep { cursor, editing: false, toggles: None, effects: seq![GeneralEffect::RequestFocusReturn] },
        FormKey::Enter => FormStep { cursor: move_down(cursor, count), editing: false, toggles: None, effects: Seq::empty() },
        FormKey::Tab => FormStep {
            cursor: move_down(cursor, count),
            editing: focus_editing(row_at(nightly, move_down(cursor, count))),
            toggles: None,
            effects: focus_effects(row_at(nightly, move_down(cursor, count))),
        },
        FormKey::BackTab => FormStep {
            cursor: move_up(cursor),
            editing: focus_editing(row_at(nightly, move_up(cursor))),
            toggles: None,
            effects: focus_effects(row_at(nightly, move_up(cursor))),
        },
        _ => FormStep { cursor, editing: true, toggles: None, effects: Seq::empty() },
    }
}

/// Whether an open dropdown takes the key.
pub open spec fn dropdown_takes(key: FormKey) -> bool {
    match key {
        FormKey::Down | FormKey::Up | FormKey::Enter | FormKey::Escape | FormKey::Tab | FormKey::BackTab => true,
        _ => false,
    }
}

/// What a key does to the open dropdown of the highlighted row.
pub open spec fn dropdown_step(nightly: bool, cursor: int, key: FormKey) -> FormStep {
    let count = form_rows(nightly).len() as int;
    match key {
        FormKey::Down => FormStep { cursor, editing: false, toggles: None, effects: seq![GeneralEffect::DropdownSelectNext] },
        FormKey::Up => FormStep { cursor, editing: false, toggles: None, effects: seq![GeneralEffect::DropdownSelectPrev] },
        FormKey::Escape => FormStep { cursor, editing: false, toggles: None, effects: seq![GeneralEffect::DropdownClose] },
        FormKey::Tab => FormStep {
            cursor: move_down(cursor, count),
            editing: focus_editing(row_at(nightly, move_down(cursor, count))),
            toggles: None,
            effects: seq![GeneralEffect::DropdownAccept] + focus_effects(row_at(nightly, move_down(cursor, count))),
        },
        FormKey::BackTab => FormStep {
            cursor: move_up(cursor),
            editing: focus_editing(row_at(nightly, move_up(cursor))),
            toggles: None,
            effects: seq![GeneralEffect::DropdownAccept] + focus_effects(row_at(nightly, move_up(cursor))),
        },
        _ => FormStep { cursor, editing: false, toggles: None, effects: seq![GeneralEffect::DropdownAccept] },
    }
}

/// What a key press does to the form.
pub open spec fn key_step(
    nightly: bool,
    cursor: int,
    editing: bool,
    share: bool,
    dropdown_open: bool,
    key: FormKey,
) -> FormStep {
    if editing {
        editing_step(nightly, cursor, key)
    } else if dropdown_open && (row_at(nightly, cursor) matches Some(r) && is_dropdown_row(r)) && dropdown_takes(key) {
        dropdown_step(nightly, cursor, key)
    } else {
        navigation_step(nightly, cursor, share, key)
    }
}

/// What every key press keeps: the highlight is on a row, and a text input
/// holds the keyboard only when the highlighted row is an input row.
pub open spec fn form_invariant(nightly: bool, cursor: int, editing: bool) -> bool {
    &&& 0 <= cursor < form_rows(nightly).len()
    &&& editing ==> (row_at(nightly, cursor) matches Some(r) && is_input_row(r))
}

/// Key presses keep the form invariant: whatever is pressed, the highlight
/// stays on a row of the form, and editing never outlives its input row.
pub proof fn law_keys_keep_the_form_invariant(
    nightly: bool,
    cursor: int,
    editing: bool,
    share: bool,
    dropdown_open: bool,
    key: FormKey,
)
    requires
        form_invariant(nightly, cursor, editing),
    ensures
        ({
            let step = key_step(nightly, cursor, editing, share, dropdown_open, key);
            form_invariant(nightly, step.cursor, step.editing)
        }),
{
}

pub open spec fn settings_after(s: GeneralSettings, toggles: Option<GeneralFormRow>) -> GeneralSettings {
    match toggles {
        Some(row) => toggled(s, row),
        None => s,
    }
}

impl GeneralSection {
    /// A form over `settings`, the cursor on the first row.
    pub fn new(settings: GeneralSettings, share_stable_db: bool) -> (r: Self)
        ensures
            r.gen_settings == settings,
            r.gen_form_cursor == 0,
            !r.gen_editing_field,
            r.gen_share_stable_db == share_stable_db,
            !r.content_focused,
            !r.switching_input,
    {
        GeneralSection {
            gen_settings: settings,
            gen_form_cursor: 0,
            gen_editing_field: false,
            gen_share_stable_db: share_stable_db,
            content_focused: false,
            switching_input: false,
        }
    }

    /// Whether this build is a nightly.
    pub fn is_nightly() -> (r: bool)
        ensures
            r == nightly_build(),
    {
        ReleaseChannel::current() == ReleaseChannel::Nightly
    }

    /// The rows of the form, in order.
    pub fn gen_form_rows(&self) -> (r: Vec<GeneralFormRow>)
        ensures
            r@ == form_rows(nightly_build()),
    {
        let mut rows: Vec<GeneralFormRow> = vec![
            GeneralFormRow::Theme,
            GeneralFormRow::Style,
            GeneralFormRow::Language,
            GeneralFormRow::RestoreSession,
            GeneralFormRow::ReopenConnections,
            GeneralFormRow::DefaultFocus,
            GeneralFormRow::MaxHistory,
            GeneralFormRow::AutoSaveInterval,
            GeneralFormRow::DefaultRefreshPolicy,
            GeneralFormRow::DefaultRefreshInterval,
            GeneralFormRow::MaxBackgroundTasks,
            GeneralFormRow::PauseRefreshOnError,
            GeneralFormRow::RefreshOnlyIfVisible,
            GeneralFormRow::ConfirmDangerous,
            GeneralFormRow::RequiresWhere,
            GeneralFormRow::RequiresPreview,
            GeneralFormRow::ObjectPreviewLimit,
            GeneralFormRow::KeyValueSizeLimit,
            GeneralFormRow::CheckForUpdates,
        ];
        if Self::is_nightly() {
            rows.push(GeneralFormRow::ShareStableDb);
        }
        rows.push(GeneralFormRow::SaveButton);
        assert(rows@ =~= form_rows(nightly_build()));
        rows
    }

    /// The highlighted row.
    pub fn gen_current_row(&self) -> (r: Option<GeneralFormRow>)
        ensures
            r == row_at(nightly_build(), self.gen_form_cursor as int),
    {
        let rows = self.gen_form_rows();
        if self.gen_form_cursor < rows.len() {
            Some(rows[self.gen_form_cursor])
        } else {
            None
        }
    }

    pub fn gen_move_down(&mut self)
        ensures
            final(self).gen_form_cursor == move_down(old(self).gen_form_cursor as int, form_rows(nightly_build()).len() as int),
            final(self).gen_settings == old(self).gen_settings,
            final(self).gen_editing_field == old(self).gen_editing_field,
            final(self).gen_share_stable_db == old(self).gen_share_stable_db,
            final(self).content_focused == old(self).content_focused,
            final(self).switching_input == old(self).switching_input,
    {
        let count = self.gen_form_rows().len();
        if self.gen_form_cursor < count - 1 {
            self.gen_form_cursor += 1;
        }
    }

    pub fn gen_move_up(&mut self)
        ensures
            final(self).gen_form_cursor == move_up(old(self).gen_form_cursor as int),
            final(self).gen_settings == old(self).gen_settings,
            final(self).gen_editing_field == old(self).gen_editing_field,
            final(self).gen_share_stable_db == old(self).gen_share_stable_db,
            final(self).content_focused == old(self).content_focused,
            final(self).switching_input == old(self).switching_input,
    {
        if self.gen_form_cursor > 0 {
            self.gen_form_cursor -= 1;
        }
    }

    pub fn gen_move_first(&mut self)
        ensures
            final(self).gen_form_cursor == 0,
            final(self).gen_settings == old(self).gen_settings,
            final(self).gen_editing_field == old(self).gen_editing_field,
            final(self).gen_share_stable_db == old(self).gen_share_stable_db,
            final(self).content_focused == old(self).content_focused,
            final(self).switching_input == old(self).switching_input,
    {
        self.gen_form_cursor = 0;
    }

    pub fn gen_move_last(&mut self)
        ensures
            final(self).gen_form_cursor == form_rows(nightly_build()).len() - 1,
            final(self).gen_settings == old(self).gen_settings,
            final(self).gen_editing_field == old(self).gen_editing_field,
            final(self).gen_share_stable_db == old(self).gen_share_stable_db,
            final(self).content_focused == old(self).content_focused,
            final(self).switching_input == old(self).switching_input,
    {
        self.gen_form_cursor = self.gen_form_rows().len() - 1;
    }

    /// Give the keyboard to the highlighted row's text input, if it has one.
    pub fn gen_focus_current_input(&mut self) -> (effects: Vec<GeneralEffect>)
        ensures
            effects@ == focus_effects(row_at(nightly_build(), old(self).gen_form_cursor as int)),
            final(self).gen_editing_field == focus_editing(row_at(nightly_build(), old(self).gen_form_cursor as int)),
            final(self).gen_form_cursor == old(self).gen_form_cursor,
            final(self).gen_settings == old(self).gen_settings,
            final(self).gen_share_stable_db == old(self).gen_share_stable_db,
            final(self).content_focused == old(self).content_focused,
            final(self).switching_input == old(self).switching_input,
    {
        let mut effects: Vec<GeneralEffect> = Vec::new();
        self.gen_editing_field = true;
        match self.gen_current_row() {
            Some(row) => {
                if row == GeneralFormRow::MaxHistory || row == GeneralFormRow::AutoSaveInterval
                    || row == GeneralFormRow::DefaultRefreshInterval || row == GeneralFormRow::MaxBackgroundTasks
                    || row == GeneralFormRow::ObjectPreviewLimit || row == GeneralFormRow::KeyValueSizeLimit {
                    effects.push(GeneralEffect::FocusInput(row));
                } else {
                    self.gen_editing_field = false;
                }
            },
            None => {
                self.gen_editing_field = false;
            },
        }
        assert(effects@ =~= focus_effects(row_at(nightly_build(), old(self).gen_form_cursor as int)));
        effects
    }

    /// The dropdown row under the cursor, if the cursor is on one.
    pub fn current_dropdown(&self) -> (r: Option<GeneralFormRow>)
        ensures
            r == (match row_at(nightly_build(), self.gen_form_cursor as int) {
                Some(row) => if is_dropdown_row(row) { Some(row) } else { None },
                None => None,
            }),
    {
        match self.gen_current_row() {
            Some(row) => {
                if row == GeneralFormRow::Theme || row == GeneralFormRow::Style || row == GeneralFormRow::Language
                    || row == GeneralFormRow::DefaultFocus || row == GeneralFormRow::DefaultRefreshPolicy {
                    Some(row)
                } else {
                    None
                }
            },
            None => None,
        }
    }

    /// Flip the checkbox of `row` in the edited settings.
    fn toggle_setting(&mut self, row: GeneralFormRow)
        ensures
            final(self).gen_settings == toggled(old(self).gen_settings, row),
            final(self).gen_form_cursor == old(self).gen_form_cursor,
            final(self).gen_editing_field == old(self).gen_editing_field,
            final(self).gen_share_stable_db == old(self).gen_share_stable_db,
            final(self).content_focused == old(self).content_focused,
            final(self).switching_input == old(self).switching_input,
    {
        match row {
            GeneralFormRow::CheckForUpdates => self.gen_settings.check_for_updates = !self.gen_settings.check_for_updates,
            GeneralFormRow::RestoreSession => self.gen_settings.restore_session_on_startup = !self.gen_settings.restore_session_on_startup,
            GeneralFormRow::ReopenConnections => self.gen_settings.reopen_last_connections = !self.gen_settings.reopen_last_connections,
            GeneralFormRow::PauseRefreshOnError => self.gen_settings.auto_refresh_pause_on_error = !self.gen_settings.auto_refresh_pause_on_error,
            GeneralFormRow::RefreshOnlyIfVisible => self.gen_settings.auto_refresh_only_if_visible = !self.gen_settings.auto_refresh_only_if_visible,
            GeneralFormRow::ConfirmDangerous => self.gen_settings.confirm_dangerous_queries = !self.gen_settings.confirm_dangerous_queries,
            GeneralFormRow::RequiresWhere => self.gen_settings.dangerous_requires_where = !self.gen_settings.dangerous_requires_where,
            GeneralFormRow::RequiresPreview => self.gen_settings.dangerous_requires_preview = !self.gen_settings.dangerous_requires_preview,
            _ => {},
        }
    }

    /// Activate the highlighted row: open its dropdown, flip its checkbox,
    /// focus its input, or save.
    pub fn gen_activate_current_field(&mut self) -> (effects: Vec<GeneralEffect>)
        ensures
            effects@ == activation_effects(row_at(nightly_build(), old(self).gen_form_cursor as int), old(self).gen_share_stable_db),
            final(self).gen_settings == settings_after(old(self).gen_settings, row_at(nightly_build(), old(self).gen_form_cursor as int)),
            final(self).gen_editing_field == (if focus_editing(row_at(nightly_build(), old(self).gen_form_cursor as int)) {
                true
            } else {
                old(self).gen_editing_field
            }),
            final(self).gen_form_cursor == old(self).gen_form_cursor,
            final(self).gen_share_stable_db == old(self).gen_share_stable_db,
            final(self).content_focused == old(self).content_focused,
            final(self).switching_input == old(self).switching_input,
    {
        let current = self.gen_current_row();
        let row = match current {
            Some(row) => row,
            None => {
                let effects: Vec<GeneralEffect> = Vec::new();
                assert(effects@ =~= Seq::<GeneralEffect>::empty());
                return effects;
            },
        };
        self.toggle_setting(row);
        let mut effects: Vec<GeneralEffect> = Vec::new();
        if self.current_dropdown().is_some() {
            effects.push(GeneralEffect::ToggleDropdown(row));
        } else if row == GeneralFormRow::MaxHistory || row == GeneralFormRow::AutoSaveInterval
            || row == GeneralFormRow::DefaultRefreshInterval || row == GeneralFormRow::MaxBackgroundTasks
            || row == GeneralFormRow::ObjectPreviewLimit || row == GeneralFormRow::KeyValueSizeLimit {
            effects = self.gen_focus_current_input();
        } else if row == GeneralFormRow::ShareStableDb {
            effects.push(GeneralEffect::SetShareStableDb(!self.gen_share_stable_db));
        } else if row == GeneralFormRow::SaveButton {
            effects.push(GeneralEffect::Save);
        }
        assert(effects@ =~= activation_effects(row_at(nightly_build(), old(self).gen_form_cursor as int), old(self).gen_share_stable_db));
        effects
    }

    /// Record whether this nightly build shares the stable database, once the
    /// interface layer has persisted the choice.
    pub fn set_share_stable_db(&mut self, value: bool)
        ensures
            final(self).gen_share_stable_db == value,
            final(self).gen_settings == old(self).gen_settings,
            final(self).gen_form_cursor == old(self).gen_form_cursor,
            final(self).gen_editing_field == old(self).gen_editing_field,
            final(self).content_focused == old(self).content_focused,
            final(self).switching_input == old(self).switching_input,
    {
        self.gen_share_stable_db = value;
    }

    /// Handle a key while the highlighted row's dropdown is open; `None` when
    /// the dropdown does not take the key.
    fn handle_open_dropdown(&mut self, key: FormKey, dropdown_open: bool) -> (r: Option<Vec<GeneralEffect>>)
        requires
            !old(self).gen_editing_field,
        ensures
            r is Some == (dropdown_open && (row_at(nightly_build(), old(self).gen_form_cursor as int) matches Some(row)
                && is_dropdown_row(row)) && dropdown_takes(key)),
            r matches Some(effects) ==> {
                let step = dropdown_step(nightly_build(), old(self).gen_form_cursor as int, key);
                &&& effects@ == step.effects
                &&& final(self).gen_form_cursor == step.cursor
                &&& final(self).gen_editing_field == step.editing
            },
            r is None ==> *final(self) == *old(self),
            final(self).gen_settings == old(self).gen_settings,
            final(self).gen_share_stable_db == old(self).gen_share_stable_db,
            final(self).content_focused == old(self).content_focused,
            final(self).switching_input == old(self).switching_input,
    {
        if self.current_dropdown().is_none() || !dropdown_open {
            return None;
        }
        let mut effects: Vec<GeneralEffect> = Vec::new();
        match key {
            FormKey::Down => effects.push(GeneralEffect::DropdownSelectNext),
            FormKey::Up => effects.push(GeneralEffect::DropdownSelectPrev),
            FormKey::Enter => effects.push(GeneralEffect::DropdownAccept),
            FormKey::Escape => effects.push(GeneralEffect::DropdownClose),
            FormKey::Tab => {
                effects.push(GeneralEffect::DropdownAccept);
                self.gen_move_down();
                let mut more = self.gen_focus_current_input();
                effects.append(&mut more);
            },
            FormKey::BackTab => {
                effects.push(GeneralEffect::DropdownAccept);
                self.gen_move_up();
                let mut more = self.gen_focus_current_input();
                effects.append(&mut more);
            },
            _ => return None,
        }
        assert(effects@ =~= dropdown_step(nightly_build(), old(self).gen_form_cursor as int, key).effects);
        Some(effects)
    }

    /// Handle a key press on the form. `dropdown_open` tells whether the
    /// dropdown of the highlighted row is open.
    pub fn handle_key_event(&mut self, chord: &KeyChord, dropdown_open: bool) -> (effects: Vec<GeneralEffect>)
        ensures
            ({
                let step = key_step(
                    nightly_build(),
                    old(self).gen_form_cursor as int,
                    old(self).gen_editing_field,
                    old(self).gen_share_stable_db,
                    dropdown_open,
                    form_key(chord.key@, chord.modifiers),
                );
                &&& effects@ == step.effects
                &&& final(self).gen_form_cursor == step.cursor
                &&& final(self).gen_editing_field == step.editing
                &&& final(self).gen_settings == settings_after(old(self).gen_settings, step.toggles)
            }),
            final(self).gen_share_stable_db == old(self).gen_share_stable_db,
            final(self).content_focused == old(self).content_focused,
            final(self).switching_input == old(self).switching_input,
    {
        let key = classify_chord(chord);
        let ghost count = form_rows(nightly_build()).len() as int;
        if self.gen_editing_field {
            let mut effects: Vec<GeneralEffect> = Vec::new();
            match key {
                FormKey::Escape => {
                    self.gen_editing_field = false;
                    effects.push(GeneralEffect::RequestFocusReturn);
                },
                FormKey::Enter => {
                    self.gen_editing_field = false;
                    self.gen_move_down();
                },
                FormKey::Tab => {
                    self.gen_editing_field = false;
                    self.gen_move_down();
                    effects = self.gen_focus_current_input();
                },
                FormKey::BackTab => {
                    self.gen_editing_field = false;
                    self.gen_move_up();
                    effects = self.gen_focus_current_input();
                },
                _ => {},
            }
            assert(effects@ =~= editing_step(nightly_build(), old(self).gen_form_cursor as int, key).effects);
            return effects;
        }

        match self.handle_open_dropdown(key, dropdown_open) {
            Some(effects) => return effects,
            None => {},
        }

        let mut effects: Vec<GeneralEffect> = Vec::new();
        match key {
            FormKey::Down | FormKey::Tab => self.gen_move_down(),
            FormKey::Up | FormKey::BackTab => self.gen_move_up(),
            FormKey::Right | FormKey::Enter => {
                effects = self.gen_activate_current_field();
            },
            FormKey::First => self.gen_move_first(),
            FormKey::Last => self.gen_move_last(),
            _ => {},
        }
        assert(effects@ =~= navigation_step(nightly_build(), old(self).gen_form_cursor as int, old(self).gen_share_stable_db, key).effects);
        effects
    }

    /// The settings page gained the keyboard.
    pub fn focus_in(&mut self)
        ensures
            final(self).content_focused,
            final(self).gen_settings == old(self).gen_settings,
            final(self).gen_form_cursor == old(self).gen_form_cursor,
            final(self).gen_editing_field == old(self).gen_editing_field,
            final(self).gen_share_stable_db == old(self).gen_share_stable_db,
            final(self).switching_input == old(self).switching_input,
    {
        self.content_focused = true;
    }

    /// The settings page lost the keyboard: editing stops and an open dropdown
    /// of the highlighted row closes.
    pub fn focus_out(&mut self, dropdown_open: bool) -> (effects: Vec<GeneralEffect>)
        ensures
            !final(self).content_focused,
            !final(self).gen_editing_field,
            effects@ == (if dropdown_open && (row_at(nightly_build(), old(self).gen_form_cursor as int) matches Some(row)
                && is_dropdown_row(row)) {
                seq![GeneralEffect::DropdownClose]
            } else {
                Seq::empty()
            }),
            final(self).gen_settings == old(self).gen_settings,
            final(self).gen_form_cursor == old(self).gen_form_cursor,
            final(self).gen_share_stable_db == old(self).gen_share_stable_db,
            final(self).switching_input == old(self).switching_input,
    {
        self.content_focused = false;
        self.gen_editing_field = false;
        let mut effects: Vec<GeneralEffect> = Vec::new();
        if dropdown_open && self.current_dropdown().is_some() {
            effects.push(GeneralEffect::DropdownClose);
        }
        assert(effects@ =~= (if dropdown_open && (row_at(nightly_build(), old(self).gen_form_cursor as int) matches Some(row)
            && is_dropdown_row(row)) {
            seq![GeneralEffect::DropdownClose]
        } else {
            Seq::empty()
        }));
        effects
    }
}

// ---------------------------------------------------------------------------
// Pointer input

impl GeneralSection {
    /// Where `row` stands among the form's rows: its first position, or
    /// `None` when this build does not show it.
    pub fn find_row(&self, row: GeneralFormRow) -> (r: Option<usize>)
        ensures
            match r {
                Some(i) => i < form_rows(nightly_build()).len() && form_rows(nightly_build())[i as int] == row
                    && forall|k: int| 0 <= k < i ==> form_rows(nightly_build())[k] != row,
                None => !form_rows(nightly_build()).contains(row),
            },
    {
        let rows = self.gen_form_rows();
        let mut i: usize = 0;
        while i < rows.len()
            invariant
                rows@ == form_rows(nightly_build()),
                i <= rows@.len(),
                forall|k: int| 0 <= k < i ==> rows@[k] != row,
            decreases rows.len() - i,
        {
            if rows[i] == row {
                return Some(i);
            }
            i += 1;
        }
        None
    }

    /// Whether `row` is drawn highlighted: the page holds the keyboard and the
    /// cursor is on that row (the save button included).
    pub fn is_at(&self, row: GeneralFormRow) -> (r: bool)
        ensures
            r == (self.content_focused && row_at(nightly_build(), self.gen_form_cursor as int) == Some(row)),
    {
        if !self.content_focused {
            return false;
        }
        match self.gen_current_row() {
            Some(current) => current == row,
            None => false,
        }
    }

    /// The pointer went down on a checkbox or dropdown row: the page takes the
    /// keyboard and the highlight moves to that row.
    pub fn click_row(&mut self, row: GeneralFormRow)
        ensures
            final(self).content_focused,
            form_rows(nightly_build()).contains(row) ==> row_at(nightly_build(), final(self).gen_form_cursor as int)
                == Some(row) && forall|k: int| 0 <= k < final(self).gen_form_cursor ==> form_rows(nightly_build())[k] != row,
            !form_rows(nightly_build()).contains(row) ==> final(self).gen_form_cursor == old(self).gen_form_cursor,
            final(self).gen_settings == old(self).gen_settings,
            final(self).gen_editing_field == old(self).gen_editing_field,
            final(self).gen_share_stable_db == old(self).gen_share_stable_db,
            final(self).switching_input == old(self).switching_input,
    {
        self.content_focused = true;
        if let Some(position) = self.find_row(row) {
            self.gen_form_cursor = position;
        }
    }

    /// The pointer went down on a text input: the highlight moves to its row
    /// and the input takes the keyboard. The blur this causes on the input
    /// that had it is marked as a switch, not as leaving the form.
    pub fn click_input(&mut self, row: GeneralFormRow) -> (effects: Vec<GeneralEffect>)
        ensures
            final(self).switching_input,
            final(self).content_focused,
            form_rows(nightly_build()).contains(row) ==> row_at(nightly_build(), final(self).gen_form_cursor as int)
                == Some(row) && forall|k: int| 0 <= k < final(self).gen_form_cursor ==> form_rows(nightly_build())[k] != row,
            !form_rows(nightly_build()).contains(row) ==> final(self).gen_form_cursor == old(self).gen_form_cursor,
            effects@ == focus_effects(row_at(nightly_build(), final(self).gen_form_cursor as int)),
            final(self).gen_editing_field == focus_editing(row_at(nightly_build(), final(self).gen_form_cursor as int)),
            final(self).gen_settings == old(self).gen_settings,
            final(self).gen_share_stable_db == old(self).gen_share_stable_db,
    {
        self.switching_input = true;
        self.click_row(row);
        self.gen_focus_current_input()
    }

    /// The save button was clicked: the page takes the keyboard, the highlight
    /// moves to the button (the first row if it were missing), and a save is
    /// asked for.
    pub fn click_save(&mut self) -> (effects: Vec<GeneralEffect>)
        ensures
            effects@ == seq![GeneralEffect::Save],
            final(self).content_focused,
            row_at(nightly_build(), final(self).gen_form_cursor as int) == Some(GeneralFormRow::SaveButton),
            final(self).gen_settings == old(self).gen_settings,
            final(self).gen_editing_field == old(self).gen_editing_field,
            final(self).gen_share_stable_db == old(self).gen_share_stable_db,
            final(self).switching_input == old(self).switching_input,
    {
        self.content_focused = true;
        self.gen_form_cursor = match self.find_row(GeneralFormRow::SaveButton) {
            Some(position) => position,
            None => 0,
        };
        proof {
            let rows = form_rows(nightly_build());
            assert(rows[rows.len() - 1] == GeneralFormRow::SaveButton);
            assert(rows.contains(GeneralFormRow::SaveButton));
        }
        let mut effects: Vec<GeneralEffect> = Vec::new();
        effects.push(GeneralEffect::Save);
        assert(effects@ =~= seq![GeneralEffect::Save]);
        effects
    }

    /// A checkbox was clicked to `value`. Shared-database access is persisted
    /// by the interface layer first, so that row only asks for it.
    #[verifier::rlimit(40)]
    pub fn set_checkbox(&mut self, row: GeneralFormRow, value: bool) -> (effects: Vec<GeneralEffect>)
        ensures
            final(self).gen_settings == with_checkbox(old(self).gen_settings, row, value),
            effects@ == (if row == GeneralFormRow::ShareStableDb {
                seq![GeneralEffect::SetShareStableDb(value)]
            } else {
                Seq::empty()
            }),
            final(self).gen_form_cursor == old(self).gen_form_cursor,
            final(self).gen_editing_field == old(self).gen_editing_field,
            final(self).gen_share_stable_db == old(self).gen_share_stable_db,
            final(self).content_focused == old(self).content_focused,
            final(self).switching_input == old(self).switching_input,
    {
        let mut effects: Vec<GeneralEffect> = Vec::new();
        match row {
            GeneralFormRow::CheckForUpdates => self.gen_settings.check_for_updates = value,
            GeneralFormRow::RestoreSession => self.gen_settings.restore_session_on_startup = value,
            GeneralFormRow::ReopenConnections => self.gen_settings.reopen_last_connections = value,
            GeneralFormRow::PauseRefreshOnError => self.gen_settings.auto_refresh_pause_on_error = value,
            GeneralFormRow::RefreshOnlyIfVisible => self.gen_settings.auto_refresh_only_if_visible = value,
            GeneralFormRow::ConfirmDangerous => self.gen_settings.confirm_dangerous_queries = value,
            GeneralFormRow::RequiresWhere => self.gen_settings.dangerous_requires_where = value,
            GeneralFormRow::RequiresPreview => self.gen_settings.dangerous_requires_preview = value,
            GeneralFormRow::ShareStableDb => effects.push(GeneralEffect::SetShareStableDb(value)),
            _ => {},
        }
        assert(effects@ =~= (if row == GeneralFormRow::ShareStableDb {
            seq![GeneralEffect::SetShareStableDb(value)]
        } else {
            Seq::<GeneralEffect>::empty()
        }));
        effects
    }

    /// A text input lost the keyboard. After a click on another input that is
    /// only the switch between them; otherwise the keyboard goes back to the
    /// settings sidebar.
    pub fn input_blurred(&mut self) -> (effects: Vec<GeneralEffect>)
        ensures
            !final(self).switching_input,
            effects@ == (if old(self).switching_input {
                Seq::empty()
            } else {
                seq![GeneralEffect::RequestFocusReturn]
            }),
            final(self).gen_settings == old(self).gen_settings,
            final(self).gen_form_cursor == old(self).gen_form_cursor,
            final(self).gen_editing_field == old(self).gen_editing_field,
            final(self).gen_share_stable_db == old(self).gen_share_stable_db,
            final(self).content_focused == old(self).content_focused,
    {
        let mut effects: Vec<GeneralEffect> = Vec::new();
        if self.switching_input {
            self.switching_input = false;
        } else {
            effects.push(GeneralEffect::RequestFocusReturn);
        }
        assert(effects@ =~= (if old(self).switching_input {
            Seq::<GeneralEffect>::empty()
        } else {
            seq![GeneralEffect::RequestFocusReturn]
        }));
        effects
    }
}

/// The settings with the checkbox of `row` set to `value` (rows without a
/// checkbox in the settings leave them alone).
pub open spec fn with_checkbox(s: GeneralSettings, row: GeneralFormRow, value: bool) -> GeneralSettings {
    match row {
        GeneralFormRow::CheckForUpdates => GeneralSettings { check_for_updates: value, ..s },
        GeneralFormRow::RestoreSession => GeneralSettings { restore_session_on_startup: value, ..s },
        GeneralFormRow::ReopenConnections => GeneralSettings { reopen_last_connections: value, ..s },
        GeneralFormRow::PauseRefreshOnError => GeneralSettings { auto_refresh_pause_on_error: value, ..s },
        GeneralFormRow::RefreshOnlyIfVisible => GeneralSettings { auto_refresh_only_if_visible: value, ..s },
        GeneralFormRow::ConfirmDangerous => GeneralSettings { confirm_dangerous_queries: value, ..s },
        GeneralFormRow::RequiresWhere => GeneralSettings { dangerous_requires_where: value, ..s },
        GeneralFormRow::RequiresPreview => GeneralSettings { dangerous_requires_preview: value, ..s },
        _ => s,
    }
}

// ---------------------------------------------------------------------------
// Dropdown contents and index mappings

/// The storage id a language index selects: index 0 is "follow the system"
/// (stored as the empty string), index `i + 1` the `i`-th available language.
pub open spec fn language_at(index: int, available: Seq<&str>) -> Seq<char> {
    if 1 <= index <= available.len() {
        available[index - 1]@
    } else {
        Seq::empty()
    }
}

/// The dropdown position of each choice, and the choice at each position
/// (out-of-range positions select the first choice).
pub open spec fn theme_position(theme: ThemeSetting) -> int {
    match theme {
        ThemeSetting::Dark => 0,
        ThemeSetting::Mirage => 1,
        ThemeSetting::Light => 2,
    }
}

pub open spec fn theme_at(index: int) -> ThemeSetting {
    if index == 1 {
        ThemeSetting::Mirage
    } else if index == 2 {
        ThemeSetting::Light
    } else {
        ThemeSetting::Dark
    }
}

pub open spec fn style_position(style: AppStyle) -> int {
    match style {
        AppStyle::Default => 0,
        AppStyle::Compact => 1,
    }
}

pub open spec fn style_at(index: int) -> AppStyle {
    if index == 1 { AppStyle::Compact } else { AppStyle::Default }
}

pub open spec fn startup_focus_position(focus: StartupFocus) -> int {
    match focus {
        StartupFocus::Sidebar => 0,
        StartupFocus::LastTab => 1,
    }
}

pub open spec fn startup_focus_at(index: int) -> StartupFocus {
    if index == 1 { StartupFocus::LastTab } else { StartupFocus::Sidebar }
}

pub open spec fn refresh_policy_position(policy: RefreshPolicySetting) -> int {
    match policy {
        RefreshPolicySetting::Manual => 0,
        RefreshPolicySetting::Interval => 1,
    }
}

pub open spec fn refresh_policy_at(index: int) -> RefreshPolicySetting {
    if index == 1 { RefreshPolicySetting::Interval } else { RefreshPolicySetting::Manual }
}

/// Whether `r` is the dropdown position of the persisted language: 0 for
/// "follow the system" (the empty id) and for a language that is not
/// available, otherwise one past the first position of its storage id among
/// `available`.
pub open spec fn is_language_position(persisted: Seq<char>, available: Seq<&str>, r: int) -> bool {
    if r == 0 {
        persisted.len() == 0 || forall|i: int| 0 <= i < available.len() ==> (#[trigger] available[i])@ != persisted
    } else {
        &&& persisted.len() > 0
        &&& 1 <= r <= available.len()
        &&& available[r - 1]@ == persisted
        &&& forall|i: int| 0 <= i < r - 1 ==> (#[trigger] available[i])@ != persisted
    }
}

/// Every choice sits at a position of its dropdown that selects it again, and
/// every position of a dropdown is the position of the choice it selects.
pub proof fn law_dropdown_positions_round_trip(
    theme: ThemeSetting,
    style: AppStyle,
    focus: StartupFocus,
    policy: RefreshPolicySetting,
    index: int,
)
    ensures
        theme_at(theme_position(theme)) == theme,
        style_at(style_position(style)) == style,
        startup_focus_at(startup_focus_position(focus)) == focus,
        refresh_policy_at(refresh_policy_position(policy)) == policy,
        0 <= index < 3 ==> theme_position(theme_at(index)) == index,
        0 <= index < 2 ==> style_position(style_at(index)) == index,
        0 <= index < 2 ==> startup_focus_position(startup_focus_at(index)) == index,
        0 <= index < 2 ==> refresh_policy_position(refresh_policy_at(index)) == index,
{
}

/// Whether the available languages have distinct, non-empty storage ids.
pub open spec fn distinct_language_ids(available: Seq<&str>) -> bool {
    &&& forall|i: int| 0 <= i < available.len() ==> (#[trigger] available[i])@.len() > 0
    &&& forall|i: int, j: int|
        0 <= i < j < available.len() ==> (#[trigger] available[i])@ != (#[trigger] available[j])@
}

/// The language dropdown round-trips: the position of the language a position
/// selects is that position (0, "follow the system", for any position past
/// the list), and the language selected at the position of a persisted id is
/// that id when it is available, the system default otherwise.
pub proof fn law_language_positions_round_trip(available: Seq<&str>, index: int, persisted: Seq<char>, r: int)
    requires
        distinct_language_ids(available),
        index >= 0,
    ensures
        is_language_position(language_at(index, available), available, r) ==> r == (if index <= available.len() {
            index
        } else {
            0
        }),
        is_language_position(persisted, available, r) ==> language_at(r, available) == (if r > 0 {
            persisted
        } else {
            Seq::<char>::empty()
        }),
{
    if is_language_position(language_at(index, available), available, r) {
        if 1 <= index <= available.len() {
            let id = available[index - 1]@;
            assert(id.len() > 0);
            if r == 0 {
                assert(available[index - 1]@ != id);
            } else if r - 1 < index - 1 {
                assert(available[r - 1]@ != available[index - 1]@);
            } else if r - 1 > index - 1 {
                assert(available[index - 1]@ != id);
            }
        }
    }
}

impl GeneralSection {
    /// Labels of the theme dropdown.
    pub fn theme_items() -> (r: Vec<&'static str>)
        ensures
            r@.len() == 3,
            r@[0]@ == "Ayu Dark"@,
            r@[1]@ == "Ayu Mirage"@,
            r@[2]@ == "Ayu Light"@,
    {
        vec!["Ayu Dark", "Ayu Mirage", "Ayu Light"]
    }

    /// Labels of the style dropdown.
    pub fn style_items() -> (r: Vec<&'static str>)
        ensures
            r@.len() == 2,
            r@[0]@ == "Default"@,
            r@[1]@ == "Compact"@,
    {
        vec![AppStyle::Default.label(), AppStyle::Compact.label()]
    }

    /// Label keys of the startup-focus dropdown.
    pub fn startup_focus_items() -> (r: Vec<&'static str>)
        ensures
            r@.len() == 2,
            r@[0]@ == "settings.general.default_focus.option.sidebar"@,
            r@[1]@ == "settings.general.default_focus.option.last_tab"@,
    {
        vec![
            "settings.general.default_focus.option.sidebar",
            "settings.general.default_focus.option.last_tab",
        ]
    }

    /// Label keys of the refresh-policy dropdown.
    pub fn refresh_policy_items() -> (r: Vec<&'static str>)
        ensures
            r@.len() == 2,
            r@[0]@ == "settings.general.refresh_policy.option.manual"@,
            r@[1]@ == "settings.general.refresh_policy.option.interval"@,
    {
        vec![
            "settings.general.refresh_policy.option.manual",
            "settings.general.refresh_policy.option.interval",
        ]
    }

    pub fn theme_index(theme: ThemeSetting) -> (r: usize)
        ensures
            r == theme_position(theme),
    {
        match theme {
            ThemeSetting::Dark => 0,
            ThemeSetting::Mirage => 1,
            ThemeSetting::Light => 2,
        }
    }

    /// The theme at a dropdown index; anything out of range is Dark.
    pub fn theme_for_index(index: usize) -> (r: ThemeSetting)
        ensures
            r == theme_at(index as int),
    {
        match index {
            1 => ThemeSetting::Mirage,
            2 => ThemeSetting::Light,
            _ => ThemeSetting::Dark,
        }
    }

    pub fn style_index(style: AppStyle) -> (r: usize)
        ensures
            r == style_position(style),
    {
        match style {
            AppStyle::Default => 0,
            AppStyle::Compact => 1,
        }
    }

    /// The style at a dropdown index; anything out of range is Default.
    pub fn style_for_index(index: usize) -> (r: AppStyle)
        ensures
            r == style_at(index as int),
    {
        match index {
            1 => AppStyle::Compact,
            _ => AppStyle::Default,
        }
    }

    pub fn startup_focus_index(focus: StartupFocus) -> (r: usize)
        ensures
            r == startup_focus_position(focus),
    {
        match focus {
            StartupFocus::Sidebar => 0,
            StartupFocus::LastTab => 1,
        }
    }

    pub fn startup_focus_for_index(index: usize) -> (r: StartupFocus)
        ensures
            r == startup_focus_at(index as int),
    {
        match index {
            1 => StartupFocus::LastTab,
            _ => StartupFocus::Sidebar,
        }
    }

    pub fn refresh_policy_index(policy: RefreshPolicySetting) -> (r: usize)
        ensures
            r == refresh_policy_position(policy),
    {
        match policy {
            RefreshPolicySetting::Manual => 0,
            RefreshPolicySetting::Interval => 1,
        }
    }

    pub fn refresh_policy_for_index(index: usize) -> (r: RefreshPolicySetting)
        ensures
            r == refresh_policy_at(index as int),
    {
        match index {
            1 => RefreshPolicySetting::Interval,
            _ => RefreshPolicySetting::Manual,
        }
    }

    /// The dropdown index of a persisted language: 0 for "follow the system"
    /// and for a language that is not available, otherwise one past its
    /// position among the `available` storage ids.
    pub fn language_index(persisted: &str, available: &[&str]) -> (r: usize)
        ensures
            is_language_position(persisted@, available@, r as int),
    {
        if persisted.is_empty() {
            return 0;
        }
        let mut i: usize = 0;
        while i < available.len()
            invariant
                i <= available@.len(),
                persisted@.len() > 0,
                forall|k: int| 0 <= k < i ==> (#[trigger] available@[k])@ != persisted@,
            decreases available.len() - i,
        {
            if str_eq(available[i], persisted) {
                return i + 1;
            }
            i += 1;
        }
        0
    }

    /// The storage id a language dropdown index selects; index 0, and any index
    /// past the available languages, is "follow the system".
    pub fn language_for_index<'a>(index: usize, available: &[&'a str]) -> (r: &'a str)
        ensures
            r@ == language_at(index as int, available@),
    {
        if index >= 1 && index - 1 < available.len() {
            available[index - 1]
        } else {
            proof {
                reveal_strlit("");
            }
            ""
        }
    }
}

// ---------------------------------------------------------------------------
// Unsaved changes and the save checks

/// Whether the choices made with dropdowns and checkboxes differ from the
/// saved settings (the language and the shared-database toggle take effect
/// on their own and are not compared).
pub open spec fn choices_differ(edited: GeneralSettings, saved: GeneralSettings) -> bool {
    ||| edited.theme != saved.theme
    ||| edited.style != saved.style
    ||| edited.check_for_updates != saved.check_for_updates
    ||| edited.restore_session_on_startup != saved.restore_session_on_startup
    ||| edited.reopen_last_connections != saved.reopen_last_connections
    ||| edited.default_focus_on_startup != saved.default_focus_on_startup
    ||| edited.default_refresh_policy != saved.default_refresh_policy
    ||| edited.auto_refresh_pause_on_error != saved.auto_refresh_pause_on_error
    ||| edited.auto_refresh_only_if_visible != saved.auto_refresh_only_if_visible
    ||| edited.confirm_dangerous_queries != saved.confirm_dangerous_queries
    ||| edited.dangerous_requires_where != saved.dangerous_requires_where
    ||| edited.dangerous_requires_preview != saved.dangerous_requires_preview
}

/// Whether an input's text, trimmed, differs from the decimal spelling of
/// the saved number.
pub open spec fn input_differs(input: Seq<char>, saved: nat) -> bool {
    trim_space(input) != decimal(saved)
}

/// Whether the numeric inputs differ from the saved settings.
pub open spec fn inputs_differ(inputs: GeneralInputs, saved: GeneralSettings) -> bool {
    ||| input_differs(inputs.max_history@, saved.max_history_entries as nat)
    ||| input_differs(inputs.auto_save@, saved.auto_save_interval_ms as nat)
    ||| input_differs(inputs.refresh_interval@, saved.default_refresh_interval_secs as nat)
    ||| input_differs(inputs.max_bg_tasks@, saved.max_concurrent_background_tasks as nat)
    ||| input_differs(inputs.object_preview_limit@, saved.object_preview_size_limit_mib as nat)
    ||| input_differs(inputs.key_value_size_limit@, saved.key_value_size_limit_mib as nat)
}

fn differs_from_number(input: &String, saved: u64) -> (r: bool)
    ensures
        r == input_differs(input@, saved as nat),
{
    let trimmed = trim_str(input.as_str());
    let spelled = u64_to_decimal(saved);
    !str_eq(trimmed.as_str(), spelled.as_str())
}

/// The first numeric input that fails its check, with the message key to show.
/// Each input is read trimmed.
pub open spec fn first_invalid_trimmed(inputs: GeneralInputs) -> Option<Seq<char>> {
    if !(parse_unsigned(trim_space(inputs.max_history@), usize::MAX as nat) matches Some(v) && v >= 10) {
        Some("settings.general.max_history.error"@)
    } else if !(parse_unsigned(trim_space(inputs.auto_save@), u64::MAX as nat) matches Some(v) && v >= 500) {
        Some("settings.general.auto_save_interval.error"@)
    } else if !(parse_unsigned(trim_space(inputs.refresh_interval@), u32::MAX as nat) matches Some(v) && v >= 1) {
        Some("settings.general.refresh_interval.error"@)
    } else if !(parse_unsigned(trim_space(inputs.max_bg_tasks@), usize::MAX as nat) matches Some(v) && v >= 1) {
        Some("settings.general.max_background_tasks.error"@)
    } else if !(parse_unsigned(trim_space(inputs.object_preview_limit@), u64::MAX as nat) matches Some(v) && v >= 1) {
        Some("settings.general.object_preview_limit.error"@)
    } else if !(parse_unsigned(trim_space(inputs.key_value_size_limit@), u64::MAX as nat) matches Some(v) && v >= 1) {
        Some("settings.general.key_value_size_limit.error"@)
    } else {
        None
    }
}

/// Whether `n` holds what the inputs spell.
pub open spec fn numbers_of_trimmed(inputs: GeneralInputs, n: ValidatedNumbers) -> bool {
    &&& parse_unsigned(trim_space(inputs.max_history@), usize::MAX as nat) == Some(n.max_history_entries as nat)
    &&& parse_unsigned(trim_space(inputs.auto_save@), u64::MAX as nat) == Some(n.auto_save_interval_ms as nat)
    &&& parse_unsigned(trim_space(inputs.refresh_interval@), u32::MAX as nat) == Some(n.default_refresh_interval_secs as nat)
    &&& parse_unsigned(trim_space(inputs.max_bg_tasks@), usize::MAX as nat) == Some(n.max_concurrent_background_tasks as nat)
    &&& parse_unsigned(trim_space(inputs.object_preview_limit@), u64::MAX as nat) == Some(n.object_preview_size_limit_mib as nat)
    &&& parse_unsigned(trim_space(inputs.key_value_size_limit@), u64::MAX as nat) == Some(n.key_value_size_limit_mib as nat)
}

/// Parse one input: its text, trimmed, as an unsigned number no larger than
/// `max` and at least `min`.
fn parse_input(input: &String, max: u64, min: u64) -> (r: Option<u64>)
    ensures
        match r {
            Some(v) => parse_unsigned(trim_space(input@), max as nat) == Some(v as nat) && v >= min,
            None => !(parse_unsigned(trim_space(input@), max as nat) matches Some(v) && v >= min),
        },
{
    let trimmed = trim_str(input.as_str());
    match parse_bounded(trimmed.as_str(), max) {
        Some(v) => if v >= min { Some(v) } else { None },
        None => None,
    }
}

impl GeneralSection {
    // The dropdowns report the position the user picked; the choice at that
    // position goes into the edited settings.

    /// The theme dropdown picked position `index`.
    pub fn select_theme(&mut self, index: usize)
        ensures
            final(self).gen_settings == (GeneralSettings { theme: theme_at(index as int), ..old(self).gen_settings }),
            final(self).gen_form_cursor == old(self).gen_form_cursor,
            final(self).gen_editing_field == old(self).gen_editing_field,
            final(self).gen_share_stable_db == old(self).gen_share_stable_db,
            final(self).content_focused == old(self).content_focused,
            final(self).switching_input == old(self).switching_input,
    {
        self.gen_settings.theme = Self::theme_for_index(index);
    }

    /// The style dropdown picked position `index`.
    pub fn select_style(&mut self, index: usize)
        ensures
            final(self).gen_settings == (GeneralSettings { style: style_at(index as int), ..old(self).gen_settings }),
            final(self).gen_form_cursor == old(self).gen_form_cursor,
            final(self).gen_editing_field == old(self).gen_editing_field,
            final(self).gen_share_stable_db == old(self).gen_share_stable_db,
            final(self).content_focused == old(self).content_focused,
            final(self).switching_input == old(self).switching_input,
    {
        self.gen_settings.style = Self::style_for_index(index);
    }

    /// The startup-focus dropdown picked position `index`.
    pub fn select_startup_focus(&mut self, index: usize)
        ensures
            final(self).gen_settings == (GeneralSettings { default_focus_on_startup: startup_focus_at(index as int), ..old(self).gen_settings }),
            final(self).gen_form_cursor == old(self).gen_form_cursor,
            final(self).gen_editing_field == old(self).gen_editing_field,
            final(self).gen_share_stable_db == old(self).gen_share_stable_db,
            final(self).content_focused == old(self).content_focused,
            final(self).switching_input == old(self).switching_input,
    {
        self.gen_settings.default_focus_on_startup = Self::startup_focus_for_index(index);
    }

    /// The refresh-policy dropdown picked position `index`.
    pub fn select_refresh_policy(&mut self, index: usize)
        ensures
            final(self).gen_settings == (GeneralSettings { default_refresh_policy: refresh_policy_at(index as int), ..old(self).gen_settings }),
            final(self).gen_form_cursor == old(self).gen_form_cursor,
            final(self).gen_editing_field == old(self).gen_editing_field,
            final(self).gen_share_stable_db == old(self).gen_share_stable_db,
            final(self).content_focused == old(self).content_focused,
            final(self).switching_input == old(self).switching_input,
    {
        self.gen_settings.default_refresh_policy = Self::refresh_policy_for_index(index);
    }

    /// The language dropdown picked position `index`: the storage id it
    /// selects among `available` becomes the edited language.
    pub fn select_language(&mut self, index: usize, available: &[&str])
        ensures
            final(self).gen_settings.language@ == language_at(index as int, available@),
            final(self).gen_settings == (GeneralSettings { language: final(self).gen_settings.language, ..old(self).gen_settings }),
            final(self).gen_form_cursor == old(self).gen_form_cursor,
            final(self).gen_editing_field == old(self).gen_editing_field,
            final(self).gen_share_stable_db == old(self).gen_share_stable_db,
            final(self).content_focused == old(self).content_focused,
            final(self).switching_input == old(self).switching_input,
    {
        self.gen_settings.language = String::from_str(Self::language_for_index(index, available));
    }
}

/// Whether each numeric input shows the decimal spelling of its setting.
pub open spec fn inputs_show(inputs: GeneralInputs, s: GeneralSettings) -> bool {
    &&& inputs.max_history@ == decimal(s.max_history_entries as nat)
    &&& inputs.auto_save@ == decimal(s.auto_save_interval_ms as nat)
    &&& inputs.refresh_interval@ == decimal(s.default_refresh_interval_secs as nat)
    &&& inputs.max_bg_tasks@ == decimal(s.max_concurrent_background_tasks as nat)
    &&& inputs.object_preview_limit@ == decimal(s.object_preview_size_limit_mib as nat)
    &&& inputs.key_value_size_limit@ == decimal(s.key_value_size_limit_mib as nat)
}

/// The numbers the settings hold.
pub open spec fn numbers_of(s: GeneralSettings) -> ValidatedNumbers {
    ValidatedNumbers {
        max_history_entries: s.max_history_entries,
        auto_save_interval_ms: s.auto_save_interval_ms,
        default_refresh_interval_secs: s.default_refresh_interval_secs,
        max_concurrent_background_tasks: s.max_concurrent_background_tasks,
        object_preview_size_limit_mib: s.object_preview_size_limit_mib,
        key_value_size_limit_mib: s.key_value_size_limit_mib,
    }
}

/// Whether the settings' numbers meet the checks a save runs.
pub open spec fn numbers_pass_checks(s: GeneralSettings) -> bool {
    &&& s.max_history_entries >= 10
    &&& s.auto_save_interval_ms >= 500
    &&& s.default_refresh_interval_secs >= 1
    &&& s.max_concurrent_background_tasks >= 1
    &&& s.object_preview_size_limit_mib >= 1
    &&& s.key_value_size_limit_mib >= 1
}

impl GeneralInputs {
    /// The texts the numeric inputs open with: each setting's decimal spelling.
    pub fn from_settings(s: &GeneralSettings) -> (r: Self)
        ensures
            inputs_show(r, *s),
    {
        GeneralInputs {
            max_history: u64_to_decimal(s.max_history_entries as u64),
            auto_save: u64_to_decimal(s.auto_save_interval_ms),
            refresh_interval: u64_to_decimal(s.default_refresh_interval_secs as u64),
            max_bg_tasks: u64_to_decimal(s.max_concurrent_background_tasks as u64),
            object_preview_limit: u64_to_decimal(s.object_preview_size_limit_mib),
            key_value_size_limit: u64_to_decimal(s.key_value_size_limit_mib),
        }
    }
}

proof fn lemma_decimal_is_trimmed(n: nat)
    ensures
        trim_space(decimal(n)) == decimal(n),
{
    lemma_decimal_spells(n);
    assert forall|i: int| 0 <= i < decimal(n).len() implies !is_white_space(#[trigger] decimal(n)[i]) by {
        assert(is_digit(decimal(n)[i]));
    }
    lemma_trim_space_of_solid(decimal(n));
}

/// A form whose inputs show the saved settings has no unsaved change: opening
/// the page never reports something to save.
pub proof fn law_untouched_form_is_clean(edited: GeneralSettings, inputs: GeneralInputs)
    requires
        inputs_show(inputs, edited),
    ensures
        !choices_differ(edited, edited),
        !inputs_differ(inputs, edited),
{
    lemma_decimal_is_trimmed(edited.max_history_entries as nat);
    lemma_decimal_is_trimmed(edited.auto_save_interval_ms as nat);
    lemma_decimal_is_trimmed(edited.default_refresh_interval_secs as nat);
    lemma_decimal_is_trimmed(edited.max_concurrent_background_tasks as nat);
    lemma_decimal_is_trimmed(edited.object_preview_size_limit_mib as nat);
    lemma_decimal_is_trimmed(edited.key_value_size_limit_mib as nat);
}

/// Saving a form whose inputs still show the settings passes the checks
/// (when the settings' numbers do) and writes back exactly those numbers.
pub proof fn law_untouched_save_keeps_numbers(s: GeneralSettings, inputs: GeneralInputs)
    requires
        inputs_show(inputs, s),
        numbers_pass_checks(s),
    ensures
        first_invalid_trimmed(inputs) is None,
        numbers_of_trimmed(inputs, numbers_of(s)),
{
    lemma_decimal_is_trimmed(s.max_history_entries as nat);
    lemma_decimal_is_trimmed(s.auto_save_interval_ms as nat);
    lemma_decimal_is_trimmed(s.default_refresh_interval_secs as nat);
    lemma_decimal_is_trimmed(s.max_concurrent_background_tasks as nat);
    lemma_decimal_is_trimmed(s.object_preview_size_limit_mib as nat);
    lemma_decimal_is_trimmed(s.key_value_size_limit_mib as nat);
    law_parse_reads_back_decimal(s.max_history_entries as nat, usize::MAX as nat);
    law_parse_reads_back_decimal(s.auto_save_interval_ms as nat, u64::MAX as nat);
    law_parse_reads_back_decimal(s.default_refresh_interval_secs as nat, u32::MAX as nat);
    law_parse_reads_back_decimal(s.max_concurrent_background_tasks as nat, usize::MAX as nat);
    law_parse_reads_back_decimal(s.object_preview_size_limit_mib as nat, u64::MAX as nat);
    law_parse_reads_back_decimal(s.key_value_size_limit_mib as nat, u64::MAX as nat);
}

impl GeneralSection {
    /// Whether the form holds anything the saved settings do not.
    pub fn has_unsaved_general_changes(&self, saved: &GeneralSettings, inputs: &GeneralInputs) -> (r: bool)
        ensures
            r == (choices_differ(self.gen_settings, *saved) || inputs_differ(*inputs, *saved)),
    {
        let edited = &self.gen_settings;
        if edited.theme != saved.theme || edited.style != saved.style
            || edited.check_for_updates != saved.check_for_updates
            || edited.restore_session_on_startup != saved.restore_session_on_startup
            || edited.reopen_last_connections != saved.reopen_last_connections
            || edited.default_focus_on_startup != saved.default_focus_on_startup
            || edited.default_refresh_policy != saved.default_refresh_policy
            || edited.auto_refresh_pause_on_error != saved.auto_refresh_pause_on_error
            || edited.auto_refresh_only_if_visible != saved.auto_refresh_only_if_visible
            || edited.confirm_dangerous_queries != saved.confirm_dangerous_queries
            || edited.dangerous_requires_where != saved.dangerous_requires_where
            || edited.dangerous_requires_preview != saved.dangerous_requires_preview {
            return true;
        }
        differs_from_number(&inputs.max_history, saved.max_history_entries as u64)
            || differs_from_number(&inputs.auto_save, saved.auto_save_interval_ms)
            || differs_from_number(&inputs.refresh_interval, saved.default_refresh_interval_secs as u64)
            || differs_from_number(&inputs.max_bg_tasks, saved.max_concurrent_background_tasks as u64)
            || differs_from_number(&inputs.object_preview_limit, saved.object_preview_size_limit_mib)
            || differs_from_number(&inputs.key_value_size_limit, saved.key_value_size_limit_mib)
    }

    /// The checks a save runs on the numeric inputs, in order: history at
    /// least 10 entries, auto-save at least 500 ms, refresh interval, task
    /// count and both size limits at least 1. The first failure is reported by
    /// its message key and nothing is saved.
    pub fn validate_general_inputs(inputs: &GeneralInputs) -> (r: Result<ValidatedNumbers, &'static str>)
        ensures
            match r {
                Ok(n) => numbers_of_trimmed(*inputs, n) && n.max_history_entries >= 10 && n.auto_save_interval_ms >= 500
                    && n.default_refresh_interval_secs >= 1 && n.max_concurrent_background_tasks >= 1
                    && n.object_preview_size_limit_mib >= 1 && n.key_value_size_limit_mib >= 1,
                Err(key) => first_invalid_trimmed(*inputs) == Some(key@),
            },
            r is Ok <==> first_invalid_trimmed(*inputs) is None,
    {
        proof {
            reveal_strlit("settings.general.max_history.error");
            reveal_strlit("settings.general.auto_save_interval.error");
            reveal_strlit("settings.general.refresh_interval.error");
            reveal_strlit("settings.general.max_background_tasks.error");
            reveal_strlit("settings.general.object_preview_limit.error");
            reveal_strlit("settings.general.key_value_size_limit.error");
        }
        let max_history = match parse_input(&inputs.max_history, usize::MAX as u64, 10) {
            Some(v) => v as usize,
            None => return Err("settings.general.max_history.error"),
        };
        let auto_save = match parse_input(&inputs.auto_save, u64::MAX, 500) {
            Some(v) => v,
            None => return Err("settings.general.auto_save_interval.error"),
        };
        let refresh_interval = match parse_input(&inputs.refresh_interval, u32::MAX as u64, 1) {
            Some(v) => v as u32,
            None => return Err("settings.general.refresh_interval.error"),
        };
        let max_bg = match parse_input(&inputs.max_bg_tasks, usize::MAX as u64, 1) {
            Some(v) => v as usize,
            None => return Err("settings.general.max_background_tasks.error"),
        };
        let preview = match parse_input(&inputs.object_preview_limit, u64::MAX, 1) {
            Some(v) => v,
            None => return Err("settings.general.object_preview_limit.error"),
        };
        let kv = match parse_input(&inputs.key_value_size_limit, u64::MAX, 1) {
            Some(v) => v,
            None => return Err("settings.general.key_value_size_limit.error"),
        };
        Ok(ValidatedNumbers {
            max_history_entries: max_history,
            auto_save_interval_ms: auto_save,
            default_refresh_interval_secs: refresh_interval,
            max_concurrent_background_tasks: max_bg,
            object_preview_size_limit_mib: preview,
            key_value_size_limit_mib: kv,
        })
    }

    /// Write validated numbers into the edited settings, as a save does
    /// before persisting them.
    pub fn apply_validated_numbers(&mut self, n: ValidatedNumbers)
        ensures
            final(self).gen_settings == (GeneralSettings {
                max_history_entries: n.max_history_entries,
                auto_save_interval_ms: n.auto_save_interval_ms,
                default_refresh_interval_secs: n.default_refresh_interval_secs,
                max_concurrent_background_tasks: n.max_concurrent_background_tasks,
                object_preview_size_limit_mib: n.object_preview_size_limit_mib,
                key_value_size_limit_mib: n.key_value_size_limit_mib,
                ..old(self).gen_settings
            }),
            final(self).gen_form_cursor == old(self).gen_form_cursor,
            final(self).gen_editing_field == old(self).gen_editing_field,
            final(self).gen_share_stable_db == old(self).gen_share_stable_db,
            final(self).content_focused == old(self).content_focused,
            final(self).switching_input == old(self).switching_input,
    {
        self.gen_settings.max_history_entries = n.max_history_entries;
        self.gen_settings.auto_save_interval_ms = n.auto_save_interval_ms;
        self.gen_settings.default_refresh_interval_secs = n.default_refresh_interval_secs;
        self.gen_settings.max_concurrent_background_tasks = n.max_concurrent_background_tasks;
        self.gen_settings.object_preview_size_limit_mib = n.object_preview_size_limit_mib;
        self.gen_settings.key_value_size_limit_mib = n.key_value_size_limit_mib;
    }
}

/// The arrow keys and their vim letters are the same keys, under every
/// combination of modifiers: `down`/`j` move down, `up`/`k` move up and
/// `right`/`l` activate when no modifier is held, and neither form does
/// anything with a modifier held.
pub proof fn law_arrow_keys_match_vim_keys(m: Modifiers)
    ensures
        form_key("down"@, m) == form_key("j"@, m),
        form_key("up"@, m) == form_key("k"@, m),
        form_key("right"@, m) == form_key("l"@, m),
        no_modifiers(m) ==> form_key("j"@, m) == FormKey::Down && form_key("k"@, m) == FormKey::Up
            && form_key("l"@, m) == FormKey::Right,
        !no_modifiers(m) ==> form_key("j"@, m) == FormKey::Other && form_key("k"@, m) == FormKey::Other
            && form_key("l"@, m) == FormKey::Other,
{
    reveal_strlit("j");
    reveal_strlit("k");
    reveal_strlit("l");
    reveal_strlit("down");
    reveal_strlit("up");
    reveal_strlit("right");
    reveal_strlit("enter");
    reveal_strlit("escape");
    reveal_strlit("tab");
    reveal_strlit("g");
    reveal_strlit("G");
    let keys = seq!["j"@, "k"@, "l"@, "down"@, "up"@, "right"@, "enter"@, "escape"@, "tab"@, "g"@, "G"@];
    assert forall|a: int, b: int| 0 <= a < b < keys.len() implies keys[a] != keys[b] by {
        if keys[a].len() == keys[b].len() {
            assert(keys[a][0] != keys[b][0] || keys[a].last() != keys[b].last());
        }
    }
    assert(keys[3] != keys[0] && keys[3] != keys[1] && keys[4] != keys[0] && keys[4] != keys[1]);
}

/// The value the checkbox of `row` shows.
pub open spec fn checkbox_value(s: GeneralSettings, row: GeneralFormRow) -> bool {
    match row {
        GeneralFormRow::CheckForUpdates => s.check_for_updates,
        GeneralFormRow::RestoreSession => s.restore_session_on_startup,
        GeneralFormRow::ReopenConnections => s.reopen_last_connections,
        GeneralFormRow::PauseRefreshOnError => s.auto_refresh_pause_on_error,
        GeneralFormRow::RefreshOnlyIfVisible => s.auto_refresh_only_if_visible,
        GeneralFormRow::ConfirmDangerous => s.confirm_dangerous_queries,
        GeneralFormRow::RequiresWhere => s.dangerous_requires_where,
        GeneralFormRow::RequiresPreview => s.dangerous_requires_preview,
        _ => false,
    }
}

/// Whether `row` is backed by a checkbox of the edited settings.
pub open spec fn is_setting_checkbox(row: GeneralFormRow) -> bool {
    match row {
        GeneralFormRow::CheckForUpdates | GeneralFormRow::RestoreSession | GeneralFormRow::ReopenConnections
        | GeneralFormRow::PauseRefreshOnError | GeneralFormRow::RefreshOnlyIfVisible
        | GeneralFormRow::ConfirmDangerous | GeneralFormRow::RequiresWhere
        | GeneralFormRow::RequiresPreview => true,
        _ => false,
    }
}

/// Each checkbox writes its own setting and no other: clicking the checkbox
/// of `row` to `value` makes that checkbox show `value`, leaves every other
/// checkbox as it was, and touches none of the choices and numbers. The same
/// holds of flipping a checkbox from the keyboard.
pub proof fn law_each_checkbox_writes_its_own_setting(
    s: GeneralSettings,
    row: GeneralFormRow,
    other: GeneralFormRow,
    value: bool,
)
    requires
        is_setting_checkbox(row),
        is_setting_checkbox(other),
        other != row,
    ensures
        checkbox_value(with_checkbox(s, row, value), row) == value,
        checkbox_value(with_checkbox(s, row, value), other) == checkbox_value(s, other),
        checkbox_value(toggled(s, row), row) == !checkbox_value(s, row),
        checkbox_value(toggled(s, row), other) == checkbox_value(s, other),
        with_checkbox(s, row, value).theme == s.theme && with_checkbox(s, row, value).style == s.style
            && with_checkbox(s, row, value).language == s.language
            && with_checkbox(s, row, value).default_focus_on_startup == s.default_focus_on_startup
            && with_checkbox(s, row, value).default_refresh_policy == s.default_refresh_policy
            && numbers_of(with_checkbox(s, row, value)) == numbers_of(s),
{
}

} // verus!
