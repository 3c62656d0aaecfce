//! Record mode — the grid transposed onto a single row.
//!
//! The active row is laid out vertically as `name → value` pairs. This module
//! decides which row the record view shows and where that row comes from:
//! pending inserts read from the edit buffer, base rows from the model — the
//! same split the grid makes.

use vstd::prelude::*;
use vstd::string::*;

verus! {

/// Where a visual row comes from.
#[derive(Debug, Clone, Copy, PartialEq, Eq, Structural)]
pub enum VisualRowSource {
    /// A row of the loaded result, by its index there.
    Base(usize),
    /// A row added in the edit buffer and not yet saved, by its index there.
    Insert(usize),
}

/// The edit state of one row.
#[derive(Debug)]
pub enum RowState {
    Clean,
    Dirty,
    Saving,
    Error(String),
    PendingInsert,
    PendingDelete,
}

impl RowState {
    /// A copy of this state.
    pub fn duplicate(&self) -> (r: RowState)
        ensures
            r == *self,
    {
        match self {
            RowState::Clean => RowState::Clean,
            RowState::Dirty => RowState::Dirty,
            RowState::Saving => RowState::Saving,
            RowState::Error(message) => RowState::Error(message.clone()),
            RowState::PendingInsert => RowState::PendingInsert,
            RowState::PendingDelete => RowState::PendingDelete,
        }
    }

    pub fn is_pending_delete(&self) -> (r: bool)
        ensures
            r == (*self is PendingDelete),
    {
        matches!(self, RowState::PendingDelete)
    }
}

/// The row a record view is currently showing, together with the source it
/// was resolved from.
#[derive(Debug)]
pub struct RecordRow {
    /// Visual row index, which is what selection coordinates use.
    pub visual_ix: usize,
    pub source: Option<VisualRowSource>,
    pub state: RowState,
}

/// The state recorded for base row `base_ix`; a row with no entry is clean.
pub open spec fn base_row_state(row_states: Seq<RowState>, base_ix: int) -> RowState {
    if 0 <= base_ix < row_states.len() {
        row_states[base_ix]
    } else {
        RowState::Clean
    }
}

/// Resolve visual row `visual_ix` against the edit buffer's visual order and
/// the recorded states of the base rows.
pub fn resolve_record_row(visual_order: &[VisualRowSource], row_states: &[RowState], visual_ix: usize) -> (r: RecordRow)
    ensures
        r.visual_ix == visual_ix,
        r.source == (if visual_ix < visual_order@.len() {
            Some(visual_order@[visual_ix as int])
        } else {
            None
        }),
        r.state == (match r.source {
            Some(VisualRowSource::Base(b)) => base_row_state(row_states@, b as int),
            Some(VisualRowSource::Insert(_)) => RowState::PendingInsert,
            None => RowState::Clean,
        }),
{
    let source = if visual_ix < visual_order.len() {
        Some(visual_order[visual_ix])
    } else {
        None
    };
    let state = match source {
        Some(VisualRowSource::Base(base_idx)) => {
            if base_idx < row_states.len() {
                row_states[base_idx].duplicate()
            } else {
                RowState::Clean
            }
        },
        Some(VisualRowSource::Insert(_)) => RowState::PendingInsert,
        None => RowState::Clean,
    };
    RecordRow { visual_ix, source, state }
}

/// The row the record view shows: the selected row, the first when nothing is
/// selected, clamped because a refresh can shrink the result under a stale
/// selection.
pub fn record_visual_index(active_row: Option<usize>, row_count: usize) -> (r: usize)
    requires
        row_count > 0,
    ensures
        r == (match active_row {
            Some(row) => if row < row_count { row } else { (row_count - 1) as usize },
            None => 0,
        }),
        r < row_count,
{
    let row = match active_row {
        Some(row) => row,
        None => 0,
    };
    if row < row_count - 1 { row } else { row_count - 1 }
}

/// How a record row is tinted.
#[derive(Debug, Clone, Copy, PartialEq, Eq, Structural)]
pub enum RowTint {
    Saving,
    Error,
    Insert,
    Delete,
}

/// The tint of a row in the given state; clean and merely dirty rows are not
/// tinted (dirty cells are marked one by one instead).
pub fn row_tint(state: &RowState) -> (r: Option<RowTint>)
    ensures
        r == (match *state {
            RowState::Saving => Some(RowTint::Saving),
            RowState::Error(_) => Some(RowTint::Error),
            RowState::PendingInsert => Some(RowTint::Insert),
            RowState::PendingDelete => Some(RowTint::Delete),
            RowState::Dirty | RowState::Clean => None,
        }),
{
    match state {
        RowState::Saving => Some(RowTint::Saving),
        RowState::Error(_) => Some(RowTint::Error),
        RowState::PendingInsert => Some(RowTint::Insert),
        RowState::PendingDelete => Some(RowTint::Delete),
        RowState::Dirty | RowState::Clean => None,
    }
}

/// How one field of the record view is drawn.
#[derive(Debug, Clone, Copy, PartialEq, Eq, Structural)]
pub struct FieldLook {
    /// The row's tint, shared by every field.
    pub tint: Option<RowTint>,
    /// The alternate background of every other field, on untinted rows.
    pub striped: bool,
    /// The field holds the selection.
    pub active: bool,
    /// The cell was changed in the edit buffer and not saved yet.
    pub dirty_mark: bool,
    /// NULL and auto-generated values are set in italics.
    pub italic: bool,
    /// The row is about to be deleted.
    pub struck_through: bool,
    /// Greyed text: deleted rows, NULL and auto-generated values.
    pub muted: bool,
    /// Whether the field takes clicks; while its editor is open it must not,
    /// or a click into the editor would move focus back to the table and end
    /// the edit.
    pub takes_clicks: bool,
}

/// How field `col_ix` of a record row in `state`, read from `source`, is
/// drawn. Only base rows track dirty cells (a pending insert is new as a
/// whole), so `cell_dirty` counts for them alone.
pub fn field_look(
    state: &RowState,
    source: Option<VisualRowSource>,
    col_ix: usize,
    is_active: bool,
    is_editing: bool,
    is_null: bool,
    is_auto_generated: bool,
    cell_dirty: bool,
) -> (r: FieldLook)
    ensures
        r.tint == (match *state {
            RowState::Saving => Some(RowTint::Saving),
            RowState::Error(_) => Some(RowTint::Error),
            RowState::PendingInsert => Some(RowTint::Insert),
            RowState::PendingDelete => Some(RowTint::Delete),
            RowState::Dirty | RowState::Clean => None,
        }),
        r.striped == (r.tint is None && col_ix % 2 == 1),
        r.active == is_active,
        r.dirty_mark == (source matches Some(VisualRowSource::Base(_)) && cell_dirty),
        r.italic == (is_null || is_auto_generated),
        r.struck_through == (*state is PendingDelete),
        r.muted == (*state is PendingDelete || is_null || is_auto_generated),
        r.takes_clicks == !is_editing,
{
    let tint = row_tint(state);
    let deleting = state.is_pending_delete();
    let base_row = match source {
        Some(VisualRowSource::Base(_)) => true,
        _ => false,
    };
    FieldLook {
        tint,
        striped: tint.is_none() && col_ix % 2 == 1,
        active: is_active,
        dirty_mark: base_row && cell_dirty,
        italic: is_null || is_auto_generated,
        struck_through: deleting,
        muted: deleting || is_null || is_auto_generated,
        takes_clicks: !is_editing,
    }
}

/// The value a record field shows. A base row shows the edit buffer's value
/// for the cell when it holds one (`edited`), otherwise the loaded cell
/// (`base`); a pending insert shows its own cell (`inserted`); whatever is
/// missing reads as `null`.
pub fn field_value<'a, T>(
    source: Option<VisualRowSource>,
    edited: Option<&'a T>,
    base: Option<&'a T>,
    inserted: Option<&'a T>,
    null: &'a T,
) -> (r: &'a T)
    ensures
        *r == (match source {
            Some(VisualRowSource::Base(_)) => match edited {
                Some(v) => *v,
                None => match base {
                    Some(v) => *v,
                    None => *null,
                },
            },
            Some(VisualRowSource::Insert(_)) => match inserted {
                Some(v) => *v,
                None => *null,
            },
            None => *null,
        }),
{
    match source {
        Some(VisualRowSource::Base(_)) => match edited {
            Some(v) => v,
            None => match base {
                Some(v) => v,
                None => null,
            },
        },
        Some(VisualRowSource::Insert(_)) => match inserted {
            Some(v) => v,
            None => null,
        },
        None => null,
    }
}

} // verus!
