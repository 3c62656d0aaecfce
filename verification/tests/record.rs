use dbflux::record::{field_look, field_value, record_visual_index, resolve_record_row, row_tint, RowState, RowTint, VisualRowSource};

#[test]
fn record_rows_resolve_to_their_source() {
    let order = [VisualRowSource::Base(1), VisualRowSource::Insert(0), VisualRowSource::Base(5)];
    let states = [RowState::Clean, RowState::Dirty];
    let base = resolve_record_row(&order, &states, 0);
    assert_eq!(base.source, Some(VisualRowSource::Base(1)));
    assert!(matches!(base.state, RowState::Dirty));
    let insert = resolve_record_row(&order, &states, 1);
    assert!(matches!(insert.state, RowState::PendingInsert));
    let untracked = resolve_record_row(&order, &states, 2);
    assert!(matches!(untracked.state, RowState::Clean));
    let past_end = resolve_record_row(&order, &states, 7);
    assert_eq!(past_end.source, None);
    assert_eq!(past_end.visual_ix, 7);
}

#[test]
fn record_follows_a_clamped_selection() {
    assert_eq!(record_visual_index(None, 5), 0);
    assert_eq!(record_visual_index(Some(3), 5), 3);
    assert_eq!(record_visual_index(Some(40), 5), 4);
}

#[test]
fn row_tints() {
    assert_eq!(row_tint(&RowState::Error("boom".to_string())), Some(RowTint::Error));
    assert_eq!(row_tint(&RowState::Dirty), None);
    assert_eq!(row_tint(&RowState::PendingDelete), Some(RowTint::Delete));
    assert!(RowState::PendingDelete.is_pending_delete());
}

#[test]
fn field_look_follows_the_row_and_the_value() {
    let deleted = field_look(&RowState::PendingDelete, Some(VisualRowSource::Base(0)), 1, false, false, false, false, true);
    assert_eq!(deleted.tint, Some(RowTint::Delete));
    assert!(!deleted.striped, "tinted rows are not striped");
    assert!(deleted.struck_through && deleted.muted && deleted.dirty_mark);

    let inserted = field_look(&RowState::PendingInsert, Some(VisualRowSource::Insert(0)), 2, true, false, true, false, true);
    assert!(!inserted.dirty_mark, "pending inserts do not track dirty cells");
    assert!(inserted.italic && inserted.muted && inserted.active);

    let clean = field_look(&RowState::Clean, Some(VisualRowSource::Base(3)), 3, false, true, false, false, false);
    assert!(clean.striped && !clean.muted && !clean.italic);
    assert!(!clean.takes_clicks, "an open editor keeps its clicks");
}

#[test]
fn field_value_reads_the_buffer_then_the_row_then_null() {
    let (edited, base, inserted, null) = ("edited", "base", "inserted", "NULL");
    let row = Some(VisualRowSource::Base(0));
    assert_eq!(*field_value(row, Some(&edited), Some(&base), None, &null), "edited");
    assert_eq!(*field_value(row, None, Some(&base), Some(&inserted), &null), "base");
    assert_eq!(*field_value(row, None, None, None, &null), "NULL");
    let new_row = Some(VisualRowSource::Insert(1));
    assert_eq!(*field_value(new_row, Some(&edited), Some(&base), Some(&inserted), &null), "inserted");
    assert_eq!(*field_value(new_row, None, None, None, &null), "NULL");
    assert_eq!(*field_value(None, Some(&edited), Some(&base), Some(&inserted), &null), "NULL");
}
