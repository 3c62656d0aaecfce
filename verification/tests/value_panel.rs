use dbflux::value_format::ValueFormat;
use dbflux::value_panel::{initial_text, ValuePanelContent, ValuePanelTarget, ValueTransform};

fn target(value: &str) -> ValuePanelTarget {
    ValuePanelTarget {
        row: 3,
        col: 1,
        column_name: "payload".to_string(),
        value: value.to_string(),
        editable: true,
    }
}

#[test]
fn opens_json_pretty_printed_and_unmodified() {
    let panel = ValuePanelContent::new(target(r#"{"a":1}"#));
    assert_eq!(panel.format, ValueFormat::Json);
    assert_eq!(panel.editor_text, "{\n  \"a\": 1\n}");
    assert!(!panel.is_modified(), "pretty-printing alone is not an edit");
    assert_eq!(panel.target_cell(), (3, 1));
}

#[test]
fn malformed_values_open_untouched() {
    assert_eq!(initial_text("{broken", ValueFormat::Json), "{broken");
    assert_eq!(initial_text("<a>", ValueFormat::Xml), "<a>");
    assert_eq!(initial_text("anything", ValueFormat::Text), "anything");
}

#[test]
fn saving_writes_exactly_the_editor_text() {
    let mut panel = ValuePanelContent::new(target("plain"));
    panel.set_editor_text("changed".to_string());
    assert!(panel.is_modified());
    let event = panel.save().expect("text always saves");
    assert_eq!((event.row, event.col, event.value.as_str()), (3, 1, "changed"));
    assert!(!panel.is_modified(), "the saved text is the new baseline");
    assert_eq!(panel.target.value, "changed");
}

#[test]
fn invalid_json_is_not_saved() {
    let mut panel = ValuePanelContent::new(target(r#"{"a":1}"#));
    panel.set_editor_text("{oops".to_string());
    assert!(panel.save().is_none());
    assert!(panel.error.is_some());
    assert!(panel.is_modified(), "the edit stays for the user to fix");
    panel.set_editor_text(String::new());
    assert!(panel.save().is_some(), "clearing a cell is always allowed");
}

#[test]
fn format_switch_keeps_edits() {
    let mut panel = ValuePanelContent::new(target("<a><b>1</b></a>"));
    assert_eq!(panel.format, ValueFormat::Xml);
    panel.set_editor_text("edited".to_string());
    panel.set_format(ValueFormat::Text);
    assert_eq!(panel.format, ValueFormat::Text);
    assert_eq!(panel.editor_text, "edited");
    assert!(panel.is_modified());
    panel.revert();
    assert_eq!(panel.editor_text, "<a><b>1</b></a>");
    assert!(!panel.is_modified());
}

#[test]
fn transforms_rewrite_or_report() {
    let mut panel = ValuePanelContent::new(target("plain"));
    panel.set_format(ValueFormat::Json);
    panel.set_editor_text(r#"{ "a" : 1 }"#.to_string());
    panel.apply_transform(ValueTransform::Compact);
    assert_eq!(panel.editor_text, r#"{"a":1}"#);
    assert!(panel.error.is_none());
    panel.set_editor_text("{".to_string());
    panel.apply_transform(ValueTransform::Format);
    assert_eq!(panel.editor_text, "{");
    assert!(panel.error.is_some());
}

#[test]
fn opening_another_cell_reloads() {
    let mut panel = ValuePanelContent::new(target("first"));
    panel.set_editor_focus(true);
    panel.toggle_word_wrap();
    assert!(!panel.word_wrap);
    panel.open(ValuePanelTarget { row: 9, col: 2, column_name: "c".to_string(), value: "[1]".to_string(), editable: false });
    assert_eq!(panel.target_cell(), (9, 2));
    assert_eq!(panel.format, ValueFormat::Json);
    assert!(!panel.editor_has_focus());
    assert!(!panel.is_modified());
}

#[test]
fn controls_follow_the_cell_and_the_edit() {
    let mut panel = ValuePanelContent::new(target(r#"[1,2]"#));
    let quiet = panel.controls();
    assert!(quiet.footer && quiet.transforms);
    assert!(!quiet.revert_enabled && !quiet.save_enabled);
    panel.set_editor_text("[1,2,3]".to_string());
    assert!(panel.controls().save_enabled && panel.controls().revert_enabled);
    panel.set_format(ValueFormat::Text);
    assert!(!panel.controls().transforms);

    let mut read_only = target("x");
    read_only.editable = false;
    assert!(!ValuePanelContent::new(read_only).controls().footer);
}
