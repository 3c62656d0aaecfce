use dbflux::general_settings::{
    AppStyle, GeneralEffect, GeneralFormRow, GeneralInputs, GeneralSection, GeneralSettings,
    KeyChord, Modifiers, RefreshPolicySetting, StartupFocus, ThemeSetting,
};

fn settings() -> GeneralSettings {
    GeneralSettings {
        theme: ThemeSetting::Dark,
        style: AppStyle::Default,
        language: String::new(),
        restore_session_on_startup: true,
        reopen_last_connections: false,
        default_focus_on_startup: StartupFocus::Sidebar,
        max_history_entries: 1000,
        auto_save_interval_ms: 2000,
        default_refresh_policy: RefreshPolicySetting::Manual,
        default_refresh_interval_secs: 5,
        max_concurrent_background_tasks: 8,
        auto_refresh_pause_on_error: true,
        auto_refresh_only_if_visible: true,
        confirm_dangerous_queries: true,
        dangerous_requires_where: true,
        dangerous_requires_preview: false,
        object_preview_size_limit_mib: 10,
        key_value_size_limit_mib: 10,
        check_for_updates: true,
        skipped_update_version: String::new(),
    }
}

fn inputs(values: [&str; 6]) -> GeneralInputs {
    GeneralInputs {
        max_history: values[0].to_string(),
        auto_save: values[1].to_string(),
        refresh_interval: values[2].to_string(),
        max_bg_tasks: values[3].to_string(),
        object_preview_limit: values[4].to_string(),
        key_value_size_limit: values[5].to_string(),
    }
}

fn key(name: &str) -> KeyChord {
    KeyChord { key: name.to_string(), modifiers: Modifiers::none() }
}

#[test]
fn theme_dropdown_exposes_exactly_three_ayu_labels() {
    let labels: Vec<_> = GeneralSection::theme_items().into_iter().collect();

    assert_eq!(labels, vec!["Ayu Dark", "Ayu Mirage", "Ayu Light"]);
}

#[test]
fn theme_index_and_reverse_mapping_cover_all_supported_ayu_themes() {
    assert_eq!(GeneralSection::theme_index(ThemeSetting::Dark), 0);
    assert_eq!(GeneralSection::theme_index(ThemeSetting::Mirage), 1);
    assert_eq!(GeneralSection::theme_index(ThemeSetting::Light), 2);

    assert_eq!(GeneralSection::theme_for_index(0), ThemeSetting::Dark);
    assert_eq!(GeneralSection::theme_for_index(1), ThemeSetting::Mirage);
    assert_eq!(GeneralSection::theme_for_index(2), ThemeSetting::Light);
    assert_eq!(GeneralSection::theme_for_index(99), ThemeSetting::Dark);
}

#[test]
fn style_dropdown_exposes_exactly_two_labels() {
    let labels: Vec<_> = GeneralSection::style_items().into_iter().collect();

    assert_eq!(labels, vec!["Default", "Compact"]);
}

#[test]
fn style_index_and_reverse_mapping_cover_all_variants() {
    assert_eq!(GeneralSection::style_index(AppStyle::Default), 0);
    assert_eq!(GeneralSection::style_index(AppStyle::Compact), 1);

    assert_eq!(GeneralSection::style_for_index(0), AppStyle::Default);
    assert_eq!(GeneralSection::style_for_index(1), AppStyle::Compact);
    // Out-of-range falls back to Default
    assert_eq!(GeneralSection::style_for_index(99), AppStyle::Default);
}

#[test]
fn language_index_and_reverse_mapping_round_trip_every_available_locale() {
    let available = ["en", "es"];
    assert_eq!(GeneralSection::language_index("", &available), 0);
    assert_eq!(GeneralSection::language_for_index(0, &available), "");

    for (position, storage_id) in available.iter().enumerate() {
        let index = position + 1;
        assert_eq!(GeneralSection::language_index(storage_id, &available), index);
        assert_eq!(GeneralSection::language_for_index(index, &available), *storage_id);
    }

    assert_eq!(GeneralSection::language_index("de", &available), 0);
    assert_eq!(GeneralSection::language_for_index(available.len() + 1, &available), "");
}

#[test]
fn other_dropdown_mappings_fall_back_to_the_first_option() {
    assert_eq!(GeneralSection::startup_focus_index(StartupFocus::LastTab), 1);
    assert_eq!(GeneralSection::startup_focus_for_index(1), StartupFocus::LastTab);
    assert_eq!(GeneralSection::startup_focus_for_index(7), StartupFocus::Sidebar);
    assert_eq!(GeneralSection::refresh_policy_index(RefreshPolicySetting::Interval), 1);
    assert_eq!(GeneralSection::refresh_policy_for_index(1), RefreshPolicySetting::Interval);
    assert_eq!(GeneralSection::refresh_policy_for_index(5), RefreshPolicySetting::Manual);
    assert_eq!(GeneralSection::startup_focus_items().len(), 2);
    assert_eq!(GeneralSection::refresh_policy_items()[1], "settings.general.refresh_policy.option.interval");
}

#[test]
fn form_rows_end_with_save_and_share_only_on_nightly() {
    let form = GeneralSection::new(settings(), false);
    let rows = form.gen_form_rows();
    assert_eq!(rows.first(), Some(&GeneralFormRow::Theme));
    assert_eq!(rows.last(), Some(&GeneralFormRow::SaveButton));
    assert_eq!(rows.contains(&GeneralFormRow::ShareStableDb), GeneralSection::is_nightly());
    assert_eq!(rows.len(), if GeneralSection::is_nightly() { 21 } else { 20 });
}

#[test]
fn cursor_moves_stay_inside_the_form() {
    let mut form = GeneralSection::new(settings(), false);
    form.gen_move_up();
    assert_eq!(form.gen_form_cursor, 0);
    form.gen_move_last();
    let last = form.gen_form_cursor;
    assert_eq!(form.gen_current_row(), Some(GeneralFormRow::SaveButton));
    form.gen_move_down();
    assert_eq!(form.gen_form_cursor, last);
    form.gen_move_first();
    assert_eq!(form.gen_current_row(), Some(GeneralFormRow::Theme));
}

#[test]
fn keys_navigate_activate_and_edit() {
    let mut form = GeneralSection::new(settings(), false);
    // Theme row: enter opens its dropdown.
    assert_eq!(form.handle_key_event(&key("enter"), false), vec![GeneralEffect::ToggleDropdown(GeneralFormRow::Theme)]);
    // With the dropdown open, j moves inside it rather than down the form.
    assert_eq!(form.handle_key_event(&key("j"), true), vec![GeneralEffect::DropdownSelectNext]);
    assert_eq!(form.gen_form_cursor, 0);
    // Tab accepts and moves on to the next row.
    assert_eq!(form.handle_key_event(&key("tab"), true), vec![GeneralEffect::DropdownAccept]);
    assert_eq!(form.gen_current_row(), Some(GeneralFormRow::Style));
    // Down to "restore session" and flip it.
    form.handle_key_event(&key("down"), false);
    form.handle_key_event(&key("down"), false);
    assert_eq!(form.gen_current_row(), Some(GeneralFormRow::RestoreSession));
    assert!(form.handle_key_event(&key("l"), false).is_empty());
    assert!(!form.gen_settings.restore_session_on_startup);
    // Down to max history and start editing it.
    form.handle_key_event(&key("j"), false);
    form.handle_key_event(&key("j"), false);
    form.handle_key_event(&key("j"), false);
    assert_eq!(form.gen_current_row(), Some(GeneralFormRow::MaxHistory));
    assert_eq!(form.handle_key_event(&key("right"), false), vec![GeneralEffect::FocusInput(GeneralFormRow::MaxHistory)]);
    assert!(form.gen_editing_field);
    // While editing, j is text, tab moves to the next input.
    assert!(form.handle_key_event(&key("j"), false).is_empty());
    assert_eq!(form.handle_key_event(&key("tab"), false), vec![GeneralEffect::FocusInput(GeneralFormRow::AutoSaveInterval)]);
    assert_eq!(form.handle_key_event(&key("escape"), false), vec![GeneralEffect::RequestFocusReturn]);
    assert!(!form.gen_editing_field);
    // G jumps to Save, enter saves.
    form.handle_key_event(&key("G"), false);
    assert_eq!(form.handle_key_event(&key("enter"), false), vec![GeneralEffect::Save]);
    // Shift-tab moves up; g jumps to the top.
    let shift_tab = KeyChord { key: "tab".to_string(), modifiers: Modifiers::shift() };
    let before = form.gen_form_cursor;
    form.handle_key_event(&shift_tab, false);
    assert_eq!(form.gen_form_cursor, before - 1);
    form.handle_key_event(&key("g"), false);
    assert_eq!(form.gen_form_cursor, 0);
}

#[test]
fn unsaved_changes_compare_choices_and_trimmed_numbers() {
    let saved = settings();
    let mut form = GeneralSection::new(settings(), false);
    let same = inputs([" 1000 ", "2000", "5", "8", "10", "10"]);
    assert!(!form.has_unsaved_general_changes(&saved, &same));
    assert!(form.has_unsaved_general_changes(&saved, &inputs(["1000", "2000", "6", "8", "10", "10"])));
    form.gen_settings.theme = ThemeSetting::Light;
    assert!(form.has_unsaved_general_changes(&saved, &same));
}

#[test]
fn save_checks_report_the_first_failing_input() {
    let ok = GeneralSection::validate_general_inputs(&inputs(["10", "500", "1", "1", "1", "1"])).unwrap();
    assert_eq!(ok.max_history_entries, 10);
    assert_eq!(ok.auto_save_interval_ms, 500);
    assert_eq!(
        GeneralSection::validate_general_inputs(&inputs(["9", "500", "1", "1", "1", "1"])),
        Err("settings.general.max_history.error")
    );
    assert_eq!(
        GeneralSection::validate_general_inputs(&inputs(["10", "abc", "0", "1", "1", "1"])),
        Err("settings.general.auto_save_interval.error")
    );
    assert_eq!(
        GeneralSection::validate_general_inputs(&inputs(["10", "500", "4294967296", "1", "1", "1"])),
        Err("settings.general.refresh_interval.error"),
        "the refresh interval must fit 32 bits"
    );
    assert_eq!(
        GeneralSection::validate_general_inputs(&inputs(["10", "500", "1", "1", "1", " "])),
        Err("settings.general.key_value_size_limit.error")
    );
    let mut form = GeneralSection::new(settings(), false);
    form.apply_validated_numbers(ok);
    assert_eq!(form.gen_settings.max_history_entries, 10);
    assert_eq!(form.gen_settings.key_value_size_limit_mib, 1);
}

#[test]
fn focus_out_stops_editing_and_closes_the_dropdown() {
    let mut form = GeneralSection::new(settings(), true);
    form.focus_in();
    assert!(form.content_focused);
    assert_eq!(form.focus_out(true), vec![GeneralEffect::DropdownClose]);
    assert!(!form.content_focused);
    assert!(form.focus_out(false).is_empty());
    form.set_share_stable_db(false);
    assert!(!form.gen_share_stable_db);
}

#[test]
fn fresh_inputs_spell_the_settings_and_show_no_change() {
    let saved = settings();
    let fresh = GeneralInputs::from_settings(&saved);
    assert_eq!(fresh.max_history, "1000");
    assert_eq!(fresh.auto_save, "2000");
    assert_eq!(fresh.refresh_interval, "5");
    assert_eq!(fresh.max_bg_tasks, "8");
    assert_eq!(fresh.object_preview_limit, "10");
    assert_eq!(fresh.key_value_size_limit, "10");
    let form = GeneralSection::new(settings(), false);
    assert!(!form.has_unsaved_general_changes(&saved, &fresh));
    let numbers = GeneralSection::validate_general_inputs(&fresh).expect("saved numbers pass");
    assert_eq!(numbers.max_history_entries, 1000);
    assert_eq!(numbers.key_value_size_limit_mib, 10);
}

#[test]
fn clicking_rows_moves_the_highlight_and_takes_the_keyboard() {
    let mut form = GeneralSection::new(settings(), false);
    form.click_row(GeneralFormRow::DefaultFocus);
    assert!(form.content_focused);
    assert_eq!(form.gen_current_row(), Some(GeneralFormRow::DefaultFocus));
    assert_eq!(form.find_row(GeneralFormRow::Theme), Some(0));

    let effects = form.click_input(GeneralFormRow::AutoSaveInterval);
    assert_eq!(effects, vec![GeneralEffect::FocusInput(GeneralFormRow::AutoSaveInterval)]);
    assert!(form.gen_editing_field);
    assert!(form.switching_input);

    // The blur of the input that had the keyboard is only the switch.
    assert!(form.input_blurred().is_empty());
    assert!(!form.switching_input);
    // A later blur hands the keyboard back to the sidebar.
    assert_eq!(form.input_blurred(), vec![GeneralEffect::RequestFocusReturn]);

    assert_eq!(form.click_save(), vec![GeneralEffect::Save]);
    assert_eq!(form.gen_current_row(), Some(GeneralFormRow::SaveButton));
}

#[test]
fn checkboxes_and_dropdowns_write_the_edited_settings() {
    let mut form = GeneralSection::new(settings(), false);
    assert!(form.set_checkbox(GeneralFormRow::CheckForUpdates, false).is_empty());
    assert!(!form.gen_settings.check_for_updates);
    assert!(form.set_checkbox(GeneralFormRow::RequiresPreview, true).is_empty());
    assert!(form.gen_settings.dangerous_requires_preview);
    assert_eq!(
        form.set_checkbox(GeneralFormRow::ShareStableDb, true),
        vec![GeneralEffect::SetShareStableDb(true)]
    );
    assert!(!form.gen_share_stable_db, "the interface layer persists it first");

    form.select_theme(2);
    assert_eq!(form.gen_settings.theme, ThemeSetting::Light);
    form.select_style(1);
    assert_eq!(form.gen_settings.style, AppStyle::Compact);
    form.select_startup_focus(1);
    assert_eq!(form.gen_settings.default_focus_on_startup, StartupFocus::LastTab);
    form.select_refresh_policy(7);
    assert_eq!(form.gen_settings.default_refresh_policy, RefreshPolicySetting::Manual);
    form.select_language(2, &["en", "es"]);
    assert_eq!(form.gen_settings.language, "es");
    form.select_language(0, &["en", "es"]);
    assert_eq!(form.gen_settings.language, "");
}

#[test]
fn highlight_needs_the_keyboard_and_the_cursor() {
    let mut form = GeneralSection::new(settings(), false);
    assert!(!form.is_at(GeneralFormRow::Theme), "no highlight before the page has the keyboard");
    form.focus_in();
    assert!(form.is_at(GeneralFormRow::Theme));
    assert!(!form.is_at(GeneralFormRow::Style));
    form.click_save();
    assert!(form.is_at(GeneralFormRow::SaveButton));
}
