use mcp19061_calc::state::{
    accepts_input_char, export_filename, handle_key, AppState, ExportKind, KeyAction, KeyCode, KeyPress, STATUS_RECOMPUTED,
};

fn key(code: KeyCode) -> KeyPress {
    KeyPress { code, ctrl: false }
}

fn ch(c: char) -> KeyPress {
    key(KeyCode::Char(c))
}

const DEFAULTS: [&str; 17] = [
    "18.0", "32.0", "3.0", "28.0", "0.8", "450.0", "20.0", "0.1", "0.1", "15.0", "8.0", "12.0",
    "20.0", "20.0", "50.0", "0.5", "25",
];

#[test]
fn new_state_has_defaults() {
    let s = AppState::new();
    assert_eq!(s.selected, 0);
    assert!(!s.editing);
    assert!(!s.show_heatmap);
    assert_eq!(s.edit_buf, "");
    assert_eq!(s.status, STATUS_RECOMPUTED);
    assert_eq!(s.steps, 25);
    assert_eq!(s.field_count(), 17);
    for (i, d) in DEFAULTS.iter().enumerate() {
        assert_eq!(s.value(i), d);
        assert_eq!(s.selected_value_display(i), *d);
    }
}

#[test]
fn begin_edit_copies_value() {
    let mut s = AppState::new();
    s.selected = 5;
    s.begin_edit();
    assert!(s.editing);
    assert_eq!(s.edit_buf, "450.0");
    assert_eq!(s.status, "Editing: type, Backspace; Enter commit; Esc cancel");
    assert_eq!(s.selected_value_display(5), "450.0");
}

#[test]
fn typing_and_commit_stores_buffer() {
    let mut s = AppState::new();
    assert_eq!(handle_key(&mut s, key(KeyCode::Down)), KeyAction::Continue);
    assert_eq!(handle_key(&mut s, key(KeyCode::Enter)), KeyAction::Continue);
    assert!(s.editing);
    assert_eq!(s.edit_buf, "32.0");
    for _ in 0..4 {
        handle_key(&mut s, key(KeyCode::Backspace));
    }
    assert_eq!(s.edit_buf, "");
    handle_key(&mut s, key(KeyCode::Backspace));
    assert_eq!(s.edit_buf, "");
    for c in "1e-3x".chars() {
        handle_key(&mut s, ch(c));
    }
    assert_eq!(s.edit_buf, "1e-3");
    assert_eq!(s.selected_value_display(1), "1e-3");
    assert_eq!(s.selected_value_display(0), "18.0");
    assert_eq!(handle_key(&mut s, key(KeyCode::Enter)), KeyAction::Recompute);
    assert!(!s.editing);
    assert_eq!(s.edit_buf, "");
    assert_eq!(s.value(1), "1e-3");
    assert_eq!(s.value(0), "18.0");
}

#[test]
fn edit_filters_characters() {
    let mut s = AppState::new();
    s.begin_edit();
    for c in "+5.E ab,q".chars() {
        assert_eq!(handle_key(&mut s, ch(c)), KeyAction::Continue);
    }
    assert_eq!(s.edit_buf, "18.0+5.E");
}

#[test]
fn cancel_keeps_values() {
    let mut s = AppState::new();
    s.selected = 16;
    handle_key(&mut s, key(KeyCode::Enter));
    handle_key(&mut s, ch('9'));
    assert_eq!(handle_key(&mut s, key(KeyCode::Esc)), KeyAction::Continue);
    assert!(!s.editing);
    assert_eq!(s.edit_buf, "");
    assert_eq!(s.status, "Edit cancelled.");
    assert_eq!(s.value(16), "25");
}

#[test]
fn commit_edit_directly() {
    let mut s = AppState::new();
    s.selected = 2;
    s.begin_edit();
    s.edit_buf = "4.5".to_string();
    s.commit_edit();
    assert_eq!(s.value(2), "4.5");
    assert!(!s.editing);
    assert_eq!(s.edit_buf, "");
}

#[test]
fn cancel_edit_directly() {
    let mut s = AppState::new();
    s.begin_edit();
    s.cancel_edit();
    assert!(!s.editing);
    assert_eq!(s.status, "Edit cancelled.");
    assert_eq!(s.value(0), "18.0");
}

#[test]
fn selection_stays_in_range() {
    let mut s = AppState::new();
    handle_key(&mut s, key(KeyCode::Up));
    assert_eq!(s.selected, 0);
    for _ in 0..30 {
        handle_key(&mut s, key(KeyCode::Down));
    }
    assert_eq!(s.selected, 16);
    handle_key(&mut s, key(KeyCode::Up));
    assert_eq!(s.selected, 15);
    handle_key(&mut s, key(KeyCode::Down));
    assert_eq!(s.selected, 16);
}

#[test]
fn arrows_ignored_while_editing() {
    let mut s = AppState::new();
    s.selected = 3;
    handle_key(&mut s, key(KeyCode::Enter));
    handle_key(&mut s, key(KeyCode::Down));
    handle_key(&mut s, key(KeyCode::Up));
    assert_eq!(s.selected, 3);
    assert!(s.editing);
}

#[test]
fn heatmap_toggle() {
    let mut s = AppState::new();
    assert_eq!(handle_key(&mut s, ch('h')), KeyAction::Continue);
    assert!(s.show_heatmap);
    assert_eq!(s.status, "Heatmap ON. Press h to return.");
    handle_key(&mut s, ch('h'));
    assert!(!s.show_heatmap);
    assert_eq!(s.status, "Heatmap OFF. Showing results.");
}

#[test]
fn quit_and_export_keys() {
    let mut s = AppState::new();
    assert_eq!(handle_key(&mut s, ch('q')), KeyAction::Quit);
    assert_eq!(handle_key(&mut s, KeyPress { code: KeyCode::Char('c'), ctrl: true }), KeyAction::Quit);
    assert_eq!(handle_key(&mut s, ch('c')), KeyAction::Continue);
    assert_eq!(handle_key(&mut s, ch('e')), KeyAction::Export(ExportKind::Csv));
    assert_eq!(handle_key(&mut s, KeyPress { code: KeyCode::Char('e'), ctrl: true }), KeyAction::Export(ExportKind::Csv));
    assert_eq!(handle_key(&mut s, ch('m')), KeyAction::Export(ExportKind::Markdown));
    assert_eq!(handle_key(&mut s, key(KeyCode::Other)), KeyAction::Continue);
    assert_eq!(s.status, STATUS_RECOMPUTED);
    s.begin_edit();
    assert_eq!(handle_key(&mut s, ch('q')), KeyAction::Continue);
    assert_eq!(handle_key(&mut s, KeyPress { code: KeyCode::Char('c'), ctrl: true }), KeyAction::Continue);
    assert!(s.editing);
}

#[test]
fn recompute_outcomes() {
    let mut s = AppState::new();
    s.recompute(Ok(40));
    assert_eq!(s.steps, 40);
    assert_eq!(s.status, "Recomputed. (h) heatmap, (e) export CSV, (m) export Markdown, (q) quit");
    s.recompute(Err("Voltages must be > 0".to_string()));
    assert_eq!(s.steps, 40);
    assert_eq!(s.status, "Input error: Voltages must be > 0");
}

#[test]
fn export_outcomes() {
    let mut s = AppState::new();
    s.finish_export(ExportKind::Csv, "a.csv", Ok(()));
    assert_eq!(s.status, "Exported CSV: a.csv");
    s.finish_export(ExportKind::Markdown, "b.md", Ok(()));
    assert_eq!(s.status, "Exported Markdown: b.md");
    s.finish_export(ExportKind::Csv, "a.csv", Err("denied".to_string()));
    assert_eq!(s.status, "CSV export failed: denied");
    s.finish_export(ExportKind::Markdown, "b.md", Err("full".to_string()));
    assert_eq!(s.status, "Markdown export failed: full");
}

#[test]
fn export_file_names() {
    assert_eq!(export_filename(ExportKind::Csv, "20250101_120000"), "buckboost_vin_vout_map_20250101_120000.csv");
    assert_eq!(export_filename(ExportKind::Markdown, "x"), "buckboost_vin_vout_map_x.md");
}

#[test]
fn numeric_invariant_scenario() {
    let mut s = AppState::new();
    for k in [key(KeyCode::Enter), ch('a'), ch('7'), ch('!'), key(KeyCode::Enter)] {
        handle_key(&mut s, k);
    }
    assert_eq!(s.value(0), "18.07");
    for i in 0..17 {
        assert!(s.value(i).chars().all(|c| c.is_ascii_digit() || ".-+eE".contains(c)));
    }
}

#[test]
fn backspace_undoes_typed_char() {
    let mut s = AppState::new();
    s.selected = 7;
    s.begin_edit();
    let before = s.edit_buf.clone();
    handle_key(&mut s, ch('5'));
    assert_eq!(s.edit_buf, format!("{before}5"));
    handle_key(&mut s, key(KeyCode::Backspace));
    assert_eq!(s.edit_buf, before);
}

#[test]
fn accepted_input_characters() {
    for c in "0123456789.-+eE".chars() {
        assert!(accepts_input_char(c));
    }
    for c in "aZ ,/:x\u{b5}".chars() {
        assert!(!accepts_input_char(c));
    }
}

#[test]
fn field_lines_pad_labels() {
    let mut s = AppState::new();
    let first = s.field_line(0);
    assert!(first.selected);
    assert_eq!(first.label, format!("{:<18}", "> VIN min (V)"));
    assert_eq!(first.label, "> VIN min (V)     ");
    assert_eq!(first.value, "18.0");
    let other = s.field_line(9);
    assert!(!other.selected);
    assert_eq!(other.label, format!("{:<18}", "  Rds high (mΩ)"));
    assert_eq!(other.label.chars().count(), 18);
    let long = s.field_line(14);
    assert_eq!(long.label, "  Load transient (µs)");
    s.selected = 16;
    s.begin_edit();
    handle_key(&mut s, ch('0'));
    let edited = s.field_line(16);
    assert!(edited.selected);
    assert_eq!(edited.label, "> Sweep steps (N) ");
    assert_eq!(edited.value, "250");
    assert_eq!(s.field_line(15).value, "0.5");
}

#[test]
fn display_of_edited_field() {
    let mut s = AppState::new();
    s.selected = 3;
    s.begin_edit();
    handle_key(&mut s, ch('1'));
    assert_eq!(s.selected_value_display(3), "28.01");
    assert_eq!(s.selected_value_display(4), "0.8");
}
