//! Tests of the shell-state models: log console trimming, file picker
//! transitions, file-tab routing and the tab bar.

use gerber_layer::console::{LogConsole, LogConsoleInput};
use gerber_layer::picker::{FilePicker, FilePickerAction, FilePickerMessage};
use gerber_layer::ui::{
    AppTheme, CanvasLayer, Files, PcbSides, TabBar, TabBarId, TabBarMessage, TabFileMessage,
};

fn text_of(e: &LogConsoleInput) -> &str {
    match e {
        LogConsoleInput::Normal(s) => s,
        LogConsoleInput::Warning(s) => s,
        LogConsoleInput::Error(s) => s,
    }
}

#[test]
fn console_keeps_the_newest_lines() {
    let mut console = LogConsole::new(2);
    console.log_message("one");
    console.log_warning("two");
    console.log_error("three");
    assert_eq!(console.len(), 2);
    let items = console.items();
    assert!(matches!(items[0], LogConsoleInput::Warning(_)));
    assert!(matches!(items[1], LogConsoleInput::Error(_)));
    assert_eq!(text_of(&items[0]), "two");
    assert_eq!(text_of(&items[1]), "three");
}

#[test]
fn console_classifies_lines() {
    let mut console = LogConsole::default();
    console.log_message("info");
    console.log_warning("warn");
    console.log_error("fail");
    let items = console.items();
    assert_eq!(items.len(), 3);
    assert!(matches!(items[0], LogConsoleInput::Normal(_)));
    assert!(matches!(items[1], LogConsoleInput::Warning(_)));
    assert!(matches!(items[2], LogConsoleInput::Error(_)));
}

#[test]
fn console_with_zero_capacity_stores_nothing() {
    let mut console = LogConsole::new(0);
    console.log_message("dropped");
    assert_eq!(console.len(), 0);
}

#[test]
fn picker_starts_enabled_with_given_file() {
    let p = FilePicker::new(
        Some("board.gbr".to_string()),
        "Gerber File".to_string(),
        vec!["gbr".to_string()],
    );
    assert!(p.is_enabled());
    assert_eq!(p.file_to_string(), "board.gbr");
    let none = FilePicker::new(None, "Gerber File".to_string(), vec![]);
    assert_eq!(none.file_to_string(), "");
}

#[test]
fn picker_update_transitions() {
    let mut p = FilePicker::new(None, "Gerber File".to_string(), vec!["gbr".to_string()]);
    assert!(matches!(p.update(FilePickerMessage::BrowseFile), FilePickerAction::Run));
    assert_eq!(p.file_to_string(), "");

    match p.update(FilePickerMessage::OnFileDialogClose(Some("a.gbr".to_string()))) {
        FilePickerAction::FileSelected(chosen) => assert_eq!(chosen, "a.gbr"),
        other => panic!("unexpected action {:?}", other),
    }
    assert_eq!(p.file_to_string(), "a.gbr");

    assert!(matches!(
        p.update(FilePickerMessage::OnFileDialogClose(None)),
        FilePickerAction::Idle
    ));
    assert_eq!(p.file_to_string(), "a.gbr");

    assert!(matches!(p.update(FilePickerMessage::ClearFile), FilePickerAction::ClearFile));
    assert_eq!(p.file_to_string(), "");
}

#[test]
fn picker_enable_toggles() {
    let mut p = FilePicker::new(None, "x".to_string(), vec![]);
    p.enable(false);
    assert!(!p.is_enabled());
    p.enable(true);
    assert!(p.is_enabled());
}

#[test]
fn files_default_matches_the_layer_roles() {
    let f = Files::default();
    assert_eq!(f.pcb_sides, PcbSides::OneSide);
    assert!(!f.top_file_picker.is_enabled());
    assert!(f.bot_file_picker.is_enabled());
    let (name, pattern) = f.drill_file_picker.filter();
    assert_eq!(name.as_str(), "Excellon file");
    assert_eq!(pattern, &vec![
        "drl".to_string(),
        "DRL".to_string(),
        "txt".to_string(),
        "TXT".to_string(),
    ]);
}

#[test]
fn files_routes_picker_messages_by_layer() {
    let mut f = Files::default();
    let act = f.update(TabFileMessage::FilePickerMessage(
        CanvasLayer::Bottom,
        FilePickerMessage::OnFileDialogClose(Some("bot.gbl".to_string())),
    ));
    match act {
        Some((CanvasLayer::Bottom, FilePickerAction::FileSelected(p))) => {
            assert_eq!(p, "bot.gbl")
        },
        other => panic!("unexpected action {:?}", other),
    }
    assert_eq!(f.bot_file_picker.file_to_string(), "bot.gbl");
    assert_eq!(f.top_file_picker.file_to_string(), "");
}

#[test]
fn pcb_side_change_gates_the_top_picker() {
    let mut f = Files::default();
    assert!(f.update(TabFileMessage::PcbTypeChange(PcbSides::TwoSide)).is_none());
    assert_eq!(f.pcb_sides, PcbSides::TwoSide);
    assert!(f.top_file_picker.is_enabled());
    assert!(f.update(TabFileMessage::PcbTypeChange(PcbSides::OneSide)).is_none());
    assert!(!f.top_file_picker.is_enabled());
}

#[test]
fn tab_bar_selection_and_routing() {
    let mut bar = TabBar::default();
    assert_eq!(bar.active_tab, TabBarId::Files);
    assert!(bar.update(TabBarMessage::TabSelected(TabBarId::Milling)).is_none());
    assert_eq!(bar.active_tab, TabBarId::Milling);
    let act = bar.update(TabBarMessage::TabFileMessage(TabFileMessage::FilePickerMessage(
        CanvasLayer::Drill,
        FilePickerMessage::BrowseFile,
    )));
    assert!(matches!(act, Some((CanvasLayer::Drill, FilePickerAction::Run))));
}

#[test]
fn tab_labels() {
    let bar = TabBar::default();
    assert_eq!(bar.files.tab_label(), "Files");
    assert_eq!(bar.milling.tab_label(), "Milling");
    assert_eq!(bar.drilling.tab_label(), "Drilling");
}

#[test]
fn vec_str_copies_every_entry() {
    let out = Files::vec_str(vec!["gtl", "GTL", "gbr"]);
    assert_eq!(out, vec!["gtl".to_string(), "GTL".to_string(), "gbr".to_string()]);
}

#[test]
fn theme_defaults_to_dark() {
    assert_eq!(AppTheme::default(), AppTheme::Dark);
    assert_eq!(PcbSides::default(), PcbSides::OneSide);
}
