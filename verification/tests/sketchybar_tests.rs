use pomo::colors::{load_colors, Colors};
use pomo::sketchybar::{popup, sketchybar_handler, SketchybarCommand};
use pomo::State;

#[test]
fn popup_builds_the_documented_entry() {
    let args = popup("Start", "pomo start");
    assert_eq!(
        args,
        vec![
            "--add",
            "item",
            "pomo.start",
            "popup.pomo",
            "--set",
            "pomo.start",
            "label=Start",
            "click_script=pomo start",
        ]
    );
}

#[test]
fn popup_lowercases_only_the_item_name() {
    let args = popup("Stop", "pomo sketchybar hide");
    assert_eq!(args[2], "pomo.stop");
    assert_eq!(args[6], "label=Stop");
    assert_eq!(args[7], "click_script=pomo sketchybar hide");
}

#[test]
fn unload_resets_the_record_and_removes_the_widget() {
    let mut state = State::default();
    state.configure(Some(50), None, None);
    state.start_session(12345);
    let colors = Colors::default();
    let args = sketchybar_handler(&SketchybarCommand::Unload, &mut state, 0, &colors);
    assert_eq!(args, vec!["--remove", "pomo"]);
    assert_eq!(state, State::default());
}

#[test]
fn update_sets_the_label_to_the_status_line() {
    let mut state = State::default();
    state.start_session(1000);
    let colors = Colors::default();
    let args = sketchybar_handler(&SketchybarCommand::Update, &mut state, 1000, &colors);
    assert_eq!(args, vec!["--set", "pomo", "label=Stay Focused: 25:00"]);
}

#[test]
fn update_of_a_stopped_session_clears_the_label() {
    let mut state = State::default();
    let colors = Colors::default();
    let args = sketchybar_handler(&SketchybarCommand::Update, &mut state, 1000, &colors);
    assert_eq!(args, vec!["--set", "pomo", "label="]);
}

#[test]
fn show_and_hide_toggle_drawing() {
    let mut state = State::default();
    let colors = Colors::default();
    let shown = sketchybar_handler(&SketchybarCommand::Show, &mut state, 0, &colors);
    assert_eq!(shown, vec!["--set", "pomo", "drawing=on"]);
    let hidden = sketchybar_handler(&SketchybarCommand::Hide, &mut state, 0, &colors);
    assert_eq!(
        hidden,
        vec!["--set", "pomo", "drawing=false", "popup.drawing=toggle"]
    );
}

#[test]
fn load_builds_the_widget_with_its_popups() {
    let mut state = State::default();
    let colors = load_colors(&vec![
        ("TRANSPARENT".to_string(), "0x11223344".to_string()),
        ("POPUP_BACKGROUND_COLOR".to_string(), "0x55667788".to_string()),
    ]);
    let args = sketchybar_handler(
        &SketchybarCommand::Load { icon: Some('X') },
        &mut state,
        0,
        &colors,
    );
    assert_eq!(args.len(), 19 + 8 + 8);
    assert_eq!(&args[0..6], &["--add", "item", "pomo", "center", "--set", "pomo"]);
    assert_eq!(args[6], "icon=X");
    assert_eq!(args[17], "popup.background.border_color=0x11223344");
    assert_eq!(args[18], "popup.background.color=0x55667788");
    assert_eq!(args[21], "pomo.start");
    assert_eq!(args[29], "pomo.stop");
    assert_eq!(state, State::default());
}

#[test]
fn load_without_icon_uses_the_default_glyph() {
    let mut state = State::default();
    let colors = Colors::default();
    let args = sketchybar_handler(
        &SketchybarCommand::Load { icon: None },
        &mut state,
        0,
        &colors,
    );
    assert_eq!(args[6], format!("icon={}", '\u{f06ad}'));
}
