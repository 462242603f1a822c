use simple_password_generator::config::{app_config, check_password};
use simple_password_generator::shell::{clipboard_roundtrip_ok, AppAction, AppEvent, AppState};
use simple_password_generator::text::{
    about_button_label, about_text_str, about_title_str, copy_button_label,
    copy_confirmation_message, copy_dialog_title_str, generate_button_label, window_title_str,
};

#[test]
fn starts_with_a_valid_password_on_display() {
    let state = AppState::new();
    let shown = state.displayed_text();
    assert_eq!(shown.chars().count(), 20);
    assert!(check_password(&app_config(), shown));
}

#[test]
fn generate_replaces_the_displayed_password() {
    let mut state = AppState::new();
    match state.handle_event(AppEvent::GenerateClicked) {
        AppAction::SetField { text } => {
            assert_eq!(&text, state.displayed_text());
            assert!(check_password(&app_config(), &text));
        }
        other => panic!("unexpected action: {:?}", other),
    }
}

#[test]
fn copy_confirms_the_displayed_password() {
    let mut state = AppState::new();
    let before = state.displayed_text().clone();
    match state.handle_event(AppEvent::CopyClicked) {
        AppAction::CopyAndConfirm {
            text,
            title,
            message,
        } => {
            assert_eq!(text, before);
            assert_eq!(title, "Copied to clipboard");
            assert_eq!(message, format!("Copied to clipboard {}", before));
        }
        other => panic!("unexpected action: {:?}", other),
    }
    assert_eq!(state.displayed_text(), &before);
}

#[test]
fn about_shows_the_static_dialog() {
    let mut state = AppState::new();
    let before = state.displayed_text().clone();
    match state.handle_event(AppEvent::AboutClicked) {
        AppAction::ShowDialog { title, text } => {
            assert_eq!(title, "About");
            assert_eq!(
                text,
                "\u{a9} Victor Vinogradov 2022 \nvict.programmer@gmail.com \nhttps://github.com/vict-programmer"
            );
        }
        other => panic!("unexpected action: {:?}", other),
    }
    assert_eq!(state.displayed_text(), &before);
}

#[test]
fn close_quits_the_loop() {
    let mut state = AppState::new();
    assert!(matches!(
        state.handle_event(AppEvent::CloseRequested),
        AppAction::Quit
    ));
}

#[test]
fn end_to_end_scenario() {
    // start: the field holds a valid twenty-character password
    let mut state = AppState::new();
    let initial = state.displayed_text().clone();
    assert!(check_password(&app_config(), &initial));

    // click "Generate new password": the field updates to a new valid one
    let generated = match state.handle_event(AppEvent::GenerateClicked) {
        AppAction::SetField { text } => text,
        other => panic!("unexpected action: {:?}", other),
    };
    assert_eq!(&generated, state.displayed_text());
    assert_eq!(generated.chars().count(), 20);
    assert!(check_password(&app_config(), &generated));

    // click "Copy password": the clipboard text equals the field text and
    // the confirmation dialog names the copied value
    match state.handle_event(AppEvent::CopyClicked) {
        AppAction::CopyAndConfirm {
            text,
            title,
            message,
        } => {
            assert_eq!(text, generated);
            let read_back = Some(text.clone());
            assert!(clipboard_roundtrip_ok(&text, &read_back));
            assert_eq!(title, "Copied to clipboard");
            assert_eq!(message, format!("Copied to clipboard {}", generated));
        }
        other => panic!("unexpected action: {:?}", other),
    }
}

#[test]
fn clipboard_roundtrip_check() {
    let written = String::from("aB3!aB3!aB3!aB3!aB3!");
    assert!(clipboard_roundtrip_ok(&written, &Some(written.clone())));
    assert!(!clipboard_roundtrip_ok(
        &written,
        &Some(String::from("something else"))
    ));
    assert!(!clipboard_roundtrip_ok(&written, &None));
}

#[test]
fn confirmation_message_is_prefix_plus_password() {
    assert_eq!(
        copy_confirmation_message("abc"),
        "Copied to clipboard abc"
    );
    assert_eq!(copy_confirmation_message(""), "Copied to clipboard ");
}

#[test]
fn fixed_window_texts() {
    assert_eq!(window_title_str(), "\u{1f510} Simple Password Generator");
    assert_eq!(copy_button_label(), "Copy password");
    assert_eq!(generate_button_label(), "Generate new password");
    assert_eq!(about_button_label(), "About");
    assert_eq!(copy_dialog_title_str(), "Copied to clipboard");
    assert_eq!(about_title_str(), "About");
    assert!(about_text_str().contains("vict.programmer@gmail.com"));
}
