use framework_tool_tui::app::AppEvent;
use framework_tool_tui::config::Config;
use framework_tool_tui::event::Key;
use framework_tool_tui::framework::fingerprint::Fingerprint;
use framework_tool_tui::framework::info::FrameworkInfo;
use framework_tool_tui::tui::theme::ThemeVariant;
use framework_tool_tui::tui::Tui;

fn new_tui() -> Tui {
    let fingerprint = Fingerprint::percentage();
    let info = FrameworkInfo::default();
    let config = Config::default();
    Tui::new(fingerprint, &info, config)
}

#[test]
fn handle_input_internal_quit_event() {
    let mut tui = new_tui();

    let app_event = tui.handle_input(Key::Char('q'));

    assert!(matches!(app_event, Some(AppEvent::Quit)))
}

#[test]
fn next_theme_cycles_forward() {
    let mut tui = new_tui();

    // Default theme should be Framework
    assert_eq!(tui.config.theme, ThemeVariant::Framework);

    // Cycle to next theme
    tui.next_theme();
    assert_eq!(tui.config.theme, ThemeVariant::Alucard);

    tui.next_theme();
    assert_eq!(tui.config.theme, ThemeVariant::Dracula);

    tui.next_theme();
    assert_eq!(tui.config.theme, ThemeVariant::CatppuccinFrappe);

    tui.next_theme();
    assert_eq!(tui.config.theme, ThemeVariant::CatppuccinLatte);

    tui.next_theme();
    assert_eq!(tui.config.theme, ThemeVariant::CatppuccinMacchiato);

    tui.next_theme();
    assert_eq!(tui.config.theme, ThemeVariant::CatppuccinMocha);

    tui.next_theme();
    assert_eq!(tui.config.theme, ThemeVariant::GithubDark);

    tui.next_theme();
    assert_eq!(tui.config.theme, ThemeVariant::GithubLight);

    tui.next_theme();
    assert_eq!(tui.config.theme, ThemeVariant::MonochromeDark);

    tui.next_theme();
    assert_eq!(tui.config.theme, ThemeVariant::MonochromeLight);

    tui.next_theme();
    assert_eq!(tui.config.theme, ThemeVariant::MonokaiPro);

    // Should wrap back to Framework
    tui.next_theme();
    assert_eq!(tui.config.theme, ThemeVariant::Framework);
}

#[test]
fn previous_theme_cycles_backward() {
    let mut tui = new_tui();

    // Default theme should be Framework
    assert_eq!(tui.config.theme, ThemeVariant::Framework);

    // Cycle to previous theme (should wrap to the end of the list)
    tui.previous_theme();
    assert_eq!(tui.config.theme, ThemeVariant::MonokaiPro);

    tui.previous_theme();
    assert_eq!(tui.config.theme, ThemeVariant::MonochromeLight);

    tui.previous_theme();
    assert_eq!(tui.config.theme, ThemeVariant::MonochromeDark);

    tui.previous_theme();
    assert_eq!(tui.config.theme, ThemeVariant::GithubLight);

    tui.previous_theme();
    assert_eq!(tui.config.theme, ThemeVariant::GithubDark);

    tui.previous_theme();
    assert_eq!(tui.config.theme, ThemeVariant::CatppuccinMocha);

    tui.previous_theme();
    assert_eq!(tui.config.theme, ThemeVariant::CatppuccinMacchiato);

    tui.previous_theme();
    assert_eq!(tui.config.theme, ThemeVariant::CatppuccinLatte);

    tui.previous_theme();
    assert_eq!(tui.config.theme, ThemeVariant::CatppuccinFrappe);

    tui.previous_theme();
    assert_eq!(tui.config.theme, ThemeVariant::Dracula);

    tui.previous_theme();
    assert_eq!(tui.config.theme, ThemeVariant::Alucard);

    tui.previous_theme();
    assert_eq!(tui.config.theme, ThemeVariant::Framework);
}

#[test]
fn current_theme_name_returns_correct_name() {
    let mut tui = new_tui();

    assert_eq!(tui.current_theme_name(), "Framework");

    tui.next_theme();
    assert_eq!(tui.current_theme_name(), "Alucard");

    tui.next_theme();
    assert_eq!(tui.current_theme_name(), "Dracula");

    tui.next_theme();
    assert_eq!(tui.current_theme_name(), "Catppuccin Frappe");
}

#[test]
fn handle_input_n_switches_to_next_theme() {
    let mut tui = new_tui();

    assert_eq!(tui.config.theme, ThemeVariant::Framework);

    let result = tui.handle_input(Key::Char('n'));

    assert!(matches!(result, None));
    assert_eq!(tui.config.theme, ThemeVariant::Alucard);
}

#[test]
fn handle_input_b_switches_to_previous_theme() {
    let mut tui = new_tui();

    assert_eq!(tui.config.theme, ThemeVariant::Framework);

    let result = tui.handle_input(Key::Char('b'));

    assert!(matches!(result, None));
    assert_eq!(tui.config.theme, ThemeVariant::MonokaiPro);
}

#[test]
fn handle_input_left_without_ctrl_does_not_switch_theme() {
    let mut tui = new_tui();

    let initial_theme = tui.config.theme;
    let _result = tui.handle_input(Key::Left);

    // Theme should remain unchanged
    assert_eq!(tui.config.theme, initial_theme);
}

#[test]
fn handle_input_right_without_ctrl_does_not_switch_theme() {
    let mut tui = new_tui();

    let initial_theme = tui.config.theme;
    let _result = tui.handle_input(Key::Right);

    // Theme should remain unchanged
    assert_eq!(tui.config.theme, initial_theme);
}

#[test]
fn theme_switching_does_not_pass_event_to_main_component() {
    // This test ensures that 'b' and 'n' events are consumed by theme switching
    // and not passed down to child components
    let mut tui = new_tui();

    let initial_theme = tui.config.theme;

    // Send 'n' event
    let result = tui.handle_input(Key::Char('n'));

    // Should return None and change theme
    assert!(matches!(result, None));
    assert_ne!(tui.config.theme, initial_theme);

    // Try switching back with 'b'
    let new_theme = tui.config.theme;
    let result = tui.handle_input(Key::Char('b'));

    // Should return None and change theme back
    assert!(matches!(result, None));
    assert_eq!(tui.config.theme, initial_theme);
    assert_ne!(tui.config.theme, new_theme);
}

#[test]
fn multiple_theme_switches_work_correctly() {
    let mut tui = new_tui();

    // Start at Framework
    assert_eq!(tui.config.theme, ThemeVariant::Framework);

    // Switch forward 3 times with 'n'
    for _ in 0..3 {
        let result = tui.handle_input(Key::Char('n'));
        assert!(matches!(result, None));
    }
    // After 3 next: Framework -> Alucard -> Dracula -> CatppuccinFrappe
    assert_eq!(tui.config.theme, ThemeVariant::CatppuccinFrappe);

    // Switch backward once with 'b'
    let result = tui.handle_input(Key::Char('b'));
    assert!(matches!(result, None));
    assert_eq!(tui.config.theme, ThemeVariant::Dracula);
}

#[test]
fn esc_dismisses_the_error_message_first() {
    let mut tui = new_tui();
    tui.set_error("charge limit write failed".to_string());
    assert!(tui.error_message.is_some());

    let result = tui.handle_input(Key::Esc);

    assert!(matches!(result, None));
    assert!(tui.error_message.is_none());
}

#[test]
fn panels_are_not_consulted_while_an_error_shows() {
    let mut tui = new_tui();
    tui.set_error("boom".to_string());

    // Tab would normally select panel 0; with a message showing, the key
    // never reaches the panel registry.
    let result = tui.handle_input(Key::Tab);
    assert!(matches!(result, None));
    assert!(tui.error_message.is_some());
    assert!(tui.main.selected_panel.is_none());

    // 'q' still quits while the message shows.
    let result = tui.handle_input(Key::Char('q'));
    assert!(matches!(result, Some(AppEvent::Quit)));
}
