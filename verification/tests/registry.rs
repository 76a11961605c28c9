use framework_tool_tui::app::AppEvent;
use framework_tool_tui::config::Config;
use framework_tool_tui::event::Key;
use framework_tool_tui::framework::fingerprint::Fingerprint;
use framework_tool_tui::framework::info::FrameworkInfo;
use framework_tool_tui::tui::component::main::{MainComponent, PanelComponent};
use framework_tool_tui::tui::Tui;

#[test]
fn switch_panels_traverses_and_returns_to_none() {
    let mut main = MainComponent::new(Fingerprint::percentage());
    assert_eq!(main.selected_panel, None);

    // Two panels: the traversal visits each in order, leaves focus entirely
    // after the last, and only then restarts at panel 0.
    main.switch_panels();
    assert_eq!(main.selected_panel, Some(0));
    main.switch_panels();
    assert_eq!(main.selected_panel, Some(1));
    main.switch_panels();
    assert_eq!(main.selected_panel, None);
    main.switch_panels();
    assert_eq!(main.selected_panel, Some(0));
}

#[test]
fn exactly_one_panel_carries_the_selected_flag() {
    let mut main = MainComponent::new(Fingerprint::percentage());

    let selected_flags = |main: &MainComponent| -> Vec<bool> {
        main.adjustable_panels
            .iter()
            .map(|p| match p {
                PanelComponent::Charge(c) => c.0.selected,
                PanelComponent::Brightness(b) => b.panel.selected,
            })
            .collect()
    };

    assert_eq!(selected_flags(&main), vec![false, false]);
    main.switch_panels();
    assert_eq!(selected_flags(&main), vec![true, false]);
    main.switch_panels();
    assert_eq!(selected_flags(&main), vec![false, true]);
    main.switch_panels();
    assert_eq!(selected_flags(&main), vec![false, false]);
}

#[test]
fn end_to_end_commit_of_a_max_charge_limit_edit() {
    let fingerprint = Fingerprint::percentage();
    let info = FrameworkInfo::default();
    let mut tui = Tui::new(fingerprint, &info, Config::default());
    let mut commands: Vec<AppEvent> = Vec::new();

    // Tab: panel 0 takes focus.
    if let Some(event) = tui.handle_input(Key::Tab) {
        commands.push(event);
    }
    assert_eq!(tui.main.selected_panel, Some(0));

    // The next render syncs the max-charge-limit control from the snapshot.
    if let PanelComponent::Charge(charge) = &mut tui.main.adjustable_panels[0] {
        assert_eq!(charge.displayed_max_charge_limit(Some(80)), Some(80));
    } else {
        panic!("panel 0 is the charge panel");
    }

    // Enter focuses the control; Right, Right steps 80 -> 90; Enter commits.
    for key in [Key::Enter, Key::Right, Key::Right, Key::Enter] {
        if let Some(event) = tui.handle_input(key) {
            commands.push(event);
        }
    }

    assert_eq!(commands, vec![AppEvent::SetMaxChargeLimit(90)]);
    if let PanelComponent::Charge(charge) = &tui.main.adjustable_panels[0] {
        assert!(!charge.0.controls[0].is_focused());
    } else {
        panic!("panel 0 is the charge panel");
    }
}

#[test]
fn brightness_panel_commits_fingerprint_and_keyboard_values() {
    let mut tui = Tui::new(
        Fingerprint::percentage(),
        &FrameworkInfo::default(),
        Config::default(),
    );

    // Tab twice: the brightness panel takes focus.
    assert!(tui.handle_input(Key::Tab).is_none());
    assert!(tui.handle_input(Key::Tab).is_none());
    assert_eq!(tui.main.selected_panel, Some(1));

    if let PanelComponent::Brightness(brightness) = &mut tui.main.adjustable_panels[1] {
        assert_eq!(brightness.displayed_fp_brightness(Some(40)), Some(40));
        assert_eq!(brightness.displayed_kb_brightness(Some(30)), Some(30));
    } else {
        panic!("panel 1 is the brightness panel");
    }

    // Edit the fingerprint control: 40 -> 45, commit.
    assert!(tui.handle_input(Key::Enter).is_none());
    assert!(tui.handle_input(Key::Right).is_none());
    let command = tui.handle_input(Key::Enter);
    assert_eq!(command, Some(AppEvent::SetFingerprintBrightness(45)));

    // Move to the keyboard control, edit 30 -> 25, commit.
    assert!(tui.handle_input(Key::Down).is_none());
    assert!(tui.handle_input(Key::Enter).is_none());
    assert!(tui.handle_input(Key::Left).is_none());
    let command = tui.handle_input(Key::Enter);
    assert_eq!(command, Some(AppEvent::SetKeyboardBrightness(25)));
}

#[test]
fn fingerprint_level_hardware_steps_by_bands() {
    let mut tui = Tui::new(
        Fingerprint::level(),
        &FrameworkInfo::default(),
        Config::default(),
    );

    assert!(tui.handle_input(Key::Tab).is_none());
    assert!(tui.handle_input(Key::Tab).is_none());
    if let PanelComponent::Brightness(brightness) = &mut tui.main.adjustable_panels[1] {
        assert_eq!(brightness.displayed_fp_brightness(Some(20)), Some(20));
    } else {
        panic!("panel 1 is the brightness panel");
    }

    // 20 sits in the medium band; Right cycles to the high representative.
    assert!(tui.handle_input(Key::Enter).is_none());
    assert!(tui.handle_input(Key::Right).is_none());
    let command = tui.handle_input(Key::Enter);
    assert_eq!(command, Some(AppEvent::SetFingerprintBrightness(55)));
}
