use cloudreve::desktop::{
    bridge, choose_locale, deep_link, first_startup_step, get_effective_locale, on_loop_event,
    on_startup_step, shutdown_steps, tray_click_opens, tray_menu, tray_menu_action, BridgeAction,
    LoopAction, LoopEvent, MouseButton, MouseButtonState, Received, ShutdownStep, StartupAction,
    StartupStep, TrayAction, EVENT_CAPACITY,
};

fn text(s: &str) -> Option<String> {
    Some(s.to_string())
}

/// The parts of a start in which the given parts fail, and how it ends.
fn start(failing: &[StartupStep]) -> (Vec<StartupStep>, Option<String>) {
    let mut done = Vec::new();
    let mut step = first_startup_step();
    loop {
        done.push(step);
        match on_startup_step(step, !failing.contains(&step)) {
            StartupAction::Do(next) => step = next,
            StartupAction::Ready => return (done, None),
            StartupAction::Fail(message) => return (done, Some(message)),
        }
    }
}

#[test]
fn the_configured_locale_comes_first() {
    assert_eq!(choose_locale(text("fr-FR"), text("de-DE")), "fr-FR");
    assert_eq!(choose_locale(None, text("de-DE")), "de-DE");
    assert_eq!(choose_locale(None, None), "en-US");
    assert_eq!(get_effective_locale(text("zh-CN")), "zh-CN");
}

#[test]
fn the_locale_of_the_system_is_used_where_none_is_configured() {
    let expected = sys_locale::get_locale().unwrap_or_else(|| "en-US".to_string());
    assert_eq!(get_effective_locale(None), expected);
}

#[test]
fn the_tray_menu_has_four_entries_that_all_do_something() {
    let menu = tray_menu();
    let entries: Vec<(&str, &str)> = menu.iter().map(|entry| (entry.id, entry.label)).collect();
    assert_eq!(
        entries,
        vec![
            ("show", "show"),
            ("add_drive", "addNewDrive"),
            ("settings", "settings"),
            ("quit", "quit"),
        ]
    );
    let actions: Vec<TrayAction> =
        menu.iter().map(|entry| tray_menu_action(entry.id).unwrap()).collect();
    assert_eq!(
        actions,
        vec![
            TrayAction::ShowMainWindow,
            TrayAction::ShowAddDriveWindow,
            TrayAction::ShowSettingsWindow,
            TrayAction::Exit(0),
        ]
    );
    assert_eq!(tray_menu_action("addNewDrive"), None);
    assert_eq!(tray_menu_action(""), None);
}

#[test]
fn a_left_click_opens_the_window_when_it_is_released() {
    assert!(tray_click_opens(MouseButton::Left, MouseButtonState::Up));
    assert!(!tray_click_opens(MouseButton::Left, MouseButtonState::Down));
    assert!(!tray_click_opens(MouseButton::Right, MouseButtonState::Up));
    assert!(!tray_click_opens(MouseButton::Middle, MouseButtonState::Up));
}

#[test]
fn the_deep_link_is_the_first_argument() {
    let arguments = |list: &[&str]| list.iter().map(|s| s.to_string()).collect::<Vec<String>>();
    assert_eq!(deep_link(&arguments(&["app", "cloudreve://x", "y"])), text("cloudreve://x"));
    assert_eq!(deep_link(&arguments(&["app"])), None);
    assert_eq!(deep_link(&arguments(&[])), None);
}

#[test]
fn only_an_exit_with_a_code_goes_through() {
    assert_eq!(on_loop_event(LoopEvent::ExitRequested(None)), LoopAction::PreventExit);
    assert_eq!(on_loop_event(LoopEvent::ExitRequested(Some(0))), LoopAction::AllowExit);
    assert_eq!(on_loop_event(LoopEvent::Exit), LoopAction::Shutdown);
    assert_eq!(on_loop_event(LoopEvent::Other), LoopAction::Nothing);
}

#[test]
fn the_bridge_passes_events_on_until_the_end() {
    assert!(matches!(bridge(Received::Event(7)), BridgeAction::Forward(7)));
    assert!(matches!(bridge(Received::<i32>::Lagged(3)), BridgeAction::Warn(3)));
    assert!(matches!(bridge(Received::<i32>::Closed), BridgeAction::Stop));
}

#[test]
fn the_service_starts_in_order() {
    let (done, failure) = start(&[]);
    assert_eq!(failure, None);
    assert_eq!(
        done,
        vec![
            StartupStep::InitAppRoot,
            StartupStep::InitLogging,
            StartupStep::CreateBroadcaster,
            StartupStep::SpawnEventBridge,
            StartupStep::CreateDriveManager,
            StartupStep::SpawnCommandProcessor,
            StartupStep::LoadDrives,
            StartupStep::StartShellService,
            StartupStep::WaitForShellService,
            StartupStep::AnnounceConnected,
            StartupStep::StoreState,
            StartupStep::ManageState,
        ]
    );
    assert_eq!(EVENT_CAPACITY, 100);
}

#[test]
fn the_service_starts_without_the_shell() {
    let (done, failure) = start(&[StartupStep::WaitForShellService]);
    assert_eq!(failure, None);
    assert_eq!(done.len(), 12);
}

#[test]
fn the_first_failure_that_matters_is_reported() {
    let cases = [
        (StartupStep::InitLogging, "Failed to initialize logging system", 2),
        (StartupStep::CreateDriveManager, "Failed to create DriveManager", 5),
        (StartupStep::LoadDrives, "Failed to load drive configurations", 7),
        (StartupStep::StoreState, "App state already initialized", 11),
    ];
    for (step, message, parts) in cases {
        let (done, failure) = start(&[step, StartupStep::StoreState]);
        assert_eq!(failure.as_deref(), Some(message));
        assert_eq!(done.len(), parts);
    }
}

#[test]
fn a_service_that_came_up_is_shut_down_in_order() {
    assert_eq!(
        shutdown_steps(true),
        vec![
            ShutdownStep::AnnounceDisconnected,
            ShutdownStep::ShutDownDrives,
            ShutdownStep::PersistDrives,
        ]
    );
    assert_eq!(shutdown_steps(false), Vec::new());
}
