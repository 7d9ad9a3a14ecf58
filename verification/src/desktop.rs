//! The decisions of the desktop application: its language, tray, events, start and end.

use crate::text::{optional, same_text, texts, Text, Texts};
use vstd::prelude::*;

verus! {

/// The language that is used where nothing else is known.
pub const DEFAULT_LOCALE: &'static str = "en-US";

/// How many events the event broadcaster holds.
pub const EVENT_CAPACITY: usize = 100;

/// Calls `sys_locale::get_locale`, which reads the environment. Nothing is claimed of it.
#[verifier::external_body]
fn system_locale() -> (locale: Option<String>) {
    sys_locale::get_locale()
}

/// Whether `locale` is what the system says of its locale: what a call of
/// `sys_locale::get_locale` gave.
pub closed spec fn said_by_system(locale: Option<Text>) -> bool {
    exists|answer: Option<String>| #[trigger]
        call_ensures(system_locale, (), answer) && locale == optional(answer)
}

/// Asks the system for its locale.
fn ask_system() -> (locale: Option<String>)
    ensures
        said_by_system(optional(locale)),
{
    call_system(system_locale)
}

fn call_system<F: Fn() -> Option<String>>(system: F) -> (locale: Option<String>)
    requires
        call_requires(system, ()),
    ensures
        call_ensures(system, (), locale),
{
    system()
}

/// The locale that is in effect: the configured one, else that of the system, else the default.
pub open spec fn locale_in_effect(configured: Option<Text>, system: Option<Text>) -> Text {
    match configured {
        Some(locale) => locale,
        None => match system {
            Some(locale) => locale,
            None => DEFAULT_LOCALE@,
        },
    }
}

/// Whether a locale is in effect for what the system says; where a locale is configured, the
/// system need not be asked.
pub open spec fn in_effect_somewhere(configured: Option<Text>, locale: Text) -> bool {
    exists|system: Option<Text>|
        (configured is Some || said_by_system(system)) && locale == #[trigger] locale_in_effect(
            configured,
            system,
        )
}

/// Chooses the locale, given that of the configuration and that of the system.
pub fn choose_locale(configured: Option<String>, system: Option<String>) -> (locale: String)
    ensures
        locale@ == locale_in_effect(optional(configured), optional(system)),
{
    match configured {
        Some(locale) => locale,
        None => match system {
            Some(locale) => locale,
            None => DEFAULT_LOCALE.to_owned(),
        },
    }
}

/// The locale that is in effect, given that of the configuration.
pub fn get_effective_locale(configured: Option<String>) -> (locale: String)
    ensures
        in_effect_somewhere(optional(configured), locale@),
{
    match configured {
        Some(locale) => {
            assert(locale@ == locale_in_effect(optional(configured), None));
            locale
        },
        None => choose_locale(None, ask_system()),
    }
}

/// An entry of the tray menu: its ID, and the key of its label in the translations.
pub struct MenuEntry {
    pub id: &'static str,
    pub label: &'static str,
}

/// What an entry of the tray menu does.
#[derive(Debug, Clone, Copy, PartialEq, Eq, Structural)]
pub enum TrayAction {
    ShowMainWindow,
    ShowAddDriveWindow,
    ShowSettingsWindow,
    /// Exit with this code.
    Exit(i32),
}

/// What the entry with an ID does, if there is one.
pub open spec fn menu_action(id: Text) -> Option<TrayAction> {
    if id == "show"@ {
        Some(TrayAction::ShowMainWindow)
    } else if id == "add_drive"@ {
        Some(TrayAction::ShowAddDriveWindow)
    } else if id == "settings"@ {
        Some(TrayAction::ShowSettingsWindow)
    } else if id == "quit"@ {
        Some(TrayAction::Exit(0))
    } else {
        None
    }
}

/// The IDs and label keys of the tray menu, from top to bottom.
pub open spec fn menu_texts() -> Seq<(Text, Text)> {
    seq![
        ("show"@, "show"@),
        ("add_drive"@, "addNewDrive"@),
        ("settings"@, "settings"@),
        ("quit"@, "quit"@),
    ]
}

/// The tray menu, from top to bottom.
pub fn tray_menu() -> (menu: Vec<MenuEntry>)
    ensures
        menu@.len() == menu_texts().len(),
        forall|i: int|
            0 <= i < menu@.len() ==> (#[trigger] menu@[i]).id@ == menu_texts()[i].0
                && menu@[i].label@ == menu_texts()[i].1,
{
    let mut menu: Vec<MenuEntry> = Vec::new();
    menu.push(MenuEntry { id: "show", label: "show" });
    menu.push(MenuEntry { id: "add_drive", label: "addNewDrive" });
    menu.push(MenuEntry { id: "settings", label: "settings" });
    menu.push(MenuEntry { id: "quit", label: "quit" });
    menu
}

/// What the entry of the tray menu with an ID does, if there is one.
pub fn tray_menu_action(id: &str) -> (action: Option<TrayAction>)
    ensures
        action == menu_action(id@),
{
    if same_text(id, "show") {
        Some(TrayAction::ShowMainWindow)
    } else if same_text(id, "add_drive") {
        Some(TrayAction::ShowAddDriveWindow)
    } else if same_text(id, "settings") {
        Some(TrayAction::ShowSettingsWindow)
    } else if same_text(id, "quit") {
        Some(TrayAction::Exit(0))
    } else {
        None
    }
}

/// Every entry of the tray menu does something, and no two do the same.
pub proof fn law_menu_is_covered(i: int, j: int)
    requires
        0 <= i < menu_texts().len(),
        0 <= j < menu_texts().len(),
    ensures
        menu_action(menu_texts()[i].0) is Some,
        menu_action(menu_texts()[i].0) == menu_action(menu_texts()[j].0) ==> i == j,
{
    reveal_strlit("show");
    reveal_strlit("add_drive");
    reveal_strlit("settings");
    reveal_strlit("quit");
    assert("show"@[0] == 's' && "show"@[1] == 'h');
    assert("add_drive"@[0] == 'a');
    assert("settings"@[0] == 's' && "settings"@[1] == 'e');
    assert("quit"@[0] == 'q');
}

/// A button of the mouse.
#[derive(Debug, Clone, Copy, PartialEq, Eq, Structural)]
pub enum MouseButton {
    Left,
    Right,
    Middle,
}

/// Whether a button was pressed or released.
#[derive(Debug, Clone, Copy, PartialEq, Eq, Structural)]
pub enum MouseButtonState {
    Up,
    Down,
}

/// Whether a click on the tray icon opens the main window: the left button does, when it is
/// released.
pub fn tray_click_opens(button: MouseButton, state: MouseButtonState) -> (opens: bool)
    ensures
        opens == (button is Left && state is Up),
{
    match (button, state) {
        (MouseButton::Left, MouseButtonState::Up) => true,
        _ => false,
    }
}

/// The deep link among the arguments of a second instance: its first argument after the name of
/// the program.
pub fn deep_link(argv: &Vec<String>) -> (link: Option<String>)
    ensures
        optional(link) == if argv@.len() > 1 {
            Some(argv@[1]@)
        } else {
            None
        },
        optional(link) == link_among(texts(argv@)),
{
    if argv.len() > 1 {
        Some(argv[1].clone())
    } else {
        None
    }
}

/// What the event loop reports.
#[derive(Debug, Clone, Copy, PartialEq, Eq, Structural)]
pub enum LoopEvent {
    /// An exit was requested, with a code where the application asked for it itself.
    ExitRequested(Option<i32>),
    /// The application exits.
    Exit,
    /// Anything else.
    Other,
}

/// What is done about it.
#[derive(Debug, Clone, Copy, PartialEq, Eq, Structural)]
pub enum LoopAction {
    /// Stay in the background.
    PreventExit,
    /// Let the application exit.
    AllowExit,
    /// Shut down.
    Shutdown,
    Nothing,
}

/// What is done about an event of the event loop.
pub open spec fn loop_action(event: LoopEvent) -> LoopAction {
    match event {
        LoopEvent::ExitRequested(None) => LoopAction::PreventExit,
        LoopEvent::ExitRequested(Some(_)) => LoopAction::AllowExit,
        LoopEvent::Exit => LoopAction::Shutdown,
        LoopEvent::Other => LoopAction::Nothing,
    }
}

/// The deep link among arguments.
pub open spec fn link_among(arguments: Texts) -> Option<Text> {
    if arguments.len() > 1 {
        Some(arguments[1])
    } else {
        None
    }
}

/// What is done about an event of the event loop. Closing the last window is no reason to exit:
/// only an exit that has a code goes through.
pub fn on_loop_event(event: LoopEvent) -> (action: LoopAction)
    ensures
        action == match event {
            LoopEvent::ExitRequested(code) => if code is None {
                LoopAction::PreventExit
            } else {
                LoopAction::AllowExit
            },
            LoopEvent::Exit => LoopAction::Shutdown,
            LoopEvent::Other => LoopAction::Nothing,
        },
        action == loop_action(event),
{
    match event {
        LoopEvent::ExitRequested(None) => LoopAction::PreventExit,
        LoopEvent::ExitRequested(Some(_)) => LoopAction::AllowExit,
        LoopEvent::Exit => LoopAction::Shutdown,
        LoopEvent::Other => LoopAction::Nothing,
    }
}

/// What the receiver of the event broadcast gets.
#[derive(Debug)]
pub enum Received<E> {
    /// An event.
    Event(E),
    /// Notice that so many events were missed.
    Lagged(u64),
    /// Notice that there will be no more events.
    Closed,
}

/// What the bridge to the user interface does next.
#[derive(Debug)]
pub enum BridgeAction<E> {
    /// Handle the event and pass it on.
    Forward(E),
    /// Warn of so many missed events, and go on.
    Warn(u64),
    /// Stop.
    Stop,
}

/// What the bridge to the user interface does with what it gets: every event is passed on, and
/// only the end of the broadcast ends the bridge.
pub fn bridge<E>(received: Received<E>) -> (action: BridgeAction<E>)
    ensures
        action == match received {
            Received::Event(event) => BridgeAction::Forward(event),
            Received::Lagged(missed) => BridgeAction::Warn(missed),
            Received::Closed => BridgeAction::Stop,
        },
{
    match received {
        Received::Event(event) => BridgeAction::Forward(event),
        Received::Lagged(missed) => BridgeAction::Warn(missed),
        Received::Closed => BridgeAction::Stop,
    }
}

/// The parts of starting the synchronisation service.
#[derive(Debug, Clone, Copy, PartialEq, Eq, Structural)]
pub enum StartupStep {
    InitAppRoot,
    InitLogging,
    /// Create the event broadcaster, with its capacity.
    CreateBroadcaster,
    SpawnEventBridge,
    CreateDriveManager,
    SpawnCommandProcessor,
    LoadDrives,
    StartShellService,
    WaitForShellService,
    AnnounceConnected,
    StoreState,
    ManageState,
}

/// What follows a part of the start.
#[derive(Debug)]
pub enum StartupAction<T> {
    Do(StartupStep),
    /// The service is up.
    Ready,
    /// The service cannot be started.
    Fail(T),
}

impl View for StartupAction<String> {
    type V = StartupAction<Text>;

    open spec fn view(&self) -> StartupAction<Text> {
        match *self {
            StartupAction::Do(step) => StartupAction::Do(step),
            StartupAction::Ready => StartupAction::Ready,
            StartupAction::Fail(message) => StartupAction::Fail(message@),
        }
    }
}

/// The parts of the start, in order.
pub open spec fn startup_order() -> Seq<StartupStep> {
    seq![
        StartupStep::InitAppRoot,
        StartupStep::InitLogging,
        StartupStep::CreateBroadcaster,
        StartupStep::SpawnEventBridge,
        StartupStep::CreateDriveManager,
        StartupStep::SpawnCommandProcessor,
        StartupStep::LoadDrives,
        StartupStep::StartShellService,
        StartupStep::WaitForShellService,
        StartupStep::AnnounceConnected,
        StartupStep::StoreState,
        StartupStep::ManageState,
    ]
}

/// The place of a part in the order of the start.
pub open spec fn startup_place(step: StartupStep) -> int {
    match step {
        StartupStep::InitAppRoot => 0,
        StartupStep::InitLogging => 1,
        StartupStep::CreateBroadcaster => 2,
        StartupStep::SpawnEventBridge => 3,
        StartupStep::CreateDriveManager => 4,
        StartupStep::SpawnCommandProcessor => 5,
        StartupStep::LoadDrives => 6,
        StartupStep::StartShellService => 7,
        StartupStep::WaitForShellService => 8,
        StartupStep::AnnounceConnected => 9,
        StartupStep::StoreState => 10,
        StartupStep::ManageState => 11,
    }
}

/// Every part of the start has its place in the order, and no other part has it.
pub proof fn law_startup_order_is_complete(step: StartupStep, at: int)
    ensures
        0 <= startup_place(step) < startup_order().len(),
        startup_order()[startup_place(step)] == step,
        0 <= at < startup_order().len() ==> startup_place(startup_order()[at]) == at,
{
}

/// The message with which the failure of a part ends the start; the failure of any other part
/// does not.
pub open spec fn startup_failure(step: StartupStep) -> Option<Text> {
    match step {
        StartupStep::InitLogging => Some("Failed to initialize logging system"@),
        StartupStep::CreateDriveManager => Some("Failed to create DriveManager"@),
        StartupStep::LoadDrives => Some("Failed to load drive configurations"@),
        StartupStep::StoreState => Some("App state already initialized"@),
        _ => None,
    }
}

/// What follows a part that went well or not.
pub open spec fn after_startup_step(at: int, ok: bool) -> StartupAction<Text> {
    let step = startup_order()[at];
    if !ok && startup_failure(step) is Some {
        StartupAction::Fail(startup_failure(step)->0)
    } else if at + 1 < startup_order().len() {
        StartupAction::Do(startup_order()[at + 1])
    } else {
        StartupAction::Ready
    }
}

/// The part of the start that comes first.
pub fn first_startup_step() -> (step: StartupStep)
    ensures
        step == startup_order()[0],
{
    StartupStep::InitAppRoot
}

fn step_after(step: StartupStep) -> (next: Option<StartupStep>)
    ensures
        next == if startup_place(step) + 1 < startup_order().len() {
            Some(startup_order()[startup_place(step) + 1])
        } else {
            None
        },
{
    match step {
        StartupStep::InitAppRoot => Some(StartupStep::InitLogging),
        StartupStep::InitLogging => Some(StartupStep::CreateBroadcaster),
        StartupStep::CreateBroadcaster => Some(StartupStep::SpawnEventBridge),
        StartupStep::SpawnEventBridge => Some(StartupStep::CreateDriveManager),
        StartupStep::CreateDriveManager => Some(StartupStep::SpawnCommandProcessor),
        StartupStep::SpawnCommandProcessor => Some(StartupStep::LoadDrives),
        StartupStep::LoadDrives => Some(StartupStep::StartShellService),
        StartupStep::StartShellService => Some(StartupStep::WaitForShellService),
        StartupStep::WaitForShellService => Some(StartupStep::AnnounceConnected),
        StartupStep::AnnounceConnected => Some(StartupStep::StoreState),
        StartupStep::StoreState => Some(StartupStep::ManageState),
        StartupStep::ManageState => None,
    }
}

/// What follows a part of the start that went well or not.
pub fn on_startup_step(step: StartupStep, ok: bool) -> (action: StartupAction<String>)
    ensures
        action@ == after_startup_step(startup_place(step), ok),
{
    if !ok {
        match step {
            StartupStep::InitLogging => {
                return StartupAction::Fail("Failed to initialize logging system".to_owned());
            },
            StartupStep::CreateDriveManager => {
                return StartupAction::Fail("Failed to create DriveManager".to_owned());
            },
            StartupStep::LoadDrives => {
                return StartupAction::Fail("Failed to load drive configurations".to_owned());
            },
            StartupStep::StoreState => {
                return StartupAction::Fail("App state already initialized".to_owned());
            },
            _ => {},
        }
    }
    match step_after(step) {
        Some(next) => StartupAction::Do(next),
        None => StartupAction::Ready,
    }
}

/// What follows the given results of the parts, from the first on: the start goes on part by
/// part until one that matters fails.
pub open spec fn startup_after(results: Seq<bool>) -> StartupAction<Text>
    decreases results.len(),
{
    if results.len() == 0 {
        StartupAction::Do(startup_order()[0])
    } else {
        let before = startup_after(results.drop_last());
        match before {
            StartupAction::Do(_) => after_startup_step(results.len() - 1, results.last()),
            _ => before,
        }
    }
}

/// The service is up exactly when every part that matters went well: a shell service that fails
/// does not keep it down.
pub proof fn law_startup_needs_what_matters(results: Seq<bool>)
    requires
        results.len() == startup_order().len(),
    ensures
        startup_after(results) == StartupAction::<Text>::Ready <==> forall|i: int|
            0 <= i < results.len() && startup_failure(#[trigger] startup_order()[i]) is Some
                ==> results[i],
{
    lemma_startup(results);
}

/// The start fails with the message of the first part that matters and went wrong.
pub proof fn law_first_failure_is_reported(results: Seq<bool>, at: int)
    requires
        0 <= at < results.len() <= startup_order().len(),
        startup_failure(startup_order()[at]) is Some,
        !results[at],
        forall|i: int|
            0 <= i < at && startup_failure(#[trigger] startup_order()[i]) is Some ==> results[i],
    ensures
        startup_after(results) == StartupAction::Fail(startup_failure(startup_order()[at])->0),
    decreases results.len(),
{
    if at < results.len() - 1 {
        law_first_failure_is_reported(results.drop_last(), at);
    } else {
        lemma_startup(results.drop_last());
        assert forall|i: int|
            0 <= i < at && startup_failure(#[trigger] startup_order()[i])
                is Some implies results.drop_last()[i] by {}
    }
}

proof fn lemma_startup(results: Seq<bool>)
    requires
        results.len() <= startup_order().len(),
    ensures
        (forall|i: int|
            0 <= i < results.len() && startup_failure(#[trigger] startup_order()[i]) is Some
                ==> results[i]) ==> startup_after(results) == if results.len()
            < startup_order().len() {
            StartupAction::<Text>::Do(startup_order()[results.len() as int])
        } else {
            StartupAction::<Text>::Ready
        },
        !(forall|i: int|
            0 <= i < results.len() && startup_failure(#[trigger] startup_order()[i]) is Some
                ==> results[i]) ==> startup_after(results) is Fail,
    decreases results.len(),
{
    if results.len() > 0 {
        let rest = results.drop_last();
        lemma_startup(rest);
        let last = results.len() - 1;
        if forall|i: int|
            0 <= i < rest.len() && startup_failure(#[trigger] startup_order()[i]) is Some
                ==> rest[i] {
            if startup_failure(startup_order()[last]) is Some && !results[last] {
                assert(startup_after(results) is Fail);
            } else {
                assert forall|i: int|
                    0 <= i < results.len() && startup_failure(#[trigger] startup_order()[i])
                        is Some implies results[i] by {
                    if i < last {
                        assert(rest[i] == results[i]);
                    }
                }
            }
        } else {
            let i = choose|i: int|
                0 <= i < rest.len() && startup_failure(#[trigger] startup_order()[i]) is Some
                    && !rest[i];
            assert(!results[i]);
        }
    }
}

/// The parts of shutting down.
#[derive(Debug, Clone, Copy, PartialEq, Eq, Structural)]
pub enum ShutdownStep {
    AnnounceDisconnected,
    ShutDownDrives,
    /// Save the drive configurations; where that fails, the shutdown goes on.
    PersistDrives,
}

/// The parts of shutting down, in order: none where the service never came up.
pub fn shutdown_steps(started: bool) -> (steps: Vec<ShutdownStep>)
    ensures
        steps@ == if started {
            seq![
                ShutdownStep::AnnounceDisconnected,
                ShutdownStep::ShutDownDrives,
                ShutdownStep::PersistDrives,
            ]
        } else {
            Seq::empty()
        },
{
    let mut steps: Vec<ShutdownStep> = Vec::new();
    if started {
        steps.push(ShutdownStep::AnnounceDisconnected);
        steps.push(ShutdownStep::ShutDownDrives);
        steps.push(ShutdownStep::PersistDrives);
    }
    steps
}

/// A configured locale is in effect whatever the system says; without one that of the system is,
/// and without either the default.
pub proof fn law_configured_locale_comes_first(
    configured: Option<Text>,
    system: Option<Text>,
    locale: Text,
)
    requires
        locale == locale_in_effect(configured, system),
    ensures
        configured is Some ==> configured == Some(locale),
        configured is None && system is Some ==> system == Some(locale),
        configured is None && system is None ==> locale == "en-US"@,
{
}

/// The locale that is found to be in effect is the configured one, or what the system says, or
/// where that says nothing the default.
pub proof fn law_locale_is_asked_for(configured: Option<Text>, locale: Text)
    requires
        in_effect_somewhere(configured, locale),
    ensures
        configured is Some ==> configured == Some(locale),
        configured is None ==> said_by_system(Some(locale)) || said_by_system(None) && locale
            == "en-US"@,
{
}

/// An entry does something exactly if it is in the tray menu.
pub proof fn law_only_menu_acts(id: Text)
    ensures
        menu_action(id) is Some <==> exists|i: int|
            0 <= i < menu_texts().len() && (#[trigger] menu_texts()[i]).0 == id,
        menu_action(id) == Some(TrayAction::Exit(0)) ==> id == "quit"@,
        menu_action(id) matches Some(TrayAction::Exit(code)) ==> code == 0,
{
    assert(menu_texts()[0].0 == "show"@ && menu_texts()[1].0 == "add_drive"@
        && menu_texts()[2].0 == "settings"@ && menu_texts()[3].0 == "quit"@);
}

/// The parts whose failure matters are logging, the drive manager, the loading of the drives and
/// the storing of the state; the failure of any other part lets the start go on.
pub proof fn law_what_matters_at_start(step: StartupStep)
    ensures
        startup_failure(step) is Some <==> step is InitLogging || step is CreateDriveManager || step
            is LoadDrives || step is StoreState,
        after_startup_step(startup_place(step), true) is Fail <==> false,
        after_startup_step(startup_place(step), true) is Ready <==> step is ManageState,
        after_startup_step(startup_place(step), false) is Fail <==> startup_failure(step) is Some,
{
}

/// The connection is announced only after the drives have been loaded, and the state is stored
/// only after that.
pub proof fn law_connection_is_announced_late()
    ensures
        startup_place(StartupStep::InitLogging) < startup_place(StartupStep::CreateDriveManager),
        startup_place(StartupStep::SpawnEventBridge) < startup_place(StartupStep::CreateDriveManager),
        startup_place(StartupStep::CreateDriveManager) < startup_place(StartupStep::LoadDrives),
        startup_place(StartupStep::LoadDrives) < startup_place(StartupStep::AnnounceConnected),
        startup_place(StartupStep::AnnounceConnected) < startup_place(StartupStep::StoreState),
        startup_place(StartupStep::StoreState) < startup_place(StartupStep::ManageState),
{
}


/// An exit that the application asked for itself goes through, whatever its code; one without a
/// code never does; and only an exit shuts the service down.
pub proof fn law_exit_needs_code(event: LoopEvent, code: i32)
    ensures
        loop_action(LoopEvent::ExitRequested(Some(code))) is AllowExit,
        loop_action(event) is PreventExit <==> event == LoopEvent::ExitRequested(None),
        loop_action(event) is Shutdown <==> event is Exit,
{
}

/// The deep link is the first argument after the name of the program, however many follow it.
pub proof fn law_deep_link_is_first_argument(program: Text, link: Text, more: Texts)
    ensures
        link_among(seq![program, link] + more) == Some(link),
        link_among(seq![program]) is None,
        link_among(Seq::empty()) is None,
{
}


} // verus!
