//! The tray: what it is set up with, and what each of its events asks for.
//!
//! Nothing here touches the tray itself. An event comes in as a value, and
//! what is to be done goes out as a [`TrayAction`]; the caller carries it out.
//! A change of the selection takes two steps, because the storage lies with
//! the caller: [`on_menu_event`] hands out the text to write, and
//! [`complete_selection`] takes the outcome of the write and, only if it
//! worked, hands out the new menu and title.

use vstd::prelude::*;
use crate::clock::{civil_time, is_title, wall_clock_valid, Instant};
use crate::config::{
    cache_after_get, cache_after_set, config_text, encode_config, get_result, outcome_view,
    set_config_content, written_view, Config, ConfigStore, StorageReadView, StoreError,
    StoreErrorView,
};
use crate::menu::{control_of, control_with_id, create_menu, menu_of, ControlKind, MenuState};
use crate::registry::{lists_no_control, Registry};
use crate::text::same_text;
use crate::ticker::{
    selection_of, shown_seconds, shown_title, title_for, TICK_INTERVAL_SECONDS,
};

verus! {

/// The kinds of click on the tray icon.
#[derive(Clone, Copy, Debug, PartialEq, Eq, Structural)]
pub enum ClickKind {
    Left,
    Right,
    Middle,
    Double,
}

/// What the caller is to do in answer to an event.
#[derive(Clone, Debug, PartialEq, Eq)]
pub enum TrayAction {
    /// Look for a newer version of the program.
    CheckForUpdates,
    /// Restore, show and focus the settings window.
    ShowSettings,
    /// Restore and hide the settings window.
    HideSettings,
    /// End the program.
    Quit,
    /// Write `content` to the storage, then report to `complete_selection`
    /// with `config` and the outcome of the write.
    Persist { config: Config, content: String },
    /// Do nothing: the event changes nothing.
    Nothing,
    /// Do nothing but note it: the identifier names no entry of the menu.
    Ignored,
}

/// A tray action as a mathematical value.
pub enum TrayActionView {
    CheckForUpdates,
    ShowSettings,
    HideSettings,
    Quit,
    Persist { config: Option<Seq<char>>, content: Seq<char> },
    Nothing,
    Ignored,
}

impl View for TrayAction {
    type V = TrayActionView;

    open spec fn view(&self) -> TrayActionView {
        match *self {
            TrayAction::CheckForUpdates => TrayActionView::CheckForUpdates,
            TrayAction::ShowSettings => TrayActionView::ShowSettings,
            TrayAction::HideSettings => TrayActionView::HideSettings,
            TrayAction::Quit => TrayActionView::Quit,
            TrayAction::Persist { config, content } => TrayActionView::Persist {
                config: config@,
                content: content@,
            },
            TrayAction::Nothing => TrayActionView::Nothing,
            TrayAction::Ignored => TrayActionView::Ignored,
        }
    }
}

/// What the tray starts with.
#[derive(Clone, Debug, PartialEq, Eq)]
pub struct TraySetup {
    /// The first menu.
    pub menu: MenuState,
    /// Whether the icon is drawn as a template image.
    pub icon_as_template: bool,
    /// Whether a left click opens the menu. It does not: it shows the
    /// settings window.
    pub show_menu_on_left_click: bool,
    /// The seconds between two ticks of the clock.
    pub tick_interval_seconds: u64,
}

/// What the new selection is shown with, once it is stored.
#[derive(Clone, Debug, PartialEq, Eq)]
pub struct Refresh {
    /// The menu to install first.
    pub menu: MenuState,
    /// The title to set after it.
    pub title: String,
}

/// The action that a control entry stands for.
pub open spec fn control_action(kind: ControlKind) -> TrayActionView {
    match kind {
        ControlKind::CheckForUpdates => TrayActionView::CheckForUpdates,
        ControlKind::Show => TrayActionView::ShowSettings,
        ControlKind::Hide => TrayActionView::HideSettings,
        ControlKind::Quit => TrayActionView::Quit,
    }
}

/// The action for the activation of the menu entry `id` while `current` is
/// selected. The four control identifiers come first; then a zone of the
/// registry, which asks for a write unless it is selected already; any other
/// identifier is ignored.
pub open spec fn menu_action(registry: Seq<Seq<char>>, current: Option<Seq<char>>, id: Seq<char>) -> TrayActionView {
    match control_with_id(id) {
        Some(kind) => control_action(kind),
        None => if !registry.contains(id) {
            TrayActionView::Ignored
        } else if current == Some(id) {
            TrayActionView::Nothing
        } else {
            TrayActionView::Persist { config: Some(id), content: config_text(Some(id)) }
        },
    }
}

/// The action for a click on the tray icon: a left click shows the settings
/// window, any other click does nothing.
pub open spec fn icon_action(click: ClickKind) -> TrayActionView {
    match click {
        ClickKind::Left => TrayActionView::ShowSettings,
        _ => TrayActionView::Nothing,
    }
}

/// The setup of the tray.
pub fn create_tray(registry: &Registry, config: &Result<Config, StoreError>, update_available: bool) -> (setup:
    TraySetup)
    ensures
        setup.menu@ == menu_of(registry@, selection_of(outcome_view(*config)), update_available),
        !setup.icon_as_template,
        !setup.show_menu_on_left_click,
        setup.tick_interval_seconds == TICK_INTERVAL_SECONDS,
{
    let menu = match config {
        Ok(loaded) => create_menu(registry, &loaded.time_zone, update_available),
        Err(_) => create_menu(registry, &None, update_available),
    };
    TraySetup {
        menu,
        icon_as_template: false,
        show_menu_on_left_click: false,
        tick_interval_seconds: TICK_INTERVAL_SECONDS,
    }
}

/// What the activation of the menu entry `id` asks for, while `current` is
/// the configuration.
pub fn on_menu_event(registry: &Registry, current: &Config, id: &str) -> (action: TrayAction)
    ensures
        action@ == menu_action(registry@, current@, id@),
        lists_no_control(registry@),
{
    registry.lists_zones_only();
    match control_of(id) {
        Some(ControlKind::CheckForUpdates) => TrayAction::CheckForUpdates,
        Some(ControlKind::Show) => TrayAction::ShowSettings,
        Some(ControlKind::Hide) => TrayAction::HideSettings,
        Some(ControlKind::Quit) => TrayAction::Quit,
        None => {
            if !registry.is_valid(id) {
                return TrayAction::Ignored;
            }
            let selected = match &current.time_zone {
                Some(zone) => same_text(zone.as_str(), id),
                None => false,
            };
            if selected {
                TrayAction::Nothing
            } else {
                let config = Config { time_zone: Some(id.to_owned()) };
                let content = encode_config(&config);
                TrayAction::Persist { config, content }
            }
        },
    }
}

/// What a click on the tray icon asks for.
pub fn on_tray_icon_event(click: ClickKind) -> (action: TrayAction)
    ensures
        action@ == icon_action(click),
{
    match click {
        ClickKind::Left => TrayAction::ShowSettings,
        ClickKind::Right => TrayAction::Nothing,
        ClickKind::Middle => TrayAction::Nothing,
        ClickKind::Double => TrayAction::Nothing,
    }
}

/// The second step of a change of selection: `written` is the outcome of
/// writing the text that `on_menu_event` handed out for `config`. Where the
/// write worked, the cache holds `config` and the new menu and title come
/// back. Where it failed, the cache is as before, the failure comes back, and
/// there is nothing to show.
pub fn complete_selection(
    registry: &Registry,
    store: &mut ConfigStore,
    config: Config,
    written: Result<(), String>,
    update_available: bool,
    at: Instant,
) -> (shown: Result<Refresh, StoreError>)
    ensures
        lists_no_control(registry@),
        final(store)@ == cache_after_set(old(store)@, config@, written_view(written)),
        match shown {
            Ok(refresh) => written is Ok && refresh.menu@ == menu_of(
                registry@,
                config@,
                update_available,
            ) && refresh.title@ == shown_title(registry@, config@, at@) && is_title(refresh.title@)
                && wall_clock_valid(civil_time(shown_seconds(registry@, config@, at@))),
            Err(error) => written matches Err(message) && error@ == StoreErrorView::StorageIo(
                message@,
            ),
        },
{
    registry.lists_zones_only();
    let menu = create_menu(registry, &config.time_zone, update_available);
    let title = title_for(registry, &config.time_zone, at);
    match set_config_content(store, config, written) {
        Ok(_) => Ok(Refresh { menu, title }),
        Err(error) => Err(error),
    }
}

/// The number of writes that an action asks for.
pub open spec fn writes_asked(action: TrayActionView) -> nat {
    if action is Persist {
        1
    } else {
        0
    }
}

/// The selection after an action has been carried out: the new one where the
/// action asked for a write and the write worked, the old one otherwise.
pub open spec fn selection_after(
    current: Option<Seq<char>>,
    action: TrayActionView,
    written: Result<(), Seq<char>>,
) -> Option<Seq<char>> {
    match action {
        TrayActionView::Persist { config, content } => if written is Ok {
            config
        } else {
            current
        },
        _ => current,
    }
}

/// Selecting a zone twice in a row writes once, for every registry and every
/// zone of it. The first activation asks for one write, or for none where the
/// zone is selected already; once that write has worked the zone is the
/// selection, and the second activation asks for nothing: no write, and so no
/// new menu and no new title.
pub proof fn selecting_twice_writes_once(
    registry: Seq<Seq<char>>,
    current: Option<Seq<char>>,
    id: Seq<char>,
)
    requires
        lists_no_control(registry),
        registry.contains(id),
    ensures
        ({
            let first = menu_action(registry, current, id);
            let between = selection_after(current, first, Ok(()));
            let second = menu_action(registry, between, id);
            &&& between == Some(id)
            &&& second == TrayActionView::Nothing
            &&& writes_asked(first) + writes_asked(second) == (if current == Some(id) {
                0nat
            } else {
                1nat
            })
        }),
{
}

/// What the store answers between the two activations: after the write of a
/// selection has worked, `get_config` returns that selection without a look
/// at the storage, and leaves the cache as it is.
pub proof fn stored_selection_is_current(
    cache: Option<Option<Seq<char>>>,
    id: Seq<char>,
    read: StorageReadView,
)
    ensures
        ({
            let stored = cache_after_set(cache, Some(id), Ok(()));
            &&& get_result(stored, read) == Ok::<Option<Seq<char>>, StoreErrorView>(Some(id))
            &&& cache_after_get(stored, read) == stored
        }),
{
}

} // verus!
