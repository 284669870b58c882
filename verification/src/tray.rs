//! The tray icon's decision logic: which event each mouse notification and
//! menu command stands for, and the context menu's exact shape. Creating
//! the icon and rendering the menu are platform work.

use vstd::prelude::*;
use vstd::string::StringExecFns;

verus! {

/// The context menu's command identifiers.
pub const MENU_SELECT_COLOR: u16 = 101;
pub const MENU_CONFIGURE_HOTKEY: u16 = 102;
pub const MENU_STARTUP: u16 = 103;
pub const MENU_EXIT: u16 = 199;

/// The mouse notifications the tray icon reacts to.
pub const TRAY_RIGHT_BUTTON_UP: u32 = 0x0205;
pub const TRAY_LEFT_DOUBLE_CLICK: u32 = 0x0203;

/// The discrete events the tray delivers to the application.
#[derive(Clone, Copy, Debug, PartialEq, Eq, Structural)]
pub enum TrayEvent {
    DoubleClick,
    SelectColor,
    ConfigureHotkey,
    ToggleStartup,
    Exit,
}

/// What a mouse notification on the tray icon asks for.
#[derive(Clone, Copy, Debug, PartialEq, Eq, Structural)]
pub enum TrayGesture {
    /// Open the context menu.
    ShowContextMenu,
    /// Deliver a `DoubleClick` event.
    DoubleClick,
}

/// Decides what a mouse notification on the tray icon means: right button
/// up opens the context menu, a primary double-click toggles the overlay,
/// anything else is ignored.
pub fn tray_icon_gesture(event: u32) -> (r: Option<TrayGesture>)
    ensures
        r == (if event == TRAY_RIGHT_BUTTON_UP {
            Some(TrayGesture::ShowContextMenu)
        } else if event == TRAY_LEFT_DOUBLE_CLICK {
            Some(TrayGesture::DoubleClick)
        } else {
            None::<TrayGesture>
        }),
{
    if event == TRAY_RIGHT_BUTTON_UP {
        Some(TrayGesture::ShowContextMenu)
    } else if event == TRAY_LEFT_DOUBLE_CLICK {
        Some(TrayGesture::DoubleClick)
    } else {
        None
    }
}

/// Decides which event a chosen menu command delivers; an unknown
/// identifier delivers none.
pub fn menu_command_event(menu_id: u16) -> (r: Option<TrayEvent>)
    ensures
        r == (if menu_id == MENU_SELECT_COLOR {
            Some(TrayEvent::SelectColor)
        } else if menu_id == MENU_CONFIGURE_HOTKEY {
            Some(TrayEvent::ConfigureHotkey)
        } else if menu_id == MENU_STARTUP {
            Some(TrayEvent::ToggleStartup)
        } else if menu_id == MENU_EXIT {
            Some(TrayEvent::Exit)
        } else {
            None::<TrayEvent>
        }),
{
    if menu_id == MENU_SELECT_COLOR {
        Some(TrayEvent::SelectColor)
    } else if menu_id == MENU_CONFIGURE_HOTKEY {
        Some(TrayEvent::ConfigureHotkey)
    } else if menu_id == MENU_STARTUP {
        Some(TrayEvent::ToggleStartup)
    } else if menu_id == MENU_EXIT {
        Some(TrayEvent::Exit)
    } else {
        None
    }
}

/// What the tray remembers between events: the hotkey's display text shown
/// in the menu's hint line.
pub struct TrayState {
    pub hotkey_display: String,
}

impl TrayState {
    /// A fresh tray showing the given binding in its hint line.
    pub fn new(hotkey_display: &str) -> (s: TrayState)
        ensures
            s.hotkey_display@ == hotkey_display@,
    {
        TrayState { hotkey_display: String::from_str(hotkey_display) }
    }
}

/// Replaces the hotkey text the menu's hint line shows, after the binding
/// was reconfigured.
pub fn update_hotkey_display(state: &mut TrayState, display: &str)
    ensures
        final(state).hotkey_display@ == display@,
{
    state.hotkey_display = String::from_str(display);
}

/// One line of the context menu.
#[derive(Clone, Copy, Debug, PartialEq, Eq, Structural)]
pub enum MenuEntryKind {
    /// A grayed, non-selectable label.
    Hint,
    /// A separator line.
    Separator,
    /// A selectable command.
    Action,
    /// A selectable command with a checkmark.
    CheckedAction,
}

/// One entry of the context menu, in display order.
#[derive(Debug)]
pub struct MenuEntry {
    pub kind: MenuEntryKind,
    pub id: u16,
    pub text: String,
}

/// The context menu, top to bottom: the grayed toggle hint with the
/// current hotkey, the color and hotkey commands, the startup command with
/// a checkmark exactly when run-at-login is on, and the exit command, with
/// separators between the groups.
pub fn build_menu(state: &TrayState, startup_enabled: bool) -> (menu: Vec<MenuEntry>)
    ensures
        menu@.len() == 8,
        menu@[0].kind is Hint && menu@[0].id == 0 && menu@[0].text@ == "Toggle: "@
            + state.hotkey_display@,
        menu@[1].kind is Separator,
        menu@[2].kind is Action && menu@[2].id == MENU_SELECT_COLOR && menu@[2].text@
            == "Select Color..."@,
        menu@[3].kind is Action && menu@[3].id == MENU_CONFIGURE_HOTKEY && menu@[3].text@
            == "Configure Hotkey..."@,
        menu@[4].kind is Separator,
        menu@[5].id == MENU_STARTUP && menu@[5].text@ == "Run at Startup"@,
        menu@[5].kind == (if startup_enabled {
            MenuEntryKind::CheckedAction
        } else {
            MenuEntryKind::Action
        }),
        menu@[6].kind is Separator,
        menu@[7].kind is Action && menu@[7].id == MENU_EXIT && menu@[7].text@ == "Exit"@,
{
    let mut menu: Vec<MenuEntry> = Vec::new();
    let mut hint = String::from_str("Toggle: ");
    hint.append(state.hotkey_display.as_str());
    menu.push(MenuEntry { kind: MenuEntryKind::Hint, id: 0, text: hint });
    menu.push(MenuEntry { kind: MenuEntryKind::Separator, id: 0, text: String::new() });
    menu.push(
        MenuEntry {
            kind: MenuEntryKind::Action,
            id: MENU_SELECT_COLOR,
            text: String::from_str("Select Color..."),
        },
    );
    menu.push(
        MenuEntry {
            kind: MenuEntryKind::Action,
            id: MENU_CONFIGURE_HOTKEY,
            text: String::from_str("Configure Hotkey..."),
        },
    );
    menu.push(MenuEntry { kind: MenuEntryKind::Separator, id: 0, text: String::new() });
    let startup_kind = if startup_enabled {
        MenuEntryKind::CheckedAction
    } else {
        MenuEntryKind::Action
    };
    menu.push(
        MenuEntry { kind: startup_kind, id: MENU_STARTUP, text: String::from_str("Run at Startup") },
    );
    menu.push(MenuEntry { kind: MenuEntryKind::Separator, id: 0, text: String::new() });
    menu.push(
        MenuEntry { kind: MenuEntryKind::Action, id: MENU_EXIT, text: String::from_str("Exit") },
    );
    menu
}

} // verus!
