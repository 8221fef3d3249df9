//! The bar at the top of the screen: the title of the view, the time of day
//! and the battery's charge.

use vstd::prelude::*;
use crate::frontend::application::ApplicationView;

verus! {

/// What can happen to the battery gauge.
#[derive(Debug, Clone, Copy, PartialEq, Eq, Structural)]
pub enum BatteryMessage {
    /// It is time to read the charge again.
    Tick,
}

/// What can happen to the menu.
#[derive(Debug, Clone, Copy, PartialEq, Eq, Structural)]
pub enum MenuMessage {
    /// Another view is shown.
    ViewChange(ApplicationView),
    /// Something happens to the battery gauge.
    Battery(BatteryMessage),
    /// A minute has passed.
    Tick,
}

/// What the menu wants done after a message.
#[derive(Debug, Clone, Copy, PartialEq, Eq, Structural)]
pub enum MenuAction {
    /// Nothing.
    Nothing,
    /// The battery's charge is to be read again.
    RefreshBattery,
    /// The time of day and the battery's charge are to be read again.
    RefreshClockAndBattery,
}

/// The menu.
#[derive(Debug, Clone, Copy, PartialEq, Eq, Structural)]
pub struct Menu {
    pub current_view: ApplicationView,
}

impl Default for Menu {
    fn default() -> (menu: Self)
        ensures
            menu.current_view == ApplicationView::Library(
                crate::frontend::library::LibraryView::Artist,
            ),
    {
        Menu { current_view: ApplicationView::default() }
    }
}

impl Menu {
    /// The menu for a screen that shows `current_view`.
    pub fn new(current_view: ApplicationView) -> (menu: Self)
        ensures
            menu.current_view == current_view,
    {
        Menu { current_view }
    }

    /// Takes a message: a change of view is noted, and a tick has the clock
    /// and the battery read again.
    pub fn update(&mut self, message: MenuMessage) -> (action: MenuAction)
        ensures
            final(self).current_view == match message {
                MenuMessage::ViewChange(view) => view,
                _ => old(self).current_view,
            },
            action == match message {
                MenuMessage::ViewChange(_) => MenuAction::Nothing,
                MenuMessage::Tick => MenuAction::RefreshClockAndBattery,
                MenuMessage::Battery(BatteryMessage::Tick) => MenuAction::RefreshBattery,
            },
    {
        match message {
            MenuMessage::ViewChange(view) => {
                self.current_view = view;
                MenuAction::Nothing
            },
            MenuMessage::Tick => MenuAction::RefreshClockAndBattery,
            MenuMessage::Battery(BatteryMessage::Tick) => MenuAction::RefreshBattery,
        }
    }
}

} // verus!
