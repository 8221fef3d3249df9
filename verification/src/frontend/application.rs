//! The screen as a whole: which of its views is shown.

use vstd::prelude::*;
use vstd::string::*;
use crate::frontend::library::{
    Key, Library, LibraryCommand, LibraryCommandView, LibraryMessage, LibraryView,
};
use crate::frontend::menu::{Menu, MenuAction, MenuMessage};
use crate::frontend::player::{Player, PlayerCommand, PlayerCommandView, PlayerMessage};
use crate::model::track::TrackView;

verus! {

/// The views of the screen.
#[derive(Debug, Clone, Copy, PartialEq, Eq, Structural)]
pub enum ApplicationView {
    Library(LibraryView),
    Player,
}

impl Default for ApplicationView {
    /// The library, showing artists.
    fn default() -> (view: Self)
        ensures
            view == ApplicationView::Library(LibraryView::Artist),
    {
        ApplicationView::Library(LibraryView::Artist)
    }
}

impl ApplicationView {
    /// The view's title.
    pub open spec fn title(self) -> Seq<char> {
        match self {
            ApplicationView::Library(view) => "Library - "@ + view.title(),
            ApplicationView::Player => "Player"@,
        }
    }

    /// The view's title, as the menu shows it.
    pub fn label(&self) -> (text: String)
        ensures
            text@ == self.title(),
    {
        match self {
            ApplicationView::Library(view) => String::from_str("Library - ").concat(view.label()),
            ApplicationView::Player => String::from_str("Player"),
        }
    }
}

/// What can happen to the screen.
#[derive(Debug)]
pub enum ApplicationMessage {
    /// Another view is to be shown.
    ChangeView(ApplicationView),
    /// Something happens to the library.
    Library(LibraryMessage),
    /// Something happens to the menu.
    Menu(MenuMessage),
    /// Something happens to the player.
    Player(PlayerMessage),
    /// A key was pressed.
    Input(Key),
}

/// What the screen wants done after a message.
#[derive(Debug)]
pub enum ApplicationCommand {
    /// What the library wants done.
    Library(LibraryCommand),
    /// What the menu wants done.
    Menu(MenuAction),
    /// What the player wants done.
    Player(PlayerCommand),
    /// What the player wants done, and after it the player view is to be
    /// shown.
    PlayerThenShow(PlayerCommand),
    /// The track is to be handed to the player for loading.
    LoadTrack(crate::model::track::Track),
    /// The view is to be shown.
    Show(ApplicationView),
}

/// What an [`ApplicationCommand`] holds, as mathematical values.
pub enum ApplicationCommandView {
    Library(LibraryCommandView),
    Menu(MenuAction),
    Player(PlayerCommandView),
    PlayerThenShow(PlayerCommandView),
    LoadTrack(TrackView),
    Show(ApplicationView),
}

impl View for ApplicationCommand {
    type V = ApplicationCommandView;

    open spec fn view(&self) -> ApplicationCommandView {
        match self {
            ApplicationCommand::Library(command) => ApplicationCommandView::Library(command@),
            ApplicationCommand::Menu(action) => ApplicationCommandView::Menu(*action),
            ApplicationCommand::Player(command) => ApplicationCommandView::Player(command@),
            ApplicationCommand::PlayerThenShow(command) => ApplicationCommandView::PlayerThenShow(
                command@,
            ),
            ApplicationCommand::LoadTrack(track) => ApplicationCommandView::LoadTrack(track@),
            ApplicationCommand::Show(view) => ApplicationCommandView::Show(*view),
        }
    }
}

/// The screen: the view that is shown, and the parts that it is made of.
#[derive(Debug)]
pub struct Application {
    pub current_view: ApplicationView,
    pub player: Player,
    pub library: Library,
    pub menu: Menu,
}

impl Application {
    /// The screen as it begins, showing the library, and what the library
    /// wants done first.
    pub fn new() -> (begun: (Application, LibraryCommand))
        ensures
            begun.0.current_view == ApplicationView::Library(LibraryView::Artist),
            begun.0.menu.current_view == ApplicationView::Library(LibraryView::Artist),
            begun.0.library@.len() == 0,
            begun.0.library.connected(),
            begun.1@ == LibraryCommandView::ListArtists(
                crate::repository::artist::ArtistFilterView { name: None, track: None },
            ),
            begun.0.player@.state == crate::frontend::player::PlayerState::Paused,
            begun.0.player@.track is None,
    {
        let (library, command) = Library::new();
        (
            Application {
                current_view: ApplicationView::default(),
                player: Player::default(),
                library,
                menu: Menu::default(),
            },
            command,
        )
    }

    /// The message as the part of the screen gets it that it goes to: a key
    /// goes to the library while the library is shown, and to the player
    /// otherwise.
    pub open spec fn library_message(self, message: ApplicationMessage) -> Option<LibraryMessage> {
        match message {
            ApplicationMessage::Library(LibraryMessage::TrackSelect(_)) => None,
            ApplicationMessage::Library(LibraryMessage::ChangeView(_)) => None,
            ApplicationMessage::Library(message) => Some(message),
            ApplicationMessage::Input(key) => match self.current_view {
                ApplicationView::Library(_) => Some(LibraryMessage::InputEvent(key)),
                ApplicationView::Player => None,
            },
            _ => None,
        }
    }

    /// The message as the player gets it, if it goes to the player.
    pub open spec fn player_message(self, message: ApplicationMessage) -> Option<PlayerMessage> {
        match message {
            ApplicationMessage::Player(message) => Some(message),
            ApplicationMessage::Input(key) => match self.current_view {
                ApplicationView::Player => if key == Key::Backspace {
                    None
                } else {
                    Some(PlayerMessage::Input(key))
                },
                ApplicationView::Library(_) => None,
            },
            _ => None,
        }
    }

    /// The screen can take `message`: the part that the message goes to can
    /// take it.
    pub open spec fn takes(self, message: ApplicationMessage) -> bool {
        &&& self.library_message(message) matches Some(inner) ==> self.library.takes(inner)
        &&& self.player_message(message) matches Some(inner) ==> self.player@.takes(inner)
    }

    /// Whether the screen can take `message`.
    pub fn accepts(&self, message: &ApplicationMessage) -> (answer: bool)
        ensures
            answer == self.takes(*message),
    {
        match message {
            ApplicationMessage::Library(LibraryMessage::TrackSelect(_)) => true,
            ApplicationMessage::Library(LibraryMessage::ChangeView(_)) => true,
            ApplicationMessage::Library(message) => self.library.accepts(message),
            ApplicationMessage::Player(message) => self.player.accepts(message),
            ApplicationMessage::Input(key) => match self.current_view {
                ApplicationView::Library(_) => self.library.accepts(
                    &LibraryMessage::InputEvent(*key),
                ),
                ApplicationView::Player => match key {
                    Key::Backspace => true,
                    _ => self.player.accepts(&PlayerMessage::Input(*key)),
                },
            },
            _ => true,
        }
    }

    /// Takes a message that the screen can take, hands it to the part that it
    /// goes to, and says what is to be done.
    ///
    /// A change of view is noted by the screen and by the menu. A track
    /// chosen in the library is handed on for loading, and a change of view
    /// in the library becomes a change of view of the screen. When the player
    /// has taken a track, the player view is to be shown. The backspace key
    /// leads from the player back to the library's tracks.
    pub fn update(&mut self, message: ApplicationMessage) -> (command: ApplicationCommand)
        requires
            old(self).takes(message),
        ensures
            final(self).current_view == match message {
                ApplicationMessage::ChangeView(view) => view,
                _ => old(self).current_view,
            },
            final(self).menu.current_view == match message {
                ApplicationMessage::ChangeView(view) => view,
                ApplicationMessage::Menu(MenuMessage::ViewChange(view)) => view,
                _ => old(self).menu.current_view,
            },
            final(self).library.connected() == old(self).library.connected(),
            final(self).library@ == match old(self).library_message(message) {
                Some(inner) => old(self).library.listing_after(inner),
                None => old(self).library@,
            },
            final(self).player@ == match old(self).player_message(message) {
                Some(inner) => old(self).player@.after(inner),
                None => old(self).player@,
            },
            command@ == match message {
                ApplicationMessage::ChangeView(_) => ApplicationCommandView::Menu(
                    MenuAction::Nothing,
                ),
                ApplicationMessage::Library(LibraryMessage::TrackSelect(track)) => {
                    ApplicationCommandView::LoadTrack(track@)
                },
                ApplicationMessage::Library(LibraryMessage::ChangeView(view)) => {
                    ApplicationCommandView::Show(ApplicationView::Library(view))
                },
                ApplicationMessage::Library(inner) => ApplicationCommandView::Library(
                    old(self).library.command_after(inner),
                ),
                ApplicationMessage::Menu(MenuMessage::ViewChange(_)) => {
                    ApplicationCommandView::Menu(MenuAction::Nothing)
                },
                ApplicationMessage::Menu(MenuMessage::Tick) => ApplicationCommandView::Menu(
                    MenuAction::RefreshClockAndBattery,
                ),
                ApplicationMessage::Menu(MenuMessage::Battery(_)) => ApplicationCommandView::Menu(
                    MenuAction::RefreshBattery,
                ),
                ApplicationMessage::Player(PlayerMessage::Load(track)) => {
                    ApplicationCommandView::PlayerThenShow(PlayerCommandView::Load(track.path))
                },
                ApplicationMessage::Player(inner) => ApplicationCommandView::Player(
                    old(self).player@.command(inner),
                ),
                ApplicationMessage::Input(key) => match old(self).current_view {
                    ApplicationView::Library(_) => ApplicationCommandView::Library(
                        old(self).library.command_after(LibraryMessage::InputEvent(key)),
                    ),
                    ApplicationView::Player => if key == Key::Backspace {
                        ApplicationCommandView::Show(ApplicationView::Library(LibraryView::Track))
                    } else {
                        ApplicationCommandView::Player(
                            old(self).player@.command(PlayerMessage::Input(key)),
                        )
                    },
                },
            },
    {
        match message {
            ApplicationMessage::ChangeView(view) => {
                self.current_view = view;
                ApplicationCommand::Menu(self.menu.update(MenuMessage::ViewChange(view)))
            },
            ApplicationMessage::Library(LibraryMessage::TrackSelect(track)) => {
                ApplicationCommand::LoadTrack(track)
            },
            ApplicationMessage::Library(LibraryMessage::ChangeView(view)) => {
                ApplicationCommand::Show(ApplicationView::Library(view))
            },
            ApplicationMessage::Library(message) => ApplicationCommand::Library(
                self.library.update(message),
            ),
            ApplicationMessage::Menu(message) => ApplicationCommand::Menu(
                self.menu.update(message),
            ),
            ApplicationMessage::Player(PlayerMessage::Load(track)) => {
                ApplicationCommand::PlayerThenShow(self.player.update(PlayerMessage::Load(track)))
            },
            ApplicationMessage::Player(message) => ApplicationCommand::Player(
                self.player.update(message),
            ),
            ApplicationMessage::Input(key) => match self.current_view {
                ApplicationView::Library(_) => ApplicationCommand::Library(
                    self.library.update(LibraryMessage::InputEvent(key)),
                ),
                ApplicationView::Player => match key {
                    Key::Backspace => ApplicationCommand::Show(
                        ApplicationView::Library(LibraryView::Track),
                    ),
                    key => ApplicationCommand::Player(
                        self.player.update(PlayerMessage::Input(key)),
                    ),
                },
            },
        }
    }
}

} // verus!
