//! The player view: the track that is loaded and how far it has played.

use std::path::PathBuf;
use std::time::Duration;
use vstd::prelude::*;
use vstd::string::*;
use crate::frontend::library::Key;
use crate::model::track::{Track, TrackView};

verus! {

/// Whether the player plays.
#[derive(Debug, Clone, Copy, PartialEq, Eq, Structural)]
pub enum PlayerState {
    Paused,
    Playing,
}

impl Default for PlayerState {
    fn default() -> (state: Self)
        ensures
            state == PlayerState::Paused,
    {
        PlayerState::Paused
    }
}

impl PlayerState {
    /// The state in a word.
    pub fn label(&self) -> (text: &'static str)
        ensures
            text@ == match *self {
                PlayerState::Playing => "PLAY"@,
                PlayerState::Paused => "PAUSE"@,
            },
    {
        match self {
            PlayerState::Playing => "PLAY",
            PlayerState::Paused => "PAUSE",
        }
    }
}

/// The decimal digit `digit` as text.
pub open spec fn digit_text(digit: nat) -> Seq<char> {
    if digit == 0 {
        "0"@
    } else if digit == 1 {
        "1"@
    } else if digit == 2 {
        "2"@
    } else if digit == 3 {
        "3"@
    } else if digit == 4 {
        "4"@
    } else if digit == 5 {
        "5"@
    } else if digit == 6 {
        "6"@
    } else if digit == 7 {
        "7"@
    } else if digit == 8 {
        "8"@
    } else {
        "9"@
    }
}

/// The number `n` in decimal digits, without leading zeros.
pub open spec fn decimal(n: nat) -> Seq<char>
    decreases n,
{
    if n < 10 {
        digit_text(n)
    } else {
        decimal(n / 10) + digit_text(n % 10)
    }
}

/// The number `n` in at least two decimal digits.
pub open spec fn two_digits(n: nat) -> Seq<char> {
    if n < 10 {
        "0"@ + decimal(n)
    } else {
        decimal(n)
    }
}

/// A length of `seconds` seconds as minutes and seconds, each in at least two
/// digits, with a colon between them.
pub open spec fn clock_text(seconds: nat) -> Seq<char> {
    two_digits(seconds / 60) + ":"@ + two_digits(seconds % 60)
}

/// Appends the decimal digits of `n` to `text`.
fn push_decimal(text: &mut String, n: u64)
    ensures
        final(text)@ == old(text)@ + decimal(n as nat),
    decreases n,
{
    if n >= 10 {
        push_decimal(text, n / 10);
    }
    let digit = n % 10;
    let literal = if digit == 0 {
        "0"
    } else if digit == 1 {
        "1"
    } else if digit == 2 {
        "2"
    } else if digit == 3 {
        "3"
    } else if digit == 4 {
        "4"
    } else if digit == 5 {
        "5"
    } else if digit == 6 {
        "6"
    } else if digit == 7 {
        "7"
    } else if digit == 8 {
        "8"
    } else {
        "9"
    };
    assert(literal@ == digit_text(digit as nat));
    text.append(literal);
    assert(final(text)@ =~= old(text)@ + decimal(n as nat));
}

/// Appends `n` in at least two decimal digits to `text`.
fn push_two_digits(text: &mut String, n: u64)
    ensures
        final(text)@ == old(text)@ + two_digits(n as nat),
{
    if n < 10 {
        text.append("0");
    }
    push_decimal(text, n);
    assert(final(text)@ =~= old(text)@ + two_digits(n as nat));
}

/// A length of `seconds` seconds as the player shows it: minutes and seconds,
/// each in at least two digits.
pub fn format_seconds(seconds: u64) -> (text: String)
    ensures
        text@ == clock_text(seconds as nat),
{
    let mut text = String::new();
    push_two_digits(&mut text, seconds / 60);
    text.append(":");
    push_two_digits(&mut text, seconds % 60);
    assert(text@ =~= clock_text(seconds as nat));
    text
}

/// The whole seconds that `duration` spans, as `Duration::as_secs` gives
/// them.
pub uninterp spec fn seconds_of(duration: Duration) -> u64;

/// `Duration::as_secs`, taken on trust: the number handed back is the number
/// of whole seconds that the duration spans.
pub assume_specification[ Duration::as_secs ](duration: &Duration) -> (seconds: u64)
    ensures
        seconds == seconds_of(*duration),
;

/// The length `duration` as the player shows it: its whole seconds as
/// minutes and seconds.
pub fn format_duration(duration: Duration) -> (text: String)
    ensures
        text@ == clock_text(seconds_of(duration) as nat),
{
    format_seconds(duration.as_secs())
}

/// What can happen to the player.
#[derive(Debug)]
pub enum PlayerMessage {
    /// Playing is to begin or to go on.
    Play,
    /// Playing is to pause.
    Pause,
    /// Time has passed while the player plays.
    Playing,
    /// This track is to be loaded.
    Load(Track),
    /// A key was pressed.
    Input(Key),
    /// Something went wrong; the text says what.
    Error(String),
}

/// What the player wants done after a message.
#[derive(Debug)]
pub enum PlayerCommand {
    Nothing,
    /// The file at this path is to be loaded into the sound device, paused,
    /// and `Play` handed to the player.
    Load(PathBuf),
    /// The sound device is to play.
    Play,
    /// The sound device is to pause.
    Pause,
    /// The position of the sound device is to be read.
    ReadPosition,
    /// `Play` is to be handed to the player.
    SendPlay,
    /// `Pause` is to be handed to the player.
    SendPause,
}

/// What a [`PlayerCommand`] holds, as mathematical values.
pub enum PlayerCommandView {
    Nothing,
    Load(PathBuf),
    Play,
    Pause,
    ReadPosition,
    SendPlay,
    SendPause,
}

impl View for PlayerCommand {
    type V = PlayerCommandView;

    open spec fn view(&self) -> PlayerCommandView {
        match self {
            PlayerCommand::Nothing => PlayerCommandView::Nothing,
            PlayerCommand::Load(path) => PlayerCommandView::Load(*path),
            PlayerCommand::Play => PlayerCommandView::Play,
            PlayerCommand::Pause => PlayerCommandView::Pause,
            PlayerCommand::ReadPosition => PlayerCommandView::ReadPosition,
            PlayerCommand::SendPlay => PlayerCommandView::SendPlay,
            PlayerCommand::SendPause => PlayerCommandView::SendPause,
        }
    }
}

/// The player: whether it plays, and the track that is loaded, if one is.
#[derive(Debug)]
pub struct Player {
    pub state: PlayerState,
    pub track: Option<Track>,
}

/// What a [`Player`] holds, as mathematical values.
pub struct PlayerView {
    pub state: PlayerState,
    pub track: Option<TrackView>,
}

impl View for Player {
    type V = PlayerView;

    open spec fn view(&self) -> PlayerView {
        PlayerView { state: self.state, track: self.track.deep_view() }
    }
}

impl Default for Player {
    fn default() -> (player: Self)
        ensures
            player@ == (PlayerView { state: PlayerState::Paused, track: None }),
    {
        Player { state: PlayerState::Paused, track: None }
    }
}

impl PlayerView {
    /// The player can take `message`: it can play and pause once a track is
    /// loaded, and it has no use for an error.
    pub open spec fn takes(self, message: PlayerMessage) -> bool {
        match message {
            PlayerMessage::Play | PlayerMessage::Pause => self.track is Some,
            PlayerMessage::Error(_) => false,
            _ => true,
        }
    }

    /// The player after `message`.
    pub open spec fn after(self, message: PlayerMessage) -> PlayerView {
        match message {
            PlayerMessage::Load(track) => PlayerView { state: self.state, track: Some(track@) },
            PlayerMessage::Play => PlayerView { state: PlayerState::Playing, track: self.track },
            PlayerMessage::Pause => PlayerView { state: PlayerState::Paused, track: self.track },
            _ => self,
        }
    }

    /// What the player wants done after `message`.
    pub open spec fn command(self, message: PlayerMessage) -> PlayerCommandView {
        match message {
            PlayerMessage::Load(track) => PlayerCommandView::Load(track.path),
            PlayerMessage::Play => PlayerCommandView::Play,
            PlayerMessage::Pause => PlayerCommandView::Pause,
            PlayerMessage::Playing => if self.track is Some {
                PlayerCommandView::ReadPosition
            } else {
                PlayerCommandView::Nothing
            },
            PlayerMessage::Input(Key::Space) => match self.state {
                PlayerState::Playing => PlayerCommandView::SendPause,
                PlayerState::Paused => PlayerCommandView::SendPlay,
            },
            _ => PlayerCommandView::Nothing,
        }
    }
}

impl Player {
    /// The player with nothing loaded.
    pub fn new() -> (player: Self)
        ensures
            player@ == (PlayerView { state: PlayerState::Paused, track: None }),
    {
        Player { state: PlayerState::Paused, track: None }
    }

    /// Whether the player can take `message`.
    pub fn accepts(&self, message: &PlayerMessage) -> (answer: bool)
        ensures
            answer == self@.takes(*message),
    {
        match message {
            PlayerMessage::Play | PlayerMessage::Pause => self.track.is_some(),
            PlayerMessage::Error(_) => false,
            _ => true,
        }
    }

    /// Whether the player wants to be told of the passing of time: it does
    /// while it plays.
    pub fn ticking(&self) -> (answer: bool)
        ensures
            answer == (self.state == PlayerState::Playing),
    {
        match self.state {
            PlayerState::Playing => true,
            PlayerState::Paused => false,
        }
    }

    /// Takes a message that the player can take, and says what it wants
    /// done.
    pub fn update(&mut self, message: PlayerMessage) -> (command: PlayerCommand)
        requires
            old(self)@.takes(message),
        ensures
            final(self)@ == old(self)@.after(message),
            command@ == old(self)@.command(message),
    {
        match message {
            PlayerMessage::Load(track) => {
                let path = track.path.clone();
                self.track = Some(track);
                PlayerCommand::Load(path)
            },
            PlayerMessage::Play => {
                self.state = PlayerState::Playing;
                PlayerCommand::Play
            },
            PlayerMessage::Pause => {
                self.state = PlayerState::Paused;
                PlayerCommand::Pause
            },
            PlayerMessage::Playing => {
                if self.track.is_some() {
                    PlayerCommand::ReadPosition
                } else {
                    PlayerCommand::Nothing
                }
            },
            PlayerMessage::Input(Key::Space) => match self.state {
                PlayerState::Playing => PlayerCommand::SendPause,
                PlayerState::Paused => PlayerCommand::SendPlay,
            },
            PlayerMessage::Input(_) => PlayerCommand::Nothing,
            PlayerMessage::Error(_) => PlayerCommand::Nothing,
        }
    }
}

} // verus!
