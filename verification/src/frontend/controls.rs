//! The playback controls: a play button between its neighbours.

use vstd::prelude::*;

verus! {

/// What the play button shows.
#[derive(Debug, Clone, Copy, PartialEq, Eq, Structural)]
pub enum PlayButtonState {
    Playing,
    Paused,
}

impl Default for PlayButtonState {
    fn default() -> (state: Self)
        ensures
            state == PlayButtonState::Playing,
    {
        PlayButtonState::Playing
    }
}

impl PlayButtonState {
    /// The other state.
    pub open spec fn toggled(self) -> PlayButtonState {
        match self {
            PlayButtonState::Paused => PlayButtonState::Playing,
            PlayButtonState::Playing => PlayButtonState::Paused,
        }
    }
}

/// What can happen to the play button.
#[derive(Debug, Clone, Copy, PartialEq, Eq, Structural)]
pub enum PlayButtonMessage {
    Pressed,
}

/// The play button.
#[derive(Debug, Clone, Copy, PartialEq, Eq, Structural)]
pub struct PlayButton {
    pub state: PlayButtonState,
}

impl Default for PlayButton {
    fn default() -> (button: Self)
        ensures
            button.state == PlayButtonState::Playing,
    {
        PlayButton { state: PlayButtonState::Playing }
    }
}

impl PlayButton {
    /// A press turns the button from playing to paused and back.
    pub fn update(&mut self, message: PlayButtonMessage)
        ensures
            final(self).state == old(self).state.toggled(),
    {
        match message {
            PlayButtonMessage::Pressed => {
                self.state = match self.state {
                    PlayButtonState::Paused => PlayButtonState::Playing,
                    PlayButtonState::Playing => PlayButtonState::Paused,
                }
            },
        }
    }

    /// What the button is labelled with.
    pub fn label(&self) -> (text: &'static str)
        ensures
            text@ == match self.state {
                PlayButtonState::Paused => "\u{23f8}"@,
                PlayButtonState::Playing => "\u{25b6}"@,
            },
    {
        match self.state {
            PlayButtonState::Paused => "\u{23f8}",
            PlayButtonState::Playing => "\u{25b6}",
        }
    }
}

/// What can happen to the button for the next track.
#[derive(Debug, Clone, Copy, PartialEq, Eq, Structural)]
pub enum NextButtonMessage {
    Pressed,
}

/// The button for the next track.
#[derive(Debug, Clone, Copy, PartialEq, Eq, Structural)]
pub struct NextButton {
    pub pressed: bool,
}

impl Default for NextButton {
    fn default() -> (button: Self)
        ensures
            !button.pressed,
    {
        NextButton { pressed: false }
    }
}

impl NextButton {
    /// A press is remembered.
    pub fn update(&mut self, message: NextButtonMessage)
        ensures
            final(self).pressed,
    {
        match message {
            NextButtonMessage::Pressed => self.pressed = true,
        }
    }
}

/// What can happen to the button for the previous track.
#[derive(Debug, Clone, Copy, PartialEq, Eq, Structural)]
pub enum PrevButtonMessage {
    Pressed,
}

/// The button for the previous track.
#[derive(Debug, Clone, Copy, PartialEq, Eq, Structural)]
pub struct PrevButton {
    pub pressed: bool,
}

impl Default for PrevButton {
    fn default() -> (button: Self)
        ensures
            !button.pressed,
    {
        PrevButton { pressed: false }
    }
}

impl PrevButton {
    /// A press is remembered.
    pub fn update(&mut self, message: PrevButtonMessage)
        ensures
            final(self).pressed,
    {
        match message {
            PrevButtonMessage::Pressed => self.pressed = true,
        }
    }
}

/// What can happen to the controls: something that happens to one of the
/// buttons.
#[derive(Debug, Clone, Copy, PartialEq, Eq, Structural)]
pub enum ControlsMessage {
    PrevButtonMessage(PrevButtonMessage),
    PlayButtonMessage(PlayButtonMessage),
    NextButtonMessage(NextButtonMessage),
}

/// The three buttons.
#[derive(Debug, Clone, Copy, PartialEq, Eq, Structural)]
pub struct Controls {
    pub prev_button: PrevButton,
    pub play_button: PlayButton,
    pub next_button: NextButton,
}

impl Default for Controls {
    fn default() -> (controls: Self)
        ensures
            controls == (Controls {
                prev_button: PrevButton { pressed: false },
                play_button: PlayButton { state: PlayButtonState::Playing },
                next_button: NextButton { pressed: false },
            }),
    {
        Controls {
            prev_button: PrevButton { pressed: false },
            play_button: PlayButton { state: PlayButtonState::Playing },
            next_button: NextButton { pressed: false },
        }
    }
}

impl Controls {
    /// What `message` makes of the controls: the message goes to the button
    /// that it is for, and the other two stay as they are.
    pub open spec fn after(self, message: ControlsMessage) -> Controls {
        match message {
            ControlsMessage::NextButtonMessage(_) => Controls {
                next_button: NextButton { pressed: true },
                ..self
            },
            ControlsMessage::PlayButtonMessage(_) => Controls {
                play_button: PlayButton { state: self.play_button.state.toggled() },
                ..self
            },
            ControlsMessage::PrevButtonMessage(_) => Controls {
                prev_button: PrevButton { pressed: true },
                ..self
            },
        }
    }

    /// Hands `message` to the button that it is for.
    pub fn update(&mut self, message: ControlsMessage)
        ensures
            *final(self) == old(self).after(message),
    {
        match message {
            ControlsMessage::NextButtonMessage(message) => self.next_button.update(message),
            ControlsMessage::PlayButtonMessage(message) => self.play_button.update(message),
            ControlsMessage::PrevButtonMessage(message) => self.prev_button.update(message),
        }
    }
}

} // verus!
