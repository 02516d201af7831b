//! Descriptions of the supported Waveshare e-paper panel models.
pub mod epd2in9d;
pub mod epd5in83_v2;
pub mod epd7in5_v2;

use vstd::prelude::*;

verus! {

/// One step of a panel's initialisation sequence.
#[derive(Debug, Clone)]
pub enum Action {
    /// Write one command byte.
    SendCommand(u8),
    /// Write a data payload, as long as the protocol step needs.
    SendData(Vec<u8>),
    /// Ask the panel for its status and wait until it is no longer busy.
    ReadBusy,
    /// Pause for the given number of milliseconds.
    Delay(u64),
}

/// What an action does, with its payload as a sequence.
pub enum ActionModel {
    SendCommand(u8),
    SendData(Seq<u8>),
    ReadBusy,
    Delay(u64),
}

impl View for Action {
    type V = ActionModel;

    open spec fn view(&self) -> ActionModel {
        match self {
            Action::SendCommand(c) => ActionModel::SendCommand(*c),
            Action::SendData(d) => ActionModel::SendData(d@),
            Action::ReadBusy => ActionModel::ReadBusy,
            Action::Delay(ms) => ActionModel::Delay(*ms),
        }
    }
}

/// What a list of actions does, action by action.
pub open spec fn actions_view(actions: Seq<Action>) -> Seq<ActionModel> {
    actions.map_values(|a: Action| a@)
}

/// The configuration of one Waveshare e-paper panel model: its size in pixels
/// and the actions that initialise it.
#[derive(Debug, Clone)]
pub struct EpdConfig {
    pub init_commands: Vec<Action>,
    pub width: usize,
    pub height: usize,
}

impl EpdConfig {
    /// A usable profile: both sides positive, the pixel count a whole number of
    /// bytes, and that count addressable.
    pub open spec fn wf(&self) -> bool {
        &&& self.width > 0
        &&& self.height > 0
        &&& (self.width * self.height) % 8 == 0
        &&& self.width * self.height <= usize::MAX
    }

    /// Length in bytes of one packed frame for this panel.
    pub open spec fn frame_len(&self) -> int {
        self.width * self.height / 8
    }
}

} // verus!
