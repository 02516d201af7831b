//! Waveshare 2.9 inch e-paper panel, model D (128 x 296).
use crate::epd_configs::{actions_view, Action, ActionModel, EpdConfig};
use vstd::prelude::*;

verus! {

/// The profile of the 2.9 inch D panel.
pub fn epd_config() -> (c: EpdConfig)
    ensures
        c.wf(),
        c.width == 128,
        c.height == 296,
        actions_view(c.init_commands@) == seq![
            ActionModel::SendCommand(0x04),
            ActionModel::ReadBusy,
            ActionModel::SendCommand(0x00),
            ActionModel::SendData(seq![0x1fu8]),
            ActionModel::SendCommand(0x61),
            ActionModel::SendData(seq![0x08u8, 0x01, 0x28]),
            ActionModel::SendCommand(0x50),
            ActionModel::SendData(seq![0x97u8]),
        ],
{
    let d0: Vec<u8> = vec![0x1f];
    assert(d0@ =~= seq![0x1fu8]);
    let d1: Vec<u8> = vec![0x08, 0x01, 0x28];
    assert(d1@ =~= seq![0x08u8, 0x01, 0x28]);
    let d2: Vec<u8> = vec![0x97];
    assert(d2@ =~= seq![0x97u8]);
    let init_commands = vec![
        Action::SendCommand(0x04),
        Action::ReadBusy,
        Action::SendCommand(0x00),
        Action::SendData(d0),
        Action::SendCommand(0x61),
        Action::SendData(d1),
        Action::SendCommand(0x50),
        Action::SendData(d2),
    ];
    assert(actions_view(init_commands@) =~= seq![
        ActionModel::SendCommand(0x04),
        ActionModel::ReadBusy,
        ActionModel::SendCommand(0x00),
        ActionModel::SendData(seq![0x1fu8]),
        ActionModel::SendCommand(0x61),
        ActionModel::SendData(seq![0x08u8, 0x01, 0x28]),
        ActionModel::SendCommand(0x50),
        ActionModel::SendData(seq![0x97u8]),
    ]);
    EpdConfig { init_commands, width: 128, height: 296 }
}

} // verus!
