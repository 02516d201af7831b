//! Waveshare 7.5 inch e-paper panel, version 2 (800 x 480).
use crate::epd_configs::{actions_view, Action, ActionModel, EpdConfig};
use vstd::prelude::*;

verus! {

/// The profile of the 7.5 inch V2 panel.
pub fn epd_config() -> (c: EpdConfig)
    ensures
        c.wf(),
        c.width == 800,
        c.height == 480,
        actions_view(c.init_commands@) == seq![
            ActionModel::SendCommand(0x06),
            ActionModel::SendData(seq![0x17u8, 0x17, 0x28, 0x17]),
            ActionModel::SendCommand(0x01),
            ActionModel::SendData(seq![0x07u8, 0x07, 0x3f, 0x3f]),
            ActionModel::SendCommand(0x04),
            ActionModel::ReadBusy,
            ActionModel::SendCommand(0x00),
            ActionModel::SendData(seq![0x1fu8]),
            ActionModel::SendCommand(0x61),
            ActionModel::SendData(seq![0x03u8, 0x20, 0x01, 0xE0]),
            ActionModel::SendCommand(0x15),
            ActionModel::SendData(seq![0x00u8]),
            ActionModel::SendCommand(0x50),
            ActionModel::SendData(seq![0x10u8, 0x07]),
            ActionModel::SendCommand(0x60),
            ActionModel::SendData(seq![0x22u8]),
        ],
{
    let d0: Vec<u8> = vec![0x17, 0x17, 0x28, 0x17];
    assert(d0@ =~= seq![0x17u8, 0x17, 0x28, 0x17]);
    let d1: Vec<u8> = vec![0x07, 0x07, 0x3f, 0x3f];
    assert(d1@ =~= seq![0x07u8, 0x07, 0x3f, 0x3f]);
    let d2: Vec<u8> = vec![0x1f];
    assert(d2@ =~= seq![0x1fu8]);
    let d3: Vec<u8> = vec![0x03, 0x20, 0x01, 0xE0];
    assert(d3@ =~= seq![0x03u8, 0x20, 0x01, 0xE0]);
    let d4: Vec<u8> = vec![0x00];
    assert(d4@ =~= seq![0x00u8]);
    let d5: Vec<u8> = vec![0x10, 0x07];
    assert(d5@ =~= seq![0x10u8, 0x07]);
    let d6: Vec<u8> = vec![0x22];
    assert(d6@ =~= seq![0x22u8]);
    let init_commands = vec![
        Action::SendCommand(0x06),
        Action::SendData(d0),
        Action::SendCommand(0x01),
        Action::SendData(d1),
        Action::SendCommand(0x04),
        Action::ReadBusy,
        Action::SendCommand(0x00),
        Action::SendData(d2),
        Action::SendCommand(0x61),
        Action::SendData(d3),
        Action::SendCommand(0x15),
        Action::SendData(d4),
        Action::SendCommand(0x50),
        Action::SendData(d5),
        Action::SendCommand(0x60),
        Action::SendData(d6),
    ];
    assert(actions_view(init_commands@) =~= seq![
        ActionModel::SendCommand(0x06),
        ActionModel::SendData(seq![0x17u8, 0x17, 0x28, 0x17]),
        ActionModel::SendCommand(0x01),
        ActionModel::SendData(seq![0x07u8, 0x07, 0x3f, 0x3f]),
        ActionModel::SendCommand(0x04),
        ActionModel::ReadBusy,
        ActionModel::SendCommand(0x00),
        ActionModel::SendData(seq![0x1fu8]),
        ActionModel::SendCommand(0x61),
        ActionModel::SendData(seq![0x03u8, 0x20, 0x01, 0xE0]),
        ActionModel::SendCommand(0x15),
        ActionModel::SendData(seq![0x00u8]),
        ActionModel::SendCommand(0x50),
        ActionModel::SendData(seq![0x10u8, 0x07]),
        ActionModel::SendCommand(0x60),
        ActionModel::SendData(seq![0x22u8]),
    ]);
    EpdConfig { init_commands, width: 800, height: 480 }
}

} // verus!
