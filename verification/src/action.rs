//! The actions a card raises. Each is one ordinary edit; a gesture that means
//! more is a list of them, in order.

use vstd::prelude::*;
use vstd::string::*;

use crate::node_view::ModuleHeroProduct;
use crate::panel::{UiPanelTarget, WireScopeRef};
use crate::slot::{LpValue, LpValueView, ProjectSlotAddress, SlotAddressView};

verus! {

/// The drawers of a card whose open state is kept with the project view.
#[derive(Clone, Copy, Debug, PartialEq, Eq, Structural)]
pub enum NodeCardDrawer {
    Code,
    Space,
    Advanced,
    Wiring,
}

/// One action.
#[derive(Clone, Debug, PartialEq, Eq)]
pub enum UiAction {
    /// Write a slot's value.
    SetValue { address: ProjectSlotAddress, value: LpValue },
    /// Make an optional slot, map entry or variant present.
    EnsurePresent { address: ProjectSlotAddress },
    /// Take an optional slot or map entry out.
    RemoveValue { address: ProjectSlotAddress },
    /// Drop the pending edits of a slot.
    ClearEdit { address: ProjectSlotAddress },
    /// Write a channel from the panel.
    PanelWrite { scope: WireScopeRef, channel: String, value: LpValue },
    /// Drop the panel's writer of one channel.
    PanelClear { scope: WireScopeRef, channel: String },
    /// Drop the panel's writers of every channel in and under the scope.
    PanelClearScope { scope: WireScopeRef },
    /// Keep panel state across restarts, or not.
    PanelAutoSave { enabled: bool },
    /// Open or close a drawer of a card.
    SetDrawer { node: String, drawer: NodeCardDrawer, open: bool },
    /// Show or stop showing a card's guided shape question.
    SetShapeGuided { node: String, guided: bool },
    /// Choose which product a module's hero shows.
    SetHeroProduct { node: String, product: ModuleHeroProduct },
}

/// What a [`UiAction`] does.
pub enum ActionModel {
    SetValue { address: SlotAddressView, value: LpValueView },
    EnsurePresent { address: SlotAddressView },
    RemoveValue { address: SlotAddressView },
    ClearEdit { address: SlotAddressView },
    PanelWrite { scope: WireScopeRef, channel: Seq<char>, value: LpValueView },
    PanelClear { scope: WireScopeRef, channel: Seq<char> },
    PanelClearScope { scope: WireScopeRef },
    PanelAutoSave { enabled: bool },
    SetDrawer { node: Seq<char>, drawer: NodeCardDrawer, open: bool },
    SetShapeGuided { node: Seq<char>, guided: bool },
    SetHeroProduct { node: Seq<char>, product: ModuleHeroProduct },
}

impl View for UiAction {
    type V = ActionModel;

    open spec fn view(&self) -> ActionModel {
        match *self {
            UiAction::SetValue { address, value } => ActionModel::SetValue {
                address: address@,
                value: value@,
            },
            UiAction::EnsurePresent { address } => ActionModel::EnsurePresent {
                address: address@,
            },
            UiAction::RemoveValue { address } => ActionModel::RemoveValue { address: address@ },
            UiAction::ClearEdit { address } => ActionModel::ClearEdit { address: address@ },
            UiAction::PanelWrite { scope, channel, value } => ActionModel::PanelWrite {
                scope,
                channel: channel@,
                value: value@,
            },
            UiAction::PanelClear { scope, channel } => ActionModel::PanelClear {
                scope,
                channel: channel@,
            },
            UiAction::PanelClearScope { scope } => ActionModel::PanelClearScope { scope },
            UiAction::PanelAutoSave { enabled } => ActionModel::PanelAutoSave { enabled },
            UiAction::SetDrawer { node, drawer, open } => ActionModel::SetDrawer {
                node: node@,
                drawer,
                open,
            },
            UiAction::SetShapeGuided { node, guided } => ActionModel::SetShapeGuided {
                node: node@,
                guided,
            },
            UiAction::SetHeroProduct { node, product } => ActionModel::SetHeroProduct {
                node: node@,
                product,
            },
        }
    }
}

/// What each action of a list does, in order.
pub open spec fn action_models(actions: Seq<UiAction>) -> Seq<ActionModel> {
    Seq::new(actions.len(), |i: int| actions[i]@)
}

/// One gesture raised by a panel surface.
#[derive(Clone, Debug, PartialEq, Eq)]
pub enum PanelGesture {
    /// Let go of one control.
    ClearControl { target: UiPanelTarget },
    /// Let go of every control in and under a scope.
    ClearScope { scope: WireScopeRef },
    /// Keep panel state across restarts, or not.
    SetAutoSave(bool),
}

/// The action a panel gesture stands for. Every surface that shows a panel
/// sends exactly these.
pub fn panel_gesture_action(gesture: &PanelGesture) -> (r: UiAction)
    ensures
        r@ == match *gesture {
            PanelGesture::ClearControl { target } => ActionModel::PanelClear {
                scope: target.scope,
                channel: target.channel@,
            },
            PanelGesture::ClearScope { scope } => ActionModel::PanelClearScope { scope },
            PanelGesture::SetAutoSave(enabled) => ActionModel::PanelAutoSave { enabled },
        },
{
    match gesture {
        PanelGesture::ClearControl { target } => UiAction::PanelClear {
            scope: target.scope,
            channel: target.channel.clone(),
        },
        PanelGesture::ClearScope { scope } => UiAction::PanelClearScope { scope: *scope },
        PanelGesture::SetAutoSave(enabled) => UiAction::PanelAutoSave { enabled: *enabled },
    }
}

} // verus!
