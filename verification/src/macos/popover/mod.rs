//! The inbox below the menu bar.

pub mod action_views;
pub mod attention;
pub mod inbox;
pub mod rows;
pub mod settings;

use crate::actions::{Request, RequestView};
use crate::macos::keyboard::Edit as KeyEdit;
use crate::macos::updates::Edit as UpdateEdit;
use crate::macos::{Action, ActionView};
use crate::text_map::Duplicate;
use vstd::prelude::*;

verus! {

/// What a control does when it is used.
#[derive(Debug)]
pub enum Press {
    HotkeyEdit(KeyEdit),
    UpdateEdit(UpdateEdit),
    PopoverAction(Action),
    ToggleDetails(String),
    PrAction(Request),
}

/// The contents of a [`Press`].
pub enum PressView {
    HotkeyEdit(KeyEdit),
    UpdateEdit(UpdateEdit),
    PopoverAction(ActionView),
    ToggleDetails(Seq<char>),
    PrAction(RequestView),
}

impl View for Press {
    type V = PressView;

    open spec fn view(&self) -> PressView {
        match self {
            Press::HotkeyEdit(edit) => PressView::HotkeyEdit(*edit),
            Press::UpdateEdit(edit) => PressView::UpdateEdit(*edit),
            Press::PopoverAction(action) => PressView::PopoverAction(action@),
            Press::ToggleDetails(pr) => PressView::ToggleDetails(pr@),
            Press::PrAction(request) => PressView::PrAction(request@),
        }
    }
}

impl DeepView for Press {
    type V = PressView;

    open spec fn deep_view(&self) -> PressView {
        self@
    }
}

impl Clone for Press {
    fn clone(&self) -> (r: Self)
        ensures
            r@ == self@,
    {
        match self {
            Press::HotkeyEdit(edit) => Press::HotkeyEdit(*edit),
            Press::UpdateEdit(edit) => Press::UpdateEdit(*edit),
            Press::PopoverAction(action) => Press::PopoverAction(action.clone()),
            Press::ToggleDetails(pr) => Press::ToggleDetails(pr.clone()),
            Press::PrAction(request) => Press::PrAction(request.clone()),
        }
    }
}

impl Duplicate for Press {
    fn duplicate(&self) -> (r: Press) {
        self.clone()
    }
}

} // verus!
