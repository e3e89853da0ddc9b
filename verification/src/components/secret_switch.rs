//! The checkbox that asks the root to flip the reveal toggle.
//!
//! The switch is a controlled widget: whether it is ticked is decided by its
//! owner and handed in on every draw, and a click changes nothing in the
//! switch itself. All a click does is pass the owner's message on.

use vstd::prelude::*;

use crate::components::app::SecretPackage;
use crate::html::{Html, Listener, Message, Node};

verus! {

/// A click on the switch.
#[derive(Clone, Copy, Debug, PartialEq, Eq, Structural)]
pub struct SecretSwitchMessage;

/// What the switch is made from.
#[derive(Clone, Copy, Debug, PartialEq, Eq, Structural)]
pub struct SecretSwitchProps {
    pub secret: SecretPackage,
}

/// The switch widget. It keeps no state.
#[derive(Clone, Copy, Debug, PartialEq, Eq, Structural)]
pub struct SecretSwitch;

/// What became of a message: whether the widget has to be drawn again, and
/// the message it passes on.
#[derive(Clone, Copy, Debug, PartialEq, Eq, Structural)]
pub struct Handled {
    pub redraw: bool,
    pub emit: Message,
}

/// What a click on the switch does: it tells the switch.
pub open spec fn switch_click() -> Listener {
    Listener { message: Message::SecretSwitch(SecretSwitchMessage), prevent_default: false }
}

/// The markup of the switch: a checkbox, ticked if the toggle is on.
pub open spec fn secret_switch_markup(activated: bool) -> Node {
    Node::element("div"@).attr("class"@, "form-check form-switch me-5"@).child(
        Node::element("input"@).attr("class"@, "form-check-input"@).attr(
            "type"@,
            "checkbox"@,
        ).on_click(switch_click()).attr("id"@, "toggle_cool "@).flag("checked"@, activated),
    )
}

impl SecretSwitch {
    /// A switch.
    pub fn create() -> (switch: SecretSwitch)
        ensures
            switch == SecretSwitch,
    {
        SecretSwitch
    }

    /// Handles a click: the switch stays as it is and needs no redraw, and
    /// the owner's message goes out, once.
    pub fn update(&mut self, props: &SecretSwitchProps, msg: SecretSwitchMessage) -> (handled:
        Handled)
        ensures
            *final(self) == *old(self),
            handled == (Handled { redraw: false, emit: props.secret.toggler }),
    {
        Handled { redraw: false, emit: props.secret.toggler }
    }

    /// The markup of the switch.
    pub fn view(&self, props: &SecretSwitchProps) -> (html: Html)
        ensures
            html@ == secret_switch_markup(props.secret.activated),
    {
        let click = Listener {
            message: Message::SecretSwitch(SecretSwitchMessage),
            prevent_default: false,
        };
        Html::element("div").attr("class", "form-check form-switch me-5").child(
            Html::element("input").attr("class", "form-check-input").attr(
                "type",
                "checkbox",
            ).on_click(click).attr("id", "toggle_cool ").flag("checked", props.secret.activated),
        )
    }
}

} // verus!
