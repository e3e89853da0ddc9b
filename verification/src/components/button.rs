//! A large button in one of nine looks.

use vstd::prelude::*;

use crate::html::{clone_all, views, Html, Listener, Node};

verus! {

/// The looks a button can have.
#[derive(Clone, Copy, Debug, PartialEq, Eq, Structural)]
pub enum Style {
    Primary,
    Secondary,
    Success,
    Danger,
    Warning,
    Info,
    Light,
    Dark,
    Link,
}

/// What a button is made from.
#[derive(Debug, PartialEq, Eq)]
pub struct ButtonProps {
    /// What stands on the button.
    pub children: Vec<Html>,
    /// What a click does.
    pub onclick: Listener,
    /// The look; the primary one if none is given.
    pub style: Option<Style>,
    /// Whether the button takes the full width; it does not if nothing is
    /// said.
    pub block: Option<bool>,
}

/// The button widget. It keeps no state.
#[derive(Clone, Copy, Debug, PartialEq, Eq, Structural)]
pub struct Button;

/// The class that gives a button its look.
pub open spec fn style_class(style: Option<Style>) -> Seq<char> {
    match style {
        Some(Style::Primary) | None => "btn-primary"@,
        Some(Style::Secondary) => "btn-secondary"@,
        Some(Style::Success) => "btn-success"@,
        Some(Style::Danger) => "btn-danger"@,
        Some(Style::Warning) => "btn-warning"@,
        Some(Style::Info) => "btn-info"@,
        Some(Style::Light) => "btn-light"@,
        Some(Style::Dark) => "btn-dark"@,
        Some(Style::Link) => "btn-link"@,
    }
}

/// The classes of a button: a button, in the given look, large.
pub open spec fn button_classes(style: Option<Style>) -> Seq<char> {
    "btn "@ + style_class(style) + " btn-lg"@
}

/// The markup of a button: the button itself, and around it, only if it is
/// to take the full width, an element that lets it.
pub open spec fn button_markup(
    children: Seq<Node>,
    onclick: Listener,
    style: Option<Style>,
    block: Option<bool>,
) -> Node {
    let button = Node::element("button"@).on_click(onclick).attr(
        "class"@,
        button_classes(style),
    ).children(children);
    if block == Some(true) {
        Node::element("div"@).attr("class"@, "d-grid"@).child(button)
    } else {
        button
    }
}

impl Button {
    /// A button.
    pub fn create() -> (button: Button)
        ensures
            button == Button,
    {
        Button
    }

    /// The markup of the button.
    pub fn view(&self, props: &ButtonProps) -> (html: Html)
        ensures
            html@ == button_markup(views(props.children@), props.onclick, props.style, props.block),
    {
        let style = match &props.style {
            Some(style) => match style {
                Style::Primary => "btn-primary",
                Style::Secondary => "btn-secondary",
                Style::Success => "btn-success",
                Style::Danger => "btn-danger",
                Style::Warning => "btn-warning",
                Style::Info => "btn-info",
                Style::Light => "btn-light",
                Style::Dark => "btn-dark",
                Style::Link => "btn-link",
            },
            None => "btn-primary",
        };
        let classes = String::from_str("btn ").concat(style).concat(" btn-lg");
        let inner = clone_all(&props.children);
        let button = Html::element("button").on_click(props.onclick).attr_string(
            "class",
            classes,
        ).children(inner);
        if let Some(true) = props.block {
            Html::element("div").attr("class", "d-grid").child(button)
        } else {
            button
        }
    }
}

} // verus!
