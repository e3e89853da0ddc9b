//! The root of the page: it owns the reveal toggle.
//!
//! The toggle is one flag with one way to change it. It starts off, every
//! toggle message flips it, and nothing else touches it. The root hands the
//! flag down, together with the message that flips it, and draws the page
//! around it: the bar, a backdrop that shows while the toggle is on, and the
//! content, which hides while it is on.

use vstd::prelude::*;

use crate::components::container::{container_markup, Container, ContainerProps};
use crate::components::navbar::{navbar_markup, Navbar, NavbarProps};
use crate::components::secret_switch::{SecretSwitch, SecretSwitchProps};
use crate::html::{single, Html, Message, Node};

verus! {

/// The toggle as it is handed down: its state, and the message that asks the
/// root to flip it.
#[derive(Clone, Copy, Debug, PartialEq, Eq, Structural)]
pub struct SecretPackage {
    pub activated: bool,
    pub toggler: Message,
}

/// The one thing that can happen to the root.
#[derive(Clone, Copy, Debug, PartialEq, Eq, Structural)]
pub enum AppMessage {
    ToggleSecret,
}

/// The root.
#[derive(Clone, Copy, Debug, PartialEq, Eq, Structural)]
pub struct App {
    secret: bool,
}

/// The message that asks the root to flip the toggle.
pub open spec fn toggle_message() -> Message {
    Message::App(AppMessage::ToggleSecret)
}

/// The classes of the backdrop: it shows while the toggle is on.
pub open spec fn backdrop_classes(secret: bool) -> Seq<char> {
    if secret {
        "show secret"@
    } else {
        "secret"@
    }
}

/// The backdrop.
pub open spec fn backdrop_markup(secret: bool) -> Node {
    Node::element("div"@).attr("id"@, "terrain"@).attr("class"@, backdrop_classes(secret))
}

/// The markup of the whole page for a state of the toggle: the bar, the
/// backdrop, and the container around the slot for the current page.
pub open spec fn app_markup(secret: bool) -> Node {
    Node::fragment().child(navbar_markup(secret)).child(backdrop_markup(secret)).child(
        container_markup(Seq::empty().push(Node::Outlet), secret),
    )
}

impl App {
    /// Whether the toggle is on.
    pub closed spec fn is_secret(&self) -> bool {
        self.secret
    }

    /// The root with the toggle the other way round.
    pub closed spec fn toggled(self) -> App {
        App { secret: !self.secret }
    }

    /// The root with the toggle off.
    pub fn create() -> (app: App)
        ensures
            !app.is_secret(),
    {
        App { secret: false }
    }

    /// Whether the toggle is on.
    pub fn secret(&self) -> (on: bool)
        ensures
            on == self.is_secret(),
    {
        self.secret
    }

    /// The toggle as it is handed down.
    pub fn package(&self) -> (package: SecretPackage)
        ensures
            package == (SecretPackage { activated: self.is_secret(), toggler: toggle_message() }),
    {
        SecretPackage { activated: self.secret, toggler: Message::App(AppMessage::ToggleSecret) }
    }

    /// Flips the toggle and asks for a redraw.
    pub fn update(&mut self, msg: AppMessage) -> (redraw: bool)
        ensures
            *final(self) == old(self).toggled(),
            final(self).is_secret() == !old(self).is_secret(),
            redraw,
    {
        self.secret = !self.secret;
        true
    }

    /// Takes a message from the page to whom it is for. A toggle message
    /// flips the toggle. A click on the switch makes the switch pass on the
    /// message it was handed, which flips the toggle too. A counter message
    /// finds no counter on the page and changes nothing. The result says
    /// whether the page has to be drawn again.
    pub fn deliver(&mut self, message: Message) -> (redraw: bool)
        ensures
            message is Counter ==> *final(self) == *old(self) && !redraw,
            !(message is Counter) ==> *final(self) == old(self).toggled() && redraw,
            !(message is Counter) ==> final(self).is_secret() == !old(self).is_secret(),
    {
        match message {
            Message::App(msg) => self.update(msg),
            Message::SecretSwitch(click) => {
                let mut switch = SecretSwitch::create();
                let handled = switch.update(&SecretSwitchProps { secret: self.package() }, click);
                match handled.emit {
                    Message::App(msg) => self.update(msg),
                    _ => handled.redraw,
                }
            },
            Message::Counter(_) => false,
        }
    }

    /// The markup of the whole page.
    pub fn view(&self) -> (html: Html)
        ensures
            html@ == app_markup(self.is_secret()),
    {
        let hidden = self.secret;
        let bar = Navbar::create().view(&NavbarProps { secret: self.package() });
        let backdrop = Html::element("div").attr("id", "terrain").attr(
            "class",
            if hidden {
                "show secret"
            } else {
                "secret"
            },
        );
        let content = Container::create().view(
            &ContainerProps { children: single(Html::Outlet), hidden },
        );
        Html::fragment().child(bar).child(backdrop).child(content)
    }
}

/// Flipping the toggle changes the state; flipping it again gives back the
/// state it started from, and with it the page as it was drawn: the same
/// classes and the same things hidden.
pub proof fn toggling_twice_restores(app: App)
    ensures
        app.toggled().is_secret() == !app.is_secret(),
        app.toggled().toggled() == app,
        app_markup(app.toggled().toggled().is_secret()) == app_markup(app.is_secret()),
{
}

/// The page is drawn from the state of the toggle and nothing else: two
/// roots with the toggle the same way are the same root.
pub proof fn state_is_the_toggle(one: App, other: App)
    requires
        one.is_secret() == other.is_secret(),
    ensures
        one == other,
{
}

} // verus!
