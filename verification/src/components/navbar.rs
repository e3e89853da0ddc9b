//! The bar across the top: the site's name, the reveal switch and the links.
//!
//! While the toggle is on, the bar turns dark and its menu is hidden; the
//! name and the switch stay.

use vstd::prelude::*;

use crate::components::app::SecretPackage;
use crate::components::secret_switch::{secret_switch_markup, SecretSwitch, SecretSwitchProps};
use crate::html::{Glyph, Html, Node};
use crate::route::Route;

verus! {

/// What the bar is made from.
#[derive(Clone, Copy, Debug, PartialEq, Eq, Structural)]
pub struct NavbarProps {
    pub secret: SecretPackage,
}

/// The bar widget. It keeps no state.
#[derive(Clone, Copy, Debug, PartialEq, Eq, Structural)]
pub struct Navbar;

/// One entry of the menu, which folds the menu away when it is chosen.
pub open spec fn menu_entry_markup() -> Node {
    Node::element("li"@).attr("class"@, "nav-item"@).attr("data-bs-toggle"@, "collapse"@).attr(
        "data-bs-target"@,
        ".navbar-collapse.show"@,
    )
}

/// The entry of the menu that leads to a page of the site.
pub open spec fn page_entry_markup(to: Route, label: Seq<char>) -> Node {
    menu_entry_markup().child(Node::link("nav-link"@, to).child(Node::text(label)))
}

/// An anchor that leads off the site and shows a white drawing.
pub open spec fn profile_markup(href: Seq<char>, glyph: Glyph) -> Node {
    Node::element("a"@).attr("href"@, href).child(Node::icon(glyph).color("white"@))
}

/// The last entry of the menu: the links that lead off the site.
pub open spec fn outside_entry_markup() -> Node {
    Node::element("li"@).attr("class"@, "nav-item v-middle"@).child(
        Node::element("a"@).attr("class"@, "nav-link"@).attr(
            "href"@,
            "https://nilsiker.github.io/blog"@,
        ).child(Node::text("BLOG"@)),
    ).child(profile_markup("https://github.com/nilsiker"@, Glyph::Github)).child(
        profile_markup("https://twitter.com/nilsiker"@, Glyph::Twitter),
    )
}

/// The menu: projects, contributions, about, an empty entry and the links
/// that lead off the site, in this order; hidden while the toggle is on.
pub open spec fn menu_markup(hidden: bool) -> Node {
    Node::element("ul"@).flag("hidden"@, hidden).attr(
        "class"@,
        "nav navbar-nav me-0 ms-auto "@,
    ).child(page_entry_markup(Route::Projects, "PROJECTS"@)).child(
        page_entry_markup(Route::Contributions, "CONTRIBUTIONS"@),
    ).child(page_entry_markup(Route::About, "ABOUT"@)).child(menu_entry_markup()).child(
        outside_entry_markup(),
    )
}

/// The button that unfolds the menu on narrow screens; hidden while the
/// toggle is on.
pub open spec fn menu_button_markup(hidden: bool) -> Node {
    Node::element("button"@).flag("hidden"@, hidden).attr("class"@, "navbar-toggler"@).attr(
        "type"@,
        "button"@,
    ).attr("data-bs-toggle"@, "collapse"@).attr("data-bs-target"@, "#navbar"@).attr(
        "aria-controls"@,
        "#navbar"@,
    ).attr("aria-expanded"@, "false"@).attr("aria-label"@, "Toggle navigation"@).child(
        Node::element("span"@).attr("class"@, "navbar-toggler-icon"@),
    )
}

/// The site's name, which leads home, with the switch beside it.
pub open spec fn brand_markup(activated: bool) -> Node {
    Node::element("div"@).attr("class"@, "row"@).child(
        Node::element("div"@).attr("class"@, "col"@).child(
            Node::element("a"@).attr("class"@, "navbar-brand"@).attr("href"@, "/"@).child(
                Node::text("NILSIKER"@),
            ),
        ).child(secret_switch_markup(activated)),
    )
}

/// The classes of the bar: dark while the toggle is on.
pub open spec fn navbar_classes(activated: bool) -> Seq<char> {
    "bit navbar navbar-expand-lg navbar-dark "@ + (if activated {
        "bg-dark"@
    } else {
        ""@
    })
}

/// The markup of the bar.
pub open spec fn navbar_markup(activated: bool) -> Node {
    Node::element("nav"@).attr("class"@, navbar_classes(activated)).child(
        Node::element("div"@).attr("class"@, "container"@).child(brand_markup(activated)).child(
            menu_button_markup(activated),
        ).child(
            Node::element("div"@).attr("class"@, "collapse navbar-collapse"@).attr(
                "id"@,
                "navbar"@,
            ).child(menu_markup(activated)),
        ),
    )
}

fn menu_entry() -> (html: Html)
    ensures
        html@ == menu_entry_markup(),
{
    Html::element("li").attr("class", "nav-item").attr("data-bs-toggle", "collapse").attr(
        "data-bs-target",
        ".navbar-collapse.show",
    )
}

fn page_entry(to: Route, label: &str) -> (html: Html)
    ensures
        html@ == page_entry_markup(to, label@),
{
    menu_entry().child(Html::link("nav-link", to).child(Html::text(label)))
}

fn profile(href: &str, glyph: Glyph) -> (html: Html)
    ensures
        html@ == profile_markup(href@, glyph),
{
    Html::element("a").attr("href", href).child(Html::icon(glyph).color("white"))
}

fn outside_entry() -> (html: Html)
    ensures
        html@ == outside_entry_markup(),
{
    Html::element("li").attr("class", "nav-item v-middle").child(
        Html::element("a").attr("class", "nav-link").attr(
            "href",
            "https://nilsiker.github.io/blog",
        ).child(Html::text("BLOG")),
    ).child(profile("https://github.com/nilsiker", Glyph::Github)).child(
        profile("https://twitter.com/nilsiker", Glyph::Twitter),
    )
}

fn menu(hidden: bool) -> (html: Html)
    ensures
        html@ == menu_markup(hidden),
{
    Html::element("ul").flag("hidden", hidden).attr("class", "nav navbar-nav me-0 ms-auto ").child(
        page_entry(Route::Projects, "PROJECTS"),
    ).child(page_entry(Route::Contributions, "CONTRIBUTIONS")).child(
        page_entry(Route::About, "ABOUT"),
    ).child(menu_entry()).child(outside_entry())
}

fn menu_button(hidden: bool) -> (html: Html)
    ensures
        html@ == menu_button_markup(hidden),
{
    Html::element("button").flag("hidden", hidden).attr("class", "navbar-toggler").attr(
        "type",
        "button",
    ).attr("data-bs-toggle", "collapse").attr("data-bs-target", "#navbar").attr(
        "aria-controls",
        "#navbar",
    ).attr("aria-expanded", "false").attr("aria-label", "Toggle navigation").child(
        Html::element("span").attr("class", "navbar-toggler-icon"),
    )
}

impl Navbar {
    /// A bar.
    pub fn create() -> (bar: Navbar)
        ensures
            bar == Navbar,
    {
        Navbar
    }

    /// The markup of the bar.
    pub fn view(&self, props: &NavbarProps) -> (html: Html)
        ensures
            html@ == navbar_markup(props.secret.activated),
    {
        let hidden = props.secret.activated;
        let classes = String::from_str("bit navbar navbar-expand-lg navbar-dark ").concat(
            if hidden {
                "bg-dark"
            } else {
                ""
            },
        );
        let switch = SecretSwitch::create().view(&SecretSwitchProps { secret: props.secret });
        let brand = Html::element("div").attr("class", "row").child(
            Html::element("div").attr("class", "col").child(
                Html::element("a").attr("class", "navbar-brand").attr("href", "/").child(
                    Html::text("NILSIKER"),
                ),
            ).child(switch),
        );
        Html::element("nav").attr_string("class", classes).child(
            Html::element("div").attr("class", "container").child(brand).child(
                menu_button(hidden),
            ).child(
                Html::element("div").attr("class", "collapse navbar-collapse").attr(
                    "id",
                    "navbar",
                ).child(menu(hidden)),
            ),
        )
    }
}

} // verus!
