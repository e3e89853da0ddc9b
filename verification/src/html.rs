//! Markup as a value.
//!
//! [`Html`] is the tree a component hands back from its `view`: elements with
//! attributes and children, text, icons, links to other pages and the slot
//! where the page for the current path goes. Its model is [`Node`], the same
//! tree over sequences, and every function that builds markup says which
//! `Node` it builds.

use vstd::prelude::*;

use crate::components::app::AppMessage;
use crate::components::counter::Msg;
use crate::components::secret_switch::SecretSwitchMessage;
use crate::route::Route;

verus! {

/// A message on its way to the component that understands it.
#[derive(Clone, Copy, Debug, PartialEq, Eq, Structural)]
pub enum Message {
    App(AppMessage),
    SecretSwitch(SecretSwitchMessage),
    Counter(Msg),
}

/// What a click on an element does: it sends `message`, after cancelling the
/// browser's own handling of the click if `prevent_default` is set.
#[derive(Clone, Copy, Debug, PartialEq, Eq, Structural)]
pub struct Listener {
    pub message: Message,
    pub prevent_default: bool,
}

/// The line drawings that can stand in a page.
#[derive(Clone, Copy, Debug, PartialEq, Eq, Structural)]
pub enum Glyph {
    Aperture,
    Book,
    Briefcase,
    Github,
    Link,
    Twitter,
    User,
}

/// One `name="value"` pair on an element.
#[derive(Debug, PartialEq, Eq)]
pub struct Attribute {
    pub name: &'static str,
    pub value: String,
}

impl View for Attribute {
    type V = (Seq<char>, Seq<char>);

    open spec fn view(&self) -> (Seq<char>, Seq<char>) {
        (self.name@, self.value@)
    }
}

impl Clone for Attribute {
    fn clone(&self) -> (copy: Attribute)
        ensures
            copy@ == self@,
    {
        Attribute { name: self.name, value: self.value.clone() }
    }
}

/// The attributes of an element, in the order they were set.
pub open spec fn attribute_views(attributes: Seq<Attribute>) -> Seq<(Seq<char>, Seq<char>)> {
    attributes.map_values(|a: Attribute| a@)
}

/// A tree of markup.
#[derive(Debug, PartialEq, Eq)]
pub enum Html {
    /// A run of text.
    Text(String),
    /// An element. A boolean attribute that is switched off is simply absent.
    Element {
        tag: &'static str,
        attributes: Vec<Attribute>,
        onclick: Option<Listener>,
        children: Vec<Html>,
    },
    /// Several trees side by side, with no element around them.
    Fragment(Vec<Html>),
    /// A line drawing; `None` leaves colour or size at the drawing's default.
    Icon { glyph: Glyph, color: Option<&'static str>, size: Option<&'static str> },
    /// An anchor that navigates inside the site.
    Link { classes: &'static str, to: Route, children: Vec<Html> },
    /// The place where the page for the current path is shown.
    Outlet,
}

/// The model of [`Html`].
pub enum Node {
    Text(Seq<char>),
    Element {
        tag: Seq<char>,
        attributes: Seq<(Seq<char>, Seq<char>)>,
        onclick: Option<Listener>,
        children: Seq<Node>,
    },
    Fragment(Seq<Node>),
    Icon { glyph: Glyph, color: Option<Seq<char>>, size: Option<Seq<char>> },
    Link { classes: Seq<char>, to: Route, children: Seq<Node> },
    Outlet,
}

/// The models of a run of trees, in order.
pub open spec fn views(items: Seq<Html>) -> Seq<Node>
    decreases items,
{
    if items.len() == 0 {
        Seq::empty()
    } else {
        views(items.drop_last()).push(items.last()@)
    }
}

/// The model of an optional piece of fixed text.
pub open spec fn optional_text(text: Option<&'static str>) -> Option<Seq<char>> {
    match text {
        Some(t) => Some(t@),
        None => None,
    }
}

impl View for Html {
    type V = Node;

    open spec fn view(&self) -> Node
        decreases self,
    {
        match self {
            Html::Text(text) => Node::Text(text@),
            Html::Element { tag, attributes, onclick, children } => Node::Element {
                tag: tag@,
                attributes: attribute_views(attributes@),
                onclick: *onclick,
                children: views(children@),
            },
            Html::Fragment(children) => Node::Fragment(views(children@)),
            Html::Icon { glyph, color, size } => Node::Icon {
                glyph: *glyph,
                color: optional_text(*color),
                size: optional_text(*size),
            },
            Html::Link { classes, to, children } => Node::Link {
                classes: classes@,
                to: *to,
                children: views(children@),
            },
            Html::Outlet => Node::Outlet,
        }
    }
}

/// `views` goes through a sequence item by item.
pub proof fn views_index(items: Seq<Html>)
    ensures
        views(items).len() == items.len(),
        forall|i: int| 0 <= i < items.len() ==> (#[trigger] views(items)[i]) == items[i]@,
    decreases items.len(),
{
    if items.len() > 0 {
        views_index(items.drop_last());
        assert(views(items) == views(items.drop_last()).push(items.last()@));
    }
}

/// `views` of two runs laid end to end is the two results laid end to end.
pub proof fn views_add(front: Seq<Html>, back: Seq<Html>)
    ensures
        views(front + back) == views(front) + views(back),
{
    views_index(front);
    views_index(back);
    views_index(front + back);
    assert(views(front + back) =~= views(front) + views(back));
}

impl Node {
    /// A run of text.
    pub open spec fn text(text: Seq<char>) -> Node {
        Node::Text(text)
    }

    /// An element with no attributes, no listener and no children.
    pub open spec fn element(tag: Seq<char>) -> Node {
        Node::Element { tag, attributes: Seq::empty(), onclick: None, children: Seq::empty() }
    }

    /// Nothing at all: a fragment with no children.
    pub open spec fn fragment() -> Node {
        Node::Fragment(Seq::empty())
    }

    /// A drawing at its default colour and size.
    pub open spec fn icon(glyph: Glyph) -> Node {
        Node::Icon { glyph, color: None, size: None }
    }

    /// A link with nothing in it yet.
    pub open spec fn link(classes: Seq<char>, to: Route) -> Node {
        Node::Link { classes, to, children: Seq::empty() }
    }

    /// The element with one more attribute after those it has; anything else
    /// unchanged.
    pub open spec fn attr(self, name: Seq<char>, value: Seq<char>) -> Node {
        match self {
            Node::Element { tag, attributes, onclick, children } => Node::Element {
                tag,
                attributes: attributes.push((name, value)),
                onclick,
                children,
            },
            _ => self,
        }
    }

    /// The element with the boolean attribute `name` if `on`, and unchanged if
    /// not. A boolean attribute that is present carries its own name.
    pub open spec fn flag(self, name: Seq<char>, on: bool) -> Node {
        if on {
            self.attr(name, name)
        } else {
            self
        }
    }

    /// The element with `listener` as what a click does; anything else
    /// unchanged.
    pub open spec fn on_click(self, listener: Listener) -> Node {
        match self {
            Node::Element { tag, attributes, onclick, children } => Node::Element {
                tag,
                attributes,
                onclick: Some(listener),
                children,
            },
            _ => self,
        }
    }

    /// The drawing in the given colour; anything else unchanged.
    pub open spec fn color(self, color: Seq<char>) -> Node {
        match self {
            Node::Icon { glyph, color: _, size } => Node::Icon { glyph, color: Some(color), size },
            _ => self,
        }
    }

    /// The drawing at the given size; anything else unchanged.
    pub open spec fn size(self, size: Seq<char>) -> Node {
        match self {
            Node::Icon { glyph, color, size: _ } => Node::Icon { glyph, color, size: Some(size) },
            _ => self,
        }
    }

    /// The children of an element, a fragment or a link; nothing else has any.
    pub open spec fn kids(self) -> Seq<Node> {
        match self {
            Node::Element { children, .. } => children,
            Node::Fragment(children) => children,
            Node::Link { children, .. } => children,
            _ => Seq::empty(),
        }
    }

    /// The same node with `more` after the children it has. Text, drawings and
    /// the outlet take no children and stay as they are.
    pub open spec fn children(self, more: Seq<Node>) -> Node {
        match self {
            Node::Element { tag, attributes, onclick, children } => Node::Element {
                tag,
                attributes,
                onclick,
                children: children + more,
            },
            Node::Fragment(children) => Node::Fragment(children + more),
            Node::Link { classes, to, children } => Node::Link {
                classes,
                to,
                children: children + more,
            },
            _ => self,
        }
    }

    /// The same node with `child` after the children it has.
    pub open spec fn child(self, child: Node) -> Node {
        match self {
            Node::Element { tag, attributes, onclick, children } => Node::Element {
                tag,
                attributes,
                onclick,
                children: children.push(child),
            },
            Node::Fragment(children) => Node::Fragment(children.push(child)),
            Node::Link { classes, to, children } => Node::Link {
                classes,
                to,
                children: children.push(child),
            },
            _ => self,
        }
    }

    /// Whether the node puts nothing on the page: empty text, or a fragment
    /// of such nodes only.
    pub open spec fn is_blank(self) -> bool
        decreases self,
    {
        match self {
            Node::Text(text) => text.len() == 0,
            Node::Fragment(children) => forall|i: int|
                0 <= i < children.len() ==> (#[trigger] children[i]).is_blank(),
            _ => false,
        }
    }

    /// Whether `part` is this node or stands somewhere below it.
    pub open spec fn contains(self, part: Node) -> bool
        decreases self,
    {
        self == part || match self {
            Node::Element { children, .. } => exists|i: int|
                0 <= i < children.len() && (#[trigger] children[i]).contains(part),
            Node::Fragment(children) => exists|i: int|
                0 <= i < children.len() && (#[trigger] children[i]).contains(part),
            Node::Link { children, .. } => exists|i: int|
                0 <= i < children.len() && (#[trigger] children[i]).contains(part),
            _ => false,
        }
    }
}

/// A node holds each of its children.
pub proof fn contains_child(node: Node, i: int)
    requires
        0 <= i < node.kids().len(),
    ensures
        node.contains(node.kids()[i]),
{
    let kid = node.kids()[i];
    assert(kid.contains(kid));
}

/// What a part holds, the whole holds too.
pub proof fn contains_transitive(whole: Node, part: Node, piece: Node)
    requires
        whole.contains(part),
        part.contains(piece),
    ensures
        whole.contains(piece),
    decreases whole,
{
    if whole != part {
        let children = whole.kids();
        let i = choose|i: int| 0 <= i < children.len() && (#[trigger] children[i]).contains(part);
        contains_transitive(children[i], part, piece);
    }
}

/// A run of one tree.
pub fn single(item: Html) -> (items: Vec<Html>)
    ensures
        views(items@) == Seq::<Node>::empty().push(item@),
{
    let mut items: Vec<Html> = Vec::new();
    items.push(item);
    proof {
        assert(items@.drop_last() =~= Seq::<Html>::empty());
        assert(views(Seq::<Html>::empty()) == Seq::<Node>::empty());
    }
    items
}

/// Copies each tree of a run.
pub fn clone_all(items: &Vec<Html>) -> (copies: Vec<Html>)
    ensures
        views(copies@) == views(items@),
    decreases items,
{
    let mut copies: Vec<Html> = Vec::new();
    let mut i: usize = 0;
    while i < items.len()
        invariant
            i <= items.len(),
            copies@.len() == i,
            views(copies@) == views(items@.take(i as int)),
        decreases items.len() - i,
    {
        let ghost before = copies@;
        let copy = items[i].clone();
        copies.push(copy);
        proof {
            assert(copies@.drop_last() =~= before);
            assert(items@.take(i + 1).drop_last() =~= items@.take(i as int));
        }
        i += 1;
    }
    proof {
        assert(items@.take(i as int) =~= items@);
    }
    copies
}

/// Copies each attribute of a list.
fn clone_attributes(attributes: &Vec<Attribute>) -> (copies: Vec<Attribute>)
    ensures
        attribute_views(copies@) == attribute_views(attributes@),
{
    let mut copies: Vec<Attribute> = Vec::new();
    let mut i: usize = 0;
    while i < attributes.len()
        invariant
            i <= attributes.len(),
            copies@.len() == i,
            forall|j: int| 0 <= j < i ==> (#[trigger] copies@[j])@ == attributes@[j]@,
        decreases attributes.len() - i,
    {
        copies.push(attributes[i].clone());
        i += 1;
    }
    proof {
        assert(attribute_views(copies@) =~= attribute_views(attributes@));
    }
    copies
}

impl Clone for Html {
    /// A second tree with the same model.
    fn clone(&self) -> (copy: Html)
        ensures
            copy@ == self@,
        decreases self,
    {
        match self {
            Html::Text(text) => Html::Text(text.clone()),
            Html::Element { tag, attributes, onclick, children } => Html::Element {
                tag: *tag,
                attributes: clone_attributes(attributes),
                onclick: *onclick,
                children: clone_all(children),
            },
            Html::Fragment(children) => Html::Fragment(clone_all(children)),
            Html::Icon { glyph, color, size } => Html::Icon {
                glyph: *glyph,
                color: *color,
                size: *size,
            },
            Html::Link { classes, to, children } => Html::Link {
                classes: *classes,
                to: *to,
                children: clone_all(children),
            },
            Html::Outlet => Html::Outlet,
        }
    }
}

impl Html {
    /// A run of text.
    pub fn text(text: &str) -> (html: Html)
        ensures
            html@ == Node::text(text@),
    {
        Html::Text(String::from_str(text))
    }

    /// An element with no attributes, no listener and no children.
    pub fn element(tag: &'static str) -> (html: Html)
        ensures
            html@ == Node::element(tag@),
    {
        let html = Html::Element {
            tag,
            attributes: Vec::new(),
            onclick: None,
            children: Vec::new(),
        };
        proof {
            assert(html@->Element_attributes =~= Seq::empty());
        }
        html
    }

    /// Nothing at all: a fragment with no children.
    pub fn fragment() -> (html: Html)
        ensures
            html@ == Node::fragment(),
    {
        Html::Fragment(Vec::new())
    }

    /// A drawing at its default colour and size.
    pub fn icon(glyph: Glyph) -> (html: Html)
        ensures
            html@ == Node::icon(glyph),
    {
        Html::Icon { glyph, color: None, size: None }
    }

    /// A link with nothing in it yet.
    pub fn link(classes: &'static str, to: Route) -> (html: Html)
        ensures
            html@ == Node::link(classes@, to),
    {
        Html::Link { classes, to, children: Vec::new() }
    }

    /// Sets one more attribute on an element. Anything else comes back
    /// unchanged.
    pub fn attr_string(self, name: &'static str, value: String) -> (html: Html)
        ensures
            html@ == self@.attr(name@, value@),
    {
        match self {
            Html::Element { tag, mut attributes, onclick, children } => {
                let ghost before = attributes@;
                attributes.push(Attribute { name, value });
                proof {
                    assert(attribute_views(attributes@) =~= attribute_views(before).push(
                        (name@, value@),
                    ));
                }
                Html::Element { tag, attributes, onclick, children }
            },
            other => other,
        }
    }

    /// Sets one more attribute on an element, from fixed text.
    pub fn attr(self, name: &'static str, value: &str) -> (html: Html)
        ensures
            html@ == self@.attr(name@, value@),
    {
        self.attr_string(name, String::from_str(value))
    }

    /// Sets the boolean attribute `name` on an element if `on`.
    pub fn flag(self, name: &'static str, on: bool) -> (html: Html)
        ensures
            html@ == self@.flag(name@, on),
    {
        if on {
            self.attr(name, name)
        } else {
            self
        }
    }

    /// Makes `listener` what a click on an element does.
    pub fn on_click(self, listener: Listener) -> (html: Html)
        ensures
            html@ == self@.on_click(listener),
    {
        match self {
            Html::Element { tag, attributes, onclick: _, children } => Html::Element {
                tag,
                attributes,
                onclick: Some(listener),
                children,
            },
            other => other,
        }
    }

    /// Gives a drawing a colour.
    pub fn color(self, color: &'static str) -> (html: Html)
        ensures
            html@ == self@.color(color@),
    {
        match self {
            Html::Icon { glyph, color: _, size } => Html::Icon { glyph, color: Some(color), size },
            other => other,
        }
    }

    /// Gives a drawing a size.
    pub fn size(self, size: &'static str) -> (html: Html)
        ensures
            html@ == self@.size(size@),
    {
        match self {
            Html::Icon { glyph, color, size: _ } => Html::Icon { glyph, color, size: Some(size) },
            other => other,
        }
    }

    /// Puts `child` after the children of an element, a fragment or a link.
    /// Text, drawings and the outlet take no children: they come back
    /// unchanged and `child` is dropped.
    pub fn child(self, child: Html) -> (html: Html)
        ensures
            html@ == self@.child(child@),
    {
        match self {
            Html::Element { tag, attributes, onclick, mut children } => {
                let ghost before = children@;
                children.push(child);
                proof {
                    assert(children@.drop_last() =~= before);
                }
                Html::Element { tag, attributes, onclick, children }
            },
            Html::Fragment(mut children) => {
                let ghost before = children@;
                children.push(child);
                proof {
                    assert(children@.drop_last() =~= before);
                }
                Html::Fragment(children)
            },
            Html::Link { classes, to, mut children } => {
                let ghost before = children@;
                children.push(child);
                proof {
                    assert(children@.drop_last() =~= before);
                }
                Html::Link { classes, to, children }
            },
            other => other,
        }
    }

    /// Puts all of `more`, in order, after the children of an element, a
    /// fragment or a link.
    pub fn children(self, more: Vec<Html>) -> (html: Html)
        ensures
            html@ == self@.children(views(more@)),
    {
        let mut more = more;
        match self {
            Html::Element { tag, attributes, onclick, mut children } => {
                proof {
                    views_add(children@, more@);
                }
                children.append(&mut more);
                Html::Element { tag, attributes, onclick, children }
            },
            Html::Fragment(mut children) => {
                proof {
                    views_add(children@, more@);
                }
                children.append(&mut more);
                Html::Fragment(children)
            },
            Html::Link { classes, to, mut children } => {
                proof {
                    views_add(children@, more@);
                }
                children.append(&mut more);
                Html::Link { classes, to, children }
            },
            other => other,
        }
    }
}

} // verus!
