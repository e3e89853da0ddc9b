//! The box around the page's content.

use vstd::prelude::*;

use crate::html::{clone_all, views, Html, Node};

verus! {

/// What the container is made from.
#[derive(Debug, PartialEq, Eq)]
pub struct ContainerProps {
    /// What stands in the container.
    pub children: Vec<Html>,
    /// Whether the container and all in it is hidden.
    pub hidden: bool,
}

/// The container widget. It keeps no state.
#[derive(Clone, Copy, Debug, PartialEq, Eq, Structural)]
pub struct Container;

/// The markup of a container: one element around the children, hidden or
/// not.
pub open spec fn container_markup(children: Seq<Node>, hidden: bool) -> Node {
    Node::element("div"@).flag("hidden"@, hidden).attr("class"@, "container mt-2"@).children(
        children,
    )
}

impl Container {
    /// A container.
    pub fn create() -> (container: Container)
        ensures
            container == Container,
    {
        Container
    }

    /// The markup of the container.
    pub fn view(&self, props: &ContainerProps) -> (html: Html)
        ensures
            html@ == container_markup(views(props.children@), props.hidden),
    {
        Html::element("div").flag("hidden", props.hidden).attr("class", "container mt-2").children(
            clone_all(&props.children),
        )
    }
}

} // verus!
