//! The pages of the site, and the pieces they share.

pub mod about;
pub mod contributions;
pub mod projects;

use vstd::prelude::*;

use crate::components::card::{card_views, Card, CardView};
use crate::html::{views, views_index, Glyph, Html, Node};

verus! {

/// What every page is given: whether its content is hidden.
#[derive(Clone, Copy, Debug, PartialEq, Eq, Structural)]
pub struct PageProps {
    pub hidden: bool,
}

/// A paragraph of plain text.
pub open spec fn paragraph_markup(text: Seq<char>) -> Node {
    Node::element("p"@).child(Node::text(text))
}

/// A paragraph of plain text with the given classes.
pub open spec fn styled_paragraph_markup(class: Seq<char>, text: Seq<char>) -> Node {
    Node::element("p"@).attr("class"@, class).child(Node::text(text))
}

/// The one-line summary on the front of a card.
pub open spec fn summary_markup(text: Seq<char>) -> Node {
    Node::element("div"@).attr("class"@, ""@).child(Node::text(text))
}

/// A light button that leads to `href` and shows a drawing.
pub open spec fn icon_button_markup(href: Seq<char>, glyph: Glyph) -> Node {
    Node::element("a"@).attr("type"@, "button"@).attr(
        "class"@,
        "btn btn-light mx-2 text-dark"@,
    ).attr("href"@, href).child(Node::icon(glyph))
}

/// The same button as a plain anchor.
pub open spec fn icon_anchor_markup(href: Seq<char>, glyph: Glyph) -> Node {
    Node::element("a"@).attr("class"@, "btn btn-light mx-2 text-dark"@).attr("href"@, href).child(
        Node::icon(glyph),
    )
}

/// One cell of the grid: a third of the row on wide screens, half on medium
/// ones, all of it on narrow ones.
pub open spec fn grid_cell_markup(card: Node) -> Node {
    Node::element("div"@).attr("class"@, "col-xl-4 col-md-6 col-sm-12 my-2"@).child(card)
}

/// The cells of the grid: one for each card, in the cards' order.
pub open spec fn grid_markup(cards: Seq<CardView>) -> Seq<Node> {
    cards.map_values(|card: CardView| grid_cell_markup(card.rendered()))
}

/// The row that holds the grid.
pub open spec fn row_markup(cards: Seq<CardView>) -> Node {
    Node::element("div"@).attr("class"@, "row"@).children(grid_markup(cards))
}

/// The row holds one cell for each card and nothing else, the cells stand in
/// the cards' order, and each cell holds its card and nothing else.
pub proof fn row_keeps_the_cards_in_order(cards: Seq<CardView>)
    ensures
        row_markup(cards).kids().len() == cards.len(),
        forall|i: int|
            0 <= i < cards.len() ==> (#[trigger] row_markup(cards).kids()[i]) == grid_cell_markup(
                cards[i].rendered(),
            ),
        forall|i: int|
            0 <= i < cards.len() ==> (#[trigger] row_markup(cards).kids()[i]).kids()
                == Seq::<Node>::empty().push(cards[i].rendered()),
{
    assert(row_markup(cards).kids() =~= grid_markup(cards));
}

/// A paragraph of plain text.
pub(crate) fn paragraph(text: &str) -> (html: Html)
    ensures
        html@ == paragraph_markup(text@),
{
    Html::element("p").child(Html::text(text))
}

/// A paragraph of plain text with the given classes.
pub(crate) fn styled_paragraph(class: &str, text: &str) -> (html: Html)
    ensures
        html@ == styled_paragraph_markup(class@, text@),
{
    Html::element("p").attr("class", class).child(Html::text(text))
}

/// The one-line summary on the front of a card.
pub(crate) fn summary(text: &str) -> (html: Html)
    ensures
        html@ == summary_markup(text@),
{
    Html::element("div").attr("class", "").child(Html::text(text))
}

/// A light button that leads to `href` and shows a drawing.
pub(crate) fn icon_button(href: &str, glyph: Glyph) -> (html: Html)
    ensures
        html@ == icon_button_markup(href@, glyph),
{
    Html::element("a").attr("type", "button").attr("class", "btn btn-light mx-2 text-dark").attr(
        "href",
        href,
    ).child(Html::icon(glyph))
}

/// The same button as a plain anchor.
pub(crate) fn icon_anchor(href: &str, glyph: Glyph) -> (html: Html)
    ensures
        html@ == icon_anchor_markup(href@, glyph),
{
    Html::element("a").attr("class", "btn btn-light mx-2 text-dark").attr("href", href).child(
        Html::icon(glyph),
    )
}

/// Lays the cards out in a row, each in a cell of its own, in their order.
pub fn row(cards: &Vec<Card>) -> (html: Html)
    ensures
        html@ == row_markup(card_views(cards@)),
{
    let mut cells: Vec<Html> = Vec::new();
    let mut i: usize = 0;
    while i < cards.len()
        invariant
            i <= cards.len(),
            cells@.len() == i,
            forall|j: int| 0 <= j < i ==> (#[trigger] cells@[j])@ == grid_cell_markup(
                cards@[j]@.rendered(),
            ),
        decreases cards.len() - i,
    {
        let card = cards[i].clone();
        cells.push(Html::element("div").attr("class", "col-xl-4 col-md-6 col-sm-12 my-2").child(
            Html::from(card),
        ));
        i += 1;
    }
    proof {
        views_index(cells@);
        assert(views(cells@) =~= grid_markup(card_views(cards@)));
    }
    Html::element("div").attr("class", "row").children(cells)
}

} // verus!
