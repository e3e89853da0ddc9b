//! The contributions page: work on other people's open-source projects.

use vstd::prelude::*;

use crate::components::card::{
    card_icon, card_icon_markup, card_views, Card, CardIconProps, CardView,
};
use crate::html::{Glyph, Html, Node};
use crate::pages::{
    icon_anchor, icon_anchor_markup, paragraph, paragraph_markup, row, row_markup,
    styled_paragraph, styled_paragraph_markup,
};

verus! {

/// What the contributions page is given: the cards to show.
#[derive(Debug, PartialEq, Eq)]
pub struct ContributionsPageProps {
    pub contributions: Vec<Card>,
}

/// The line that names the author of a project, with a link to them.
pub open spec fn byline_markup(author: Seq<char>, profile: Seq<char>) -> Node {
    Node::element("p"@).attr("class"@, "fw-bold"@).child(Node::text("Author: "@)).child(
        Node::element("a"@).attr("href"@, profile).child(Node::text(author)),
    )
}

/// The card for the Burning Wheel system.
pub open spec fn burning_wheel_card() -> CardView {
    CardView::Flip {
        header: "foundry-burningwheel"@,
        image: card_icon_markup(
            Node::icon(Glyph::Aperture).color("darkorange"@).size("100%"@),
            "darkred"@,
        ),
        front: Node::element("div"@).attr("class"@, ""@).child(
            paragraph_markup(
                "Unofficial community Foundry VTT system for The Burning Wheel RPG."@,
            ),
        ),
        back: Node::fragment().child(
            paragraph_markup(
                "Unofficial community Foundry VTT system for The Burning Wheel RPG."@,
            ),
        ).child(
            paragraph_markup(
                "Provides character sheet support, dice rolling, and a number of automation features for The Burning Wheel. Based on the Burning Wheel Gold Revised rules available in the burning wheel store."@,
            ),
        ).child(byline_markup("Stas Tserkovny"@, "https://github.com/StasTserk"@)).child(
            Node::element("hr"@),
        ).child(
            Node::element("p"@).attr("class"@, "fw-bold"@).child(
                icon_anchor_markup(
                    "https://github.com/StasTserk/foundry-burningwheel"@,
                    Glyph::Github,
                ),
            ),
        ),
    }
}

/// The contribution cards, in the order they are shown.
pub open spec fn contribution_cards() -> Seq<CardView> {
    Seq::empty().push(burning_wheel_card())
}

/// The banner at the top of the contributions page.
pub open spec fn contributions_banner_markup() -> Node {
    Node::element("div"@).attr("class"@, "mt-4 p-5 bg-dark bg-opacity-75 rounded"@).child(
        Node::element("h1"@).attr("class"@, "display-4 bit"@).child(Node::text("Contributions"@)),
    ).child(
        styled_paragraph_markup("lead"@, "Below you'll find my open-source contributions."@),
    ).child(Node::element("hr"@).attr("class"@, "m-0 p-0"@))
}

/// The contributions page for the given cards: the banner, then the cards in
/// a row, each in a cell of its own and in the order given.
pub open spec fn contributions_page(cards: Seq<CardView>) -> Node {
    Node::fragment().child(contributions_banner_markup()).child(row_markup(cards))
}

fn byline(author: &str, profile: &str) -> (html: Html)
    ensures
        html@ == byline_markup(author@, profile@),
{
    Html::element("p").attr("class", "fw-bold").child(Html::text("Author: ")).child(
        Html::element("a").attr("href", profile).child(Html::text(author)),
    )
}

fn burning_wheel() -> (card: Card)
    ensures
        card@ == burning_wheel_card(),
{
    Card::Flip {
        header: String::from_str("foundry-burningwheel"),
        image: card_icon(
            &CardIconProps {
                icon: Html::icon(Glyph::Aperture).color("darkorange").size("100%"),
                bg: "darkred",
            },
        ),
        front: Html::element("div").attr("class", "").child(
            paragraph("Unofficial community Foundry VTT system for The Burning Wheel RPG."),
        ),
        back: Html::fragment().child(
            paragraph("Unofficial community Foundry VTT system for The Burning Wheel RPG."),
        ).child(
            paragraph(
                "Provides character sheet support, dice rolling, and a number of automation features for The Burning Wheel. Based on the Burning Wheel Gold Revised rules available in the burning wheel store.",
            ),
        ).child(byline("Stas Tserkovny", "https://github.com/StasTserk")).child(
            Html::element("hr"),
        ).child(
            Html::element("p").attr("class", "fw-bold").child(
                icon_anchor("https://github.com/StasTserk/foundry-burningwheel", Glyph::Github),
            ),
        ),
    }
}

/// The contribution cards. Every call gives the same card.
pub fn load_contributions() -> (cards: Vec<Card>)
    ensures
        card_views(cards@) == contribution_cards(),
{
    let mut cards: Vec<Card> = Vec::new();
    cards.push(burning_wheel());
    proof {
        assert(card_views(cards@) =~= contribution_cards());
    }
    cards
}

/// Loading the contributions twice gives the same cards in the same order:
/// whatever two calls of [`load_contributions`] hand back, the two runs are
/// as long as each other and agree card by card.
pub proof fn contributions_load_the_same_every_time(first: Seq<Card>, second: Seq<Card>)
    requires
        card_views(first) == contribution_cards(),
        card_views(second) == contribution_cards(),
    ensures
        first.len() == second.len(),
        first.len() == 1,
        forall|i: int| 0 <= i < first.len() ==> (#[trigger] first[i])@ == second[i]@,
{
    assert(card_views(first).len() == first.len());
    assert(card_views(second).len() == second.len());
    assert forall|i: int| 0 <= i < first.len() implies (#[trigger] first[i])@ == second[i]@ by {
        assert(card_views(first)[i] == first[i]@);
        assert(card_views(second)[i] == second[i]@);
    }
}

/// The contributions page.
pub fn projects(props: &ContributionsPageProps) -> (html: Html)
    ensures
        html@ == contributions_page(card_views(props.contributions@)),
{
    let banner = Html::element("div").attr("class", "mt-4 p-5 bg-dark bg-opacity-75 rounded").child(
        Html::element("h1").attr("class", "display-4 bit").child(Html::text("Contributions")),
    ).child(styled_paragraph("lead", "Below you'll find my open-source contributions.")).child(
        Html::element("hr").attr("class", "m-0 p-0"),
    );
    Html::fragment().child(banner).child(row(&props.contributions))
}

} // verus!
