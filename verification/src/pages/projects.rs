//! The projects page: what the author has built, in the author's order.

use vstd::prelude::*;

use crate::components::card::{
    card_icon, card_icon_markup, card_image, card_image_markup, card_views, Card, CardIconProps,
    CardImageProps, CardView,
};
use crate::html::{Glyph, Html, Node};
use crate::pages::{
    icon_anchor, icon_anchor_markup, icon_button, icon_button_markup, paragraph, paragraph_markup,
    row, row_markup, styled_paragraph, styled_paragraph_markup, summary, summary_markup,
};

verus! {

/// What the projects page is given: the cards to show.
#[derive(Debug, PartialEq, Eq)]
pub struct ProjectsPageProps {
    pub projects: Vec<Card>,
}

/// The card for the detective game.
pub open spec fn contour_card() -> CardView {
    CardView::Flip {
        header: "Contour"@,
        image: card_image_markup("static/contour.png"@, "black"@, false),
        front: summary_markup(
            "A pixel-art horror noir detective game, powered by Rust and Bevy."@,
        ),
        back: Node::fragment().child(
            paragraph_markup("A pixel-art horror noir detective game, powered by Rust and Bevy."@),
        ).child(
            styled_paragraph_markup(
                "fst-italic"@,
                "A private investigator takes on a seemingly routine missing person case, only to find himself in a sinister mystery beyond comprehension."@,
            ),
        ).child(paragraph_markup("In active development."@)).child(Node::element("hr"@)).child(
            Node::element("a"@).attr("class"@, "btn btn-danger"@).attr(
                "href"@,
                "https://nilsiker.itch.io/contour"@,
            ).attr("type"@, "button"@).child(Node::text("Play on itch.io"@)),
        ).child(icon_anchor_markup("https://github.com/nilsiker/contour"@, Glyph::Github)),
    }
}

/// The card for the world generator.
pub open spec fn ymir_card() -> CardView {
    CardView::Flip {
        header: "bevy_ymir"@,
        image: card_image_markup("static/ymir-early-world.png"@, "transparent"@, true),
        front: summary_markup(
            "A procedural world generator plugin for Bevy, a Rust game engine."@,
        ),
        back: Node::element("div"@).child(
            paragraph_markup("A plugin for generating and streaming procedural worlds in Bevy."@),
        ).child(
            paragraph_markup(
                "The ambition is to provide a customizable world generator, with support for different biomes and various methods for procedural object placement."@,
            ),
        ).child(
            paragraph_markup(
                "Keep in mind that Ymir is in very early development. Expect hard-to-use APIs that break constantly!"@,
            ),
        ).child(Node::element("hr"@)).child(
            icon_button_markup("https://github.com/nilsiker/bevy_ymir"@, Glyph::Github),
        ),
    }
}

/// The card for the blog.
pub open spec fn blog_card() -> CardView {
    CardView::Flip {
        header: "nilsiker blog"@,
        image: card_icon_markup(
            Node::icon(Glyph::Book).color("white"@).size("100%"@),
            "#55ff8c77"@,
        ),
        front: summary_markup(
            "My blog and news site powered by Zine. This is were I keep my personal rants and ramblings."@,
        ),
        back: Node::element("div"@).child(
            paragraph_markup(
                "Alongside this portfolio page, I keep a Zine site where I post about my code endeavours and occassional slice-of-life posts."@,
            ),
        ).child(paragraph_markup("The blog also serves as a devlog for my various projects."@)).child(
            paragraph_markup(
                "If you're looking for a more relaxed everyday-Andreas, chances are you'll find him more easily over the blog!"@,
            ),
        ).child(Node::element("hr"@)).child(
            icon_button_markup("https://nilsiker.github.io/blog"@, Glyph::Link),
        ).child(icon_button_markup("https://github.com/nilsiker/blog"@, Glyph::Github)),
    }
}

/// The card for this site.
pub open spec fn site_card() -> CardView {
    CardView::Flip {
        header: "nilsiker.github.io"@,
        image: card_image_markup("static/unsplash.jpg"@, "transparent"@, true),
        front: summary_markup(
            "The very page you're looking at now, delivered to you with Rust and Yew."@,
        ),
        back: Node::element("div"@).child(
            paragraph_markup(
                "With the risk that this becomes a bit meta, I am also actively working on this portfolio website!"@,
            ),
        ).child(
            paragraph_markup(
                "At the moment, it is a static Yew website written by me, an all right Rust developer, but definitely a rookie Yew developer."@,
            ),
        ).child(
            styled_paragraph_markup(
                "fst-italic"@,
                "If you want to hunt for a secret, remember that some underlines are just for show."@,
            ),
        ).child(Node::element("hr"@)).child(
            icon_button_markup("https://github.com/nilsiker/nilsiker.github.io"@, Glyph::Github),
        ),
    }
}

/// The project cards, in the order they are shown.
pub open spec fn project_cards() -> Seq<CardView> {
    Seq::empty().push(contour_card()).push(ymir_card()).push(blog_card()).push(site_card())
}

/// The banner at the top of the projects page.
pub open spec fn projects_banner_markup() -> Node {
    Node::element("div"@).attr("class"@, "mt-4 p-5 bg-dark bg-opacity-75 rounded"@).child(
        Node::element("h1"@).attr("class"@, "display-4 bit"@).child(Node::text("Projects"@)),
    ).child(styled_paragraph_markup("lead"@, "Welcome to my project portfolio!"@)).child(
        styled_paragraph_markup(
            "lead"@,
            "Below you'll find stuff that I have worked on, or am currently working on!"@,
        ),
    ).child(Node::element("hr"@).attr("class"@, "m-0 p-0"@))
}

/// The projects page for the given cards: the banner, then the cards in a
/// row, each in a cell of its own and in the order given.
pub open spec fn projects_page(cards: Seq<CardView>) -> Node {
    Node::fragment().child(projects_banner_markup()).child(row_markup(cards))
}

fn contour() -> (card: Card)
    ensures
        card@ == contour_card(),
{
    Card::Flip {
        header: String::from_str("Contour"),
        image: card_image(&CardImageProps { src: "static/contour.png", bg: "black", fit: false }),
        front: summary("A pixel-art horror noir detective game, powered by Rust and Bevy."),
        back: Html::fragment().child(
            paragraph("A pixel-art horror noir detective game, powered by Rust and Bevy."),
        ).child(
            styled_paragraph(
                "fst-italic",
                "A private investigator takes on a seemingly routine missing person case, only to find himself in a sinister mystery beyond comprehension.",
            ),
        ).child(paragraph("In active development.")).child(Html::element("hr")).child(
            Html::element("a").attr("class", "btn btn-danger").attr(
                "href",
                "https://nilsiker.itch.io/contour",
            ).attr("type", "button").child(Html::text("Play on itch.io")),
        ).child(icon_anchor("https://github.com/nilsiker/contour", Glyph::Github)),
    }
}

fn ymir() -> (card: Card)
    ensures
        card@ == ymir_card(),
{
    Card::Flip {
        header: String::from_str("bevy_ymir"),
        image: card_image(
            &CardImageProps { src: "static/ymir-early-world.png", bg: "transparent", fit: true },
        ),
        front: summary("A procedural world generator plugin for Bevy, a Rust game engine."),
        back: Html::element("div").child(
            paragraph("A plugin for generating and streaming procedural worlds in Bevy."),
        ).child(
            paragraph(
                "The ambition is to provide a customizable world generator, with support for different biomes and various methods for procedural object placement.",
            ),
        ).child(
            paragraph(
                "Keep in mind that Ymir is in very early development. Expect hard-to-use APIs that break constantly!",
            ),
        ).child(Html::element("hr")).child(
            icon_button("https://github.com/nilsiker/bevy_ymir", Glyph::Github),
        ),
    }
}

fn blog() -> (card: Card)
    ensures
        card@ == blog_card(),
{
    Card::Flip {
        header: String::from_str("nilsiker blog"),
        image: card_icon(
            &CardIconProps {
                icon: Html::icon(Glyph::Book).color("white").size("100%"),
                bg: "#55ff8c77",
            },
        ),
        front: summary(
            "My blog and news site powered by Zine. This is were I keep my personal rants and ramblings.",
        ),
        back: Html::element("div").child(
            paragraph(
                "Alongside this portfolio page, I keep a Zine site where I post about my code endeavours and occassional slice-of-life posts.",
            ),
        ).child(paragraph("The blog also serves as a devlog for my various projects.")).child(
            paragraph(
                "If you're looking for a more relaxed everyday-Andreas, chances are you'll find him more easily over the blog!",
            ),
        ).child(Html::element("hr")).child(
            icon_button("https://nilsiker.github.io/blog", Glyph::Link),
        ).child(icon_button("https://github.com/nilsiker/blog", Glyph::Github)),
    }
}

fn site() -> (card: Card)
    ensures
        card@ == site_card(),
{
    Card::Flip {
        header: String::from_str("nilsiker.github.io"),
        image: card_image(
            &CardImageProps { src: "static/unsplash.jpg", bg: "transparent", fit: true },
        ),
        front: summary("The very page you're looking at now, delivered to you with Rust and Yew."),
        back: Html::element("div").child(
            paragraph(
                "With the risk that this becomes a bit meta, I am also actively working on this portfolio website!",
            ),
        ).child(
            paragraph(
                "At the moment, it is a static Yew website written by me, an all right Rust developer, but definitely a rookie Yew developer.",
            ),
        ).child(
            styled_paragraph(
                "fst-italic",
                "If you want to hunt for a secret, remember that some underlines are just for show.",
            ),
        ).child(Html::element("hr")).child(
            icon_button("https://github.com/nilsiker/nilsiker.github.io", Glyph::Github),
        ),
    }
}

/// The project cards. Every call gives the same four cards in the same
/// order.
pub fn load_projects() -> (cards: Vec<Card>)
    ensures
        card_views(cards@) == project_cards(),
{
    let mut cards: Vec<Card> = Vec::new();
    cards.push(contour());
    cards.push(ymir());
    cards.push(blog());
    cards.push(site());
    proof {
        assert(card_views(cards@) =~= project_cards());
    }
    cards
}

/// Loading the projects twice gives the same cards in the same order:
/// whatever two calls of [`load_projects`] hand back, the two runs are as
/// long as each other and agree card by card.
pub proof fn projects_load_the_same_every_time(first: Seq<Card>, second: Seq<Card>)
    requires
        card_views(first) == project_cards(),
        card_views(second) == project_cards(),
    ensures
        first.len() == second.len(),
        first.len() == 4,
        forall|i: int| 0 <= i < first.len() ==> (#[trigger] first[i])@ == second[i]@,
{
    assert(card_views(first).len() == first.len());
    assert(card_views(second).len() == second.len());
    assert forall|i: int| 0 <= i < first.len() implies (#[trigger] first[i])@ == second[i]@ by {
        assert(card_views(first)[i] == first[i]@);
        assert(card_views(second)[i] == second[i]@);
    }
}

/// The projects page.
pub fn projects(props: &ProjectsPageProps) -> (html: Html)
    ensures
        html@ == projects_page(card_views(props.projects@)),
{
    let banner = Html::element("div").attr("class", "mt-4 p-5 bg-dark bg-opacity-75 rounded").child(
        Html::element("h1").attr("class", "display-4 bit").child(Html::text("Projects")),
    ).child(styled_paragraph("lead", "Welcome to my project portfolio!")).child(
        styled_paragraph(
            "lead",
            "Below you'll find stuff that I have worked on, or am currently working on!",
        ),
    ).child(Html::element("hr").attr("class", "m-0 p-0"));
    Html::fragment().child(banner).child(row(&props.projects))
}

} // verus!
