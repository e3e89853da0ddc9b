//! The about page: who the author is, where they have worked and what they
//! have studied, one card each.

use vstd::prelude::*;

use crate::components::card::{Card, CardView};
use crate::html::{Glyph, Html, Node};
use crate::pages::{paragraph, paragraph_markup, styled_paragraph, styled_paragraph_markup};

verus! {

/// A heading line inside a card: the tag sets its weight, the class its look
/// and the style its line height.
pub open spec fn title_markup(
    tag: Seq<char>,
    class: Seq<char>,
    style: Seq<char>,
    text: Seq<char>,
) -> Node {
    Node::element(tag).attr("class"@, class).attr("style"@, style).child(Node::text(text))
}

/// A pill that names a technology.
pub open spec fn badge_markup(class: Seq<char>, text: Seq<char>) -> Node {
    Node::element("span"@).attr("class"@, class).child(Node::text(text))
}

/// One cell of the about page's row.
pub open spec fn about_cell_markup(card: Node) -> Node {
    Node::element("div"@).attr("class"@, "col-xl-4 col-xs-12 mb-3"@).child(card)
}

/// The list of things the author likes to talk about.
pub open spec fn interests_markup() -> Node {
    Node::element("ul"@).attr("style"@, "line-height: 0.5rem"@).child(
        paragraph_markup("🦀 All things code "@),
    ).child(paragraph_markup("🎲 Tabletop RPGs"@)).child(
        paragraph_markup("🎵 Folk music and progressive metal"@),
    ).child(paragraph_markup("🍻 Craft beers and whiskey "@))
}

/// The card that introduces the author, under their photo.
pub open spec fn personal_card() -> CardView {
    CardView::Custom {
        header: None,
        image: Some("static/pb.png"@),
        content: Node::element("div"@).child(Node::icon(Glyph::User)).child(
            title_markup("h1"@, "bit mb-0"@, "line-height: 2rem"@, "Andreas Nilsson"@),
        ).child(
            title_markup(
                "h2"@,
                "bit mt-0 mb-4 text-muted"@,
                "line-height: 2rem"@,
                "Web and Software Developer"@,
            ),
        ).child(Node::element("hr"@)).child(
            paragraph_markup(
                "Hi, I'm Andreas, a Malmö-based millenial living with my SO and cats. Trying to grow habaneros on our roof terrace."@,
            ),
        ).child(
            Node::element("p"@).child(Node::element("b"@).child(Node::text("Talk to me about"@))),
        ).child(interests_markup()).child(
            styled_paragraph_markup(
                "mb-0"@,
                "I constantly find ways to talk about the programming language Rust, so there's a good chance most of this page will be about just that. I've warned you!"@,
            ),
        ),
    }
}

/// The author's current position.
pub open spec fn current_position_markup() -> Node {
    Node::element("div"@).child(Node::icon(Glyph::Briefcase)).child(
        title_markup("h2"@, "bit mb-0"@, "line-height: 2rem"@, "System Developer"@),
    ).child(
        title_markup("h4"@, "bit text-muted mb-1"@, "line-height:1rem;"@, "2022-ongoing"@),
    ).child(title_markup("h3"@, "bit text-muted"@, "line-height: 2rem"@, "Skanska IT"@)).child(
        Node::element("hr"@),
    ).child(
        paragraph_markup(
            "I currently work as a full-time system developer at Skanska in Malmö, where I am part of the Digital Collaboration team, focusing on SharePoint and Azure development."@,
        ),
    ).child(badge_markup("badge bg-primary rounded-pill me-1"@, "Azure"@)).child(
        badge_markup("badge bg-primary rounded-pill me-1"@, "Microsoft 365"@),
    ).child(badge_markup("badge bg-success rounded-pill me-1"@, "SPFx"@)).child(
        badge_markup("badge bg-success rounded-pill me-1"@, "React"@),
    ).child(badge_markup("badge bg-danger rounded-pill me-1"@, "TypeScript"@))
}

/// The author's previous position.
pub open spec fn previous_position_markup() -> Node {
    Node::element("div"@).attr("class"@, "mt-5"@).child(
        title_markup("h2"@, "bit my-0"@, "line-height: 2rem"@, "Developer"@),
    ).child(
        title_markup("h4"@, "bit text-muted mb-1"@, "line-height:1rem;"@, "2021-2022"@),
    ).child(
        title_markup("h3"@, "bit text-muted"@, "line-height: 2rem"@, "Netcompany A/S"@),
    ).child(Node::element("hr"@)).child(
        paragraph_markup(
            "I worked as a full-time software developer at Netcompany in Copenhagen, where I built and maintained solutions for a plethora of customers, both big and small."@,
        ),
    ).child(badge_markup("badge bg-primary rounded-pill me-1"@, "Dynamics 365"@)).child(
        badge_markup("badge bg-primary rounded-pill me-1"@, "Salesforce"@),
    ).child(badge_markup("badge bg-danger rounded-pill me-1"@, ".NET"@)).child(
        badge_markup("badge bg-danger rounded-pill me-1"@, "JavaScript"@),
    )
}

/// The card on the author's career: the current position above the
/// previous one.
pub open spec fn career_card() -> CardView {
    CardView::Custom {
        header: None,
        image: None,
        content: Node::element("div"@).child(current_position_markup()).child(
            previous_position_markup(),
        ),
    }
}

/// The card on the author's education.
pub open spec fn education_card() -> CardView {
    CardView::Custom {
        header: None,
        image: None,
        content: Node::element("div"@).child(Node::icon(Glyph::Book)).child(
            title_markup(
                "h2"@,
                "bit mb-0"@,
                "line-height: 2rem"@,
                "Computer Science and Engineering."@,
            ),
        ).child(
            title_markup("h4"@, "bit text-muted mb-1"@, "line-height:1rem;"@, "2018-2021"@),
        ).child(
            title_markup(
                "h3"@,
                "bit text-muted"@,
                "line-height: 2rem"@,
                "LTH, Faculty of Engineering"@,
            ),
        ).child(Node::element("hr"@)).child(
            Node::element("p"@).child(Node::text("During my "@)).child(
                Node::element("span"@).child(
                    Node::text(
                        "Bachelor of Science in Engineering, Computer Science and Engineering"@,
                    ),
                ),
            ).child(
                Node::text(
                    " (that's a mouthful...), I laid the foundation for my programming, software design and project management skills."@,
                ),
            ),
        ).child(
            Node::element("p"@).child(
                Node::text(
                    "For my thesis I designed, developed and evaluated an .NET OpenID Connect authentication module for EPiServer, using a self-designed test specification based on the "@,
                ),
            ).child(
                Node::element("a"@).attr(
                    "href"@,
                    "https://owasp.org/www-project-web-security-testing-guide/"@,
                ).child(Node::text("OWASP Web Security Testing Guide"@)),
            ),
        ),
    }
}

/// The about page: the three cards side by side, the personal one first,
/// then career, then education.
pub open spec fn about_page() -> Node {
    Node::element("div"@).attr("class"@, "row"@).child(
        about_cell_markup(personal_card().rendered()),
    ).child(about_cell_markup(career_card().rendered())).child(
        about_cell_markup(education_card().rendered()),
    )
}

fn title(tag: &'static str, class: &str, style: &str, text: &str) -> (html: Html)
    ensures
        html@ == title_markup(tag@, class@, style@, text@),
{
    Html::element(tag).attr("class", class).attr("style", style).child(Html::text(text))
}

fn badge(class: &str, text: &str) -> (html: Html)
    ensures
        html@ == badge_markup(class@, text@),
{
    Html::element("span").attr("class", class).child(Html::text(text))
}

fn about_cell(card: Card) -> (html: Html)
    ensures
        html@ == about_cell_markup(card@.rendered()),
{
    Html::element("div").attr("class", "col-xl-4 col-xs-12 mb-3").child(Html::from(card))
}

fn interests() -> (html: Html)
    ensures
        html@ == interests_markup(),
{
    Html::element("ul").attr("style", "line-height: 0.5rem").child(
        paragraph("🦀 All things code "),
    ).child(paragraph("🎲 Tabletop RPGs")).child(
        paragraph("🎵 Folk music and progressive metal"),
    ).child(paragraph("🍻 Craft beers and whiskey "))
}

fn personal() -> (card: Card)
    ensures
        card@ == personal_card(),
{
    Card::Custom {
        header: None,
        image: Some(String::from_str("static/pb.png")),
        content: Html::element("div").child(Html::icon(Glyph::User)).child(
            title("h1", "bit mb-0", "line-height: 2rem", "Andreas Nilsson"),
        ).child(
            title(
                "h2",
                "bit mt-0 mb-4 text-muted",
                "line-height: 2rem",
                "Web and Software Developer",
            ),
        ).child(Html::element("hr")).child(
            paragraph(
                "Hi, I'm Andreas, a Malmö-based millenial living with my SO and cats. Trying to grow habaneros on our roof terrace.",
            ),
        ).child(
            Html::element("p").child(Html::element("b").child(Html::text("Talk to me about"))),
        ).child(interests()).child(
            styled_paragraph(
                "mb-0",
                "I constantly find ways to talk about the programming language Rust, so there's a good chance most of this page will be about just that. I've warned you!",
            ),
        ),
    }
}

fn current_position() -> (html: Html)
    ensures
        html@ == current_position_markup(),
{
    Html::element("div").child(Html::icon(Glyph::Briefcase)).child(
        title("h2", "bit mb-0", "line-height: 2rem", "System Developer"),
    ).child(title("h4", "bit text-muted mb-1", "line-height:1rem;", "2022-ongoing")).child(
        title("h3", "bit text-muted", "line-height: 2rem", "Skanska IT"),
    ).child(Html::element("hr")).child(
        paragraph(
            "I currently work as a full-time system developer at Skanska in Malmö, where I am part of the Digital Collaboration team, focusing on SharePoint and Azure development.",
        ),
    ).child(badge("badge bg-primary rounded-pill me-1", "Azure")).child(
        badge("badge bg-primary rounded-pill me-1", "Microsoft 365"),
    ).child(badge("badge bg-success rounded-pill me-1", "SPFx")).child(
        badge("badge bg-success rounded-pill me-1", "React"),
    ).child(badge("badge bg-danger rounded-pill me-1", "TypeScript"))
}

fn previous_position() -> (html: Html)
    ensures
        html@ == previous_position_markup(),
{
    Html::element("div").attr("class", "mt-5").child(
        title("h2", "bit my-0", "line-height: 2rem", "Developer"),
    ).child(title("h4", "bit text-muted mb-1", "line-height:1rem;", "2021-2022")).child(
        title("h3", "bit text-muted", "line-height: 2rem", "Netcompany A/S"),
    ).child(Html::element("hr")).child(
        paragraph(
            "I worked as a full-time software developer at Netcompany in Copenhagen, where I built and maintained solutions for a plethora of customers, both big and small.",
        ),
    ).child(badge("badge bg-primary rounded-pill me-1", "Dynamics 365")).child(
        badge("badge bg-primary rounded-pill me-1", "Salesforce"),
    ).child(badge("badge bg-danger rounded-pill me-1", ".NET")).child(
        badge("badge bg-danger rounded-pill me-1", "JavaScript"),
    )
}

fn career() -> (card: Card)
    ensures
        card@ == career_card(),
{
    Card::Custom {
        header: None,
        image: None,
        content: Html::element("div").child(current_position()).child(previous_position()),
    }
}

fn education() -> (card: Card)
    ensures
        card@ == education_card(),
{
    Card::Custom {
        header: None,
        image: None,
        content: Html::element("div").child(Html::icon(Glyph::Book)).child(
            title("h2", "bit mb-0", "line-height: 2rem", "Computer Science and Engineering."),
        ).child(title("h4", "bit text-muted mb-1", "line-height:1rem;", "2018-2021")).child(
            title("h3", "bit text-muted", "line-height: 2rem", "LTH, Faculty of Engineering"),
        ).child(Html::element("hr")).child(
            Html::element("p").child(Html::text("During my ")).child(
                Html::element("span").child(
                    Html::text(
                        "Bachelor of Science in Engineering, Computer Science and Engineering",
                    ),
                ),
            ).child(
                Html::text(
                    " (that's a mouthful...), I laid the foundation for my programming, software design and project management skills.",
                ),
            ),
        ).child(
            Html::element("p").child(
                Html::text(
                    "For my thesis I designed, developed and evaluated an .NET OpenID Connect authentication module for EPiServer, using a self-designed test specification based on the ",
                ),
            ).child(
                Html::element("a").attr(
                    "href",
                    "https://owasp.org/www-project-web-security-testing-guide/",
                ).child(Html::text("OWASP Web Security Testing Guide")),
            ),
        ),
    }
}

/// The about page.
pub fn about() -> (html: Html)
    ensures
        html@ == about_page(),
{
    Html::element("div").attr("class", "row").child(about_cell(personal())).child(
        about_cell(career()),
    ).child(about_cell(education()))
}

} // verus!
