//! Cards: the unit of content on every page.
//!
//! A [`Card`] is one of four kinds, and turning it into markup looks at the
//! kind and nothing else. The two placeholders are fixed. A custom card shows
//! an image and a heading only where it has them. A flip card always carries
//! both of its faces; which one is seen is a matter of styling.

use vstd::prelude::*;

use crate::html::{Html, Node};

verus! {

/// One unit of content.
#[derive(Debug, PartialEq, Eq)]
#[allow(inconsistent_fields)]
pub enum Card {
    /// A body under an optional image and an optional heading.
    Custom { header: Option<String>, image: Option<String>, content: Html },
    /// Two faces under one heading: the front with a picture, the back with
    /// the details.
    Flip { header: String, image: Html, front: Html, back: Html },
    /// The placeholder for a page that is not written yet.
    UnderConstruction,
    /// The placeholder for a path that leads nowhere.
    NotFound,
}

/// The model of [`Card`].
#[allow(inconsistent_fields)]
pub enum CardView {
    Custom { header: Option<Seq<char>>, image: Option<Seq<char>>, content: Node },
    Flip { header: Seq<char>, image: Node, front: Node, back: Node },
    UnderConstruction,
    NotFound,
}

/// The model of an optional piece of text.
pub open spec fn optional_string(text: Option<String>) -> Option<Seq<char>> {
    match text {
        Some(t) => Some(t@),
        None => None,
    }
}

impl View for Card {
    type V = CardView;

    open spec fn view(&self) -> CardView {
        match self {
            Card::Custom { header, image, content } => CardView::Custom {
                header: optional_string(*header),
                image: optional_string(*image),
                content: content@,
            },
            Card::Flip { header, image, front, back } => CardView::Flip {
                header: header@,
                image: image@,
                front: front@,
                back: back@,
            },
            Card::UnderConstruction => CardView::UnderConstruction,
            Card::NotFound => CardView::NotFound,
        }
    }
}

/// The models of a run of cards, in order.
pub open spec fn card_views(cards: Seq<Card>) -> Seq<CardView> {
    cards.map_values(|card: Card| card@)
}

/// A placeholder card: a picture, a title in the warning colour and one line
/// of text, centred.
pub open spec fn placeholder_markup(
    class: Seq<char>,
    style: Seq<char>,
    body_class: Seq<char>,
    picture: Seq<char>,
    title: Seq<char>,
    line: Seq<char>,
) -> Node {
    Node::element("div"@).attr("class"@, class).attr("style"@, style).child(
        Node::element("div"@).attr("class"@, body_class).child(
            Node::element("img"@).attr("class"@, "outline"@).attr("src"@, picture).attr(
                "width"@,
                "200px"@,
            ),
        ).child(
            Node::element("h1"@).attr("class"@, "bit text-warning"@).attr(
                "style"@,
                "text-align: center"@,
            ).child(Node::text(title)),
        ).child(Node::element("h2"@).attr("class"@, "bit"@).child(Node::text(line))),
    )
}

/// The image across the top of a custom card.
pub open spec fn top_image_markup(source: Seq<char>) -> Node {
    Node::element("img"@).attr("src"@, source).attr("class"@, "card-img-top bg-light"@).attr(
        "alt"@,
        "card-img-top"@,
    )
}

/// The heading of a card.
pub open spec fn heading_markup(title: Seq<char>) -> Node {
    Node::element("h1"@).attr("class"@, "card-header bit"@).child(Node::text(title))
}

/// The body of a card around `content`.
pub open spec fn body_markup(content: Node) -> Node {
    Node::element("div"@).attr("class"@, "card-body"@).child(content)
}

/// The outer element of a custom card, still empty.
pub open spec fn custom_frame_markup() -> Node {
    Node::element("div"@).attr("class"@, "card p-2 bg-dark mx-auto"@).attr(
        "style"@,
        "max-width: 30rem;"@,
    )
}

/// `frame` with `part` as one more child if there is one, and as it is if
/// there is none.
pub open spec fn with_optional(frame: Node, part: Option<Node>) -> Node {
    match part {
        Some(node) => frame.child(node),
        None => frame,
    }
}

/// The back of a flip card: the title, a rule and the details.
pub open spec fn back_face_markup(title: Seq<char>, back: Node) -> Node {
    Node::element("div"@).attr("class"@, "back"@).child(
        Node::element("div"@).attr("class"@, "card-body"@).child(
            Node::element("h3"@).attr("class"@, "bit card-title"@).child(Node::text(title)),
        ).child(Node::element("hr"@)).child(back),
    )
}

/// The front of a flip card: the picture, the heading and the summary.
pub open spec fn front_face_markup(title: Seq<char>, image: Node, front: Node) -> Node {
    Node::element("div"@).attr("class"@, "front"@).child(image).child(heading_markup(title)).child(
        body_markup(front),
    )
}

impl CardView {
    /// The markup of a card.
    pub open spec fn rendered(self) -> Node {
        match self {
            CardView::UnderConstruction => placeholder_markup(
                "card bg-dark mx-auto"@,
                "text-align:center; max-width: 30rem;"@,
                "mt-3 card-body"@,
                "static/ferris-builder.png"@,
                "UNDER CONSTRUCTION"@,
                "Stick around, there might be some delicious content here one day."@,
            ),
            CardView::NotFound => placeholder_markup(
                "card border-warning bg-dark mx-auto"@,
                "text-align:center; max-width: 25rem;"@,
                "mt-5 card-body"@,
                "static/404.png"@,
                "PAGE NOT FOUND"@,
                "No dice, that page just ain't to be found!"@,
            ),
            CardView::Flip { header, image, front, back } => Node::element("div"@).attr(
                "class"@,
                "card p-2 bg-dark mx-auto flip"@,
            ).attr("style"@, "max-width: 30rem;"@).child(
                Node::element("div"@).attr("class"@, "content"@).child(
                    back_face_markup(header, back),
                ).child(front_face_markup(header, image, front)),
            ),
            CardView::Custom { header, image, content } => with_optional(
                with_optional(
                    custom_frame_markup(),
                    match image {
                        Some(source) => Some(top_image_markup(source)),
                        None => None,
                    },
                ),
                match header {
                    Some(title) => Some(heading_markup(title)),
                    None => None,
                },
            ).child(body_markup(content)),
        }
    }
}

/// A custom card shows its image first if it has one, then its heading if it
/// has one, and its body last: as many children as it has parts, and no
/// empty stand-in for a part that is missing.
pub proof fn custom_card_shows_what_it_has(
    header: Option<Seq<char>>,
    image: Option<Seq<char>>,
    content: Node,
)
    ensures
        ({
            let shown = (CardView::Custom { header, image, content }).rendered().kids();
            let images: int = if image is Some { 1 } else { 0 };
            let headings: int = if header is Some { 1 } else { 0 };
            &&& shown.len() == images + headings + 1
            &&& shown.last() == body_markup(content)
            &&& image matches Some(source) ==> shown[0] == top_image_markup(source)
            &&& header matches Some(title) ==> shown[images] == heading_markup(title)
        }),
{
}

/// A custom card with neither heading nor image is its body and nothing
/// else, and the body holds exactly the content.
pub proof fn bare_custom_card_is_its_body(content: Node)
    ensures
        (CardView::Custom { header: None, image: None, content }).rendered() == custom_frame_markup().child(
            body_markup(content),
        ),
        (CardView::Custom { header: None, image: None, content }).rendered().kids() =~= seq![
            body_markup(content),
        ],
        body_markup(content).kids() =~= seq![content],
{
}

/// A flip card carries its picture and both of its faces, whatever they are.
pub proof fn flip_card_shows_both_faces(header: Seq<char>, image: Node, front: Node, back: Node)
    ensures
        (CardView::Flip { header, image, front, back }).rendered().contains(front),
        (CardView::Flip { header, image, front, back }).rendered().contains(back),
        (CardView::Flip { header, image, front, back }).rendered().contains(image),
{
    let card = (CardView::Flip { header, image, front, back }).rendered();
    let content = card.kids()[0];
    let back_side = back_face_markup(header, back);
    let front_side = front_face_markup(header, image, front);
    assert(content.kids()[0] == back_side);
    assert(content.kids()[1] == front_side);
    crate::html::contains_child(card, 0);
    crate::html::contains_child(content, 0);
    crate::html::contains_child(content, 1);
    crate::html::contains_transitive(card, content, back_side);
    crate::html::contains_transitive(card, content, front_side);

    let back_body = back_side.kids()[0];
    assert(back_body.kids()[2] == back);
    crate::html::contains_child(back_side, 0);
    crate::html::contains_child(back_body, 2);
    crate::html::contains_transitive(back_side, back_body, back);
    crate::html::contains_transitive(card, back_side, back);

    assert(front_side.kids()[0] == image);
    crate::html::contains_child(front_side, 0);
    crate::html::contains_transitive(card, front_side, image);

    let front_body = front_side.kids()[2];
    assert(front_body == body_markup(front));
    assert(front_body.kids()[0] == front);
    crate::html::contains_child(front_side, 2);
    crate::html::contains_child(front_body, 0);
    crate::html::contains_transitive(front_side, front_body, front);
    crate::html::contains_transitive(card, front_side, front);
}

/// Builds a placeholder card.
fn placeholder(
    class: &str,
    style: &str,
    body_class: &str,
    picture: &str,
    title: &str,
    line: &str,
) -> (html: Html)
    ensures
        html@ == placeholder_markup(class@, style@, body_class@, picture@, title@, line@),
{
    Html::element("div").attr("class", class).attr("style", style).child(
        Html::element("div").attr("class", body_class).child(
            Html::element("img").attr("class", "outline").attr("src", picture).attr(
                "width",
                "200px",
            ),
        ).child(
            Html::element("h1").attr("class", "bit text-warning").attr(
                "style",
                "text-align: center",
            ).child(Html::text(title)),
        ).child(Html::element("h2").attr("class", "bit").child(Html::text(line))),
    )
}

/// Builds the heading of a card.
fn heading(title: String) -> (html: Html)
    ensures
        html@ == heading_markup(title@),
{
    Html::element("h1").attr("class", "card-header bit").child(Html::Text(title))
}

/// Builds the body of a card around `content`.
fn body(content: Html) -> (html: Html)
    ensures
        html@ == body_markup(content@),
{
    Html::element("div").attr("class", "card-body").child(content)
}

/// The conversion is pinned down by its model, in the contract of `from`
/// below, and not as a value: two trees with one model may differ in how
/// their vectors are laid out, so no one value can be named here.
impl vstd::std_specs::convert::FromSpecImpl<Card> for Html {
    open spec fn obeys_from_spec() -> bool {
        false
    }

    open spec fn from_spec(card: Card) -> Html {
        arbitrary()
    }
}

impl From<Card> for Html {
    /// Turns a card into its markup.
    fn from(card: Card) -> (html: Html)
        ensures
            html@ == card@.rendered(),
    {
        match card {
            Card::UnderConstruction => placeholder(
                "card bg-dark mx-auto",
                "text-align:center; max-width: 30rem;",
                "mt-3 card-body",
                "static/ferris-builder.png",
                "UNDER CONSTRUCTION",
                "Stick around, there might be some delicious content here one day.",
            ),
            Card::NotFound => placeholder(
                "card border-warning bg-dark mx-auto",
                "text-align:center; max-width: 25rem;",
                "mt-5 card-body",
                "static/404.png",
                "PAGE NOT FOUND",
                "No dice, that page just ain't to be found!",
            ),
            Card::Flip { header, image, front, back } => {
                let back_side = Html::element("div").attr("class", "back").child(
                    Html::element("div").attr("class", "card-body").child(
                        Html::element("h3").attr("class", "bit card-title").child(
                            Html::Text(header.clone()),
                        ),
                    ).child(Html::element("hr")).child(back),
                );
                let front_side = Html::element("div").attr("class", "front").child(image).child(
                    heading(header),
                ).child(body(front));
                Html::element("div").attr("class", "card p-2 bg-dark mx-auto flip").attr(
                    "style",
                    "max-width: 30rem;",
                ).child(
                    Html::element("div").attr("class", "content").child(back_side).child(
                        front_side,
                    ),
                )
            },
            Card::Custom { header, image, content } => {
                let mut frame = Html::element("div").attr("class", "card p-2 bg-dark mx-auto").attr(
                    "style",
                    "max-width: 30rem;",
                );
                if let Some(source) = image {
                    frame = frame.child(
                        Html::element("img").attr_string("src", source).attr(
                            "class",
                            "card-img-top bg-light",
                        ).attr("alt", "card-img-top"),
                    );
                }
                if let Some(title) = header {
                    frame = frame.child(heading(title));
                }
                frame.child(body(content))
            },
        }
    }
}

impl Clone for Card {
    /// A second card with the same model.
    fn clone(&self) -> (copy: Card)
        ensures
            copy@ == self@,
    {
        match self {
            Card::Custom { header, image, content } => Card::Custom {
                header: match header {
                    Some(title) => Some(title.clone()),
                    None => None,
                },
                image: match image {
                    Some(source) => Some(source.clone()),
                    None => None,
                },
                content: content.clone(),
            },
            Card::Flip { header, image, front, back } => Card::Flip {
                header: header.clone(),
                image: image.clone(),
                front: front.clone(),
                back: back.clone(),
            },
            Card::UnderConstruction => Card::UnderConstruction,
            Card::NotFound => Card::NotFound,
        }
    }
}

/// What the picture at the top of a card is made from.
#[derive(Clone, Copy, Debug, PartialEq, Eq)]
pub struct CardImageProps {
    /// Where the picture is.
    pub src: &'static str,
    /// The colour behind the picture.
    pub bg: &'static str,
    /// Whether the picture is stretched to cover the full width.
    pub fit: bool,
}

/// The markup of a picture at the top of a card: the picture, 250px high, on
/// a coloured strip. A picture that covers keeps the strip's width; one that
/// does not keeps its own proportions.
pub open spec fn card_image_markup(src: Seq<char>, bg: Seq<char>, fit: bool) -> Node {
    Node::element("div"@).attr("class"@, "text-center rounded-top"@).attr(
        "style"@,
        "background-color: "@ + bg + "; "@ + (if fit {
            "object-fit: cover"@
        } else {
            ""@
        }),
    ).child(
        Node::element("img"@).attr("src"@, src).attr("class"@, "card-img-top mx-auto"@).attr(
            "alt"@,
            "card-img-top"@,
        ).attr(
            "style"@,
            "background-color:black; height:250px; "@ + (if fit {
                ""@
            } else {
                "width:auto"@
            }),
        ),
    )
}

/// The picture at the top of a card.
pub fn card_image(props: &CardImageProps) -> (html: Html)
    ensures
        html@ == card_image_markup(props.src@, props.bg@, props.fit),
{
    let strip = String::from_str("background-color: ").concat(props.bg).concat("; ").concat(
        if props.fit {
            "object-fit: cover"
        } else {
            ""
        },
    );
    let picture = String::from_str("background-color:black; height:250px; ").concat(
        if props.fit {
            ""
        } else {
            "width:auto"
        },
    );
    Html::element("div").attr("class", "text-center rounded-top").attr_string("style", strip).child(
        Html::element("img").attr("src", props.src).attr("class", "card-img-top mx-auto").attr(
            "alt",
            "card-img-top",
        ).attr_string("style", picture),
    )
}

/// What the drawing at the top of a card is made from.
#[derive(Debug, PartialEq, Eq)]
pub struct CardIconProps {
    /// The drawing.
    pub icon: Html,
    /// The colour behind the drawing.
    pub bg: &'static str,
}

/// The markup of a drawing at the top of a card: the drawing on a coloured
/// strip, 250px high.
pub open spec fn card_icon_markup(icon: Node, bg: Seq<char>) -> Node {
    Node::element("div"@).attr("class"@, "card-img-top"@).attr("alt"@, "card-img-top"@).attr(
        "style"@,
        "height: 250px; background-color:"@ + bg,
    ).child(icon)
}

/// The drawing at the top of a card.
pub fn card_icon(props: &CardIconProps) -> (html: Html)
    ensures
        html@ == card_icon_markup(props.icon@, props.bg@),
{
    let strip = String::from_str("height: 250px; background-color:").concat(props.bg);
    Html::element("div").attr("class", "card-img-top").attr("alt", "card-img-top").attr_string(
        "style",
        strip,
    ).child(props.icon.clone())
}

} // verus!
