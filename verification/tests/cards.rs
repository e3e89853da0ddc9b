use portfolio::components::card::{card_icon, card_image, Card, CardIconProps, CardImageProps};
use portfolio::html::{Attribute, Glyph, Html};

fn attribute(name: &'static str, value: &str) -> Attribute {
    Attribute { name, value: value.to_string() }
}

fn element(tag: &'static str, attributes: Vec<Attribute>, children: Vec<Html>) -> Html {
    Html::Element { tag, attributes, onclick: None, children }
}

fn text(content: &str) -> Html {
    Html::Text(content.to_string())
}

fn children_of(html: &Html) -> &[Html] {
    match html {
        Html::Element { children, .. } => children,
        Html::Fragment(children) => children,
        Html::Link { children, .. } => children,
        _ => &[],
    }
}

fn tag_of(html: &Html) -> &'static str {
    match html {
        Html::Element { tag, .. } => tag,
        _ => "",
    }
}

fn holds(whole: &Html, part: &Html) -> bool {
    whole == part || children_of(whole).iter().any(|child| holds(child, part))
}

fn body(content: Html) -> Html {
    element("div", vec![attribute("class", "card-body")], vec![content])
}

fn heading(title: &str) -> Html {
    element("h1", vec![attribute("class", "card-header bit")], vec![text(title)])
}

fn top_image(source: &str) -> Html {
    element(
        "img",
        vec![
            attribute("src", source),
            attribute("class", "card-img-top bg-light"),
            attribute("alt", "card-img-top"),
        ],
        vec![],
    )
}

fn custom_frame(children: Vec<Html>) -> Html {
    element(
        "div",
        vec![attribute("class", "card p-2 bg-dark mx-auto"), attribute("style", "max-width: 30rem;")],
        children,
    )
}

#[test]
fn not_found_card_markup() {
    let expected = element(
        "div",
        vec![
            attribute("class", "card border-warning bg-dark mx-auto"),
            attribute("style", "text-align:center; max-width: 25rem;"),
        ],
        vec![element(
            "div",
            vec![attribute("class", "mt-5 card-body")],
            vec![
                element(
                    "img",
                    vec![
                        attribute("class", "outline"),
                        attribute("src", "static/404.png"),
                        attribute("width", "200px"),
                    ],
                    vec![],
                ),
                element(
                    "h1",
                    vec![
                        attribute("class", "bit text-warning"),
                        attribute("style", "text-align: center"),
                    ],
                    vec![text("PAGE NOT FOUND")],
                ),
                element(
                    "h2",
                    vec![attribute("class", "bit")],
                    vec![text("No dice, that page just ain't to be found!")],
                ),
            ],
        )],
    );
    assert_eq!(Html::from(Card::NotFound), expected);
}

#[test]
fn under_construction_card_markup() {
    let expected = element(
        "div",
        vec![
            attribute("class", "card bg-dark mx-auto"),
            attribute("style", "text-align:center; max-width: 30rem;"),
        ],
        vec![element(
            "div",
            vec![attribute("class", "mt-3 card-body")],
            vec![
                element(
                    "img",
                    vec![
                        attribute("class", "outline"),
                        attribute("src", "static/ferris-builder.png"),
                        attribute("width", "200px"),
                    ],
                    vec![],
                ),
                element(
                    "h1",
                    vec![
                        attribute("class", "bit text-warning"),
                        attribute("style", "text-align: center"),
                    ],
                    vec![text("UNDER CONSTRUCTION")],
                ),
                element(
                    "h2",
                    vec![attribute("class", "bit")],
                    vec![text(
                        "Stick around, there might be some delicious content here one day.",
                    )],
                ),
            ],
        )],
    );
    assert_eq!(Html::from(Card::UnderConstruction), expected);
}

#[test]
fn placeholders_differ() {
    assert_ne!(Html::from(Card::NotFound), Html::from(Card::UnderConstruction));
}

#[test]
fn custom_card_without_header_or_image_is_only_its_body() {
    let card = Card::Custom { header: None, image: None, content: text("just this") };
    let html = Html::from(card);
    assert_eq!(html, custom_frame(vec![body(text("just this"))]));
    assert_eq!(children_of(&html).len(), 1);
    assert!(children_of(&html).iter().all(|child| tag_of(child) != "img"));
    assert!(children_of(&html).iter().all(|child| tag_of(child) != "h1"));
    assert!(holds(&html, &text("just this")));
}

#[test]
fn custom_card_with_header_only() {
    let card = Card::Custom {
        header: Some("Title".to_string()),
        image: None,
        content: text("c"),
    };
    assert_eq!(Html::from(card), custom_frame(vec![heading("Title"), body(text("c"))]));
}

#[test]
fn custom_card_with_image_only() {
    let card = Card::Custom {
        header: None,
        image: Some("static/x.png".to_string()),
        content: text("c"),
    };
    assert_eq!(Html::from(card), custom_frame(vec![top_image("static/x.png"), body(text("c"))]));
}

#[test]
fn custom_card_with_both_shows_image_then_header_then_body() {
    let card = Card::Custom {
        header: Some("Title".to_string()),
        image: Some("static/x.png".to_string()),
        content: text("c"),
    };
    assert_eq!(
        Html::from(card),
        custom_frame(vec![top_image("static/x.png"), heading("Title"), body(text("c"))])
    );
}

#[test]
fn custom_card_with_empty_header_still_shows_a_heading() {
    let card = Card::Custom { header: Some(String::new()), image: None, content: text("c") };
    assert_eq!(Html::from(card), custom_frame(vec![heading(""), body(text("c"))]));
}

#[test]
fn flip_card_markup() {
    let card = Card::Flip {
        header: "Name".to_string(),
        image: text("picture"),
        front: text("front"),
        back: text("back"),
    };
    let expected = element(
        "div",
        vec![
            attribute("class", "card p-2 bg-dark mx-auto flip"),
            attribute("style", "max-width: 30rem;"),
        ],
        vec![element(
            "div",
            vec![attribute("class", "content")],
            vec![
                element(
                    "div",
                    vec![attribute("class", "back")],
                    vec![element(
                        "div",
                        vec![attribute("class", "card-body")],
                        vec![
                            element(
                                "h3",
                                vec![attribute("class", "bit card-title")],
                                vec![text("Name")],
                            ),
                            element("hr", vec![], vec![]),
                            text("back"),
                        ],
                    )],
                ),
                element(
                    "div",
                    vec![attribute("class", "front")],
                    vec![text("picture"), heading("Name"), body(text("front"))],
                ),
            ],
        )],
    );
    assert_eq!(Html::from(card), expected);
}

#[test]
fn flip_card_shows_both_faces() {
    let front = Html::element("div").child(Html::text("the front"));
    let back = Html::fragment().child(Html::text("the back")).child(Html::element("hr"));
    let card = Card::Flip {
        header: "h".to_string(),
        image: Html::icon(Glyph::Book),
        front: front.clone(),
        back: back.clone(),
    };
    let html = Html::from(card);
    assert!(holds(&html, &front));
    assert!(holds(&html, &back));
    assert!(holds(&html, &Html::icon(Glyph::Book)));
}

#[test]
fn flip_card_shows_empty_faces_too() {
    let card = Card::Flip {
        header: String::new(),
        image: Html::fragment(),
        front: Html::text(""),
        back: Html::Outlet,
    };
    let html = Html::from(card);
    assert!(holds(&html, &Html::text("")));
    assert!(holds(&html, &Html::Outlet));
    assert!(holds(&html, &Html::fragment()));
}

#[test]
fn card_clone_is_equal() {
    let custom = Card::Custom {
        header: Some("h".to_string()),
        image: None,
        content: Html::element("p").child(Html::text("c")),
    };
    assert_eq!(custom.clone(), custom);
    let flip = Card::Flip {
        header: "h".to_string(),
        image: Html::icon(Glyph::Aperture),
        front: text("f"),
        back: text("b"),
    };
    assert_eq!(flip.clone(), flip);
    assert_eq!(Card::NotFound.clone(), Card::NotFound);
    assert_eq!(Card::UnderConstruction.clone(), Card::UnderConstruction);
}

#[test]
fn card_image_that_keeps_its_proportions() {
    let html = card_image(&CardImageProps { src: "static/a.png", bg: "black", fit: false });
    let expected = element(
        "div",
        vec![
            attribute("class", "text-center rounded-top"),
            attribute("style", "background-color: black; "),
        ],
        vec![element(
            "img",
            vec![
                attribute("src", "static/a.png"),
                attribute("class", "card-img-top mx-auto"),
                attribute("alt", "card-img-top"),
                attribute("style", "background-color:black; height:250px; width:auto"),
            ],
            vec![],
        )],
    );
    assert_eq!(html, expected);
}

#[test]
fn card_image_that_covers() {
    let html = card_image(&CardImageProps { src: "static/b.jpg", bg: "transparent", fit: true });
    let expected = element(
        "div",
        vec![
            attribute("class", "text-center rounded-top"),
            attribute("style", "background-color: transparent; object-fit: cover"),
        ],
        vec![element(
            "img",
            vec![
                attribute("src", "static/b.jpg"),
                attribute("class", "card-img-top mx-auto"),
                attribute("alt", "card-img-top"),
                attribute("style", "background-color:black; height:250px; "),
            ],
            vec![],
        )],
    );
    assert_eq!(html, expected);
}

#[test]
fn card_image_style_follows_the_format() {
    for fit in [false, true] {
        for bg in ["", "red", "#55ff8c77"] {
            let html = card_image(&CardImageProps { src: "s", bg, fit });
            let strip = format!(
                "background-color: {}; {}",
                bg,
                if fit { "object-fit: cover" } else { "" }
            );
            let picture = format!(
                "background-color:black; height:250px; {}",
                if fit { "" } else { "width:auto" }
            );
            match &html {
                Html::Element { attributes, children, .. } => {
                    assert_eq!(attributes[1], attribute("style", &strip));
                    match &children[0] {
                        Html::Element { attributes, .. } => {
                            assert_eq!(attributes[3], attribute("style", &picture));
                        },
                        other => panic!("not an element: {:?}", other),
                    }
                },
                other => panic!("not an element: {:?}", other),
            }
        }
    }
}

#[test]
fn card_icon_markup() {
    let icon = Html::icon(Glyph::Book).color("white").size("100%");
    let html = card_icon(&CardIconProps { icon: icon.clone(), bg: "#55ff8c77" });
    let expected = element(
        "div",
        vec![
            attribute("class", "card-img-top"),
            attribute("alt", "card-img-top"),
            attribute("style", "height: 250px; background-color:#55ff8c77"),
        ],
        vec![icon],
    );
    assert_eq!(html, expected);
}
