use portfolio::components::button::{Button, ButtonProps, Style};
use portfolio::components::counter::{shown_text, Counter, CounterProps, Msg};
use portfolio::html::{Attribute, Html, Listener, Message};

fn attribute(name: &'static str, value: &str) -> Attribute {
    Attribute { name, value: value.to_string() }
}

fn element(tag: &'static str, attributes: Vec<Attribute>, children: Vec<Html>) -> Html {
    Html::Element { tag, attributes, onclick: None, children }
}

fn text(content: &str) -> Html {
    Html::Text(content.to_string())
}

fn click(msg: Msg) -> Listener {
    Listener { message: Message::Counter(msg), prevent_default: true }
}

fn plain_button(class: &str, onclick: Listener, children: Vec<Html>) -> Html {
    Html::Element {
        tag: "button",
        attributes: vec![attribute("class", class)],
        onclick: Some(onclick),
        children,
    }
}

fn props(style: Option<Style>, block: Option<bool>) -> ButtonProps {
    ButtonProps { children: vec![text("go")], onclick: click(Msg::AddOne), style, block }
}

fn counter_at(value: i64) -> Counter {
    let mut counter = Counter::create();
    for _ in 0..value.unsigned_abs() {
        counter.update(if value < 0 { Msg::SubtractOne } else { Msg::AddOne });
    }
    counter
}

#[test]
fn button_has_a_class_for_each_look() {
    for (style, class) in [
        (Style::Primary, "btn btn-primary btn-lg"),
        (Style::Secondary, "btn btn-secondary btn-lg"),
        (Style::Success, "btn btn-success btn-lg"),
        (Style::Danger, "btn btn-danger btn-lg"),
        (Style::Warning, "btn btn-warning btn-lg"),
        (Style::Info, "btn btn-info btn-lg"),
        (Style::Light, "btn btn-light btn-lg"),
        (Style::Dark, "btn btn-dark btn-lg"),
        (Style::Link, "btn btn-link btn-lg"),
    ] {
        assert_eq!(
            Button::create().view(&props(Some(style), None)),
            plain_button(class, click(Msg::AddOne), vec![text("go")])
        );
    }
}

#[test]
fn button_without_a_look_is_primary() {
    assert_eq!(
        Button::create().view(&props(None, None)),
        Button::create().view(&props(Some(Style::Primary), None))
    );
}

#[test]
fn button_takes_the_full_width_only_when_told_to() {
    let bare = plain_button("btn btn-dark btn-lg", click(Msg::AddOne), vec![text("go")]);
    assert_eq!(Button::create().view(&props(Some(Style::Dark), None)), bare);
    assert_eq!(Button::create().view(&props(Some(Style::Dark), Some(false))), bare);
    assert_eq!(
        Button::create().view(&props(Some(Style::Dark), Some(true))),
        element("div", vec![attribute("class", "d-grid")], vec![bare])
    );
}

#[test]
fn button_keeps_its_children_and_its_listener() {
    let listener = Listener { message: Message::Counter(Msg::SubtractOne), prevent_default: false };
    let given = ButtonProps {
        children: vec![text("a"), element("b", vec![], vec![text("c")])],
        onclick: listener,
        style: Some(Style::Link),
        block: None,
    };
    assert_eq!(
        Button::create().view(&given),
        plain_button(
            "btn btn-link btn-lg",
            listener,
            vec![text("a"), element("b", vec![], vec![text("c")])]
        )
    );
    assert_eq!(given.children.len(), 2);
    let empty = ButtonProps { children: vec![], onclick: listener, style: None, block: None };
    assert_eq!(
        Button::create().view(&empty),
        plain_button("btn btn-primary btn-lg", listener, vec![])
    );
}

#[test]
fn counter_starts_at_zero() {
    assert_eq!(Counter::create().value(), 0);
}

#[test]
fn counter_moves_by_one_and_asks_for_a_redraw() {
    let mut counter = Counter::create();
    assert!(counter.update(Msg::AddOne));
    assert_eq!(counter.value(), 1);
    assert!(counter.update(Msg::AddOne));
    assert_eq!(counter.value(), 2);
    assert!(counter.update(Msg::SubtractOne));
    assert_eq!(counter.value(), 1);
    assert!(counter.update(Msg::SubtractOne));
    assert!(counter.update(Msg::SubtractOne));
    assert_eq!(counter.value(), -1);
}

#[test]
fn adding_and_subtracting_cancel_out() {
    let mut counter = counter_at(5);
    counter.update(Msg::AddOne);
    counter.update(Msg::SubtractOne);
    assert_eq!(counter, counter_at(5));
}

#[test]
fn count_is_shown_two_wide() {
    assert_eq!(shown_text(0), "00");
    assert_eq!(shown_text(1), "01");
    assert_eq!(shown_text(7), "07");
    assert_eq!(shown_text(9), "09");
    assert_eq!(shown_text(10), "10");
    assert_eq!(shown_text(12), "12");
    assert_eq!(shown_text(99), "99");
    assert_eq!(shown_text(100), "100");
    assert_eq!(shown_text(1234567890), "1234567890");
    assert_eq!(shown_text(-1), "-1");
    assert_eq!(shown_text(-9), "-9");
    assert_eq!(shown_text(-10), "-10");
    assert_eq!(shown_text(-305), "-305");
}

#[test]
fn largest_and_smallest_counts_are_shown_in_full() {
    assert_eq!(shown_text(i64::MAX), "9223372036854775807");
    assert_eq!(shown_text(i64::MIN), "-9223372036854775808");
    assert_eq!(shown_text(i64::MIN + 1), "-9223372036854775807");
}

#[test]
fn count_is_shown_as_the_standard_formatter_shows_it() {
    for value in -1200..=1200 {
        assert_eq!(shown_text(value), format!("{:02}", value));
    }
    let mut value: i64 = 1;
    while value < i64::MAX / 7 {
        assert_eq!(shown_text(value), format!("{:02}", value));
        assert_eq!(shown_text(-value), format!("{:02}", -value));
        assert_eq!(shown_text(value - 1), format!("{:02}", value - 1));
        value *= 7;
    }
}

#[test]
fn counter_markup_at_zero() {
    let html = Counter::create().view(&CounterProps { title: "Clicks" });
    let expected = element(
        "div",
        vec![],
        vec![
            element("h1", vec![], vec![text("Clicks")]),
            element(
                "h2",
                vec![],
                vec![
                    plain_button(
                        "btn btn-secondary btn-lg",
                        click(Msg::SubtractOne),
                        vec![text("-")],
                    ),
                    element("span", vec![attribute("class", "mx-2")], vec![text("00")]),
                    plain_button("btn btn-primary btn-lg", click(Msg::AddOne), vec![text("+")]),
                ],
            ),
        ],
    );
    assert_eq!(html, expected);
}

#[test]
fn counter_markup_follows_the_count() {
    let shown = |counter: &Counter| match counter.view(&CounterProps { title: "" }) {
        Html::Element { children, .. } => match &children[1] {
            Html::Element { children, .. } => children[1].clone(),
            other => panic!("not an element: {:?}", other),
        },
        other => panic!("not an element: {:?}", other),
    };
    let span = |content: &str| element("span", vec![attribute("class", "mx-2")], vec![text(content)]);
    assert_eq!(shown(&counter_at(3)), span("03"));
    assert_eq!(shown(&counter_at(-4)), span("-4"));
    assert_eq!(shown(&counter_at(15)), span("15"));
    assert_eq!(shown(&counter_at(-23)), span("-23"));
}
