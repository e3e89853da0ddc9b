//! A counter with a button on either side.
//!
//! The count starts at zero and moves by one with each message. It is shown
//! in decimal, at least two characters wide: a single digit gets a zero in
//! front, a negative number its minus sign.

use vstd::prelude::*;

use crate::components::button::{button_markup, Button, ButtonProps, Style};
use crate::html::{single, Html, Listener, Message, Node};

verus! {

/// What the two buttons ask for.
#[derive(Clone, Copy, Debug, PartialEq, Eq, Structural)]
pub enum Msg {
    AddOne,
    SubtractOne,
}

/// The counter.
#[derive(Clone, Copy, Debug, PartialEq, Eq, Structural)]
pub struct Counter {
    value: i64,
}

/// What the counter is made from.
#[derive(Clone, Copy, Debug, PartialEq, Eq)]
pub struct CounterProps {
    /// The line above the count.
    pub title: &'static str,
}

/// The character for a digit.
pub open spec fn digit(d: int) -> char {
    if d == 0 {
        '0'
    } else if d == 1 {
        '1'
    } else if d == 2 {
        '2'
    } else if d == 3 {
        '3'
    } else if d == 4 {
        '4'
    } else if d == 5 {
        '5'
    } else if d == 6 {
        '6'
    } else if d == 7 {
        '7'
    } else if d == 8 {
        '8'
    } else {
        '9'
    }
}

/// A number in decimal, without leading zeros.
pub open spec fn decimal(n: nat) -> Seq<char>
    decreases n,
{
    if n < 10 {
        Seq::empty().push(digit(n as int))
    } else {
        decimal(n / 10).push(digit((n % 10) as int))
    }
}

/// A count as it is shown: in decimal, with a zero in front of a single
/// digit and a minus sign in front of a negative number.
pub open spec fn shown(value: int) -> Seq<char> {
    if value < 0 {
        Seq::empty().push('-') + decimal((-value) as nat)
    } else if value < 10 {
        Seq::empty().push('0') + decimal(value as nat)
    } else {
        decimal(value as nat)
    }
}

/// What a click on one of the counter's buttons does: it tells the counter,
/// and keeps the browser from doing anything of its own.
pub open spec fn counter_click(msg: Msg) -> Listener {
    Listener { message: Message::Counter(msg), prevent_default: true }
}

/// The markup of the counter: the title, and under it the count between a
/// minus button and a plus button.
pub open spec fn counter_markup(title: Seq<char>, value: int) -> Node {
    Node::element("div"@).child(Node::element("h1"@).child(Node::text(title))).child(
        Node::element("h2"@).child(
            button_markup(
                Seq::empty().push(Node::text("-"@)),
                counter_click(Msg::SubtractOne),
                Some(Style::Secondary),
                Some(false),
            ),
        ).child(
            Node::element("span"@).attr("class"@, "mx-2"@).child(Node::text(shown(value))),
        ).child(
            button_markup(
                Seq::empty().push(Node::text("+"@)),
                counter_click(Msg::AddOne),
                Some(Style::Primary),
                Some(false),
            ),
        ),
    )
}

/// The text of one digit.
fn digit_text(d: u64) -> (text: &'static str)
    requires
        d < 10,
    ensures
        text@ == Seq::empty().push(digit(d as int)),
{
    proof {
        reveal_strlit("0");
        reveal_strlit("1");
        reveal_strlit("2");
        reveal_strlit("3");
        reveal_strlit("4");
        reveal_strlit("5");
        reveal_strlit("6");
        reveal_strlit("7");
        reveal_strlit("8");
        reveal_strlit("9");
    }
    let text = if d == 0 {
        "0"
    } else if d == 1 {
        "1"
    } else if d == 2 {
        "2"
    } else if d == 3 {
        "3"
    } else if d == 4 {
        "4"
    } else if d == 5 {
        "5"
    } else if d == 6 {
        "6"
    } else if d == 7 {
        "7"
    } else if d == 8 {
        "8"
    } else {
        "9"
    };
    proof {
        assert(text@ =~= Seq::empty().push(digit(d as int)));
    }
    text
}

/// Writes a number in decimal.
fn decimal_text(n: u64) -> (text: String)
    ensures
        text@ == decimal(n as nat),
    decreases n,
{
    if n < 10 {
        String::from_str(digit_text(n))
    } else {
        let mut text = decimal_text(n / 10);
        text.append(digit_text(n % 10));
        proof {
            assert(text@ =~= decimal((n / 10) as nat).push(digit((n % 10) as int)));
        }
        text
    }
}

/// Writes a count as it is shown.
pub fn shown_text(value: i64) -> (text: String)
    ensures
        text@ == shown(value as int),
{
    proof {
        reveal_strlit("-");
        reveal_strlit("0");
    }
    if value < 0 {
        let magnitude: u64 = if value == i64::MIN {
            9223372036854775808u64
        } else {
            (-value) as u64
        };
        let digits = decimal_text(magnitude);
        let text = String::from_str("-").concat(digits.as_str());
        proof {
            assert("-"@ =~= Seq::empty().push('-'));
        }
        text
    } else if value < 10 {
        let digits = decimal_text(value as u64);
        let text = String::from_str("0").concat(digits.as_str());
        proof {
            assert("0"@ =~= Seq::empty().push('0'));
        }
        text
    } else {
        decimal_text(value as u64)
    }
}

impl Counter {
    /// The count.
    pub closed spec fn count(&self) -> int {
        self.value as int
    }

    /// A counter at zero.
    pub fn create() -> (counter: Counter)
        ensures
            counter.count() == 0,
    {
        Counter { value: 0 }
    }

    /// The count.
    pub fn value(&self) -> (value: i64)
        ensures
            value == self.count(),
    {
        self.value
    }

    /// Moves the count by one, up or down as the message says, and asks for
    /// a redraw. The count has to have room to move: it cannot go above the
    /// largest or below the smallest 64-bit number.
    pub fn update(&mut self, msg: Msg) -> (redraw: bool)
        requires
            msg == Msg::AddOne ==> old(self).count() < i64::MAX,
            msg == Msg::SubtractOne ==> old(self).count() > i64::MIN,
        ensures
            msg == Msg::AddOne ==> final(self).count() == old(self).count() + 1,
            msg == Msg::SubtractOne ==> final(self).count() == old(self).count() - 1,
            redraw,
    {
        match msg {
            Msg::AddOne => {
                self.value += 1;
                true
            },
            Msg::SubtractOne => {
                self.value -= 1;
                true
            },
        }
    }

    /// The markup of the counter.
    pub fn view(&self, props: &CounterProps) -> (html: Html)
        ensures
            html@ == counter_markup(props.title@, self.count()),
    {
        let sub = Listener { message: Message::Counter(Msg::SubtractOne), prevent_default: true };
        let add = Listener { message: Message::Counter(Msg::AddOne), prevent_default: true };
        let less = Button::create().view(
            &ButtonProps {
                children: single(Html::text("-")),
                onclick: sub,
                style: Some(Style::Secondary),
                block: Some(false),
            },
        );
        let more = Button::create().view(
            &ButtonProps {
                children: single(Html::text("+")),
                onclick: add,
                style: Some(Style::Primary),
                block: Some(false),
            },
        );
        Html::element("div").child(Html::element("h1").child(Html::text(props.title))).child(
            Html::element("h2").child(less).child(
                Html::element("span").attr("class", "mx-2").child(
                    Html::Text(shown_text(self.value)),
                ),
            ).child(more),
        )
    }
}

} // verus!
