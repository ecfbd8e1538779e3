//! Reading the values of an element's children.

use vstd::prelude::*;
use vstd::string::StringExecFns;
use xmltree::Element;

use crate::message::document::{children, first_child, get_child, get_text, text_of, Node};
use crate::message::error::{ParseError, ParseErrorView};

verus! {

/// Whether two strings hold the same characters.
pub fn same_text(a: &str, b: &str) -> (r: bool)
    ensures
        r == (a@ == b@),
{
    a.to_owned() == b.to_owned()
}

/// The view of a decoded text, or of the error in its place.
pub open spec fn parsed_text(r: Result<String, ParseError>) -> Result<Seq<char>, ParseErrorView> {
    match r {
        Ok(text) => Ok(text@),
        Err(e) => Err(e@),
    }
}

/// The children of the child `name` among `nodes`, which has to be there.
pub open spec fn required_child(nodes: Seq<Node>, name: Seq<char>) -> Result<
    Seq<Node>,
    ParseErrorView,
> {
    match first_child(nodes, name) {
        Some(found) => Ok(found),
        None => Err(ParseErrorView::MalformedDocument { missing: Some(name) }),
    }
}

/// The text of the child `name` among `nodes`. A child that is absent and a
/// child without text both count as missing.
pub open spec fn child_value(nodes: Seq<Node>, name: Seq<char>) -> Result<
    Seq<char>,
    ParseErrorView,
> {
    match first_child(nodes, name) {
        Some(found) => match text_of(found) {
            Some(text) => Ok(text),
            None => Err(ParseErrorView::MalformedDocument { missing: Some(name) }),
        },
        None => Err(ParseErrorView::MalformedDocument { missing: Some(name) }),
    }
}

/// Finds the child `name` of `element`.
pub fn read_child<'a>(element: &'a Element, name: &str) -> (r: Result<&'a Element, ParseError>)
    ensures
        match r {
            Ok(child) => required_child(children(*element), name@) == Ok::<
                Seq<Node>,
                ParseErrorView,
            >(children(*child)),
            Err(e) => required_child(children(*element), name@) == Err::<
                Seq<Node>,
                ParseErrorView,
            >(e@),
        },
{
    match get_child(element, name) {
        Some(child) => Ok(child),
        None => Err(ParseError::missing_element(name)),
    }
}

/// Reads the text of the child `name` of `element`.
pub fn read_child_value(element: &Element, name: &str) -> (r: Result<String, ParseError>)
    ensures
        parsed_text(r) == child_value(children(*element), name@),
{
    match get_child(element, name) {
        Some(child) => match get_text(child) {
            Some(text) => Ok(text),
            None => Err(ParseError::missing_element(name)),
        },
        None => Err(ParseError::missing_element(name)),
    }
}

/// The character of the decimal digit `d`.
pub open spec fn digit(d: nat) -> char
    recommends
        d < 10,
{
    if d == 0 {
        '0'
    } else if d == 1 {
        '1'
    } else if d == 2 {
        '2'
    } else if d == 3 {
        '3'
    } else if d == 4 {
        '4'
    } else if d == 5 {
        '5'
    } else if d == 6 {
        '6'
    } else if d == 7 {
        '7'
    } else if d == 8 {
        '8'
    } else {
        '9'
    }
}

/// The decimal numeral of `n`, without sign and without leading zeros.
pub open spec fn decimal(n: nat) -> Seq<char>
    decreases n,
{
    if n < 10 {
        seq![digit(n)]
    } else {
        decimal(n / 10).push(digit(n % 10))
    }
}

fn digit_text(d: u32) -> (text: &'static str)
    requires
        d < 10,
    ensures
        text@ == seq![digit(d as nat)],
{
    proof {
        reveal_strlit("0");
        reveal_strlit("1");
        reveal_strlit("2");
        reveal_strlit("3");
        reveal_strlit("4");
        reveal_strlit("5");
        reveal_strlit("6");
        reveal_strlit("7");
        reveal_strlit("8");
        reveal_strlit("9");
    }
    let text = if d == 0 {
        "0"
    } else if d == 1 {
        "1"
    } else if d == 2 {
        "2"
    } else if d == 3 {
        "3"
    } else if d == 4 {
        "4"
    } else if d == 5 {
        "5"
    } else if d == 6 {
        "6"
    } else if d == 7 {
        "7"
    } else if d == 8 {
        "8"
    } else {
        "9"
    };
    assert(text@ =~= seq![digit(d as nat)]);
    text
}

fn append_decimal(out: &mut String, n: u32)
    ensures
        final(out)@ == old(out)@ + decimal(n as nat),
    decreases n,
{
    if n >= 10 {
        append_decimal(out, n / 10);
    }
    out.append(digit_text(n % 10));
    assert(old(out)@ + decimal(n as nat) =~= if n >= 10 {
        old(out)@ + decimal((n / 10) as nat) + seq![digit((n % 10) as nat)]
    } else {
        old(out)@ + seq![digit(n as nat)]
    });
}

/// Writes `n` as a decimal numeral.
pub fn decimal_text(n: u32) -> (text: String)
    ensures
        text@ == decimal(n as nat),
{
    let mut text = String::new();
    append_decimal(&mut text, n);
    assert(Seq::<char>::empty() + decimal(n as nat) =~= decimal(n as nat));
    text
}

} // verus!
