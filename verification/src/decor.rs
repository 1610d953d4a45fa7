//! Pieces of a festive page: a lit star, presents that change colour when
//! asked, and ornaments that blink. Text that comes from a caller is escaped
//! before it is written into markup.

use crate::text::same_text;
use vstd::prelude::*;

verus! {

/// What one character becomes in escaped text: `&`, `<` and `>` turn into
/// their entities, every other character stays.
pub open spec fn escaped_char(c: char) -> Seq<char> {
    if c == '&' {
        "&amp;"@
    } else if c == '<' {
        "&lt;"@
    } else if c == '>' {
        "&gt;"@
    } else {
        seq![c]
    }
}

/// `text` with each of its characters escaped.
pub open spec fn escaped(text: Seq<char>) -> Seq<char>
    decreases text.len(),
{
    if text.len() == 0 {
        Seq::<char>::empty()
    } else {
        escaped(text.drop_last()) + escaped_char(text.last())
    }
}

/// Calls `html_escape::encode_text`. Trusted: the result is the text with
/// every `&`, `<` and `>` replaced by `&amp;`, `&lt;` and `&gt;`, and all
/// else as it was.
#[verifier::external_body]
fn escape_text(text: &str) -> (safe: String)
    ensures
        safe@ == escaped(text@),
{
    html_escape::encode_text(text).into_owned()
}

/// The star, lit.
pub open spec fn star_markup() -> Seq<char> {
    "<div id=\"star\" class=\"lit\"></div>"@
}

/// The markup of the lit star.
pub fn star() -> (markup: &'static str)
    ensures
        markup@ == star_markup(),
{
    "<div id=\"star\" class=\"lit\"></div>"
}

/// The colour that follows `color` when a present is touched: red turns
/// blue, blue turns purple, purple turns red. No other colour is known.
pub open spec fn next_color_of(color: Seq<char>) -> Option<Seq<char>> {
    if color == "red"@ {
        Some("blue"@)
    } else if color == "blue"@ {
        Some("purple"@)
    } else if color == "purple"@ {
        Some("red"@)
    } else {
        None
    }
}

/// The colour that follows `color`.
pub fn next_color(color: &str) -> (next: Option<&'static str>)
    ensures
        next matches Some(name) ==> next_color_of(color@) == Some(name@),
        next is None ==> next_color_of(color@) is None,
{
    if same_text(color, "red") {
        Some("blue")
    } else if same_text(color, "blue") {
        Some("purple")
    } else if same_text(color, "purple") {
        Some("red")
    } else {
        None
    }
}

/// The markup of a present of colour `color` that asks for colour `next`
/// when touched.
pub open spec fn present_of(color: Seq<char>, next: Seq<char>) -> Seq<char> {
    "<div class=\"present "@ + color + "\" hx-get=\"/23/present/"@ + next
        + "\" hx-swap=\"outerHTML\">\n                    <div class=\"ribbon\"></div>\n                    <div class=\"ribbon\"></div>\n                    <div class=\"ribbon\"></div>\n                    <div class=\"ribbon\"></div>\n                </div>"@
}

/// The markup of the present of colour `color`, if that colour, once
/// escaped, is a known one.
pub open spec fn present_markup(color: Seq<char>) -> Option<Seq<char>> {
    match next_color_of(escaped(color)) {
        Some(next) => Some(present_of(escaped(color), next)),
        None => None,
    }
}

/// The markup of the present of colour `color`: a box with four ribbons that
/// asks for its next colour when touched. There is none for a colour that is
/// not red, blue or purple.
pub fn present(color: &str) -> (markup: Option<String>)
    ensures
        markup matches Some(text) ==> present_markup(color@) == Some(text@),
        markup is None ==> present_markup(color@) is None,
{
    let color = escape_text(color);
    match next_color(color.as_str()) {
        Some(next) => {
            let mut text = String::new();
            text.append("<div class=\"present ");
            text.append(color.as_str());
            text.append("\" hx-get=\"/23/present/");
            text.append(next);
            text.append(
                "\" hx-swap=\"outerHTML\">\n                    <div class=\"ribbon\"></div>\n                    <div class=\"ribbon\"></div>\n                    <div class=\"ribbon\"></div>\n                    <div class=\"ribbon\"></div>\n                </div>",
            );
            assert(text@ =~= present_of(color@, next@));
            Some(text)
        },
        None => None,
    }
}

/// Whether an ornament in state `state` is lit; nothing but `on` and `off`
/// is a state.
pub open spec fn lit_of(state: Seq<char>) -> Option<bool> {
    if state == "on"@ {
        Some(true)
    } else if state == "off"@ {
        Some(false)
    } else {
        None
    }
}

/// The markup of ornament `n`, lit or not, that asks for its other state two
/// seconds after it has loaded.
pub open spec fn ornament_of(lit: bool, n: Seq<char>) -> Seq<char> {
    "<div class=\""@ + (if lit {
        "ornament on"@
    } else {
        "ornament"@
    }) + "\" id=\"ornament"@ + n + "\" hx-trigger=\"load delay:2s once\" hx-get=\"/23/ornament/"@
        + (if lit {
        "off"@
    } else {
        "on"@
    }) + "/"@ + n + "\" hx-swap=\"outerHTML\"></div>"@
}

/// The markup of ornament `n` in state `state`, both escaped, if that is a
/// state.
pub open spec fn ornament_markup(state: Seq<char>, n: Seq<char>) -> Option<Seq<char>> {
    match lit_of(escaped(state)) {
        Some(lit) => Some(ornament_of(lit, escaped(n))),
        None => None,
    }
}

/// The markup of ornament `n` in state `state`. There is none for a state
/// that is neither `on` nor `off`.
pub fn ornament(state: &str, n: &str) -> (markup: Option<String>)
    ensures
        markup matches Some(text) ==> ornament_markup(state@, n@) == Some(text@),
        markup is None ==> ornament_markup(state@, n@) is None,
{
    let state = escape_text(state);
    let n = escape_text(n);
    let lit = same_text(state.as_str(), "on");
    if !lit && !same_text(state.as_str(), "off") {
        return None;
    }
    let mut text = String::new();
    text.append("<div class=\"");
    text.append(
        if lit {
            "ornament on"
        } else {
            "ornament"
        },
    );
    text.append("\" id=\"ornament");
    text.append(n.as_str());
    text.append("\" hx-trigger=\"load delay:2s once\" hx-get=\"/23/ornament/");
    text.append(
        if lit {
            "off"
        } else {
            "on"
        },
    );
    text.append("/");
    text.append(n.as_str());
    text.append("\" hx-swap=\"outerHTML\"></div>");
    assert(text@ =~= ornament_of(lit, n@));
    Some(text)
}

} // verus!
