//! Gift orders sent as a package manifest: which formats are read, what a
//! manifest must say to be taken, and the order sheet that is sent back.

use crate::text::{decimal, join, push_decimal, same_text};
use vstd::prelude::*;

verus! {

/// A format in which a manifest may be written.
#[derive(Clone, Copy, Debug, PartialEq, Eq, Structural)]
pub enum Format {
    Toml,
    Yaml,
    Json,
}

/// One order: so many of an item.
#[derive(Debug, PartialEq, Eq)]
pub struct Order {
    pub item: String,
    pub quantity: u32,
}

/// What a manifest's package says, as far as the orders go.
#[derive(Debug, PartialEq, Eq)]
pub struct Package {
    /// The keywords that the package itself lists, if it lists any.
    pub keywords: Option<Vec<String>>,
    /// The entries of the order list, if there is a list; an entry that is
    /// no order is `None`.
    pub orders: Option<Vec<Option<Order>>>,
}

/// What is answered to a manifest.
#[derive(Debug, PartialEq, Eq)]
pub enum Reply {
    /// The manifest cannot be read, or is turned down for the reason given.
    BadRequest(String),
    /// There is nothing to order.
    NoContent,
    /// The order sheet.
    Sheet(String),
}

/// A reply, with its text as characters.
pub enum ReplyView {
    BadRequest(Seq<char>),
    NoContent,
    Sheet(Seq<char>),
}

impl View for Reply {
    type V = ReplyView;

    open spec fn view(&self) -> ReplyView {
        match self {
            Reply::BadRequest(reason) => ReplyView::BadRequest(reason@),
            Reply::NoContent => ReplyView::NoContent,
            Reply::Sheet(sheet) => ReplyView::Sheet(sheet@),
        }
    }
}

/// The format that a content type names, if it names one.
pub open spec fn format_named(content_type: Seq<char>) -> Option<Format> {
    if content_type == "application/toml"@ {
        Some(Format::Toml)
    } else if content_type == "application/yaml"@ {
        Some(Format::Yaml)
    } else if content_type == "application/json"@ {
        Some(Format::Json)
    } else {
        None
    }
}

/// The format in which a body of the given content type is written. A body
/// without a content type, or of any other, is not read.
pub fn format_of(content_type: Option<&str>) -> (format: Option<Format>)
    ensures
        format == match content_type {
            Some(name) => format_named(name@),
            None => None,
        },
{
    match content_type {
        Some(name) => {
            if same_text(name, "application/toml") {
                Some(Format::Toml)
            } else if same_text(name, "application/yaml") {
                Some(Format::Yaml)
            } else if same_text(name, "application/json") {
                Some(Format::Json)
            } else {
                None
            }
        },
        None => None,
    }
}

/// The keyword without which no manifest is taken.
pub open spec fn magic_keyword() -> Seq<char> {
    "Christmas 2024"@
}

/// Whether the magic keyword is among `keywords`.
pub open spec fn has_magic(keywords: Seq<String>) -> bool {
    exists|i: int| 0 <= i < keywords.len() && (#[trigger] keywords[i])@ == magic_keyword()
}

/// Whether the magic keyword is among `keywords`.
pub fn has_magic_keyword(keywords: &Vec<String>) -> (found: bool)
    ensures
        found == has_magic(keywords@),
{
    let mut i: usize = 0;
    while i < keywords.len()
        invariant
            i <= keywords.len(),
            forall|k: int| 0 <= k < i ==> (#[trigger] keywords@[k])@ != magic_keyword(),
        decreases keywords.len() - i,
    {
        if same_text(keywords[i].as_str(), "Christmas 2024") {
            return true;
        }
        i += 1;
    }
    false
}

/// The orders among `entries`, in their order.
pub open spec fn orders_among(entries: Seq<Option<Order>>) -> Seq<Order>
    decreases entries.len(),
{
    if entries.len() == 0 {
        Seq::<Order>::empty()
    } else {
        match entries.last() {
            Some(order) => orders_among(entries.drop_last()).push(order),
            None => orders_among(entries.drop_last()),
        }
    }
}

/// The line of an order: the item, a colon, a space and the quantity.
pub open spec fn order_line(order: Order) -> Seq<char> {
    order.item@ + ": "@ + decimal(order.quantity as nat)
}

/// The line of each order.
pub open spec fn order_lines(orders: Seq<Order>) -> Seq<Seq<char>> {
    Seq::new(orders.len(), |i: int| order_line(orders[i]))
}

/// The order sheet: one line for each order, with a line feed between each
/// two of them.
pub open spec fn sheet_of(orders: Seq<Order>) -> Seq<char> {
    join(order_lines(orders), "\n"@)
}

/// What is answered to a manifest that was read as `package`; `None` stands
/// for one that could not be read or has no package. In order: without a
/// package the manifest is invalid; without the magic keyword among the
/// package's own keywords it is turned down; without an order on its list,
/// or without a list, there is nothing to send; else the order sheet is sent.
pub open spec fn answer_to(package: Option<Package>) -> ReplyView {
    match package {
        None => ReplyView::BadRequest("Invalid manifest"@),
        Some(package) => if !(package.keywords matches Some(keywords) && has_magic(keywords@)) {
            ReplyView::BadRequest("Magic keyword not provided"@)
        } else if package.orders matches Some(entries) && orders_among(entries@).len() > 0 {
            ReplyView::Sheet(sheet_of(orders_among(package.orders.unwrap()@)))
        } else {
            ReplyView::NoContent
        },
    }
}

/// What each text holds.
pub open spec fn views_of(texts: Seq<String>) -> Seq<Seq<char>> {
    Seq::new(texts.len(), |i: int| texts[i]@)
}

/// Calls `itertools::Itertools::join` on the texts of `lines`. Trusted: the
/// result is the texts in their order with `separator` between each two of
/// them, and the empty text for no lines. The separator is at most one
/// character long, so that the room that `join` sets aside, the separator's
/// length times the number of lines, is a number that fits.
#[verifier::external_body]
fn join_texts(lines: &Vec<String>, separator: &str) -> (text: String)
    requires
        separator@.len() <= 1,
    ensures
        text@ == join(views_of(lines@), separator@),
{
    itertools::Itertools::join(&mut lines.iter(), separator)
}

/// The line of an order.
pub fn line_of(order: &Order) -> (line: String)
    ensures
        line@ == order_line(*order),
{
    let mut line = order.item.clone();
    line.append(": ");
    push_decimal(&mut line, order.quantity as u64);
    line
}

/// The order sheet of the orders among `entries`; entries that are no order
/// are passed over.
pub fn order_sheet(entries: &Vec<Option<Order>>) -> (sheet: String)
    ensures
        sheet@ == sheet_of(orders_among(entries@)),
{
    let mut lines: Vec<String> = Vec::new();
    let mut i: usize = 0;
    while i < entries.len()
        invariant
            i <= entries.len(),
            views_of(lines@) == order_lines(orders_among(entries@.take(i as int))),
        decreases entries.len() - i,
    {
        proof {
            assert(entries@.take(i + 1).drop_last() =~= entries@.take(i as int));
            assert(entries@.take(i + 1).last() == entries@[i as int]);
        }
        let ghost before = views_of(lines@);
        match &entries[i] {
            Some(order) => {
                lines.push(line_of(order));
                assert(views_of(lines@) =~= before.push(order_line(*order)));
                assert(order_lines(orders_among(entries@.take(i + 1))) =~= order_lines(
                    orders_among(entries@.take(i as int)),
                ).push(order_line(*order)));
            },
            None => {},
        }
        i += 1;
    }
    assert(entries@.take(i as int) =~= entries@);
    proof {
        reveal_strlit("\n");
    }
    join_texts(&lines, "\n")
}

/// Answers a manifest that was read as `package`; `None` stands for one that
/// could not be read or has no package.
pub fn answer(package: Option<&Package>) -> (reply: Reply)
    ensures
        reply@ == answer_to(
            match package {
                Some(package) => Some(*package),
                None => None,
            },
        ),
{
    let package = match package {
        Some(package) => package,
        None => {
            return Reply::BadRequest("Invalid manifest".to_owned());
        },
    };
    let magic = match &package.keywords {
        Some(keywords) => has_magic_keyword(keywords),
        None => false,
    };
    if !magic {
        return Reply::BadRequest("Magic keyword not provided".to_owned());
    }
    match &package.orders {
        Some(entries) => {
            if count_orders(entries) == 0 {
                Reply::NoContent
            } else {
                Reply::Sheet(order_sheet(entries))
            }
        },
        None => Reply::NoContent,
    }
}

/// How many of `entries` are orders.
pub fn count_orders(entries: &Vec<Option<Order>>) -> (count: usize)
    ensures
        count == orders_among(entries@).len(),
{
    let mut count: usize = 0;
    let mut i: usize = 0;
    while i < entries.len()
        invariant
            i <= entries.len(),
            count <= i,
            count == orders_among(entries@.take(i as int)).len(),
        decreases entries.len() - i,
    {
        proof {
            assert(entries@.take(i + 1).drop_last() =~= entries@.take(i as int));
            assert(entries@.take(i + 1).last() == entries@[i as int]);
        }
        if entries[i].is_some() {
            count += 1;
        }
        i += 1;
    }
    assert(entries@.take(i as int) =~= entries@);
    count
}

} // verus!
