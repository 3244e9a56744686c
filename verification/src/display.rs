//! A channel as lines of text, for printing it outside the panes.

use vstd::prelude::*;
use vstd::string::*;
use crate::model::{Channel, ChannelView, Item, ItemView, item_views, opt_text};

verus! {

/// What a line of a report holds. Whoever prints the report picks a colour
/// by it.
#[derive(Debug, Clone, Copy, PartialEq, Eq, Structural)]
pub enum LineKind {
    ChannelTitle,
    ChannelDescription,
    ItemTitle,
    ItemDescription,
    ItemLink,
    /// The address of an item's enclosure.
    EnclosureLink,
    ItemDate,
    /// The empty line that ends an item.
    Blank,
}

/// One line of a report.
#[derive(Debug)]
pub struct ReportLine {
    pub kind: LineKind,
    pub text: String,
}

impl View for ReportLine {
    type V = (LineKind, Seq<char>);

    open spec fn view(&self) -> (LineKind, Seq<char>) {
        (self.kind, self.text@)
    }
}

/// The views of a sequence of lines.
pub open spec fn line_views(s: Seq<ReportLine>) -> Seq<(LineKind, Seq<char>)> {
    s.map_values(|l: ReportLine| l@)
}

/// A line for a text that is there, no line for one that is not.
pub open spec fn line_if_some(kind: LineKind, text: Option<Seq<char>>) -> Seq<
    (LineKind, Seq<char>),
> {
    match text {
        Some(t) => seq![(kind, t)],
        None => Seq::empty(),
    }
}

/// The address of an item's enclosure, if it has one.
pub open spec fn enclosure_url(item: ItemView) -> Option<Seq<char>> {
    match item.enclosure {
        Some(enclosure) => Some(enclosure.url),
        None => None,
    }
}

/// The lines of one item: its first title, its description, its link, the
/// address of its enclosure and its date, each if it is there, and an empty
/// line.
pub open spec fn item_report(item: ItemView) -> Seq<(LineKind, Seq<char>)> {
    line_if_some(LineKind::ItemTitle, item.first_title()) + line_if_some(
        LineKind::ItemDescription,
        item.description,
    ) + line_if_some(LineKind::ItemLink, item.link) + line_if_some(
        LineKind::EnclosureLink,
        enclosure_url(item),
    ) + line_if_some(LineKind::ItemDate, item.pub_date) + seq![
        (LineKind::Blank, Seq::<char>::empty()),
    ]
}

/// The lines of a sequence of items, item after item.
pub open spec fn items_report(items: Seq<ItemView>) -> Seq<(LineKind, Seq<char>)>
    decreases items.len(),
{
    if items.len() == 0 {
        Seq::empty()
    } else {
        items_report(items.drop_last()) + item_report(items.last())
    }
}

/// The lines of a channel: its title, its description, then its items.
pub open spec fn report_of(channel: ChannelView) -> Seq<(LineKind, Seq<char>)> {
    seq![
        (LineKind::ChannelTitle, channel.title),
        (LineKind::ChannelDescription, channel.description),
    ] + items_report(channel.items)
}

/// Adds a line for a text that is there.
fn push_if_some(lines: &mut Vec<ReportLine>, kind: LineKind, text: &Option<String>)
    ensures
        line_views(final(lines)@) == line_views(old(lines)@) + line_if_some(kind, opt_text(*text)),
{
    match text {
        Some(t) => {
            lines.push(ReportLine { kind, text: t.clone() });
            assert(line_views(lines@) =~= line_views(old(lines)@) + seq![(kind, t@)]);
        },
        None => {
            assert(line_views(lines@) =~= line_views(old(lines)@) + Seq::empty());
        },
    }
}

/// Adds the lines of one item.
fn push_item(lines: &mut Vec<ReportLine>, item: &Item)
    ensures
        line_views(final(lines)@) == line_views(old(lines)@) + item_report(item@),
{
    let title = match &item.title {
        Some(titles) => if titles.len() > 0 {
            Some(titles[0].clone())
        } else {
            None
        },
        None => None,
    };
    let url = match &item.enclosure {
        Some(enclosure) => Some(enclosure.url.clone()),
        None => None,
    };
    push_if_some(lines, LineKind::ItemTitle, &title);
    push_if_some(lines, LineKind::ItemDescription, &item.description);
    push_if_some(lines, LineKind::ItemLink, &item.link);
    push_if_some(lines, LineKind::EnclosureLink, &url);
    push_if_some(lines, LineKind::ItemDate, &item.pub_date);
    let ghost before = line_views(lines@);
    lines.push(ReportLine { kind: LineKind::Blank, text: String::new() });
    assert(line_views(lines@) =~= before + seq![(LineKind::Blank, Seq::<char>::empty())]);
    assert(line_views(lines@) =~= line_views(old(lines)@) + item_report(item@));
}

/// The lines of a channel.
pub fn channel_report(channel: &Channel) -> (lines: Vec<ReportLine>)
    ensures
        line_views(lines@) == report_of(channel@),
{
    let ghost items = item_views(channel.items@);
    let ghost head = seq![
        (LineKind::ChannelTitle, channel.title@),
        (LineKind::ChannelDescription, channel.description@),
    ];
    let mut lines: Vec<ReportLine> = Vec::new();
    lines.push(ReportLine { kind: LineKind::ChannelTitle, text: channel.title.clone() });
    lines.push(
        ReportLine { kind: LineKind::ChannelDescription, text: channel.description.clone() },
    );
    assert(line_views(lines@) =~= head + items_report(items.take(0)));
    let mut i: usize = 0;
    while i < channel.items.len()
        invariant
            i <= channel.items.len(),
            items == item_views(channel.items@),
            head == seq![
                (LineKind::ChannelTitle, channel.title@),
                (LineKind::ChannelDescription, channel.description@),
            ],
            line_views(lines@) == head + items_report(items.take(i as int)),
        decreases channel.items.len() - i,
    {
        proof {
            let next = items.take(i + 1);
            assert(next.drop_last() =~= items.take(i as int));
            assert(next.last() == channel.items@[i as int]@);
        }
        push_item(&mut lines, &channel.items[i]);
        assert(line_views(lines@) =~= head + items_report(items.take(i + 1)));
        i += 1;
    }
    assert(items.take(i as int) =~= items);
    lines
}

} // verus!
