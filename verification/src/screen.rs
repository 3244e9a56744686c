//! What one frame shows: the texts of the panes, read off the state. Drawing
//! them is left to whoever owns the terminal.

use vstd::prelude::*;
use vstd::string::*;
use crate::app::{App, AppState, AppView, SelectedPane};
use crate::markup::{
    MarkupError,
    TAG_PATTERN,
    entities_decoded,
    plain_text,
    regex_accepts,
    regex_replaced,
};
use crate::model::{ChannelView, ItemView, opt_text, texts, clone_opt_text};

verus! {

/// The head line of the screen.
pub const HEADER_TEXT: &'static str =
    "RRSS rss reader\n        [R]efresh channnel | [S]ave channels | [A]dd channel";

/// What the head line adds while the item pane has the focus.
pub const ITEM_KEYS_TEXT: &'static str = " | [O]pen | [D]ownload ";

/// What the item pane lists while no channel is selected.
pub const DEFAULT_ITEMS_TEXT: &'static str = "We are default items";

/// How wide a popup is, in hundredths of the screen.
pub const POPUP_WIDTH: u16 = 80;

/// How high a popup is, in hundredths of the screen.
pub const POPUP_HEIGHT: u16 = 10;

/// The frame round a pane.
#[derive(Debug, Clone, Copy, PartialEq, Eq, Structural)]
pub enum BorderKind {
    Thick,
    Plain,
}

/// The frame round a pane: thick where the pane has the focus.
pub fn get_border_type(selected: bool) -> (r: BorderKind)
    ensures
        r == if selected {
            BorderKind::Thick
        } else {
            BorderKind::Plain
        },
{
    if selected {
        BorderKind::Thick
    } else {
        BorderKind::Plain
    }
}

/// The three parts, in hundredths, into which a length is cut so that the
/// middle part takes `percent` of it and stands in the centre.
pub fn centered_parts(percent: u16) -> (r: (u16, u16, u16))
    requires
        percent <= 100,
    ensures
        r.0 == (100 - percent) / 2,
        r.1 == percent,
        r.2 == (100 - percent) / 2,
{
    ((100 - percent) / 2, percent, (100 - percent) / 2)
}

/// The head line while `pane` has the focus.
pub open spec fn header_of(pane: SelectedPane) -> Seq<char> {
    match pane {
        SelectedPane::Channels => HEADER_TEXT@,
        SelectedPane::Items => HEADER_TEXT@ + ITEM_KEYS_TEXT@,
    }
}

/// The head line while `pane` has the focus.
pub fn header_text(pane: SelectedPane) -> (r: String)
    ensures
        r@ == header_of(pane),
{
    match pane {
        SelectedPane::Channels => HEADER_TEXT.to_owned(),
        SelectedPane::Items => HEADER_TEXT.to_owned().concat(ITEM_KEYS_TEXT),
    }
}

impl AppView {
    /// The lines of the channel pane: the titles of the channels.
    pub open spec fn channel_lines(self) -> Seq<Seq<char>> {
        self.channels.channels.map_values(|c: ChannelView| c.title)
    }

    /// The lines of the item pane: the titles under which the current items
    /// are listed, or one fixed line while no channel is selected.
    pub open spec fn item_lines(self) -> Seq<Seq<char>> {
        if self.channels.selected_value() is Some {
            self.current_items.items.map_values(|i: ItemView| i.listed_title())
        } else {
            seq![DEFAULT_ITEMS_TEXT@]
        }
    }

    /// What a frame shows of this state, where the content pane shows
    /// `content`.
    pub open spec fn screen(self, content: Seq<char>) -> ScreenView {
        ScreenView {
            header: header_of(self.selected_pane),
            channels_border: if self.selected_pane == SelectedPane::Channels {
                BorderKind::Thick
            } else {
                BorderKind::Plain
            },
            channel_titles: self.channel_lines(),
            items_border: if self.selected_pane == SelectedPane::Items {
                BorderKind::Thick
            } else {
                BorderKind::Plain
            },
            item_titles: self.item_lines(),
            content,
            info_popup: self.info_popup_text,
            dialog_open: self.state == AppState::AddChannel,
        }
    }
}

/// The lines of the channel pane.
pub fn channel_titles(app: &App) -> (r: Vec<String>)
    ensures
        texts(r@) == app@.channel_lines(),
{
    let mut titles: Vec<String> = Vec::new();
    let mut i: usize = 0;
    while i < app.channels.channels.len()
        invariant
            i <= app.channels.channels.len(),
            titles.len() == i,
            forall|k: int| 0 <= k < i ==> titles@[k]@ == app.channels.channels@[k]@.title,
        decreases app.channels.channels.len() - i,
    {
        titles.push(app.channels.channels[i].title.clone());
        i += 1;
    }
    assert(texts(titles@) =~= app@.channel_lines());
    titles
}

/// The lines of the item pane.
pub fn item_titles(app: &App) -> (r: Vec<String>)
    ensures
        texts(r@) == app@.item_lines(),
{
    let mut titles: Vec<String> = Vec::new();
    if app.get_selected_channel().is_some() {
        let mut i: usize = 0;
        while i < app.current_items.items.len()
            invariant
                i <= app.current_items.items.len(),
                titles.len() == i,
                forall|k: int|
                    0 <= k < i ==> titles@[k]@ == app.current_items.items@[k]@.listed_title(),
            decreases app.current_items.items.len() - i,
        {
            titles.push(app.current_items.items[i].get_title());
            i += 1;
        }
        assert(texts(titles@) =~= app@.item_lines());
    } else {
        titles.push(DEFAULT_ITEMS_TEXT.to_owned());
        assert(texts(titles@) =~= app@.item_lines());
    }
    titles
}

/// What one frame shows.
#[derive(Debug)]
pub struct Screen {
    pub header: String,
    pub channels_border: BorderKind,
    pub channel_titles: Vec<String>,
    pub items_border: BorderKind,
    pub item_titles: Vec<String>,
    /// The text of the content pane, as plain text.
    pub content: String,
    /// The text of the info popup, where one is up.
    pub info_popup: Option<String>,
    /// The add-channel dialog is up.
    pub dialog_open: bool,
}

/// A frame as plain values.
pub struct ScreenView {
    pub header: Seq<char>,
    pub channels_border: BorderKind,
    pub channel_titles: Seq<Seq<char>>,
    pub items_border: BorderKind,
    pub item_titles: Seq<Seq<char>>,
    pub content: Seq<char>,
    pub info_popup: Option<Seq<char>>,
    pub dialog_open: bool,
}

impl View for Screen {
    type V = ScreenView;

    open spec fn view(&self) -> ScreenView {
        ScreenView {
            header: self.header@,
            channels_border: self.channels_border,
            channel_titles: texts(self.channel_titles@),
            items_border: self.items_border,
            item_titles: texts(self.item_titles@),
            content: self.content@,
            info_popup: opt_text(self.info_popup),
            dialog_open: self.dialog_open,
        }
    }
}

/// What a frame shows of a state whose item list is up to date, where the
/// content pane shows `content`.
pub fn screen_with(app: &App, content: String) -> (r: Screen)
    ensures
        r@ == app@.screen(content@),
{
    Screen {
        header: header_text(app.selected_pane),
        channels_border: get_border_type(app.selected_pane == SelectedPane::Channels),
        channel_titles: channel_titles(app),
        items_border: get_border_type(app.selected_pane == SelectedPane::Items),
        item_titles: item_titles(app),
        content,
        info_popup: clone_opt_text(&app.info_popup_text),
        dialog_open: app.state == AppState::AddChannel,
    }
}

/// Brings the item list up to date and reads one frame off the state. The
/// content pane shows the selected item's text with its entities decoded and
/// its tags removed.
pub fn compose(app: &mut App) -> (r: Result<Screen, MarkupError>)
    ensures
        final(app)@ == old(app)@.items_prepared(),
        match r {
            Ok(screen) => regex_accepts(TAG_PATTERN@) && screen@ == final(app)@.screen(
                regex_replaced(TAG_PATTERN@, entities_decoded(final(app)@.content_text()), ""@),
            ),
            Err(e) => !regex_accepts(TAG_PATTERN@) && e == MarkupError::BadPattern,
        },
{
    app.prepare_items();
    let raw = app.content_pane_text();
    match plain_text(raw.as_str()) {
        Ok(content) => Ok(screen_with(app, content)),
        Err(e) => Err(e),
    }
}

/// Preparing the items twice is preparing them once, and no preparing
/// moves the channel cursor or touches the channels.
pub proof fn lemma_prepare_once(app: AppView)
    ensures
        app.items_prepared().items_prepared() == app.items_prepared(),
        app.items_prepared().channels == app.channels,
        !app.construct_items ==> app.items_prepared() == app,
{
}

/// Once a stale item list was prepared while a channel is selected, it is
/// stale no longer and holds exactly that channel's items, in their order.
pub proof fn lemma_prepared_items(app: AppView)
    requires
        app.construct_items,
        app.channels.selected_value() is Some,
    ensures
        !app.items_prepared().construct_items,
        app.items_prepared().current_items.items == app.channels.selected_value().unwrap().items,
{
}

} // verus!
