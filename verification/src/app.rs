//! The application state: the two lists, the mode, the focused pane, the
//! popups and the buffer of the add-channel dialog.

use vstd::prelude::*;
use vstd::string::*;
use crate::editor::{BufferView, TextBuffer, empty_buffer, insert_text, lines_of};
use crate::model::{Channel, ChannelView, Item, channel_views, opt_text};
use crate::selection::{
    ChannelListView,
    ItemListView,
    ListCursor,
    StatefulChannelList,
    StatefulItemList,
    moved_down,
    moved_up,
    step_down,
    step_up,
};

verus! {

/// What the content pane shows where no item offers any text.
pub const NOTHING_TO_DISPLAY: &'static str = "Nothing to display";

/// The mode of the application. `Stopped` is final.
#[derive(Debug, Clone, Copy, PartialEq, Eq, Structural)]
pub enum AppState {
    Running,
    AddChannel,
    Stopped,
}

impl Default for AppState {
    fn default() -> (r: Self)
        ensures
            r == AppState::Running,
    {
        AppState::Running
    }
}

/// The pane that has the keyboard while the application is running.
#[derive(Debug, Clone, Copy, PartialEq, Eq, Structural)]
pub enum SelectedPane {
    Channels,
    Items,
}

impl Default for SelectedPane {
    fn default() -> (r: Self)
        ensures
            r == SelectedPane::Channels,
    {
        SelectedPane::Channels
    }
}

/// The application state.
pub struct App {
    pub channels: StatefulChannelList,
    pub current_items: StatefulItemList,
    pub state: AppState,
    pub selected_pane: SelectedPane,
    /// The item list is stale and is rebuilt before it is next drawn.
    pub construct_items: bool,
    /// Shown in an info popup while set.
    pub info_popup_text: Option<String>,
    pub error_popup_text: Option<String>,
    /// A timed dismissal of the error popup is under way.
    pub error_popup_thread_running: bool,
    pub add_channel_text_area: TextBuffer,
}

/// The application state as plain values.
pub struct AppView {
    pub channels: ChannelListView,
    pub current_items: ItemListView,
    pub state: AppState,
    pub selected_pane: SelectedPane,
    pub construct_items: bool,
    pub info_popup_text: Option<Seq<char>>,
    pub error_popup_text: Option<Seq<char>>,
    /// A timed dismissal of the error popup is under way.
    pub error_popup_thread_running: bool,
    /// The buffer of the add-channel dialog.
    pub buffer: BufferView,
}

/// The buffer as the dialog finds it when it opens: one empty line, the
/// cursor at its head, nothing selected.
pub open spec fn clear_buffer() -> BufferView {
    BufferView::clear()
}

/// The messages that are present, one after the other.
pub open spec fn joined_errors(errors: Seq<(Seq<char>, Option<Seq<char>>)>) -> Seq<char>
    decreases errors.len(),
{
    if errors.len() == 0 {
        Seq::empty()
    } else {
        match errors.last().1 {
            Some(message) => joined_errors(errors.drop_last()) + message,
            None => joined_errors(errors.drop_last()),
        }
    }
}

/// The views of a sequence of loading results: an address, and the message
/// of what went wrong with it, if anything did.
pub open spec fn error_views(s: Seq<(String, Option<String>)>) -> Seq<
    (Seq<char>, Option<Seq<char>>),
> {
    s.map_values(|e: (String, Option<String>)| (e.0@, opt_text(e.1)))
}

impl AppView {
    /// The state in which the application starts on `channels`.
    pub open spec fn initial(channels: Seq<ChannelView>) -> AppView {
        AppView {
            channels: ChannelListView {
                state: ListCursor { offset: 0, selected: None },
                channels,
                last_selected: None,
            },
            current_items: ItemListView::of(ChannelView::empty()),
            state: AppState::Running,
            selected_pane: SelectedPane::Channels,
            construct_items: true,
            info_popup_text: None,
            error_popup_text: None,
            error_popup_thread_running: false,
            buffer: clear_buffer(),
        }
    }

    /// Both cursors, where set, point into their lists.
    pub open spec fn wf(self) -> bool {
        self.channels.wf() && self.current_items.wf()
    }

    /// The state with the channel cursor at `cursor` and the items marked
    /// stale.
    pub open spec fn with_channel_cursor(self, cursor: Option<usize>) -> AppView {
        AppView {
            channels: ChannelListView {
                state: ListCursor { selected: cursor, ..self.channels.state },
                ..self.channels
            },
            construct_items: true,
            ..self
        }
    }

    /// The state with the item cursor at `cursor`.
    pub open spec fn with_item_cursor(self, cursor: Option<usize>) -> AppView {
        AppView {
            current_items: ItemListView {
                state: ListCursor { selected: cursor, ..self.current_items.state },
                ..self.current_items
            },
            ..self
        }
    }

    /// After a step up in the channel pane.
    pub open spec fn channels_up(self) -> AppView {
        if self.channels.channels.len() == 0 {
            self
        } else {
            self.with_channel_cursor(
                moved_up(self.channels.channels.len() as usize, self.channels.state.selected),
            )
        }
    }

    /// After a step down in the channel pane.
    pub open spec fn channels_down(self) -> AppView {
        if self.channels.channels.len() == 0 {
            self
        } else {
            self.with_channel_cursor(
                moved_down(self.channels.channels.len() as usize, self.channels.state.selected),
            )
        }
    }

    /// After a step up in the item pane.
    pub open spec fn items_up(self) -> AppView {
        if self.current_items.items.len() == 0 {
            self
        } else {
            self.with_item_cursor(
                moved_up(
                    self.current_items.items.len() as usize,
                    self.current_items.state.selected,
                ),
            )
        }
    }

    /// After a step down in the item pane.
    pub open spec fn items_down(self) -> AppView {
        if self.current_items.items.len() == 0 {
            self
        } else {
            self.with_item_cursor(
                moved_down(
                    self.current_items.items.len() as usize,
                    self.current_items.state.selected,
                ),
            )
        }
    }

    /// After a step up in the focused pane.
    pub open spec fn up(self) -> AppView {
        match self.selected_pane {
            SelectedPane::Channels => self.channels_up(),
            SelectedPane::Items => self.items_up(),
        }
    }

    /// After a step down in the focused pane.
    pub open spec fn down(self) -> AppView {
        match self.selected_pane {
            SelectedPane::Channels => self.channels_down(),
            SelectedPane::Items => self.items_down(),
        }
    }

    /// After the focus went to the other pane.
    pub open spec fn pane_changed(self) -> AppView {
        AppView {
            selected_pane: match self.selected_pane {
                SelectedPane::Items => SelectedPane::Channels,
                SelectedPane::Channels => SelectedPane::Items,
            },
            ..self
        }
    }

    /// The raw text for the content pane: the selected item's description,
    /// else its link, else a fixed text.
    pub open spec fn content_text(self) -> Seq<char> {
        match self.current_items.selected_value() {
            Some(item) => match item.description {
                Some(description) => description,
                None => match item.link {
                    Some(link) => link,
                    None => NOTHING_TO_DISPLAY@,
                },
            },
            None => NOTHING_TO_DISPLAY@,
        }
    }

    /// The single logical line of the add-channel dialog.
    pub open spec fn entered_line(self) -> Seq<char> {
        self.buffer.lines[0]
    }

    /// After the line `url` of the dialog became a channel: the channel is
    /// appended and selected, the items are marked stale, the buffer is
    /// clear and the dialog is closed.
    pub open spec fn channel_added(self, url: Seq<char>) -> AppView {
        AppView {
            channels: ChannelListView {
                state: ListCursor {
                    selected: Some(self.channels.channels.len() as usize),
                    ..self.channels.state
                },
                channels: self.channels.channels.push(ChannelView::placeholder(url)),
                ..self.channels
            },
            construct_items: true,
            state: AppState::Running,
            buffer: clear_buffer(),
            ..self
        }
    }

    /// After the item list was brought up to date for drawing: where it was
    /// stale and a channel is selected, it holds that channel's items in
    /// their order, with no cursor, and is stale no longer.
    pub open spec fn items_prepared(self) -> AppView {
        match self.channels.selected_value() {
            Some(channel) => if self.construct_items {
                AppView {
                    current_items: ItemListView::of(channel),
                    construct_items: false,
                    ..self
                }
            } else {
                self
            },
            None => self,
        }
    }
}

impl View for App {
    type V = AppView;

    open spec fn view(&self) -> AppView {
        AppView {
            channels: self.channels@,
            current_items: self.current_items@,
            state: self.state,
            selected_pane: self.selected_pane,
            construct_items: self.construct_items,
            info_popup_text: opt_text(self.info_popup_text),
            error_popup_text: opt_text(self.error_popup_text),
            error_popup_thread_running: self.error_popup_thread_running,
            buffer: self.add_channel_text_area@,
        }
    }
}

impl App {
    /// The application on `channels_vec`: running, the channel pane focused,
    /// nothing selected, the items to be built at the first drawing.
    pub fn from(channels_vec: Vec<Channel>) -> (r: Self)
        ensures
            r@ == AppView::initial(channel_views(channels_vec@)),
    {
        let channels = StatefulChannelList {
            state: ListCursor::default().with_offset(0),
            channels: channels_vec,
            last_selected: None,
        };
        App {
            channels,
            current_items: StatefulItemList::default(),
            state: AppState::Running,
            selected_pane: SelectedPane::Channels,
            construct_items: true,
            info_popup_text: None,
            error_popup_text: None,
            error_popup_thread_running: false,
            add_channel_text_area: empty_buffer(),
        }
    }

    /// Puts what went wrong while the channels were loaded into the error
    /// popup: the messages that are present, one after the other. With no
    /// results at all nothing changes.
    pub fn set_loading_errors(&mut self, error_map: &Vec<(String, Option<String>)>)
        ensures
            final(self)@ == if error_map@.len() == 0 {
                old(self)@
            } else {
                AppView {
                    error_popup_text: Some(joined_errors(error_views(error_map@))),
                    ..old(self)@
                }
            },
    {
        if error_map.len() > 0 {
            let ghost all = error_views(error_map@);
            let mut error_txt = String::new();
            let mut i: usize = 0;
            while i < error_map.len()
                invariant
                    i <= error_map.len(),
                    all == error_views(error_map@),
                    error_txt@ == joined_errors(all.take(i as int)),
                decreases error_map.len() - i,
            {
                proof {
                    let next = all.take(i + 1);
                    assert(next.drop_last() =~= all.take(i as int));
                    assert(next.last() == (error_map@[i as int].0@, opt_text(error_map@[i as int].1)));
                }
                match &error_map[i].1 {
                    Some(message) => {
                        error_txt.append(message.as_str());
                    },
                    None => {},
                }
                i += 1;
            }
            assert(all.take(i as int) =~= all);
            self.error_popup_text = Some(error_txt);
        }
    }

    /// The channel under the cursor.
    pub fn get_selected_channel(&self) -> (r: Option<&Channel>)
        ensures
            match r {
                Some(channel) => self@.channels.selected_value() == Some(channel@),
                None => self@.channels.selected_value() is None,
            },
    {
        if let Some(idx) = self.channels.state.selected() {
            if idx < self.channels.channels.len() {
                return Some(&self.channels.channels[idx]);
            }
        }
        None
    }

    /// Merges a loaded channel into the channel list: it replaces the
    /// channel under the cursor, or is appended where no cursor is set.
    pub fn update_selected_channel(&mut self, channel: &Channel)
        ensures
            final(self)@ == (AppView {
                channels: old(self)@.channels.merged(channel@),
                ..old(self)@
            }),
    {
        self.channels.update_selected_channel(channel);
    }

    /// The item under the cursor.
    pub fn get_selected_item(&self) -> (r: Option<&Item>)
        ensures
            match r {
                Some(item) => self@.current_items.selected_value() == Some(item@),
                None => self@.current_items.selected_value() is None,
            },
    {
        if let Some(idx) = self.current_items.state.selected() {
            if idx < self.current_items.items.len() {
                return Some(&self.current_items.items[idx]);
            }
        }
        None
    }

    /// One step up in the focused pane. With nothing selected the last
    /// element is selected.
    pub fn select_up(&mut self)
        ensures
            final(self)@ == old(self)@.up(),
    {
        match self.selected_pane {
            SelectedPane::Channels => self.select_up_channels(),
            SelectedPane::Items => self.select_up_items(),
        }
    }

    /// One step up in the channel pane.
    pub fn select_up_channels(&mut self)
        ensures
            final(self)@ == old(self)@.channels_up(),
    {
        let channels_len = self.num_channels();
        if channels_len == 0 {
            return ;
        }
        let select_idx = step_up(channels_len, self.channels.state.selected());
        self.channels.state.select(select_idx);
        self.construct_items = true;
    }

    /// One step up in the item pane.
    pub fn select_up_items(&mut self)
        ensures
            final(self)@ == old(self)@.items_up(),
    {
        let items_len = self.num_items();
        if items_len == 0 {
            return ;
        }
        let select_idx = step_up(items_len, self.current_items.state.selected());
        self.current_items.state.select(select_idx);
    }

    /// One step down in the focused pane. With nothing selected the first
    /// element is selected.
    pub fn select_down(&mut self)
        ensures
            final(self)@ == old(self)@.down(),
    {
        match self.selected_pane {
            SelectedPane::Channels => self.select_down_channels(),
            SelectedPane::Items => self.select_down_items(),
        }
    }

    /// One step down in the channel pane.
    pub fn select_down_channels(&mut self)
        ensures
            final(self)@ == old(self)@.channels_down(),
    {
        let channels_len = self.num_channels();
        if channels_len == 0 {
            return ;
        }
        let select_idx = step_down(channels_len, self.channels.state.selected());
        self.channels.state.select(select_idx);
        self.construct_items = true;
    }

    /// One step down in the item pane.
    pub fn select_down_items(&mut self)
        ensures
            final(self)@ == old(self)@.items_down(),
    {
        let items_len = self.num_items();
        if items_len == 0 {
            return ;
        }
        let select_idx = step_down(items_len, self.current_items.state.selected());
        self.current_items.state.select(select_idx);
    }

    /// Gives the focus to the other pane.
    pub fn change_selected_pane(&mut self)
        ensures
            final(self)@ == old(self)@.pane_changed(),
    {
        match self.selected_pane {
            SelectedPane::Items => self.selected_pane = SelectedPane::Channels,
            SelectedPane::Channels => self.selected_pane = SelectedPane::Items,
        }
    }

    /// How many channels there are.
    pub fn num_channels(&self) -> (n: usize)
        ensures
            n == self@.channels.channels.len(),
    {
        self.channels.channels.len()
    }

    /// How many items the item list holds.
    pub fn num_items(&self) -> (n: usize)
        ensures
            n == self@.current_items.items.len(),
    {
        self.current_items.items.len()
    }

    /// The raw text for the content pane.
    pub fn content_pane_text(&self) -> (r: String)
        ensures
            r@ == self@.content_text(),
    {
        match self.get_selected_item() {
            Some(item) => match &item.description {
                Some(description) => description.clone(),
                None => match &item.link {
                    Some(link) => link.clone(),
                    None => NOTHING_TO_DISPLAY.to_owned(),
                },
            },
            None => NOTHING_TO_DISPLAY.to_owned(),
        }
    }

    /// Opens the add-channel dialog on a clear buffer.
    pub fn show_add_channel_dialog(&mut self)
        ensures
            final(self)@ == (AppView {
                state: AppState::AddChannel,
                buffer: clear_buffer(),
                ..old(self)@
            }),
    {
        self.clear_add_channel_text_area();
        self.state = AppState::AddChannel;
    }

    /// Closes the add-channel dialog and clears its buffer.
    pub fn unshow_add_channel_dialog(&mut self)
        ensures
            final(self)@ == (AppView {
                state: AppState::Running,
                buffer: clear_buffer(),
                ..old(self)@
            }),
    {
        self.clear_add_channel_text_area();
        self.state = AppState::Running;
    }

    /// Makes the line of the dialog a channel and answers the address. An
    /// empty line changes nothing and answers `None`.
    pub fn add_channel(&mut self) -> (r: Option<String>)
        ensures
            old(self)@.entered_line().len() == 0 ==> r is None && final(self)@ == old(self)@,
            old(self)@.entered_line().len() > 0 ==> opt_text(r) == Some(old(self)@.entered_line())
                && final(self)@ == old(self)@.channel_added(old(self)@.entered_line()),
    {
        let lines = lines_of(&self.add_channel_text_area);
        let hopefully_a_channel = lines[0].clone();
        if hopefully_a_channel.as_str().is_empty() {
            return None;
        }
        let channel_to_add = Channel::placeholder(hopefully_a_channel.as_str());
        let ghost before = channel_views(self.channels.channels@);
        self.channels.channels.push(channel_to_add);
        assert(channel_views(self.channels.channels@) =~= before.push(channel_to_add@));
        let num_channels = self.num_channels();
        self.clear_add_channel_text_area();
        self.channels.state.select(Some(num_channels - 1));
        self.construct_items = true;
        self.state = AppState::Running;
        Some(hopefully_a_channel)
    }

    /// Inserts `contents` into the buffer of the dialog where its cursor
    /// stands. Text of one line, with nothing selected, goes into the
    /// cursor's line at the cursor. Nothing but the buffer changes.
    pub fn set_add_channel_contents(&mut self, contents: &str)
        ensures
            final(self)@ == (AppView {
                buffer: old(self)@.buffer.inserted(contents@),
                ..old(self)@
            }),
            old(self)@.buffer.takes_plainly(contents@) ==> final(self)@.buffer
                == old(self)@.buffer.with_text_at_cursor(contents@),
    {
        insert_text(&mut self.add_channel_text_area, contents);
    }

    /// Clears the buffer of the dialog.
    pub fn clear_add_channel_text_area(&mut self)
        ensures
            final(self)@ == (AppView { buffer: clear_buffer(), ..old(self)@ }),
    {
        self.add_channel_text_area = empty_buffer();
    }

    /// Whether an error popup is shown that no timer will dismiss.
    pub fn is_showing_untimed_error(&self) -> (r: bool)
        ensures
            r == (self@.error_popup_text is Some && !self@.error_popup_thread_running),
    {
        self.error_popup_text.is_some() && !self.error_popup_thread_running
    }

    /// Takes down the info popup and the error popup.
    pub fn reset_all_popups(&mut self)
        ensures
            final(self)@ == (AppView {
                info_popup_text: None,
                error_popup_text: None,
                error_popup_thread_running: false,
                ..old(self)@
            }),
    {
        self.info_popup_text = None;
        self.error_popup_text = None;
        self.error_popup_thread_running = false;
    }

    /// Brings the item list up to date before it is drawn.
    pub fn prepare_items(&mut self)
        ensures
            final(self)@ == old(self)@.items_prepared(),
    {
        if self.construct_items {
            let rebuilt = match self.get_selected_channel() {
                Some(channel) => Some(StatefulItemList::from(channel)),
                None => None,
            };
            match rebuilt {
                Some(items) => {
                    self.current_items = items;
                    self.construct_items = false;
                },
                None => {},
            }
        }
    }
}

} // verus!
