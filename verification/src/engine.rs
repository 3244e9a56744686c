//! The transitions of the application: what a key does in each mode, and
//! what finished background work does to the state.
//!
//! The functions here decide; they never wait. Each answers an [`Action`]
//! that tells the surrounding loop what to start outside the state.

use vstd::prelude::*;
use vstd::string::*;
use crate::app::{App, AppState, AppView, clear_buffer};
use crate::config::{RssConfig, config_of, mapping_of};
use crate::model::{Channel, ChannelView, Item, ItemView};

verus! {

/// How many seconds an info popup stays before its timer takes it down.
pub const POPUP_TIME: u64 = 1;

/// How many milliseconds the loop waits for a key before it goes on.
pub const POLL_MILLIS: u64 = 100;

/// The popup text while a channel is loaded again.
pub const RELOADING_TEXT: &'static str = "Reloading...";

/// The popup text while the mapping is saved.
pub const SAVING_TEXT: &'static str = "Saving config...";

/// The popup text while an entered address is loaded for the first time.
pub const LOADING_TEXT: &'static str = "Attempting load...";

/// What stands before the message of a failed load.
pub const ERROR_PREFIX: &'static str = "ERROR! ";

/// The keys that the transitions tell apart.
#[derive(Debug, Clone, Copy, PartialEq, Eq, Structural)]
pub enum KeyCode {
    Esc,
    Enter,
    Tab,
    Up,
    Down,
    Char(char),
    Other,
}

/// A key press.
#[derive(Debug, Clone, Copy, PartialEq, Eq, Structural)]
pub struct Key {
    pub code: KeyCode,
    /// The control key, and no other modifier, was held.
    pub control: bool,
}

/// What a key asks for while the application is running.
#[derive(Debug, Clone, Copy, PartialEq, Eq, Structural)]
pub enum Command {
    Quit,
    Down,
    Up,
    Refresh,
    Save,
    Open,
    Download,
    AddChannel,
    ChangePane,
    Nothing,
}

/// The command on each key. Letters count in either case.
pub open spec fn command_of(code: KeyCode) -> Command {
    match code {
        KeyCode::Char(c) => if c == 'q' || c == 'Q' {
            Command::Quit
        } else if c == 'j' || c == 'J' {
            Command::Down
        } else if c == 'k' || c == 'K' {
            Command::Up
        } else if c == 'r' || c == 'R' {
            Command::Refresh
        } else if c == 's' || c == 'S' {
            Command::Save
        } else if c == 'o' || c == 'O' {
            Command::Open
        } else if c == 'd' || c == 'D' {
            Command::Download
        } else if c == 'a' || c == 'A' {
            Command::AddChannel
        } else {
            Command::Nothing
        },
        KeyCode::Down => Command::Down,
        KeyCode::Up => Command::Up,
        KeyCode::Tab => Command::ChangePane,
        _ => Command::Nothing,
    }
}

/// The command on a key.
pub fn command(code: KeyCode) -> (r: Command)
    ensures
        r == command_of(code),
{
    match code {
        KeyCode::Char(c) => if c == 'q' || c == 'Q' {
            Command::Quit
        } else if c == 'j' || c == 'J' {
            Command::Down
        } else if c == 'k' || c == 'K' {
            Command::Up
        } else if c == 'r' || c == 'R' {
            Command::Refresh
        } else if c == 's' || c == 'S' {
            Command::Save
        } else if c == 'o' || c == 'O' {
            Command::Open
        } else if c == 'd' || c == 'D' {
            Command::Download
        } else if c == 'a' || c == 'A' {
            Command::AddChannel
        } else {
            Command::Nothing
        },
        KeyCode::Down => Command::Down,
        KeyCode::Up => Command::Up,
        KeyCode::Tab => Command::ChangePane,
        _ => Command::Nothing,
    }
}

/// Whether a key pastes from the clipboard into the dialog.
pub open spec fn is_paste(key: Key) -> bool {
    key.control && (key.code == KeyCode::Char('v') || key.code == KeyCode::Char('V'))
}

/// What the loop has to start after a transition. None of it touches the
/// state: a load answers through [`handle_outcome`], a timer through
/// [`handle_popup_expiry`].
#[derive(Debug)]
pub enum Action {
    Nothing,
    /// Load the feed at `url` in the background for the channel at `target`,
    /// and start a popup timer.
    Refresh { url: String, target: Option<usize> },
    /// Save the mapping in the background, and start a popup timer.
    Save { config: RssConfig },
    /// Open `target` with the program that the system has for it.
    Open { target: String },
    /// Download what `url` names, in the background, to a file named after
    /// `item`.
    Download { url: String, item: Item },
    /// Read the clipboard and hand the text to the dialog's buffer.
    Paste,
    /// Hand the key to the dialog's buffer.
    Edit,
    /// Start a popup timer.
    Timer,
}

/// An action as plain values.
pub enum ActionView {
    Nothing,
    Refresh { url: Seq<char>, target: Option<usize> },
    Save { config: Map<Seq<char>, Seq<char>> },
    Open { target: Seq<char> },
    Download { url: Seq<char>, item: ItemView },
    Paste,
    Edit,
    Timer,
}

impl View for Action {
    type V = ActionView;

    open spec fn view(&self) -> ActionView {
        match *self {
            Action::Nothing => ActionView::Nothing,
            Action::Refresh { url, target } => ActionView::Refresh { url: url@, target },
            Action::Save { config } => ActionView::Save { config: config@ },
            Action::Open { target } => ActionView::Open { target: target@ },
            Action::Download { url, item } => ActionView::Download { url: url@, item: item@ },
            Action::Paste => ActionView::Paste,
            Action::Edit => ActionView::Edit,
            Action::Timer => ActionView::Timer,
        }
    }
}

impl ActionView {
    /// Whether the action starts a timer that takes the info popup down.
    pub open spec fn starts_timer(self) -> bool {
        self is Refresh || self is Save || self is Timer
    }
}

impl Action {
    /// Whether the action starts a timer that takes the info popup down.
    pub fn starts_timer(&self) -> (r: bool)
        ensures
            r == self@.starts_timer(),
    {
        match self {
            Action::Refresh { .. } => true,
            Action::Save { .. } => true,
            Action::Timer => true,
            _ => false,
        }
    }
}

/// What came back from the background.
#[derive(Debug)]
pub struct Outcome {
    /// The index that was selected when the load was asked for.
    pub target: Option<usize>,
    /// The loaded channel, or the message of a failure.
    pub result: Result<Channel, String>,
}

/// An outcome as plain values.
pub struct OutcomeView {
    pub target: Option<usize>,
    pub result: Result<ChannelView, Seq<char>>,
}

impl View for Outcome {
    type V = OutcomeView;

    open spec fn view(&self) -> OutcomeView {
        OutcomeView {
            target: self.target,
            result: match self.result {
                Ok(channel) => Ok(channel@),
                Err(why) => Err(why@),
            },
        }
    }
}

/// The view of an outcome that may not have come.
pub open spec fn opt_outcome_view(outcome: Option<Outcome>) -> Option<OutcomeView> {
    match outcome {
        Some(o) => Some(o@),
        None => None,
    }
}

impl AppView {
    /// What is opened for the selected item: its link, else the address of
    /// its enclosure where that is not empty.
    pub open spec fn open_target(self) -> Option<Seq<char>> {
        match self.current_items.selected_value() {
            Some(item) => match item.link {
                Some(link) => Some(link),
                None => match item.enclosure {
                    Some(enclosure) => if enclosure.url.len() > 0 {
                        Some(enclosure.url)
                    } else {
                        None
                    },
                    None => None,
                },
            },
            None => None,
        }
    }

    /// The state and the action after a command while running.
    pub open spec fn after_command(self, command: Command) -> (AppView, ActionView) {
        match command {
            Command::Quit => (AppView { state: AppState::Stopped, ..self }, ActionView::Nothing),
            Command::Down => (self.down(), ActionView::Nothing),
            Command::Up => (self.up(), ActionView::Nothing),
            Command::Refresh => match self.channels.selected_value() {
                Some(channel) => (
                    AppView { info_popup_text: Some(RELOADING_TEXT@), ..self },
                    ActionView::Refresh {
                        url: channel.feed_link(),
                        target: self.channels.state.selected,
                    },
                ),
                None => (self, ActionView::Nothing),
            },
            Command::Save => (
                AppView { info_popup_text: Some(SAVING_TEXT@), ..self },
                ActionView::Save { config: mapping_of(self.channels.channels) },
            ),
            Command::Open => match self.open_target() {
                Some(target) => (self, ActionView::Open { target }),
                None => (self, ActionView::Nothing),
            },
            Command::Download => match self.current_items.selected_value() {
                Some(item) => match item.link {
                    Some(url) => (self, ActionView::Download { url, item }),
                    None => (self, ActionView::Nothing),
                },
                None => (self, ActionView::Nothing),
            },
            Command::AddChannel => (
                AppView { state: AppState::AddChannel, buffer: clear_buffer(), ..self },
                ActionView::Nothing,
            ),
            Command::ChangePane => (self.pane_changed(), ActionView::Nothing),
            Command::Nothing => (self, ActionView::Nothing),
        }
    }

    /// The state and the action after a key while the dialog is open.
    pub open spec fn after_dialog_key(self, key: Key) -> (AppView, ActionView) {
        if key.code == KeyCode::Esc {
            (
                AppView { state: AppState::Running, buffer: clear_buffer(), ..self },
                ActionView::Nothing,
            )
        } else if key.code == KeyCode::Enter {
            if self.entered_line().len() == 0 {
                (self, ActionView::Nothing)
            } else {
                (
                    AppView {
                        info_popup_text: Some(LOADING_TEXT@),
                        ..self.channel_added(self.entered_line())
                    },
                    ActionView::Refresh {
                        url: self.entered_line(),
                        target: Some(self.channels.channels.len() as usize),
                    },
                )
            }
        } else if is_paste(key) {
            (self, ActionView::Paste)
        } else {
            (self, ActionView::Edit)
        }
    }

    /// The state and the action after a key.
    pub open spec fn after_key(self, key: Key) -> (AppView, ActionView) {
        match self.state {
            AppState::Running => self.after_command(command_of(key.code)),
            AppState::AddChannel => self.after_dialog_key(key),
            AppState::Stopped => (self, ActionView::Nothing),
        }
    }

    /// The state and the action after an outcome came back. A loaded
    /// channel is merged into the list at the index that was selected when
    /// it was asked for, and the items are marked stale. A failure puts its
    /// message into the info popup and changes nothing else.
    pub open spec fn after_outcome(self, outcome: OutcomeView) -> (AppView, ActionView) {
        match outcome.result {
            Ok(channel) => (
                AppView {
                    channels: self.channels.merged_at(outcome.target, channel),
                    construct_items: true,
                    ..self
                },
                ActionView::Nothing,
            ),
            Err(why) => (
                AppView { info_popup_text: Some(ERROR_PREFIX@ + why), ..self },
                ActionView::Timer,
            ),
        }
    }

    /// The state after a popup timer ran out.
    pub open spec fn after_popup_expiry(self) -> AppView {
        AppView { info_popup_text: None, ..self }
    }

    /// The state and the action after the messages of one turn of the loop:
    /// first the outcome of a load, if one came, then the signal of a timer,
    /// if one came.
    pub open spec fn after_messages(self, outcome: Option<OutcomeView>, timer_ran_out: bool) -> (
        AppView,
        ActionView,
    ) {
        let (loaded, action) = match outcome {
            Some(o) => self.after_outcome(o),
            None => (self, ActionView::Nothing),
        };
        if timer_ran_out {
            (loaded.after_popup_expiry(), action)
        } else {
            (loaded, action)
        }
    }
}

/// A failed load changes the info popup and nothing else: the channel list
/// keeps its length and its contents.
pub proof fn lemma_failed_load_keeps_channels(app: AppView, target: Option<usize>, why: Seq<char>)
    ensures
        ({
            let after = app.after_outcome(OutcomeView { target, result: Err(why) }).0;
            &&& after == (AppView { info_popup_text: after.info_popup_text, ..app })
            &&& after.channels == app.channels
            &&& after.info_popup_text == Some(ERROR_PREFIX@ + why)
        }),
{
}

/// A loaded channel changes at most the slot that it was asked for: it
/// replaces the channel at its index, is appended where it has none, and is
/// dropped where its index points at no channel any more. No cursor moves.
pub proof fn lemma_loaded_channel_keeps_other_slots(
    app: AppView,
    target: Option<usize>,
    channel: ChannelView,
)
    ensures
        ({
            let before = app.channels.channels;
            let after = app.after_outcome(OutcomeView { target, result: Ok(channel) }).0;
            &&& after.channels.state == app.channels.state
            &&& after.current_items == app.current_items
            &&& after.construct_items
            &&& after.channels.channels == match target {
                Some(i) => if i < before.len() {
                    before.update(i as int, channel)
                } else {
                    before
                },
                None => before.push(channel),
            }
        }),
{
}

/// The application starts with both cursors unset.
pub proof fn lemma_initial_cursors_valid(channels: Seq<ChannelView>)
    ensures
        AppView::initial(channels).wf(),
{
}

/// A cursor that points into its list still does so after any key, any
/// outcome, any timer and any preparing of the items.
pub proof fn lemma_cursors_stay_valid(app: AppView, key: Key, outcome: OutcomeView)
    requires
        app.wf(),
    ensures
        app.after_key(key).0.wf(),
        app.after_outcome(outcome).0.wf(),
        app.after_popup_expiry().wf(),
        app.items_prepared().wf(),
{
}

/// Whenever a key moves the channel cursor, the items are marked stale.
pub proof fn lemma_new_selection_marks_items_stale(app: AppView, key: Key)
    ensures
        app.after_key(key).0.channels.state.selected != app.channels.state.selected
            ==> app.after_key(key).0.construct_items,
{
}

/// While the dialog is open, no key but enter touches the lists, the
/// cursors or the focus.
pub proof fn lemma_dialog_suppresses_navigation(app: AppView, key: Key)
    requires
        app.state == AppState::AddChannel,
        key.code != KeyCode::Enter,
    ensures
        app.after_key(key).0.channels == app.channels,
        app.after_key(key).0.current_items == app.current_items,
        app.after_key(key).0.selected_pane == app.selected_pane,
        app.after_key(key).0.construct_items == app.construct_items,
{
}

/// No key changes a stopped application.
pub proof fn lemma_stopped_is_final(app: AppView, key: Key)
    requires
        app.state == AppState::Stopped,
    ensures
        app.after_key(key) == (app, ActionView::Nothing),
{
}

/// Carries out a command while the application is running.
pub fn handle_command(app: &mut App, command: Command) -> (action: Action)
    ensures
        (final(app)@, action@) == old(app)@.after_command(command),
{
    match command {
        Command::Quit => {
            app.state = AppState::Stopped;
            Action::Nothing
        },
        Command::Down => {
            app.select_down();
            Action::Nothing
        },
        Command::Up => {
            app.select_up();
            Action::Nothing
        },
        Command::Refresh => {
            let url = match app.get_selected_channel() {
                Some(channel) => Some(channel.get_link()),
                None => None,
            };
            match url {
                Some(url) => {
                    app.info_popup_text = Some(RELOADING_TEXT.to_owned());
                    Action::Refresh { url, target: app.channels.state.selected() }
                },
                None => Action::Nothing,
            }
        },
        Command::Save => save_into_config(app),
        Command::Open => open_selected_link(app),
        Command::Download => download_selected(app),
        Command::AddChannel => {
            app.show_add_channel_dialog();
            Action::Nothing
        },
        Command::ChangePane => {
            app.change_selected_pane();
            Action::Nothing
        },
        Command::Nothing => Action::Nothing,
    }
}

/// Puts up the popup of a save and hands out the mapping to be saved.
pub fn save_into_config(app: &mut App) -> (action: Action)
    ensures
        (final(app)@, action@) == old(app)@.after_command(Command::Save),
{
    let config = config_of(&app.channels.channels);
    app.info_popup_text = Some(SAVING_TEXT.to_owned());
    Action::Save { config }
}

/// What to open for the selected item.
pub fn open_selected_link(app: &App) -> (action: Action)
    ensures
        action@ == match app@.open_target() {
            Some(target) => ActionView::Open { target },
            None => ActionView::Nothing,
        },
{
    match app.get_selected_item() {
        Some(item) => match &item.link {
            Some(path) => Action::Open { target: path.clone() },
            None => match &item.enclosure {
                Some(enclosure) => if !enclosure.url.as_str().is_empty() {
                    Action::Open { target: enclosure.url.clone() }
                } else {
                    Action::Nothing
                },
                None => Action::Nothing,
            },
        },
        None => Action::Nothing,
    }
}

/// What to download for the selected item: nothing unless it has a link.
pub fn download_selected(app: &App) -> (action: Action)
    ensures
        action@ == match app@.current_items.selected_value() {
            Some(item) => match item.link {
                Some(url) => ActionView::Download { url, item },
                None => ActionView::Nothing,
            },
            None => ActionView::Nothing,
        },
{
    match app.get_selected_item() {
        Some(item) => match &item.link {
            Some(url) => Action::Download { url: url.clone(), item: item.clone() },
            None => Action::Nothing,
        },
        None => Action::Nothing,
    }
}

/// Carries out a key while the add-channel dialog is open.
pub fn handle_dialog_key(app: &mut App, key: Key) -> (action: Action)
    ensures
        (final(app)@, action@) == old(app)@.after_dialog_key(key),
{
    match key.code {
        KeyCode::Esc => {
            app.unshow_add_channel_dialog();
            Action::Nothing
        },
        KeyCode::Enter => {
            match app.add_channel() {
                Some(url) => {
                    app.info_popup_text = Some(LOADING_TEXT.to_owned());
                    Action::Refresh { url, target: app.channels.state.selected() }
                },
                None => Action::Nothing,
            }
        },
        KeyCode::Char(c) => {
            if key.control && (c == 'v' || c == 'V') {
                Action::Paste
            } else {
                Action::Edit
            }
        },
        _ => Action::Edit,
    }
}

/// Carries out a key.
pub fn handle_key(app: &mut App, key: Key) -> (action: Action)
    ensures
        (final(app)@, action@) == old(app)@.after_key(key),
{
    match app.state {
        AppState::AddChannel => handle_dialog_key(app, key),
        AppState::Running => handle_command(app, command(key.code)),
        AppState::Stopped => Action::Nothing,
    }
}

/// Takes in what came back from the background.
pub fn handle_outcome(app: &mut App, outcome: Outcome) -> (action: Action)
    ensures
        (final(app)@, action@) == old(app)@.after_outcome(outcome@),
{
    match outcome.result {
        Ok(received_channel) => {
            app.channels.update_channel_at(outcome.target, &received_channel);
            app.construct_items = true;
            Action::Nothing
        },
        Err(why) => {
            let mut text = ERROR_PREFIX.to_owned();
            text.append(why.as_str());
            app.info_popup_text = Some(text);
            Action::Timer
        },
    }
}

/// Takes the info popup down: its timer ran out.
pub fn handle_popup_expiry(app: &mut App)
    ensures
        final(app)@ == old(app)@.after_popup_expiry(),
{
    app.info_popup_text = None;
}

/// Takes in the messages of one turn of the loop, the outcome of a load
/// before the signal of a timer, and says whether the loop ends.
pub fn handle_messages(app: &mut App, outcome: Option<Outcome>, timer_ran_out: bool) -> (r: (
    Action,
    bool,
))
    ensures
        (final(app)@, r.0@) == old(app)@.after_messages(opt_outcome_view(outcome), timer_ran_out),
        r.1 == (old(app)@.state == AppState::Stopped),
{
    let action = match outcome {
        Some(o) => handle_outcome(app, o),
        None => Action::Nothing,
    };
    if timer_ran_out {
        handle_popup_expiry(app);
    }
    (action, is_stopped(app))
}

/// Whether the loop ends.
pub fn is_stopped(app: &App) -> (r: bool)
    ensures
        r == (app@.state == AppState::Stopped),
{
    app.state == AppState::Stopped
}

} // verus!
