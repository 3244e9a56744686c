//! The two selection lists: the channels, and the items of the selected
//! channel. Each is a sequence with a cursor that moves with wrap-around.

use vstd::prelude::*;
use crate::model::{Channel, ChannelView, Item, ItemView, channel_views, item_views, clone_items};

verus! {

/// Whether a cursor, if set, points into a sequence of `len` elements.
pub open spec fn cursor_valid(len: usize, cursor: Option<usize>) -> bool {
    cursor matches Some(i) ==> i < len
}

/// The cursor after one step down. An empty list keeps its cursor; an unset
/// cursor goes to the first element; the last element wraps to the first. A
/// cursor beyond the end counts as on the last element.
pub open spec fn moved_down(len: usize, cursor: Option<usize>) -> Option<usize> {
    if len == 0 {
        cursor
    } else {
        match cursor {
            None => Some(0usize),
            Some(i) => if i + 1 < len {
                Some((i + 1) as usize)
            } else {
                Some(0usize)
            },
        }
    }
}

/// The cursor after one step up. An empty list keeps its cursor; an unset
/// cursor goes to the last element; the first element wraps to the last. A
/// cursor beyond the end goes to the last element.
pub open spec fn moved_up(len: usize, cursor: Option<usize>) -> Option<usize> {
    if len == 0 {
        cursor
    } else {
        match cursor {
            None => Some((len - 1) as usize),
            Some(i) => if 0 < i && i < len {
                Some((i - 1) as usize)
            } else {
                Some((len - 1) as usize)
            },
        }
    }
}

/// The cursor after `n` steps down.
pub open spec fn moved_down_times(len: usize, cursor: Option<usize>, n: nat) -> Option<usize>
    decreases n,
{
    if n == 0 {
        cursor
    } else {
        moved_down(len, moved_down_times(len, cursor, (n - 1) as nat))
    }
}

/// The cursor after `n` steps up.
pub open spec fn moved_up_times(len: usize, cursor: Option<usize>, n: nat) -> Option<usize>
    decreases n,
{
    if n == 0 {
        cursor
    } else {
        moved_up(len, moved_up_times(len, cursor, (n - 1) as nat))
    }
}

/// One step down.
pub fn step_down(len: usize, cursor: Option<usize>) -> (r: Option<usize>)
    ensures
        r == moved_down(len, cursor),
        len > 0 ==> r is Some && cursor_valid(len, r),
{
    if len == 0 {
        return cursor;
    }
    match cursor {
        Some(i) => if i < len - 1 {
            Some(i + 1)
        } else {
            Some(0)
        },
        None => Some(0),
    }
}

/// One step up.
pub fn step_up(len: usize, cursor: Option<usize>) -> (r: Option<usize>)
    ensures
        r == moved_up(len, cursor),
        len > 0 ==> r is Some && cursor_valid(len, r),
{
    if len == 0 {
        return cursor;
    }
    match cursor {
        Some(i) => if 0 < i && i < len {
            Some(i - 1)
        } else {
            Some(len - 1)
        },
        None => Some(len - 1),
    }
}

/// From an unset cursor a step up selects the last element and a step down
/// the first, whatever the length of a list that is not empty.
pub proof fn lemma_step_from_unset(len: usize)
    requires
        len > 0,
    ensures
        moved_up(len, None) == Some((len - 1) as usize),
        moved_down(len, None) == Some(0usize),
{
}

proof fn lemma_down_steps(len: usize, i: usize, n: nat)
    requires
        i < len,
    ensures
        moved_down_times(len, Some(i), n) == Some(((i + n) % (len as int)) as usize),
    decreases n,
{
    if n == 0 {
        assert(i % len == i) by (nonlinear_arith)
            requires
                i < len,
        ;
    } else {
        lemma_down_steps(len, i, (n - 1) as nat);
        let a: int = i + n - 1;
        let m: int = len as int;
        assert((a + 1) % m == if a % m + 1 < m {
            a % m + 1
        } else {
            0
        }) by (nonlinear_arith)
            requires
                m > 0,
                a >= 0,
        ;
        assert(0 <= a % m < m) by (nonlinear_arith)
            requires
                m > 0,
        ;
    }
}

proof fn lemma_up_steps(len: usize, i: usize, n: nat)
    requires
        i < len,
    ensures
        moved_up_times(len, Some(i), n) == Some(((i - n) % (len as int)) as usize),
    decreases n,
{
    if n == 0 {
        assert(i % len == i) by (nonlinear_arith)
            requires
                i < len,
        ;
    } else {
        lemma_up_steps(len, i, (n - 1) as nat);
        let a: int = i - n + 1;
        let m: int = len as int;
        assert((a - 1) % m == if a % m > 0 {
            a % m - 1
        } else {
            m - 1
        }) by (nonlinear_arith)
            requires
                m > 0,
        ;
        assert(0 <= a % m < m) by (nonlinear_arith)
            requires
                m > 0,
        ;
    }
}

/// As many steps down as the list has elements bring a set cursor back to
/// where it was.
pub proof fn lemma_down_cycle(len: usize, cursor: Option<usize>)
    requires
        cursor is Some,
        cursor_valid(len, cursor),
    ensures
        moved_down_times(len, cursor, len as nat) == cursor,
{
    let i = cursor.unwrap();
    lemma_down_steps(len, i, len as nat);
    assert((i + len) % (len as int) == i) by (nonlinear_arith)
        requires
            i < len,
    ;
}

/// As many steps up as the list has elements bring a set cursor back to
/// where it was.
pub proof fn lemma_up_cycle(len: usize, cursor: Option<usize>)
    requires
        cursor is Some,
        cursor_valid(len, cursor),
    ensures
        moved_up_times(len, cursor, len as nat) == cursor,
{
    let i = cursor.unwrap();
    lemma_up_steps(len, i, len as nat);
    assert((i - len) % (len as int) == i) by (nonlinear_arith)
        requires
            0 <= i < len,
    ;
}

/// Where a list pane stands: the selected index and the first index shown.
#[derive(Debug, Clone, Copy, PartialEq, Eq)]
pub struct ListCursor {
    pub offset: usize,
    pub selected: Option<usize>,
}

impl Default for ListCursor {
    fn default() -> (r: Self)
        ensures
            r == (ListCursor { offset: 0, selected: None }),
    {
        ListCursor { offset: 0, selected: None }
    }
}

impl ListCursor {
    /// The same cursor with another first index shown.
    pub fn with_offset(self, offset: usize) -> (r: Self)
        ensures
            r == (ListCursor { offset, selected: self.selected }),
    {
        ListCursor { offset, selected: self.selected }
    }

    /// The selected index, if any.
    pub fn selected(&self) -> (r: Option<usize>)
        ensures
            r == self.selected,
    {
        self.selected
    }

    /// Selects `index`. With nothing selected the list shows its head again.
    pub fn select(&mut self, index: Option<usize>)
        ensures
            final(self).selected == index,
            final(self).offset == if index is None {
                0
            } else {
                old(self).offset
            },
    {
        self.selected = index;
        if index.is_none() {
            self.offset = 0;
        }
    }
}

/// The channels, with the cursor of their pane.
#[derive(Debug)]
pub struct StatefulChannelList {
    pub state: ListCursor,
    pub channels: Vec<Channel>,
    /// Kept for restoring a selection; nothing reads it yet.
    pub last_selected: Option<usize>,
}

/// The channel list as plain values.
pub struct ChannelListView {
    pub state: ListCursor,
    pub channels: Seq<ChannelView>,
    pub last_selected: Option<usize>,
}

impl ChannelListView {
    /// The cursor, if set, points at a channel.
    pub open spec fn wf(self) -> bool {
        self.state.selected matches Some(i) ==> i < self.channels.len()
    }

    /// The channel under the cursor.
    pub open spec fn selected_value(self) -> Option<ChannelView> {
        match self.state.selected {
            Some(i) => if i < self.channels.len() {
                Some(self.channels[i as int])
            } else {
                None
            },
            None => None,
        }
    }

    /// The list after a loaded channel was merged into it at `target`: the
    /// channel replaces the one at that index, or is appended where there is
    /// no index. An index that points at no channel leaves the list as it
    /// is.
    pub open spec fn merged_at(self, target: Option<usize>, channel: ChannelView) -> ChannelListView {
        match target {
            Some(i) => if i < self.channels.len() {
                ChannelListView { channels: self.channels.update(i as int, channel), ..self }
            } else {
                self
            },
            None => ChannelListView { channels: self.channels.push(channel), ..self },
        }
    }

    /// The list after a loaded channel was merged into it at the cursor.
    pub open spec fn merged(self, channel: ChannelView) -> ChannelListView {
        self.merged_at(self.state.selected, channel)
    }
}

impl View for StatefulChannelList {
    type V = ChannelListView;

    open spec fn view(&self) -> ChannelListView {
        ChannelListView {
            state: self.state,
            channels: channel_views(self.channels@),
            last_selected: self.last_selected,
        }
    }
}

impl Default for StatefulChannelList {
    fn default() -> (r: Self)
        ensures
            r@ == (ChannelListView {
                state: ListCursor { offset: 0, selected: None },
                channels: Seq::empty(),
                last_selected: None,
            }),
    {
        let r = StatefulChannelList {
            state: ListCursor::default(),
            channels: Vec::new(),
            last_selected: None,
        };
        assert(channel_views(r.channels@) =~= Seq::empty());
        r
    }
}

impl StatefulChannelList {
    /// Merges a loaded channel into the list at `target`.
    pub fn update_channel_at(&mut self, target: Option<usize>, channel: &Channel)
        ensures
            final(self)@ == old(self)@.merged_at(target, channel@),
    {
        match target {
            Some(idx) => {
                if idx < self.channels.len() {
                    self.channels.set(idx, channel.clone());
                    assert(channel_views(self.channels@) =~= channel_views(
                        old(self).channels@,
                    ).update(idx as int, channel@));
                }
            },
            None => {
                self.channels.push(channel.clone());
                assert(channel_views(self.channels@) =~= channel_views(old(self).channels@).push(
                    channel@,
                ));
            },
        }
    }

    /// Merges a loaded channel into the list at the cursor.
    pub fn update_selected_channel(&mut self, channel: &Channel)
        ensures
            final(self)@ == old(self)@.merged(channel@),
    {
        self.update_channel_at(self.state.selected(), channel);
    }
}

/// The items of one channel, with the cursor of their pane.
#[derive(Debug)]
pub struct StatefulItemList {
    pub state: ListCursor,
    pub items: Vec<Item>,
    /// Kept for restoring a selection; nothing reads it yet.
    pub last_selected: Option<usize>,
}

/// The item list as plain values.
pub struct ItemListView {
    pub state: ListCursor,
    pub items: Seq<ItemView>,
    pub last_selected: Option<usize>,
}

impl ItemListView {
    /// The cursor, if set, points at an item.
    pub open spec fn wf(self) -> bool {
        self.state.selected matches Some(i) ==> i < self.items.len()
    }

    /// The item under the cursor.
    pub open spec fn selected_value(self) -> Option<ItemView> {
        match self.state.selected {
            Some(i) => if i < self.items.len() {
                Some(self.items[i as int])
            } else {
                None
            },
            None => None,
        }
    }

    /// The items of a channel in their order, with no cursor set.
    pub open spec fn of(channel: ChannelView) -> ItemListView {
        ItemListView {
            state: ListCursor { offset: 0, selected: None },
            items: channel.items,
            last_selected: None,
        }
    }
}

impl View for StatefulItemList {
    type V = ItemListView;

    open spec fn view(&self) -> ItemListView {
        ItemListView {
            state: self.state,
            items: item_views(self.items@),
            last_selected: self.last_selected,
        }
    }
}

impl Default for StatefulItemList {
    fn default() -> (r: Self)
        ensures
            r@ == ItemListView::of(ChannelView::empty()),
    {
        let r = StatefulItemList {
            state: ListCursor::default(),
            items: Vec::new(),
            last_selected: None,
        };
        assert(item_views(r.items@) =~= Seq::empty());
        r
    }
}

impl StatefulItemList {
    /// The items of `channel`, none selected.
    pub fn from(channel: &Channel) -> (r: Self)
        ensures
            r@ == ItemListView::of(channel@),
    {
        StatefulItemList {
            state: ListCursor::default().with_offset(0),
            items: clone_items(&channel.items),
            last_selected: None,
        }
    }
}

/// A merge with no cursor set makes the list longer by one; a merge at a
/// cursor that points at a channel keeps the length and changes that one
/// slot only.
pub proof fn lemma_merged_shape(list: ChannelListView, channel: ChannelView)
    requires
        list.wf(),
    ensures
        list.state.selected is None ==> list.merged(channel).channels.len() == list.channels.len()
            + 1,
        list.state.selected is None ==> forall|k: int|
            0 <= k < list.channels.len() ==> list.merged(channel).channels[k] == list.channels[k],
        list.state.selected is Some ==> list.merged(channel).channels.len()
            == list.channels.len(),
        list.state.selected matches Some(i) ==> forall|k: int|
            0 <= k < list.channels.len() && k != i ==> list.merged(channel).channels[k]
                == list.channels[k],
        list.merged(channel).state == list.state,
        list.merged(channel).wf(),
{
}

} // verus!
