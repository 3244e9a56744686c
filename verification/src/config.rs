//! The persisted mapping from a channel's display name to its feed address.
//!
//! The mapping is kept as a list of entries in which no name occurs twice;
//! its view is the map that the entries spell out.

use vstd::prelude::*;
use vstd::string::*;
use crate::model::{Channel, ChannelLinkView, ChannelView, channel_views};

verus! {

/// One line of the mapping.
#[derive(Debug)]
pub struct ConfigEntry {
    pub name: String,
    pub url: String,
}

impl View for ConfigEntry {
    type V = (Seq<char>, Seq<char>);

    open spec fn view(&self) -> (Seq<char>, Seq<char>) {
        (self.name@, self.url@)
    }
}

/// The views of a sequence of entries.
pub open spec fn entry_views(s: Seq<ConfigEntry>) -> Seq<(Seq<char>, Seq<char>)> {
    s.map_values(|e: ConfigEntry| e@)
}

/// The map that a sequence of entries spells out. Where a name occurs
/// twice the later entry decides.
pub open spec fn entries_map(entries: Seq<(Seq<char>, Seq<char>)>) -> Map<Seq<char>, Seq<char>>
    decreases entries.len(),
{
    if entries.len() == 0 {
        Map::empty()
    } else {
        entries_map(entries.drop_last()).insert(entries.last().0, entries.last().1)
    }
}

/// No name occurs twice.
pub open spec fn names_unique(entries: Seq<(Seq<char>, Seq<char>)>) -> bool {
    forall|i: int, j: int|
        0 <= i < entries.len() && 0 <= j < entries.len() && i != j ==> entries[i].0
            != entries[j].0
}

/// A sequence of entries after `name` was given the address `url`: every
/// entry of that name has the new address, and where there was none, one is
/// added at the end.
pub open spec fn with_entry(
    entries: Seq<(Seq<char>, Seq<char>)>,
    name: Seq<char>,
    url: Seq<char>,
) -> Seq<(Seq<char>, Seq<char>)> {
    if entries_map(entries).dom().contains(name) {
        entries.map_values(
            |e: (Seq<char>, Seq<char>)|
                if e.0 == name {
                    (name, url)
                } else {
                    e
                },
        )
    } else {
        entries.push((name, url))
    }
}

/// The mapping under which a list of channels is saved: each channel's title
/// leads to its feed address, a later channel of the same title deciding.
pub open spec fn mapping_of(channels: Seq<ChannelView>) -> Map<Seq<char>, Seq<char>>
    decreases channels.len(),
{
    if channels.len() == 0 {
        Map::empty()
    } else {
        mapping_of(channels.drop_last()).insert(
            channels.last().title,
            channels.last().feed_link(),
        )
    }
}

/// The entries under which a list of channels is saved, in the order in
/// which their titles first occur.
pub open spec fn saved_entries(channels: Seq<ChannelView>) -> Seq<(Seq<char>, Seq<char>)>
    decreases channels.len(),
{
    if channels.len() == 0 {
        Seq::empty()
    } else {
        with_entry(
            saved_entries(channels.drop_last()),
            channels.last().title,
            channels.last().feed_link(),
        )
    }
}

/// The channel that an entry of the mapping stands for until its feed is
/// loaded: the name is its title, the address its one link.
pub open spec fn channel_of_entry(entry: (Seq<char>, Seq<char>)) -> ChannelView {
    ChannelView {
        title: entry.0,
        link: seq![ChannelLinkView { href: Some(entry.1), value: None }],
        ..ChannelView::empty()
    }
}

/// A name is in the map exactly if an entry carries it.
pub proof fn lemma_entries_map_dom(entries: Seq<(Seq<char>, Seq<char>)>, name: Seq<char>)
    ensures
        entries_map(entries).dom().contains(name) <==> exists|i: int|
            0 <= i < entries.len() && #[trigger] entries[i].0 == name,
    decreases entries.len(),
{
    if entries.len() > 0 {
        let front = entries.drop_last();
        lemma_entries_map_dom(front, name);
        if entries_map(entries).dom().contains(name) {
            if entries.last().0 == name {
                assert(entries[entries.len() - 1].0 == name);
            } else {
                let i = choose|i: int| 0 <= i < front.len() && #[trigger] front[i].0 == name;
                assert(entries[i].0 == name);
            }
        }
        if exists|i: int| 0 <= i < entries.len() && #[trigger] entries[i].0 == name {
            let i = choose|i: int| 0 <= i < entries.len() && #[trigger] entries[i].0 == name;
            if i < front.len() {
                assert(front[i].0 == name);
            }
        }
    }
}

/// Where no name occurs twice, the map gives each name the address of the
/// one entry that carries it.
pub proof fn lemma_entries_map_value(entries: Seq<(Seq<char>, Seq<char>)>, i: int)
    requires
        names_unique(entries),
        0 <= i < entries.len(),
    ensures
        entries_map(entries).dom().contains(entries[i].0),
        entries_map(entries)[entries[i].0] == entries[i].1,
    decreases entries.len(),
{
    let front = entries.drop_last();
    if i < entries.len() - 1 {
        assert(names_unique(front)) by {
            assert forall|a: int, b: int|
                0 <= a < front.len() && 0 <= b < front.len() && a != b implies front[a].0
                != front[b].0 by {
                assert(front[a] == entries[a] && front[b] == entries[b]);
            }
        }
        lemma_entries_map_value(front, i);
        assert(front[i] == entries[i]);
        assert(entries[i].0 != entries[entries.len() - 1].0);
    }
}

/// The mapping from display names to feed addresses.
#[derive(Debug)]
pub struct RssConfig {
    /// Display name and feed address, no name twice.
    pub channels: Vec<ConfigEntry>,
}

impl View for RssConfig {
    type V = Map<Seq<char>, Seq<char>>;

    open spec fn view(&self) -> Map<Seq<char>, Seq<char>> {
        entries_map(entry_views(self.channels@))
    }
}

impl RssConfig {
    /// No name occurs twice.
    pub open spec fn wf(&self) -> bool {
        names_unique(entry_views(self.channels@))
    }

    /// The empty mapping.
    pub fn new() -> (r: Self)
        ensures
            r.wf(),
            r@ == Map::<Seq<char>, Seq<char>>::empty(),
            entry_views(r.channels@) == Seq::<(Seq<char>, Seq<char>)>::empty(),
    {
        let r = RssConfig { channels: Vec::new() };
        assert(entry_views(r.channels@) =~= Seq::empty());
        r
    }

    /// The number of names.
    pub fn len(&self) -> (n: usize)
        ensures
            n == self.channels@.len(),
    {
        self.channels.len()
    }

    /// Where `name` stands in the list first, if it does.
    pub fn position(&self, name: &str) -> (r: Option<usize>)
        ensures
            match r {
                Some(i) => i < self.channels@.len() && self.channels@[i as int].name@ == name@
                    && forall|k: int| 0 <= k < i ==> self.channels@[k].name@ != name@,
                None => !self@.dom().contains(name@),
            },
    {
        let wanted = name.to_owned();
        let mut i: usize = 0;
        while i < self.channels.len()
            invariant
                i <= self.channels.len(),
                wanted@ == name@,
                forall|k: int| 0 <= k < i ==> self.channels@[k].name@ != name@,
            decreases self.channels.len() - i,
        {
            if self.channels[i].name == wanted {
                return Some(i);
            }
            i += 1;
        }
        proof {
            let entries = entry_views(self.channels@);
            lemma_entries_map_dom(entries, name@);
            assert forall|k: int| 0 <= k < entries.len() implies entries[k].0 != name@ by {
                assert(entries[k] == self.channels@[k]@);
            }
        }
        None
    }

    /// The address that `name` leads to.
    pub fn get(&self, name: &str) -> (r: Option<String>)
        requires
            self.wf(),
        ensures
            match r {
                Some(url) => self@.dom().contains(name@) && url@ == self@[name@],
                None => !self@.dom().contains(name@),
            },
    {
        match self.position(name) {
            Some(i) => {
                proof {
                    let entries = entry_views(self.channels@);
                    assert(entries[i as int] == self.channels@[i as int]@);
                    lemma_entries_map_value(entries, i as int);
                }
                Some(self.channels[i].url.clone())
            },
            None => None,
        }
    }

    /// Lets `name` lead to `url`. A name that is already there keeps its
    /// place in the list and changes its address; a new name goes to the end.
    pub fn insert(&mut self, name: String, url: String)
        requires
            old(self).wf(),
        ensures
            final(self).wf(),
            final(self)@ == old(self)@.insert(name@, url@),
            entry_views(final(self).channels@) == with_entry(
                entry_views(old(self).channels@),
                name@,
                url@,
            ),
    {
        let ghost before = entry_views(self.channels@);
        match self.position(name.as_str()) {
            Some(i) => {
                self.channels.set(i, ConfigEntry { name, url });
                proof {
                    let after = entry_views(self.channels@);
                    assert(before[i as int] == old(self).channels@[i as int]@);
                    assert(after =~= before.update(i as int, (name@, url@)));
                    assert(names_unique(after)) by {
                        assert forall|a: int, b: int|
                            0 <= a < after.len() && 0 <= b < after.len() && a != b implies after[a].0
                            != after[b].0 by {
                            assert(after[a].0 == before[a].0 && after[b].0 == before[b].0);
                        }
                    }
                    assert forall|key: Seq<char>|
                        entries_map(after).dom().contains(key) <==> entries_map(before).insert(
                            name@,
                            url@,
                        ).dom().contains(key) by {
                        lemma_entries_map_dom(after, key);
                        lemma_entries_map_dom(before, key);
                        if exists|k: int| 0 <= k < after.len() && #[trigger] after[k].0 == key {
                            let k = choose|k: int| 0 <= k < after.len() && #[trigger] after[k].0 == key;
                            assert(before[k].0 == key);
                        }
                        if exists|k: int| 0 <= k < before.len() && #[trigger] before[k].0 == key {
                            let k = choose|k: int|
                                0 <= k < before.len() && #[trigger] before[k].0 == key;
                            assert(after[k].0 == key);
                        }
                        if key == name@ {
                            assert(after[i as int].0 == key);
                        }
                    }
                    assert forall|key: Seq<char>|
                        entries_map(after).dom().contains(key) implies entries_map(after)[key]
                        == entries_map(before).insert(name@, url@)[key] by {
                        lemma_entries_map_dom(after, key);
                        let k = choose|k: int| 0 <= k < after.len() && #[trigger] after[k].0 == key;
                        lemma_entries_map_value(after, k);
                        lemma_entries_map_value(before, k);
                        if k != i {
                            assert(after[k] == before[k]);
                        }
                    }
                    assert(entries_map(after) =~= entries_map(before).insert(name@, url@));
                    assert(entries_map(before).dom().contains(name@)) by {
                        lemma_entries_map_dom(before, name@);
                        assert(before[i as int].0 == name@);
                    }
                    assert(after =~= with_entry(before, name@, url@)) by {
                        assert forall|k: int| 0 <= k < before.len() implies after[k] == (if before[k].0
                            == name@ {
                            (name@, url@)
                        } else {
                            before[k]
                        }) by {
                            if k != i && before[k].0 == name@ {
                                assert(before[i as int].0 == name@);
                            }
                        }
                    }
                }
            },
            None => {
                self.channels.push(ConfigEntry { name, url });
                proof {
                    let after = entry_views(self.channels@);
                    assert(after =~= before.push((name@, url@)));
                    assert(after.drop_last() =~= before);
                    lemma_entries_map_dom(before, name@);
                    assert(names_unique(after)) by {
                        assert forall|a: int, b: int|
                            0 <= a < after.len() && 0 <= b < after.len() && a != b implies after[a].0
                            != after[b].0 by {
                            if a < before.len() {
                                assert(after[a] == before[a]);
                            }
                            if b < before.len() {
                                assert(after[b] == before[b]);
                            }
                        }
                    }
                }
            },
        }
    }
}

/// The file that holds the mapping where none is named.
pub const DEFAULT_CONFIG_FILE: &'static str = ".rrss.toml";

/// The file to read the mapping from, or to write it to.
pub fn config_file(path: Option<String>) -> (file: String)
    ensures
        file@ == match path {
            Some(p) => p@,
            None => DEFAULT_CONFIG_FILE@,
        },
{
    match path {
        Some(p) => p,
        None => DEFAULT_CONFIG_FILE.to_owned(),
    }
}

/// The mapping under which `channels` are saved.
pub fn config_of(channels: &Vec<Channel>) -> (config: RssConfig)
    ensures
        config.wf(),
        config@ == mapping_of(channel_views(channels@)),
        entry_views(config.channels@) == saved_entries(channel_views(channels@)),
{
    let ghost all = channel_views(channels@);
    let mut config = RssConfig::new();
    let mut i: usize = 0;
    while i < channels.len()
        invariant
            i <= channels.len(),
            all == channel_views(channels@),
            config.wf(),
            config@ == mapping_of(all.take(i as int)),
            entry_views(config.channels@) == saved_entries(all.take(i as int)),
        decreases channels.len() - i,
    {
        proof {
            let next = all.take(i + 1);
            assert(next.drop_last() =~= all.take(i as int));
            assert(next.last() == channels@[i as int]@);
        }
        config.insert(channels[i].title.clone(), channels[i].get_link());
        i += 1;
    }
    assert(all.take(i as int) =~= all);
    config
}

/// The channels that a mapping stands for until their feeds are loaded, in
/// the order of its entries.
pub fn channels_of(config: &RssConfig) -> (channels: Vec<Channel>)
    ensures
        channel_views(channels@) == entry_views(config.channels@).map_values(
            |e: (Seq<char>, Seq<char>)| channel_of_entry(e),
        ),
{
    let mut channels: Vec<Channel> = Vec::new();
    let mut i: usize = 0;
    while i < config.channels.len()
        invariant
            i <= config.channels.len(),
            channels.len() == i,
            forall|k: int|
                0 <= k < i ==> channels@[k]@ == channel_of_entry(config.channels@[k]@),
        decreases config.channels.len() - i,
    {
        let mut channel = Channel::default();
        channel.title = config.channels[i].name.clone();
        channel.set_link(config.channels[i].url.as_str());
        channels.push(channel);
        i += 1;
    }
    assert(channel_views(channels@) =~= entry_views(config.channels@).map_values(
        |e: (Seq<char>, Seq<char>)| channel_of_entry(e),
    ));
    channels
}

} // verus!
