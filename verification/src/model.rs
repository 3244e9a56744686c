//! The feed model: a channel, its links and its entries.
//!
//! Every type has a view in which strings are sequences of characters and
//! vectors are sequences of views. The contracts of the whole crate speak of
//! these views.

use vstd::prelude::*;
use vstd::string::*;

verus! {

/// The characters of an optional string.
pub open spec fn opt_text(o: Option<String>) -> Option<Seq<char>> {
    match o {
        Some(s) => Some(s@),
        None => None,
    }
}

/// The characters of each string of a sequence.
pub open spec fn texts(s: Seq<String>) -> Seq<Seq<char>> {
    s.map_values(|t: String| t@)
}

/// The views of a sequence of links.
pub open spec fn link_views(s: Seq<ChannelLink>) -> Seq<ChannelLinkView> {
    s.map_values(|l: ChannelLink| l@)
}

/// The views of a sequence of images.
pub open spec fn image_views(s: Seq<Image>) -> Seq<ImageView> {
    s.map_values(|i: Image| i@)
}

/// The views of a sequence of items.
pub open spec fn item_views(s: Seq<Item>) -> Seq<ItemView> {
    s.map_values(|i: Item| i@)
}

/// The views of a sequence of channels.
pub open spec fn channel_views(s: Seq<Channel>) -> Seq<ChannelView> {
    s.map_values(|c: Channel| c@)
}

/// A copy of an optional string.
pub fn clone_opt_text(o: &Option<String>) -> (r: Option<String>)
    ensures
        opt_text(r) == opt_text(*o),
{
    match o {
        Some(s) => Some(s.clone()),
        None => None,
    }
}

/// A copy of a vector of strings.
pub fn clone_texts(v: &Vec<String>) -> (r: Vec<String>)
    ensures
        texts(r@) == texts(v@),
{
    let mut out: Vec<String> = Vec::new();
    let mut i: usize = 0;
    while i < v.len()
        invariant
            i <= v.len(),
            out.len() == i,
            forall|k: int| 0 <= k < i ==> out@[k]@ == v@[k]@,
        decreases v.len() - i,
    {
        out.push(v[i].clone());
        i += 1;
    }
    assert(texts(out@) =~= texts(v@));
    out
}

/// One link element of a channel. A feed may carry several variants.
#[derive(Debug)]
pub struct ChannelLink {
    pub href: Option<String>,
    /// Text of the link element.
    pub value: Option<String>,
}

/// A link as plain values.
pub struct ChannelLinkView {
    pub href: Option<Seq<char>>,
    pub value: Option<Seq<char>>,
}

impl View for ChannelLink {
    type V = ChannelLinkView;

    open spec fn view(&self) -> ChannelLinkView {
        ChannelLinkView { href: opt_text(self.href), value: opt_text(self.value) }
    }
}

impl Clone for ChannelLink {
    fn clone(&self) -> (r: Self)
        ensures
            r@ == self@,
    {
        ChannelLink { href: clone_opt_text(&self.href), value: clone_opt_text(&self.value) }
    }
}

impl Default for ChannelLink {
    fn default() -> (r: Self)
        ensures
            r@ == (ChannelLinkView { href: None, value: None }),
    {
        ChannelLink { href: None, value: None }
    }
}

/// A media attachment of an item.
#[derive(Debug, PartialEq)]
pub struct Enclosure {
    pub url: String,
    pub length: String,
    pub enclosure_type: String,
}

/// An enclosure as plain values.
pub struct EnclosureView {
    pub url: Seq<char>,
    pub length: Seq<char>,
    pub enclosure_type: Seq<char>,
}

impl View for Enclosure {
    type V = EnclosureView;

    open spec fn view(&self) -> EnclosureView {
        EnclosureView {
            url: self.url@,
            length: self.length@,
            enclosure_type: self.enclosure_type@,
        }
    }
}

impl Clone for Enclosure {
    fn clone(&self) -> (r: Self)
        ensures
            r@ == self@,
    {
        Enclosure {
            url: self.url.clone(),
            length: self.length.clone(),
            enclosure_type: self.enclosure_type.clone(),
        }
    }
}

/// An image of a channel.
#[derive(Debug, PartialEq)]
pub struct Image {
    pub url: Option<String>,
    pub href: Option<String>,
    pub link: Option<String>,
    pub title: Option<String>,
}

/// An image as plain values.
pub struct ImageView {
    pub url: Option<Seq<char>>,
    pub href: Option<Seq<char>>,
    pub link: Option<Seq<char>>,
    pub title: Option<Seq<char>>,
}

impl View for Image {
    type V = ImageView;

    open spec fn view(&self) -> ImageView {
        ImageView {
            url: opt_text(self.url),
            href: opt_text(self.href),
            link: opt_text(self.link),
            title: opt_text(self.title),
        }
    }
}

impl Clone for Image {
    fn clone(&self) -> (r: Self)
        ensures
            r@ == self@,
    {
        Image {
            url: clone_opt_text(&self.url),
            href: clone_opt_text(&self.href),
            link: clone_opt_text(&self.link),
            title: clone_opt_text(&self.title),
        }
    }
}

/// The title under which an item without a title is listed.
pub const UNTITLED: &'static str = "None";

/// One entry of a channel.
#[derive(Debug, PartialEq)]
pub struct Item {
    /// A feed may repeat the title element: the first one counts.
    pub title: Option<Vec<String>>,
    pub link: Option<String>,
    pub description: Option<String>,
    pub enclosure: Option<Enclosure>,
    pub pub_date: Option<String>,
}

/// An item as plain values.
pub struct ItemView {
    pub title: Option<Seq<Seq<char>>>,
    pub link: Option<Seq<char>>,
    pub description: Option<Seq<char>>,
    pub enclosure: Option<EnclosureView>,
    pub pub_date: Option<Seq<char>>,
}

impl ItemView {
    /// The first title, if the item has one.
    pub open spec fn first_title(self) -> Option<Seq<char>> {
        match self.title {
            Some(titles) => if titles.len() > 0 {
                Some(titles[0])
            } else {
                None
            },
            None => None,
        }
    }

    /// The title under which an item is listed: its first title, or the
    /// word `None` where it has no title.
    pub open spec fn listed_title(self) -> Seq<char> {
        match self.first_title() {
            Some(title) => title,
            None => UNTITLED@,
        }
    }
}

impl View for Item {
    type V = ItemView;

    open spec fn view(&self) -> ItemView {
        ItemView {
            title: match self.title {
                Some(titles) => Some(texts(titles@)),
                None => None,
            },
            link: opt_text(self.link),
            description: opt_text(self.description),
            enclosure: match self.enclosure {
                Some(e) => Some(e@),
                None => None,
            },
            pub_date: opt_text(self.pub_date),
        }
    }
}

impl Clone for Item {
    fn clone(&self) -> (r: Self)
        ensures
            r@ == self@,
    {
        Item {
            title: match &self.title {
                Some(titles) => Some(clone_texts(titles)),
                None => None,
            },
            link: clone_opt_text(&self.link),
            description: clone_opt_text(&self.description),
            enclosure: match &self.enclosure {
                Some(e) => Some(e.clone()),
                None => None,
            },
            pub_date: clone_opt_text(&self.pub_date),
        }
    }
}

impl Item {
    /// The title under which the item is listed.
    pub fn get_title(&self) -> (r: String)
        ensures
            r@ == self@.listed_title(),
    {
        if let Some(titles) = &self.title {
            if titles.len() > 0 {
                return titles[0].clone();
            }
        }
        UNTITLED.to_owned()
    }
}

/// A copy of a vector of items.
pub fn clone_items(v: &Vec<Item>) -> (r: Vec<Item>)
    ensures
        item_views(r@) == item_views(v@),
{
    let mut out: Vec<Item> = Vec::new();
    let mut i: usize = 0;
    while i < v.len()
        invariant
            i <= v.len(),
            out.len() == i,
            forall|k: int| 0 <= k < i ==> out@[k]@ == v@[k]@,
        decreases v.len() - i,
    {
        out.push(v[i].clone());
        i += 1;
    }
    assert(item_views(out@) =~= item_views(v@));
    out
}

/// A subscribed feed: its metadata and its entries.
#[derive(Debug)]
pub struct Channel {
    pub title: String,
    pub link: Vec<ChannelLink>,
    pub description: String,
    /// Kept as the feed gave it; never parsed.
    pub pub_date: Option<String>,
    pub items: Vec<Item>,
    pub image: Option<Vec<Image>>,
}

/// A channel as plain values.
pub struct ChannelView {
    pub title: Seq<char>,
    pub link: Seq<ChannelLinkView>,
    pub description: Seq<char>,
    pub pub_date: Option<Seq<char>>,
    pub items: Seq<ItemView>,
    pub image: Option<Seq<ImageView>>,
}

/// The ending by which the address of an XML feed is known.
pub const XML_SUFFIX: &'static str = "xml";

/// The ending by which the address of an RSS feed is known.
pub const RSS_SUFFIX: &'static str = "rss";

/// What a channel without links answers for its address.
pub const UNKNOWN_LINK: &'static str = "UNKNOWN";

/// Whether `text` ends in `suffix`.
pub open spec fn has_suffix(text: Seq<char>, suffix: Seq<char>) -> bool {
    suffix.len() <= text.len() && text.subrange(text.len() - suffix.len(), text.len() as int)
        == suffix
}

/// Whether an address looks like that of a feed: it ends in `xml` or in
/// `rss`.
pub open spec fn is_feed_address(href: Seq<char>) -> bool {
    has_suffix(href, XML_SUFFIX@) || has_suffix(href, RSS_SUFFIX@)
}

/// The href of the last link that carries one.
pub open spec fn last_href(links: Seq<ChannelLinkView>) -> Option<Seq<char>>
    decreases links.len(),
{
    if links.len() == 0 {
        None
    } else {
        match links.last().href {
            Some(href) => Some(href),
            None => last_href(links.drop_last()),
        }
    }
}

/// The href of the last link whose href looks like the address of a feed.
pub open spec fn last_feed_href(links: Seq<ChannelLinkView>) -> Option<Seq<char>>
    decreases links.len(),
{
    if links.len() == 0 {
        None
    } else {
        match links.last().href {
            Some(href) => if is_feed_address(href) {
                Some(href)
            } else {
                last_feed_href(links.drop_last())
            },
            None => last_feed_href(links.drop_last()),
        }
    }
}

/// Whether `text` ends in `suffix`.
pub fn ends_with(text: &str, suffix: &str) -> (r: bool)
    ensures
        r == has_suffix(text@, suffix@),
{
    let n = text.unicode_len();
    let m = suffix.unicode_len();
    if m > n {
        return false;
    }
    let start = n - m;
    let mut k: usize = 0;
    while k < m
        invariant
            k <= m,
            m <= n,
            start == n - m,
            n == text@.len(),
            m == suffix@.len(),
            forall|j: int| 0 <= j < k ==> text@[start + j] == suffix@[j],
        decreases m - k,
    {
        if text.get_char(start + k) != suffix.get_char(k) {
            assert(text@.subrange(n - m, n as int)[k as int] == text@[start + k]);
            return false;
        }
        k += 1;
    }
    assert(text@.subrange(n - m, n as int) =~= suffix@);
    true
}

/// Whether an address looks like that of a feed.
pub fn looks_like_feed(href: &str) -> (r: bool)
    ensures
        r == is_feed_address(href@),
{
    ends_with(href, XML_SUFFIX) || ends_with(href, RSS_SUFFIX)
}

impl ChannelView {
    /// A channel with empty texts, no link and no entry.
    pub open spec fn empty() -> ChannelView {
        ChannelView {
            title: Seq::empty(),
            link: Seq::empty(),
            description: Seq::empty(),
            pub_date: None,
            items: Seq::empty(),
            image: None,
        }
    }

    /// The channel that a bare address stands for until the feed is loaded:
    /// the address is its title and its one link.
    pub open spec fn placeholder(url: Seq<char>) -> ChannelView {
        ChannelView {
            title: url,
            link: seq![ChannelLinkView { href: Some(url), value: None }],
            ..ChannelView::empty()
        }
    }

    /// The address of the feed. Among the hrefs of the links, the last one
    /// that looks like the address of a feed decides; where none does, the
    /// last href decides. A channel without links answers `UNKNOWN`, one
    /// whose links carry no href the empty text.
    pub open spec fn feed_link(self) -> Seq<char> {
        if self.link.len() == 0 {
            UNKNOWN_LINK@
        } else {
            match last_feed_href(self.link) {
                Some(href) => href,
                None => href_or_empty(last_href(self.link)),
            }
        }
    }
}

impl View for Channel {
    type V = ChannelView;

    open spec fn view(&self) -> ChannelView {
        ChannelView {
            title: self.title@,
            link: link_views(self.link@),
            description: self.description@,
            pub_date: opt_text(self.pub_date),
            items: item_views(self.items@),
            image: match self.image {
                Some(images) => Some(image_views(images@)),
                None => None,
            },
        }
    }
}

/// A copy of a vector of links.
pub fn clone_links(v: &Vec<ChannelLink>) -> (r: Vec<ChannelLink>)
    ensures
        link_views(r@) == link_views(v@),
{
    let mut out: Vec<ChannelLink> = Vec::new();
    let mut i: usize = 0;
    while i < v.len()
        invariant
            i <= v.len(),
            out.len() == i,
            forall|k: int| 0 <= k < i ==> out@[k]@ == v@[k]@,
        decreases v.len() - i,
    {
        out.push(v[i].clone());
        i += 1;
    }
    assert(link_views(out@) =~= link_views(v@));
    out
}

/// A copy of a vector of images.
pub fn clone_images(v: &Vec<Image>) -> (r: Vec<Image>)
    ensures
        image_views(r@) == image_views(v@),
{
    let mut out: Vec<Image> = Vec::new();
    let mut i: usize = 0;
    while i < v.len()
        invariant
            i <= v.len(),
            out.len() == i,
            forall|k: int| 0 <= k < i ==> out@[k]@ == v@[k]@,
        decreases v.len() - i,
    {
        out.push(v[i].clone());
        i += 1;
    }
    assert(image_views(out@) =~= image_views(v@));
    out
}

impl Clone for Channel {
    fn clone(&self) -> (r: Self)
        ensures
            r@ == self@,
    {
        Channel {
            title: self.title.clone(),
            link: clone_links(&self.link),
            description: self.description.clone(),
            pub_date: clone_opt_text(&self.pub_date),
            items: clone_items(&self.items),
            image: match &self.image {
                Some(images) => Some(clone_images(images)),
                None => None,
            },
        }
    }
}

impl Default for Channel {
    fn default() -> (r: Self)
        ensures
            r@ == ChannelView::empty(),
    {
        let r = Channel {
            title: String::new(),
            link: Vec::new(),
            description: String::new(),
            pub_date: None,
            items: Vec::new(),
            image: None,
        };
        assert(link_views(r.link@) =~= Seq::empty());
        assert(item_views(r.items@) =~= Seq::empty());
        r
    }
}

/// The text of an optional href, empty where there is none.
pub open spec fn href_or_empty(href: Option<Seq<char>>) -> Seq<char> {
    match href {
        Some(h) => h,
        None => Seq::empty(),
    }
}

impl Channel {
    /// The address of the feed.
    pub fn get_link(&self) -> (r: String)
        ensures
            r@ == self@.feed_link(),
    {
        if self.link.len() == 0 {
            return UNKNOWN_LINK.to_owned();
        }
        let ghost links = link_views(self.link@);
        let mut feed_link: Option<String> = None;
        let mut return_link = String::new();
        let mut i: usize = 0;
        while i < self.link.len()
            invariant
                i <= self.link.len(),
                links == link_views(self.link@),
                return_link@ == href_or_empty(last_href(links.take(i as int))),
                opt_text(feed_link) == last_feed_href(links.take(i as int)),
            decreases self.link.len() - i,
        {
            proof {
                let next = links.take(i + 1);
                assert(next.drop_last() =~= links.take(i as int));
                assert(next.last() == self.link@[i as int]@);
            }
            match &self.link[i].href {
                Some(href) => {
                    if looks_like_feed(href.as_str()) {
                        feed_link = Some(href.clone());
                    }
                    return_link = href.clone();
                },
                None => {},
            }
            i += 1;
        }
        assert(links.take(i as int) =~= links);
        match feed_link {
            Some(href) => href,
            None => return_link,
        }
    }

    /// Makes `txt` the one link of the channel.
    pub fn set_link(&mut self, txt: &str)
        ensures
            final(self)@ == (ChannelView {
                link: seq![ChannelLinkView { href: Some(txt@), value: None }],
                ..old(self)@
            }),
    {
        if self.link.len() > 0 {
            self.link = Vec::new();
        }
        let channel_link = ChannelLink { href: Some(txt.to_owned()), value: None };
        self.link.push(channel_link);
        assert(link_views(self.link@) =~= seq![ChannelLinkView { href: Some(txt@), value: None }]);
    }

    /// The channel that stands for a bare address until its feed is loaded.
    pub fn placeholder(url: &str) -> (r: Self)
        ensures
            r@ == ChannelView::placeholder(url@),
    {
        let mut r = Channel::default();
        r.title = url.to_owned();
        r.set_link(url);
        r
    }
}

/// The outermost element of a feed document.
#[derive(Debug)]
pub struct Rss {
    pub version: String,
    pub channel: Channel,
}

/// A feed document as plain values.
pub struct RssView {
    pub version: Seq<char>,
    pub channel: ChannelView,
}

impl View for Rss {
    type V = RssView;

    open spec fn view(&self) -> RssView {
        RssView { version: self.version@, channel: self.channel@ }
    }
}

} // verus!
