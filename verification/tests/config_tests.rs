use rrss::config::{channels_of, config_file, config_of, RssConfig, DEFAULT_CONFIG_FILE};
use rrss::model::Channel;

fn channel(title: &str, url: &str) -> Channel {
    let mut c = Channel { title: title.to_string(), ..Default::default() };
    c.set_link(url);
    c
}

#[test]
fn two_names_lead_to_their_addresses() {
    let mut cfg = RssConfig::new();
    cfg.insert(
        "Between Two Cairns".to_string(),
        "https://feeds.buzzsprout.com/2042709.rss".to_string(),
    );
    cfg.insert(
        "Fear of a Black Dragon".to_string(),
        "http://feeds.libsyn.com/103241/rss".to_string(),
    );
    assert!(cfg.len() == 2);
    assert_eq!(
        cfg.get("Between Two Cairns").as_deref(),
        Some("https://feeds.buzzsprout.com/2042709.rss")
    );
    assert_eq!(
        cfg.get("Fear of a Black Dragon").as_deref(),
        Some("http://feeds.libsyn.com/103241/rss")
    );
    assert_eq!(cfg.get("Between"), None);
}

#[test]
fn one_name_leads_to_its_address() {
    let mut cfg = RssConfig::new();
    cfg.insert("First test".to_string(), "https://testing.test".to_string());
    assert!(cfg.len() == 1);
    assert_eq!(cfg.get("First test").as_deref(), Some("https://testing.test"));
    assert_eq!(cfg.position("First test"), Some(0));
    assert_eq!(cfg.position("Second test"), None);
}

#[test]
fn empty_mapping() {
    let cfg = RssConfig::new();
    assert_eq!(cfg.len(), 0);
    assert_eq!(cfg.get("anything"), None);
    assert!(channels_of(&cfg).is_empty());
}

#[test]
fn a_name_inserted_again_keeps_its_place_and_changes_its_address() {
    let mut cfg = RssConfig::new();
    cfg.insert("a".to_string(), "1".to_string());
    cfg.insert("b".to_string(), "2".to_string());
    cfg.insert("a".to_string(), "3".to_string());
    assert_eq!(cfg.len(), 2);
    assert_eq!(cfg.get("a").as_deref(), Some("3"));
    assert_eq!(cfg.get("b").as_deref(), Some("2"));
    assert_eq!(cfg.channels[0].name, "a");
    assert_eq!(cfg.channels[0].url, "3");
    assert_eq!(cfg.channels[1].name, "b");
}

#[test]
fn config_file_defaults_to_the_dot_file() {
    assert_eq!(DEFAULT_CONFIG_FILE, ".rrss.toml");
    assert_eq!(config_file(None), ".rrss.toml");
    assert_eq!(config_file(Some("test_file.toml".to_string())), "test_file.toml");
}

#[test]
fn mapping_of_a_channel_list() {
    let channels = vec![
        channel("A", "http://a/feed"),
        channel("B", "http://b/feed"),
        Channel { title: "C".to_string(), ..Default::default() },
    ];
    let cfg = config_of(&channels);
    assert_eq!(cfg.len(), 3);
    assert_eq!(cfg.get("A").as_deref(), Some("http://a/feed"));
    assert_eq!(cfg.get("B").as_deref(), Some("http://b/feed"));
    assert_eq!(cfg.get("C").as_deref(), Some("UNKNOWN"));
}

#[test]
fn of_two_channels_with_one_title_the_later_decides() {
    let channels = vec![channel("A", "http://old"), channel("B", "http://b"), channel("A", "http://new")];
    let cfg = config_of(&channels);
    assert_eq!(cfg.len(), 2);
    assert_eq!(cfg.get("A").as_deref(), Some("http://new"));
    assert_eq!(cfg.get("B").as_deref(), Some("http://b"));
}

#[test]
fn mapping_takes_the_feed_address_of_each_channel() {
    let channel = Channel {
        title: "Between Two Cairns".to_string(),
        link: vec![
            rrss::model::ChannelLink {
                href: Some("https://feeds.buzzsprout.com/2042709.rss".to_string()),
                value: None,
            },
            rrss::model::ChannelLink {
                href: Some("https://pubsubhubbub.appspot.com/".to_string()),
                value: None,
            },
        ],
        ..Default::default()
    };
    let cfg = config_of(&vec![channel]);
    assert_eq!(
        cfg.get("Between Two Cairns").as_deref(),
        Some("https://feeds.buzzsprout.com/2042709.rss")
    );
}

#[test]
fn channels_of_a_mapping() {
    let mut cfg = RssConfig::new();
    cfg.insert("First".to_string(), "http://first".to_string());
    cfg.insert("Second".to_string(), "http://second".to_string());
    let channels = channels_of(&cfg);
    assert_eq!(channels.len(), 2);
    assert_eq!(channels[0].title, "First");
    assert_eq!(channels[0].get_link(), "http://first");
    assert_eq!(channels[0].link.len(), 1);
    assert_eq!(channels[0].link[0].value, None);
    assert!(channels[0].items.is_empty());
    assert_eq!(channels[0].description, "");
    assert_eq!(channels[1].title, "Second");
    assert_eq!(channels[1].get_link(), "http://second");
}

#[test]
fn what_is_saved_comes_back_as_the_same_channels() {
    let channels = vec![channel("A", "http://a"), channel("B", "http://b")];
    let back = channels_of(&config_of(&channels));
    assert_eq!(back.len(), 2);
    assert_eq!(back[0].title, "A");
    assert_eq!(back[0].get_link(), "http://a");
    assert_eq!(back[1].title, "B");
    assert_eq!(back[1].get_link(), "http://b");
}
