use gopher::actions;
use gopher::config::{Config, RepositoryConfig};
use gopher::evidence::{fingerprint, hash};
use gopher::hotkeys;
use gopher::json;
use gopher::json::Json;
use gopher::macos::menu::{menu, Entry, Item};
use gopher::macos::updates::State as UpdateState;
use gopher::model::{Agent, PullRequest, Snapshot, State, Thread};
use gopher::order;
use gopher::store::{Change, Store, Tables, VERSION};
use gopher::text;
use gopher::text_map::TextMap;

#[test]
fn digests_are_those_of_sha_256() {
    assert_eq!(hash(b""), "e3b0c44298fc1c149afbf4c8996fb92427ae41e4649b934ca495991b7852b855");
    assert_eq!(hash(b"abc"), "ba7816bf8f01cfea414140de5dae2223b00361a396177a9cb410ff61f20015ad");
}

#[test]
fn fingerprints_rest_on_the_open_threads_in_any_order() {
    let thread = |id: &str| Thread { id: id.into(), last_comment_id: format!("{id}-1"), ..Default::default() };
    let mut snapshot =
        Snapshot { head: "head".into(), threads: vec![thread("a"), thread("b")], ..Default::default() };
    let first = fingerprint(&snapshot, &vec![], State::Comments);
    snapshot.threads.reverse();
    snapshot.title = "Another title".into();
    assert_eq!(fingerprint(&snapshot, &vec![], State::Comments), first);
    assert_ne!(fingerprint(&snapshot, &vec![], State::Approved), first);
    snapshot.threads[0].resolved = true;
    assert_ne!(fingerprint(&snapshot, &vec![], State::Comments), first);
}

#[test]
fn documents_are_read_and_written() {
    let text = r#"{"a":[null,true,false,1,-2,1.5,"q\"\\\n\u0001é"],"b":{},"c":[]}"#;
    let value = json::parse(text.as_bytes()).unwrap();
    assert_eq!(value.write(), text);
    assert_eq!(value.at("a").item(6).as_str(), Some("q\"\\\n\u{1}é"));
    assert_eq!(value.at("a").item(3).as_u64(), Some(1));
    assert_eq!(value.at("a").item(4).as_u64(), None);
    assert_eq!(value.at("a").item(5).as_u64(), None);
    assert!(value.at("a").item(0).is_null());
    assert!(value.at("a").item(99).is_null());
    assert!(value.at("missing").at("deeper").is_null());
    assert_eq!(value.at("a").as_array().unwrap().len(), 7);
    assert!(value.at("b").as_array().is_none());
    assert_eq!(value.string("missing"), "");
    assert!(json::parse(b"{\"a\":}").is_none());
    assert!(json::parse(b"{} {}").is_none());
    assert!(json::parse(&[0xff]).is_none());
    assert_eq!(Json::optional(&None).write(), "null");
    assert_eq!(Json::number(u64::MAX).write(), "18446744073709551615");
    assert_eq!(value.copy().write(), text);
    let untidy = Json::Object(vec![
        ("b".into(), Json::number(1)),
        ("a".into(), Json::text("é\n")),
        ("b".into(), Json::List(vec![Json::boolean(true), Json::Number(None, "-2.50".into())])),
    ]);
    assert_eq!(untidy.write(), r#"{"a":"é\n","b":[true,-2.5]}"#);
}

#[test]
fn texts_are_taken_apart() {
    assert_eq!(text::trim(" \t x \u{a0}"), "x");
    assert_eq!(text::decimal(0), "0");
    assert_eq!(text::decimal(u64::MAX), "18446744073709551615");
    assert_eq!(text::split("a:b::c", ':'), vec!["a", "b", "", "c"]);
    assert_eq!(text::hex(&[0, 15, 255]), "000fff");
    assert!(text::contains("abcdef", "cde"));
    assert!(!text::contains("abcdef", "ced"));
    assert!(text::contains("abc", ""));
    assert!(text::starts_with("repos/a", "repos/"));
    assert!(text::less("a", "b") && !text::less("b", "a") && !text::less("a", "a"));
    assert!(text::less("Z", "a") && text::less("a", "ab"));
    assert_eq!(text::without_controls("a\nb\u{7}c"), "a b c");
}

#[test]
fn maps_are_in_the_order_of_their_keys() {
    let mut map: TextMap<u64> = TextMap::new();
    for (key, value) in [("b", 2), ("a", 1), ("c", 3), ("a", 4)] {
        map.insert(key.to_string(), value);
    }
    assert_eq!(map.len(), 3);
    assert_eq!(map.key_list(), vec!["a", "b", "c"]);
    assert_eq!(map.get("a"), Some(&4));
    assert_eq!(map.remove("b"), Some(2));
    assert_eq!(map.remove("b"), None);
    assert!(!map.contains_key("b"));
    assert_eq!((map.key_at(1).as_str(), *map.value_at(1)), ("c", 3));
}

#[test]
fn equal_keys_keep_their_order() {
    let items = vec!["x".to_string(), "y".to_string(), "z".to_string()];
    let keys = vec!["b".to_string(), "a".to_string(), "b".to_string()];
    assert_eq!(order::order(&items, &keys), vec!["y", "x", "z"]);
}

#[test]
fn settings_are_checked() {
    assert!(Config::default().load().is_ok());
    let with = |change: fn(&mut Config)| {
        let mut config = Config::default();
        change(&mut config);
        match config.load() {
            Ok(_) => "sound".to_string(),
            Err(message) => message,
        }
    };
    assert_eq!(with(|c| c.poll_seconds = 4), "poll_seconds must be at least 5");
    assert_eq!(with(|c| c.discovery_seconds = 29), "discovery_seconds must be >= poll_seconds");
    assert_eq!(with(|c| c.request_timeout_seconds = 0), "request_timeout_seconds must be 1–120");
    assert_eq!(with(|c| c.request_timeout_seconds = 121), "request_timeout_seconds must be 1–120");
    assert_eq!(with(|c| c.settle_seconds = 601), "settle_seconds must be <= 600");
    assert_eq!(with(|c| c.log_level = "not=a=level".into()), "Invalid log_level");
    assert_eq!(with(|c| c.log_level = "gopher=debug".into()), "sound");
    // Marks are looked for behind the white space, and must not cut a character in two.
    assert_eq!(with(|c| c.log_level = "\u{a0}a=info".into()), "Invalid log_level");
    assert_eq!(with(|c| c.log_level = " aé=x".into()), "Invalid log_level");
    assert_eq!(with(|c| c.log_level = "info, [é]".into()), "Invalid log_level");
    assert_eq!(with(|c| c.log_level = "é=info, aé, b[c{d=1}]".into()), "sound");
    assert_eq!(with(|c| c.log_level = " gopher".into()), "sound");
    assert_eq!(with(|c| c.log_level = " [aé=b]".into()), "sound");
    assert_eq!(with(|c| c.log_level = " a[bé{c=1}]=info".into()), "Invalid log_level");
    assert_eq!(with(|c| c.log_level = "\u{a0}aé=info".into()), "Invalid log_level");
    let mut config = Config::default();
    config.repositories.insert(
        "owner/repo".to_string(),
        RepositoryConfig { reviewers: Some(vec![Agent::Codex]), ignore: true },
    );
    assert!(config.ignores("owner/repo"));
    assert!(!config.ignores("owner/other"));
    assert_eq!(config.expected("owner/repo"), Some(&[Agent::Codex][..]));
    assert!(config.expected("owner/other").is_none());
}

#[test]
fn long_errors_are_shown_in_parts() {
    let error = format!("{}é{}", "a".repeat(99), "b".repeat(50));
    let entries = menu(&vec![], Some(&error), false, true, false, &UpdateState::default(), 0, &TextMap::new());
    let mut parts = Vec::new();
    for entry in &entries {
        if let Entry::Submenu { items, .. } = entry {
            for item in items {
                if let Item::Text(part) = item {
                    parts.push(part.clone());
                }
            }
        }
    }
    assert_eq!(parts[0], format!("{}\u{fffd}", "a".repeat(99)));
    assert_eq!(parts[1], format!("\u{fffd}{}", "b".repeat(50)));
}

#[test]
fn other_versions_of_the_data_are_refused() {
    assert!(Store::open(VERSION, Tables::default()).is_ok());
    assert!(Store::open(VERSION + 1, Tables::default()).is_err());
    assert!(Store::open(0, Tables::default()).is_ok());
}

#[test]
fn ignored_prs_stay_ignored_until_they_are_restored() {
    let mut store = Store::open(VERSION, Tables::default()).unwrap();
    for id in ["a", "b"] {
        store.save(&PullRequest::unreviewed(Snapshot { id: id.into(), open: true, ..Default::default() }));
    }
    store.ignore("a");
    assert_eq!(store.ignored(), vec!["a"]);
    assert_eq!(store.load().len(), 1);
    assert_eq!(store.load_ignored()[0].snapshot.id, "a");
    assert!(store.restore("a"));
    assert!(!store.restore("a"));
    assert!(store.ignores_none());
    // Nothing is known of one that was never saved, and it is shown all the same.
    store.ignore("unknown");
    assert_eq!(store.load_ignored()[0].snapshot.id, "unknown");
}

#[test]
fn what_is_written_down_is_read_again() {
    let mut store = Store::open(VERSION, Tables::default()).unwrap();
    assert!(!store.set_viewer("alice"));
    let pr = PullRequest::unreviewed(Snapshot { id: "PR_1".into(), open: true, ..Default::default() });
    store.save(&pr);
    let notice = store.notification(&pr).unwrap();
    assert!(store.notification(&pr).is_some());
    store.mark_delivered(&notice);
    assert!(store.notification(&pr).is_none());
    let preferences = actions::Preferences {
        merge_method: actions::MergeMethod::Squash,
        ..Default::default()
    };
    store.save_action_preferences("Owner/Repo", &preferences);
    store.save_hotkeys(&hotkeys::Preferences::default(), false).unwrap();
    let mut tables = Tables::default();
    for change in store.take_changes() {
        tables.apply(&change);
    }
    let mut again = Store::open(VERSION, tables).unwrap();
    assert_eq!(again.viewer().as_deref(), Some("alice"));
    let loaded = again.load();
    assert_eq!(loaded.len(), 1);
    assert!(loaded[0].stale);
    assert!(again.notification(&pr).is_none());
    let (target, _, _) = again.notification_target(&notice).unwrap();
    assert_eq!(target, "PR_1");
    assert!(*again.action_preferences().get("owner/repo").unwrap() == preferences);
    assert_eq!(again.hotkeys(false).unwrap(), hotkeys::Preferences::default());
    // Another account has pull requests and notifications of its own.
    assert!(again.set_viewer("bob"));
    assert!(again.load().is_empty());
    assert!(again.notification_target(&notice).is_none());
}

#[test]
fn only_the_newest_notifications_are_kept() {
    let mut tables = Tables::default();
    for i in 0..10_002u64 {
        tables.apply(&Change::AddNotice {
            id: format!("notice-{i}"),
            pr: "PR_1".into(),
            update: format!("update-{i}"),
            url: "https://github.com/".into(),
        });
    }
    tables.apply(&Change::TrimNotices);
    let store = Store::open(VERSION, tables).unwrap();
    assert!(store.notification_target("notice-1").is_none());
    assert!(store.notification_target("notice-2").is_some());
    assert!(store.notification_target("notice-10001").is_some());
}

#[test]
fn details_of_ignored_prs_are_saved_once_and_only_for_them() {
    let mut store = Store::open(VERSION, Tables::default()).unwrap();
    let details = |title: &str| {
        PullRequest::unreviewed(Snapshot { id: "PR_1".into(), title: title.into(), open: true, ..Default::default() })
    };
    store.save_ignored_details(&details("not ignored"));
    store.ignore("PR_1");
    store.save_ignored_details(&details("first"));
    store.save_ignored_details(&details("second"));
    assert_eq!(store.load_ignored()[0].snapshot.title, "first");
}
