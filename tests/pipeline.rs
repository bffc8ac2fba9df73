use anime_fetch::config::{Config, ConfigError};
use anime_fetch::dispatch::client_args;
use anime_fetch::json::{get_field, parse_json, Json};
use anime_fetch::search::{
    candidate_from_links, episode_search_url, find_candidate, search_url, search_url_from_encoded,
    Link, ScrapeError,
};
use anime_fetch::text::{decimal_text, same_text};
use anime_fetch::tracking::{watch_list_from_json, watch_list_from_text, RemoteError};
use anime_fetch::watch::{ready_entries, AiringNode, WatchEntry};

fn entry(title: &str, progress: i32, status: &str, next: Option<i32>) -> WatchEntry {
    WatchEntry {
        media_id: 1,
        progress,
        title: title.to_string(),
        status: status.to_string(),
        next_episode: next.map(|e| AiringNode { episode: e, time_until_airing: 3600 }),
        schedule: vec![],
    }
}

#[test]
fn gap_before_next_episode_is_ready() {
    let e = entry("Show A", 3, "RELEASING", Some(5));
    assert!(e.is_ready());
    assert_eq!(e.search_query(), "Show A - 4");
}

#[test]
fn caught_up_is_not_ready() {
    let e = entry("Show A", 3, "RELEASING", Some(4));
    assert!(!e.is_ready());
}

#[test]
fn ahead_of_next_episode_is_not_ready() {
    assert!(!entry("Show A", 7, "RELEASING", Some(4)).is_ready());
}

#[test]
fn not_releasing_is_never_ready() {
    assert!(!entry("Show A", 0, "FINISHED", None).is_ready());
    assert!(!entry("Show A", 0, "NOT_YET_RELEASED", Some(9)).is_ready());
    assert!(!entry("Show A", 0, "releasing", None).is_ready());
}

#[test]
fn releasing_without_next_episode_is_ready() {
    assert!(entry("Show A", 12, "RELEASING", None).is_ready());
}

#[test]
fn progress_at_i32_max_is_not_ready() {
    assert!(!entry("Show A", i32::MAX, "RELEASING", Some(i32::MAX)).is_ready());
}

#[test]
fn ready_entries_keeps_order() {
    let list = vec![
        entry("A", 1, "RELEASING", Some(5)),
        entry("B", 1, "FINISHED", None),
        entry("C", 4, "RELEASING", Some(5)),
        entry("D", 2, "RELEASING", None),
    ];
    let ready = ready_entries(list);
    let titles: Vec<&str> = ready.iter().map(|e| e.title.as_str()).collect();
    assert_eq!(titles, vec!["A", "D"]);
}

#[test]
fn ready_entries_of_empty_list() {
    assert!(ready_entries(vec![]).is_empty());
}

#[test]
fn decimal_text_writes_numbers() {
    assert_eq!(decimal_text(0), "0");
    assert_eq!(decimal_text(4), "4");
    assert_eq!(decimal_text(1207), "1207");
    assert_eq!(decimal_text(-35), "-35");
    assert_eq!(decimal_text(i64::MAX), "9223372036854775807");
}

#[test]
fn same_text_compares_characters() {
    assert!(same_text("RELEASING", "RELEASING"));
    assert!(!same_text("RELEASING", "RELEASED"));
    assert!(!same_text("", "a"));
    assert!(same_text("", ""));
}

#[test]
fn search_url_encodes_query() {
    assert_eq!(
        search_url("Show A - 4"),
        "https://nyaa.si/?f=0&c=1_2&q=Show%20A%20-%204&s=seeders&o=desc"
    );
    assert_eq!(
        search_url_from_encoded("x"),
        "https://nyaa.si/?f=0&c=1_2&q=x&s=seeders&o=desc"
    );
}

#[test]
fn episode_search_url_uses_next_episode() {
    let e = entry("Kimi & Boku", 11, "RELEASING", None);
    assert_eq!(
        episode_search_url(&e),
        "https://nyaa.si/?f=0&c=1_2&q=Kimi%20%26%20Boku%20-%2012&s=seeders&o=desc"
    );
}

const ONE_ROW_PAGE: &str = "<html><body><table><tbody>\
<tr><td><a href=\"/?c=1_2\">cat</a></td>\
<td colspan=\"2\"><a href=\"/view/1#comments\">3</a><a href=\"/view/1\">Show A - 04 &amp; more</a></td>\
<td><a href=\"/download/1.torrent\">t</a><a href=\"magnet:?xt=urn:btih:abc&amp;dn=x\">m</a></td></tr>\
<tr><td><a href=\"/?c=1_2\">cat</a></td>\
<td><a href=\"/view/2\">Other</a></td>\
<td><a href=\"/download/2.torrent\">t</a><a href=\"magnet:?xt=urn:btih:def\">m</a></td></tr>\
</tbody></table></body></html>";

#[test]
fn page_with_rows_gives_first_match() {
    let c = find_candidate(ONE_ROW_PAGE).unwrap().unwrap();
    assert_eq!(c.name, "Show A - 04 & more");
    assert_eq!(c.magnet, "magnet:?xt=urn:btih:abc&dn=x");
}

#[test]
fn empty_results_table_is_no_result() {
    let page = "<html><body><table><thead><tr><th>Name</th></tr></thead><tbody></tbody></table></body></html>";
    assert!(matches!(find_candidate(page), Ok(None)));
}

#[test]
fn page_without_table_is_layout_change() {
    let page = "<html><body><p>No results found</p></body></html>";
    assert!(matches!(find_candidate(page), Err(ScrapeError::LayoutChanged)));
}

#[test]
fn row_without_magnet_is_layout_change() {
    let page = "<table><tbody><tr><td>a</td><td><a href=\"/v\">Name</a></td><td></td></tr></tbody></table>";
    assert!(matches!(find_candidate(page), Err(ScrapeError::LayoutChanged)));
}

fn link(href: Option<&str>, text: &str) -> Link {
    Link { href: href.map(|h| h.to_string()), text: text.to_string() }
}

#[test]
fn candidate_from_links_rules() {
    let t = vec![link(None, "")];
    let r = vec![link(None, "row")];
    let m = vec![link(Some("magnet:?a"), "")];
    let n = vec![link(Some("/v"), "Name")];
    let c = candidate_from_links(&t, &r, &m, &n).unwrap().unwrap();
    assert_eq!(c.name, "Name");
    assert_eq!(c.magnet, "magnet:?a");
    assert!(matches!(candidate_from_links(&vec![], &r, &m, &n), Err(ScrapeError::LayoutChanged)));
    assert!(matches!(candidate_from_links(&t, &vec![], &vec![], &vec![]), Ok(None)));
    assert!(matches!(
        candidate_from_links(&t, &r, &vec![link(None, "m")], &n),
        Err(ScrapeError::LayoutChanged)
    ));
    assert!(matches!(candidate_from_links(&t, &r, &m, &vec![]), Err(ScrapeError::LayoutChanged)));
}

const PAYLOAD: &str = r#"{"data":{"MediaListCollection":{"lists":[{"name":"Watching","entries":[
 {"progress":3,"media":{"id":101,"status":"RELEASING","episodes":12,
   "airingSchedule":{"nodes":[{"episode":5,"timeUntilAiring":-100},{"episode":6,"timeUntilAiring":604700}]},
   "nextAiringEpisode":{"episode":6,"timeUntilAiring":604700},"title":{"romaji":"Show A"}}},
 {"progress":12,"media":{"id":202,"status":"FINISHED","episodes":12,
   "airingSchedule":{"nodes":[]},"nextAiringEpisode":null,"title":{"romaji":"Show B"}}}
]}]}}}"#;

#[test]
fn payload_gives_one_entry_per_item() {
    let list = watch_list_from_text(PAYLOAD).unwrap();
    assert_eq!(list.len(), 2);
    let a = &list[0];
    assert_eq!((a.media_id, a.progress), (101, 3));
    assert_eq!(a.title, "Show A");
    assert_eq!(a.status, "RELEASING");
    assert_eq!(
        a.schedule,
        vec![
            AiringNode { episode: 5, time_until_airing: -100 },
            AiringNode { episode: 6, time_until_airing: 604700 }
        ]
    );
    assert_eq!(a.next_episode, Some(AiringNode { episode: 6, time_until_airing: 604700 }));
    let b = &list[1];
    assert_eq!((b.media_id, b.progress), (202, 12));
    assert_eq!(b.title, "Show B");
    assert_eq!(b.status, "FINISHED");
    assert!(b.schedule.is_empty());
    assert_eq!(b.next_episode, None);
}

#[test]
fn absent_next_episode_is_none() {
    let text = r#"{"data":{"MediaListCollection":{"lists":[{"entries":[
 {"progress":0,"media":{"id":7,"status":"RELEASING","airingSchedule":{"nodes":[]},"title":{"romaji":"C"}}}]}]}}}"#;
    let list = watch_list_from_text(text).unwrap();
    assert_eq!(list.len(), 1);
    assert_eq!(list[0].next_episode, None);
    assert!(list[0].is_ready());
}

#[test]
fn empty_entries_give_empty_list() {
    let text = r#"{"data":{"MediaListCollection":{"lists":[{"entries":[]}]}}}"#;
    assert!(watch_list_from_text(text).unwrap().is_empty());
}

#[test]
fn malformed_payloads_are_remote_errors() {
    let cases = [
        "not json",
        r#"{"data":{"MediaListCollection":{"lists":[]}}}"#,
        r#"{"data":{"MediaListCollection":null}}"#,
        r#"{"errors":[{"message":"User not found"}],"data":null}"#,
        r#"{"data":{"MediaListCollection":{"lists":[{"entries":[{"progress":"3","media":{"id":1,"status":"RELEASING","airingSchedule":{"nodes":[]},"title":{"romaji":"X"}}}]}]}}}"#,
        r#"{"data":{"MediaListCollection":{"lists":[{"entries":[{"progress":3,"media":{"id":1,"status":"RELEASING","airingSchedule":{"nodes":[{"episode":1}]},"title":{"romaji":"X"}}}]}]}}}"#,
        r#"{"data":{"MediaListCollection":{"lists":[{"entries":[{"progress":3,"media":{"id":1,"status":"RELEASING","airingSchedule":{"nodes":[]},"title":{}}}]}]}}}"#,
        r#"{"data":{"MediaListCollection":{"lists":[{"entries":[{"progress":3000000000,"media":{"id":1,"status":"RELEASING","airingSchedule":{"nodes":[]},"title":{"romaji":"X"}}}]}]}}}"#,
    ];
    for c in cases {
        assert!(matches!(watch_list_from_text(c), Err(RemoteError::Malformed)), "{}", c);
    }
}

#[test]
fn watch_list_from_parsed_json() {
    let j = parse_json(PAYLOAD).unwrap();
    assert_eq!(watch_list_from_json(&j).unwrap().len(), 2);
    assert!(matches!(watch_list_from_json(&Json::Null), Err(RemoteError::Malformed)));
}

#[test]
fn json_field_lookup() {
    let j = parse_json(r#"{"a":1,"b":{"c":"x"},"d":1.5}"#).unwrap();
    assert!(matches!(get_field(&j, "a"), Some(Json::Int(1))));
    assert!(matches!(get_field(&j, "d"), Some(Json::OtherNumber)));
    assert!(get_field(&j, "z").is_none());
    let b = get_field(&j, "b").unwrap();
    assert!(matches!(get_field(b, "c"), Some(Json::Str(s)) if s == "x"));
    assert!(parse_json("{").is_none());
}

#[test]
fn placeholder_config_reads_back_unchanged() {
    let c = Config::placeholder();
    assert_eq!(c.qbittorrent_path, "C:\\Program Files\\qBittorrent\\qbittorrent.exe");
    assert_eq!(c.save_path, "D:\\animes");
    assert_eq!(c.anilist_user_id, 6204649);
    let back = Config::from_json(&c.to_json()).unwrap();
    assert_eq!(back.qbittorrent_path, c.qbittorrent_path);
    assert_eq!(back.save_path, c.save_path);
    assert_eq!(back.anilist_user_id, c.anilist_user_id);
}

#[test]
fn config_from_text() {
    let text = r#"{"qbittorrent_path":"/usr/bin/qbittorrent","save_path":"/srv/anime","anilist_user_id":42}"#;
    let c = Config::from_text(text).unwrap();
    assert_eq!(c.qbittorrent_path, "/usr/bin/qbittorrent");
    assert_eq!(c.save_path, "/srv/anime");
    assert_eq!(c.anilist_user_id, 42);
    assert!(matches!(Config::from_text("nope"), Err(ConfigError::Unparsable)));
    assert!(matches!(
        Config::from_text(r#"{"qbittorrent_path":"a","save_path":"b"}"#),
        Err(ConfigError::Malformed)
    ));
    assert!(matches!(
        Config::from_text(r#"{"qbittorrent_path":"a","save_path":"b","anilist_user_id":"42"}"#),
        Err(ConfigError::Malformed)
    ));
}

#[test]
fn client_args_skip_dialog_then_magnet() {
    assert_eq!(client_args("magnet:?xt=1"), vec!["--skip-dialog".to_string(), "magnet:?xt=1".to_string()]);
}
