//! The tracking service's answer: from its JSON payload to watch entries.
use vstd::prelude::*;
use crate::json::{field, get_field, opt_ref, parse_json, parsed_json, Json};
use crate::watch::{AiringNode, WatchEntry};

verus! {

/// Why the watch list could not be had.
#[derive(Clone, Copy, Debug, PartialEq, Eq, Structural)]
pub enum RemoteError {
    /// The request failed or the service answered with an HTTP error.
    Unreachable,
    /// The payload is not JSON, or lacks a field the watch list needs, or a
    /// field has the wrong type.
    Malformed,
}

/// A watch entry as plain values.
pub struct EntryView {
    pub media_id: i32,
    pub progress: i32,
    pub title: Seq<char>,
    pub status: Seq<char>,
    pub next_episode: Option<AiringNode>,
    pub schedule: Seq<AiringNode>,
}

pub open spec fn entry_view(e: WatchEntry) -> EntryView {
    EntryView {
        media_id: e.media_id,
        progress: e.progress,
        title: e.title@,
        status: e.status@,
        next_episode: e.next_episode,
        schedule: e.schedule@,
    }
}

/// The member `key` of an optional value.
pub open spec fn member_of(j: Option<Json>, key: Seq<char>) -> Option<Json> {
    match j {
        Some(x) => field(x, key),
        None => None,
    }
}

pub open spec fn as_i32(j: Option<Json>) -> Option<i32> {
    match j {
        Some(Json::Int(n)) => if i32::MIN <= n <= i32::MAX {
            Some(n as i32)
        } else {
            None
        },
        _ => None,
    }
}

pub open spec fn as_i64(j: Option<Json>) -> Option<i64> {
    match j {
        Some(Json::Int(n)) => Some(n),
        _ => None,
    }
}

pub open spec fn as_text(j: Option<Json>) -> Option<Seq<char>> {
    match j {
        Some(Json::Str(s)) => Some(s@),
        _ => None,
    }
}

pub open spec fn as_array(j: Option<Json>) -> Option<Seq<Json>> {
    match j {
        Some(Json::Array(v)) => Some(v@),
        _ => None,
    }
}

/// Every item where all are present; `None` where one is missing.
pub open spec fn all_some<T>(s: Seq<Option<T>>) -> Option<Seq<T>>
    decreases s.len(),
{
    if s.len() == 0 {
        Some(Seq::empty())
    } else {
        match (all_some(s.drop_last()), s.last()) {
            (Some(p), Some(x)) => Some(p.push(x)),
            _ => None,
        }
    }
}

/// An airing-schedule node: `{episode, timeUntilAiring}`.
pub open spec fn node_of(j: Json) -> Option<AiringNode> {
    match (as_i32(field(j, "episode"@)), as_i64(field(j, "timeUntilAiring"@))) {
        (Some(e), Some(t)) => Some(AiringNode { episode: e, time_until_airing: t }),
        _ => None,
    }
}

/// The next episode to air: absent or `null` is none.
pub open spec fn next_of(j: Option<Json>) -> Option<Option<AiringNode>> {
    match j {
        None => Some(None),
        Some(Json::Null) => Some(None),
        Some(x) => match node_of(x) {
            Some(n) => Some(Some(n)),
            None => None,
        },
    }
}

pub open spec fn schedule_of(nodes: Seq<Json>) -> Option<Seq<AiringNode>> {
    all_some(nodes.map_values(|n: Json| node_of(n)))
}

/// One entry of the list: its progress and its media's id, romaji title,
/// status, airing schedule and next airing episode.
pub open spec fn entry_of(j: Json) -> Option<EntryView> {
    let media = field(j, "media"@);
    match (
        as_i32(field(j, "progress"@)),
        as_i32(member_of(media, "id"@)),
        as_text(member_of(member_of(media, "title"@), "romaji"@)),
        as_text(member_of(media, "status"@)),
        as_array(member_of(member_of(media, "airingSchedule"@), "nodes"@)),
        next_of(member_of(media, "nextAiringEpisode"@)),
    ) {
        (Some(p), Some(id), Some(t), Some(st), Some(ns), Some(nx)) => match schedule_of(ns) {
            Some(sched) => Some(
                EntryView {
                    media_id: id,
                    progress: p,
                    title: t,
                    status: st,
                    next_episode: nx,
                    schedule: sched,
                },
            ),
            None => None,
        },
        _ => None,
    }
}

/// The entries array of the payload: `data.MediaListCollection.lists[0].entries`.
pub open spec fn entries_json(j: Json) -> Option<Seq<Json>> {
    match as_array(member_of(member_of(field(j, "data"@), "MediaListCollection"@), "lists"@)) {
        Some(lists) => if lists.len() > 0 {
            as_array(field(lists[0], "entries"@))
        } else {
            None
        },
        None => None,
    }
}

/// The watch list that a payload holds, in the payload's order.
pub open spec fn watch_list_of(j: Json) -> Result<Seq<EntryView>, RemoteError> {
    match entries_json(j) {
        Some(items) => match all_some(items.map_values(|e: Json| entry_of(e))) {
            Some(es) => Ok(es),
            None => Err(RemoteError::Malformed),
        },
        None => Err(RemoteError::Malformed),
    }
}

/// The watch list read from the payload's text.
pub open spec fn watch_list_of_text(text: Seq<char>) -> Result<Seq<EntryView>, RemoteError> {
    match parsed_json(text) {
        Some(j) => watch_list_of(j),
        None => Err(RemoteError::Malformed),
    }
}

pub open spec fn list_view(r: Result<Vec<WatchEntry>, RemoteError>) -> Result<Seq<EntryView>, RemoteError> {
    match r {
        Ok(v) => Ok(v@.map_values(|e: WatchEntry| entry_view(e))),
        Err(e) => Err(e),
    }
}

proof fn lemma_all_some_step<T>(s: Seq<Option<T>>, i: int)
    requires
        0 <= i < s.len(),
    ensures
        all_some(s.subrange(0, i + 1)) == match (all_some(s.subrange(0, i)), s[i]) {
            (Some(p), Some(x)) => Some(p.push(x)),
            _ => None,
        },
{
    assert(s.subrange(0, i + 1).drop_last() =~= s.subrange(0, i));
}

proof fn lemma_all_some_prefix_none<T>(s: Seq<Option<T>>, k: int)
    requires
        0 <= k <= s.len(),
        all_some(s.subrange(0, k)) is None,
    ensures
        all_some(s) is None,
    decreases s.len() - k,
{
    if k == s.len() {
        assert(s.subrange(0, k) =~= s);
    } else {
        assert(s.drop_last().subrange(0, k) =~= s.subrange(0, k));
        lemma_all_some_prefix_none(s.drop_last(), k);
    }
}

/// Where all items are present, the result has one item for each, in order.
pub proof fn lemma_all_some_items<T>(s: Seq<Option<T>>)
    requires
        all_some(s) is Some,
    ensures
        all_some(s).unwrap().len() == s.len(),
        forall|i: int| 0 <= i < s.len() ==> s[i] == Some(#[trigger] all_some(s).unwrap()[i]),
    decreases s.len(),
{
    if s.len() > 0 {
        lemma_all_some_items(s.drop_last());
        let p = all_some(s.drop_last()).unwrap();
        assert forall|i: int| 0 <= i < s.len() implies s[i] == Some(#[trigger] all_some(s).unwrap()[i]) by {
            if i < s.len() - 1 {
                assert(s[i] == s.drop_last()[i]);
            }
        }
    }
}

/// A well-formed payload with N entries gives exactly N watch entries, the
/// i-th read field for field from the i-th entry of the payload.
pub proof fn lemma_one_entry_per_item(j: Json)
    requires
        watch_list_of(j) is Ok,
    ensures
        entries_json(j) is Some,
        watch_list_of(j)->Ok_0.len() == entries_json(j).unwrap().len(),
        forall|i: int|
            0 <= i < entries_json(j).unwrap().len() ==> entry_of(entries_json(j).unwrap()[i])
                == Some(#[trigger] watch_list_of(j)->Ok_0[i]),
{
    let items = entries_json(j).unwrap();
    let s = items.map_values(|e: Json| entry_of(e));
    lemma_all_some_items(s);
    assert forall|i: int| 0 <= i < items.len() implies entry_of(items[i]) == Some(
        #[trigger] watch_list_of(j)->Ok_0[i],
    ) by {
        assert(s[i] == entry_of(items[i]));
    }
}

fn int32_of(j: Option<&Json>) -> (r: Option<i32>)
    ensures
        r == as_i32(opt_ref(j)),
{
    match j {
        Some(Json::Int(n)) => if i32::MIN as i64 <= *n && *n <= i32::MAX as i64 {
            Some(*n as i32)
        } else {
            None
        },
        _ => None,
    }
}

fn int64_of(j: Option<&Json>) -> (r: Option<i64>)
    ensures
        r == as_i64(opt_ref(j)),
{
    match j {
        Some(Json::Int(n)) => Some(*n),
        _ => None,
    }
}

fn text_of(j: Option<&Json>) -> (r: Option<String>)
    ensures
        match r {
            Some(s) => as_text(opt_ref(j)) == Some(s@),
            None => as_text(opt_ref(j)) is None,
        },
{
    match j {
        Some(Json::Str(s)) => Some(s.clone()),
        _ => None,
    }
}

fn array_of<'a>(j: Option<&'a Json>) -> (r: Option<&'a Vec<Json>>)
    ensures
        match r {
            Some(v) => as_array(opt_ref(j)) == Some(v@),
            None => as_array(opt_ref(j)) is None,
        },
{
    match j {
        Some(Json::Array(v)) => Some(v),
        _ => None,
    }
}

fn member_at<'a>(j: Option<&'a Json>, key: &str) -> (r: Option<&'a Json>)
    ensures
        opt_ref(r) == member_of(opt_ref(j), key@),
{
    match j {
        Some(x) => get_field(x, key),
        None => None,
    }
}

fn node_from(j: &Json) -> (r: Option<AiringNode>)
    ensures
        r == node_of(*j),
{
    let e = int32_of(get_field(j, "episode"));
    let t = int64_of(get_field(j, "timeUntilAiring"));
    match (e, t) {
        (Some(e), Some(t)) => Some(AiringNode { episode: e, time_until_airing: t }),
        _ => None,
    }
}

fn schedule_from(nodes: &Vec<Json>) -> (r: Option<Vec<AiringNode>>)
    ensures
        match r {
            Some(v) => schedule_of(nodes@) == Some(v@),
            None => schedule_of(nodes@) is None,
        },
{
    let ghost s = nodes@.map_values(|n: Json| node_of(n));
    let mut out: Vec<AiringNode> = Vec::new();
    let mut i: usize = 0;
    while i < nodes.len()
        invariant
            i <= nodes@.len(),
            s == nodes@.map_values(|n: Json| node_of(n)),
            all_some(s.subrange(0, i as int)) == Some(out@),
        decreases nodes@.len() - i,
    {
        proof {
            lemma_all_some_step(s, i as int);
        }
        match node_from(&nodes[i]) {
            Some(n) => {
                out.push(n);
            },
            None => {
                proof {
                    lemma_all_some_prefix_none(s, i + 1);
                }
                return None;
            },
        }
        i = i + 1;
    }
    assert(s.subrange(0, s.len() as int) =~= s);
    Some(out)
}

fn entry_from(j: &Json) -> (r: Option<WatchEntry>)
    ensures
        match r {
            Some(e) => entry_of(*j) == Some(entry_view(e)),
            None => entry_of(*j) is None,
        },
{
    let media = get_field(j, "media");
    let progress = int32_of(get_field(j, "progress"));
    let id = int32_of(member_at(media, "id"));
    let title = text_of(member_at(member_at(media, "title"), "romaji"));
    let status = text_of(member_at(media, "status"));
    let nodes = array_of(member_at(member_at(media, "airingSchedule"), "nodes"));
    let next_json = member_at(media, "nextAiringEpisode");
    let next: Option<Option<AiringNode>> = match next_json {
        None => Some(None),
        Some(Json::Null) => Some(None),
        Some(x) => match node_from(x) {
            Some(n) => Some(Some(n)),
            None => None,
        },
    };
    match (progress, id, title, status, nodes, next) {
        (Some(p), Some(id), Some(t), Some(st), Some(ns), Some(nx)) => match schedule_from(ns) {
            Some(sched) => Some(
                WatchEntry {
                    media_id: id,
                    progress: p,
                    title: t,
                    status: st,
                    next_episode: nx,
                    schedule: sched,
                },
            ),
            None => None,
        },
        _ => None,
    }
}

/// Reads the watch list from a parsed payload.
pub fn watch_list_from_json(j: &Json) -> (r: Result<Vec<WatchEntry>, RemoteError>)
    ensures
        list_view(r) == watch_list_of(*j),
{
    let lists = array_of(member_at(member_at(get_field(j, "data"), "MediaListCollection"), "lists"));
    let items = match lists {
        Some(ls) => if ls.len() > 0 {
            match array_of(get_field(&ls[0], "entries")) {
                Some(items) => items,
                None => return Err(RemoteError::Malformed),
            }
        } else {
            return Err(RemoteError::Malformed);
        },
        None => return Err(RemoteError::Malformed),
    };
    let ghost s = items@.map_values(|e: Json| entry_of(e));
    let mut out: Vec<WatchEntry> = Vec::new();
    let mut i: usize = 0;
    while i < items.len()
        invariant
            i <= items@.len(),
            entries_json(*j) == Some(items@),
            s == items@.map_values(|e: Json| entry_of(e)),
            all_some(s.subrange(0, i as int)) == Some(out@.map_values(|e: WatchEntry| entry_view(e))),
        decreases items@.len() - i,
    {
        proof {
            lemma_all_some_step(s, i as int);
        }
        match entry_from(&items[i]) {
            Some(e) => {
                out.push(e);
                assert(out@.map_values(|e: WatchEntry| entry_view(e)) =~= all_some(s.subrange(0, i as int)).unwrap().push(s[i as int].unwrap()));
            },
            None => {
                proof {
                    lemma_all_some_prefix_none(s, i + 1);
                }
                return Err(RemoteError::Malformed);
            },
        }
        i = i + 1;
    }
    assert(s.subrange(0, s.len() as int) =~= s);
    Ok(out)
}

/// Reads the watch list from the text of the service's answer.
pub fn watch_list_from_text(text: &str) -> (r: Result<Vec<WatchEntry>, RemoteError>)
    ensures
        list_view(r) == watch_list_of_text(text@),
{
    match parse_json(text) {
        Some(j) => watch_list_from_json(&j),
        None => Err(RemoteError::Malformed),
    }
}

} // verus!
