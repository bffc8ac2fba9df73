//! A title on the user's watch list, and the rule that decides whether an
//! episode of it is ready to be fetched.
use vstd::prelude::*;
use vstd::string::*;
use crate::text::{decimal, decimal_text, same_text};

verus! {

/// One episode in a title's airing schedule.
#[derive(Clone, Copy, Debug, PartialEq, Eq, Structural)]
pub struct AiringNode {
    pub episode: i32,
    pub time_until_airing: i64,
}

/// A title that the user is watching, as the tracking service reports it.
#[derive(Clone, Debug)]
pub struct WatchEntry {
    pub media_id: i32,
    /// The highest episode the user has already watched.
    pub progress: i32,
    pub title: String,
    /// The service's release status, such as `RELEASING` or `FINISHED`.
    pub status: String,
    /// The next episode still to air, if the service knows one.
    pub next_episode: Option<AiringNode>,
    /// The airing schedule, in the service's order.
    pub schedule: Vec<AiringNode>,
}

/// The status of a title that is still airing.
pub open spec fn releasing_status() -> Seq<char> {
    seq!['R', 'E', 'L', 'E', 'A', 'S', 'I', 'N', 'G']
}

/// The readiness rule: a releasing title is ready when at least one aired
/// episode lies strictly between the user's progress and the next episode to
/// air, or when no next episode is known. Being exactly caught up is not ready.
pub open spec fn ready(status: Seq<char>, progress: int, next: Option<AiringNode>) -> bool {
    if status != releasing_status() {
        false
    } else {
        match next {
            Some(n) => progress + 1 < n.episode,
            None => true,
        }
    }
}

/// The free-text search for the episode after `progress`: `"<title> - <episode>"`.
pub open spec fn query_of(title: Seq<char>, progress: int) -> Seq<char> {
    title + seq![' ', '-', ' '] + decimal(progress + 1)
}

impl WatchEntry {
    pub open spec fn is_ready_spec(&self) -> bool {
        ready(self.status@, self.progress as int, self.next_episode)
    }

    /// Whether a new episode of this title should be fetched.
    pub fn is_ready(&self) -> (r: bool)
        ensures
            r == self.is_ready_spec(),
    {
        proof {
            reveal_strlit("RELEASING");
        }
        let releasing = same_text(self.status.as_str(), "RELEASING");
        assert("RELEASING"@ =~= releasing_status());
        if !releasing {
            return false;
        }
        match self.next_episode {
            Some(n) => (self.progress as i64) + 1 < n.episode as i64,
            None => true,
        }
    }

    /// The search text for the episode after the user's progress.
    pub fn search_query(&self) -> (r: String)
        ensures
            r@ == query_of(self.title@, self.progress as int),
    {
        let mut q = self.title.clone();
        q.append(" - ");
        let number = decimal_text((self.progress as i64) + 1);
        q.append(number.as_str());
        proof {
            reveal_strlit(" - ");
        }
        assert(q@ =~= query_of(self.title@, self.progress as int));
        q
    }
}

/// A title whose status is not releasing is never ready.
pub proof fn lemma_not_releasing_not_ready(e: WatchEntry)
    requires
        e.status@ != releasing_status(),
    ensures
        !e.is_ready_spec(),
{
}

/// A releasing title with a known next episode is ready exactly when the
/// episode after the user's progress comes strictly before it; being exactly
/// caught up, or ahead, is not ready.
pub proof fn lemma_ready_iff_gap(e: WatchEntry, next: AiringNode)
    requires
        e.status@ == releasing_status(),
        e.next_episode == Some(next),
    ensures
        e.is_ready_spec() <==> e.progress + 1 < next.episode,
        e.progress + 1 == next.episode ==> !e.is_ready_spec(),
        e.progress + 1 > next.episode ==> !e.is_ready_spec(),
{
}

/// A releasing title with no known next episode is ready.
pub proof fn lemma_no_next_episode_ready(e: WatchEntry)
    requires
        e.status@ == releasing_status(),
        e.next_episode.is_none(),
    ensures
        e.is_ready_spec(),
{
}

/// The titles of `entries` that are ready, in the order given.
pub open spec fn ready_subset(entries: Seq<WatchEntry>) -> Seq<WatchEntry> {
    entries.filter(|e: WatchEntry| e.is_ready_spec())
}

/// Keeps the entries that are ready, in the order given.
pub fn ready_entries(entries: Vec<WatchEntry>) -> (r: Vec<WatchEntry>)
    ensures
        r@ == ready_subset(entries@),
{
    let ghost all = entries@;
    let mut rest = entries;
    let total = rest.len();
    let mut out: Vec<WatchEntry> = Vec::new();
    let mut k: usize = 0;
    while rest.len() > 0
        invariant
            k <= all.len(),
            k + rest@.len() == all.len(),
            all.len() == total,
            rest@ == all.subrange(k as int, all.len() as int),
            out@ == ready_subset(all.subrange(0, k as int)),
        decreases rest@.len(),
    {
        let e = rest.remove(0);
        proof {
            let pre = all.subrange(0, k as int);
            assert(all.subrange(0, k + 1) =~= pre.push(e));
            reveal(Seq::filter);
            assert(pre.push(e).drop_last() =~= pre);
            assert(rest@ =~= all.subrange(k + 1, all.len() as int));
        }
        if e.is_ready() {
            out.push(e);
        }
        k = k + 1;
    }
    assert(all.subrange(0, all.len() as int) =~= all);
    out
}

} // verus!
