//! The update poller: owner of the monotonic fetch cursor.
//!
//! The cursor starts unset ("fetch from the platform's default starting
//! point") and, after a successful fetch, is folded over the returned events
//! in arrival order: for each event it becomes `max(cursor, event_id) + 1`.
//! A failed or rejected fetch never touches it.

use vstd::prelude::*;

use crate::models::{Envelope, Event};

verus! {

/// The long-poll timeout, in seconds, carried by every fetch request.
pub const LONG_POLL_TIMEOUT_S: u64 = 20;

/// What one cursor step does: the cursor after seeing one event id.
pub open spec fn bumped(cur: Option<int>, id: int) -> int {
    match cur {
        Some(c) => if c >= id {
            c + 1
        } else {
            id + 1
        },
        None => id + 1,
    }
}

/// The cursor after folding a whole batch of event ids, in arrival order.
/// An empty batch leaves the cursor exactly as it was.
pub open spec fn folded_offset(cur: Option<int>, ids: Seq<int>) -> Option<int>
    decreases ids.len(),
{
    if ids.len() == 0 {
        cur
    } else {
        Some(bumped(folded_offset(cur, ids.drop_last()), ids.last()))
    }
}

/// The ids of a batch of events, in arrival order.
pub open spec fn event_ids(events: Seq<Event>) -> Seq<int> {
    events.map_values(|e: Event| e.event_id as int)
}

/// The events a fetch envelope actually delivers: its decoded list when the
/// platform said `ok`, and nothing at all otherwise.
pub open spec fn delivered(env: Envelope<Vec<Event>>) -> Seq<Event> {
    if env.ok {
        match env.result {
            Some(v) => v@,
            None => Seq::<Event>::empty(),
        }
    } else {
        Seq::<Event>::empty()
    }
}

/// The largest id in a non-empty batch.
pub open spec fn seq_max_int(ids: Seq<int>) -> int
    recommends
        ids.len() > 0,
    decreases ids.len(),
{
    if ids.len() <= 1 {
        ids[0]
    } else if seq_max_int(ids.drop_last()) >= ids.last() {
        seq_max_int(ids.drop_last())
    } else {
        ids.last()
    }
}

/// The request the poller wants issued: a fixed path, the cursor as the
/// optional `offset` parameter, and the fixed long-poll timeout.
pub struct FetchRequest {
    pub path: &'static str,
    pub offset: Option<u64>,
    pub timeout_s: u64,
}

/// Owns the fetch cursor. No other component may write it.
pub struct UpdatePoller {
    offset: Option<u64>,
}

impl UpdatePoller {
    /// The cursor as a mathematical value: unset, or the next offset to ask
    /// the platform for.
    pub closed spec fn cursor(&self) -> Option<int> {
        match self.offset {
            Some(v) => Some(v as int),
            None => None,
        }
    }

    /// A fresh poller fetches from the platform's default starting point.
    pub fn new() -> (p: UpdatePoller)
        ensures
            p.cursor() is None,
    {
        UpdatePoller { offset: None }
    }

    /// The cursor as an executable value, for callers outside the library.
    pub fn current_offset(&self) -> (r: Option<u64>)
        ensures
            r is Some <==> self.cursor() is Some,
            r is Some ==> r->0 as int == self.cursor()->0,
    {
        self.offset
    }

    /// Builds the fetch request: path `/getUpdates`, `offset` present exactly
    /// when the cursor is set, and the fixed long-poll timeout.
    pub fn fetch_request(&self) -> (r: FetchRequest)
        ensures
            r.path@ == "/getUpdates"@,
            r.timeout_s == LONG_POLL_TIMEOUT_S,
            r.offset is Some <==> self.cursor() is Some,
            r.offset is Some ==> r.offset->0 as int == self.cursor()->0,
    {
        FetchRequest { path: "/getUpdates", offset: self.offset, timeout_s: LONG_POLL_TIMEOUT_S }
    }

    /// Consumes one decoded fetch envelope: advances the cursor over every
    /// delivered event in arrival order and hands the events back unchanged.
    /// A rejected (`ok == false`) or empty envelope leaves the cursor exactly
    /// where it was, and the cursor never moves backwards.
    pub fn ingest(&mut self, env: Envelope<Vec<Event>>) -> (events: Vec<Event>)
        requires
            forall|k: int|
                0 <= k < delivered(env).len() ==> delivered(env)[k].event_id + delivered(
                    env,
                ).len() <= u64::MAX,
            old(self).cursor() is Some ==> old(self).cursor()->0 + delivered(env).len()
                <= u64::MAX,
        ensures
            events@ == delivered(env),
            final(self).cursor() == folded_offset(old(self).cursor(), event_ids(delivered(env))),
            delivered(env).len() == 0 ==> final(self).cursor() == old(self).cursor(),
            old(self).cursor() is Some ==> final(self).cursor() is Some
                && final(self).cursor()->0 >= old(self).cursor()->0,
    {
        let events: Vec<Event> = if env.ok {
            match env.result {
                Some(v) => v,
                None => Vec::new(),
            }
        } else {
            Vec::new()
        };
        let ghost ids = event_ids(events@);
        let ghost start = self.cursor();
        let n = events.len();
        assert(ids.len() == n);
        let mut i: usize = 0;
        while i < n
            invariant
                i <= n,
                n == events@.len(),
                ids == event_ids(events@),
                forall|k: int| 0 <= k < n ==> ids[k] == events@[k].event_id as int,
                forall|k: int| 0 <= k < n ==> ids[k] + n <= u64::MAX,
                self.cursor() == folded_offset(start, ids.take(i as int)),
                start is Some ==> start->0 + n <= u64::MAX,
                self.cursor() is Some ==> self.cursor()->0 <= u64::MAX - n + i,
            decreases n - i,
        {
            let id = events[i].event_id;
            proof {
                assert(ids[i as int] == events@[i as int].event_id as int);
                assert(id + n <= u64::MAX);
            }
            let next: u64 = match self.offset {
                Some(v) => {
                    let m = if v >= id {
                        v
                    } else {
                        id
                    };
                    m + 1
                },
                None => id + 1,
            };
            proof {
                assert(ids.take(i + 1).drop_last() =~= ids.take(i as int));
                assert(ids.take(i + 1).last() == ids[i as int]);
            }
            self.offset = Some(next);
            i = i + 1;
        }
        proof {
            assert(ids.take(n as int) =~= ids);
            lemma_folded_monotone(start, ids);
        }
        events
    }
}

/// Cursor monotonicity, whatever the batch looks like: folding any batch of
/// ids over a set cursor keeps it set and never moves it backwards, and any
/// non-empty batch leaves the cursor set.
pub proof fn lemma_folded_monotone(cur: Option<int>, ids: Seq<int>)
    ensures
        cur is Some ==> folded_offset(cur, ids) is Some && folded_offset(cur, ids)->0 >= cur->0,
        ids.len() > 0 ==> folded_offset(cur, ids) is Some,
    decreases ids.len(),
{
    if ids.len() > 0 {
        lemma_folded_monotone(cur, ids.drop_last());
    }
}

/// Cursor law: when a successful batch delivers its ids strictly ascending
/// and no id precedes the current cursor, the cursor afterwards is exactly
/// the maximum delivered id plus one (which, so ordered, is the last id).
pub proof fn lemma_cursor_max_plus_one(cur: Option<int>, ids: Seq<int>)
    requires
        ids.len() > 0,
        forall|i: int, j: int| 0 <= i < j < ids.len() ==> ids[i] < ids[j],
        cur is Some ==> cur->0 <= ids[0],
    ensures
        folded_offset(cur, ids) == Some(seq_max_int(ids) + 1),
        seq_max_int(ids) == ids.last(),
    decreases ids.len(),
{
    if ids.len() == 1 {
        assert(folded_offset(cur, ids) == Some(bumped(folded_offset(cur, ids.drop_last()), ids.last())));
        assert(ids.drop_last().len() == 0);
    } else {
        let pre = ids.drop_last();
        assert(forall|i: int, j: int| 0 <= i < j < pre.len() ==> pre[i] < pre[j]);
        assert(cur is Some ==> cur->0 <= pre[0]);
        lemma_cursor_max_plus_one(cur, pre);
        assert(pre.last() == ids[ids.len() - 2]);
        assert(ids[ids.len() - 2] < ids.last());
    }
}

/// The cursor after a whole run of successful fetches, batch after batch.
pub open spec fn folded_batches(cur: Option<int>, batches: Seq<Seq<int>>) -> Option<int>
    decreases batches.len(),
{
    if batches.len() == 0 {
        cur
    } else {
        folded_offset(folded_batches(cur, batches.drop_last()), batches.last())
    }
}

/// Monotonicity across calls: a run of fetches, whatever its batches hold,
/// never moves a set cursor backwards.
pub proof fn lemma_batches_monotone(cur: Option<int>, batches: Seq<Seq<int>>)
    ensures
        cur is Some ==> folded_batches(cur, batches) is Some && folded_batches(
            cur,
            batches,
        )->0 >= cur->0,
    decreases batches.len(),
{
    if batches.len() > 0 {
        lemma_batches_monotone(cur, batches.drop_last());
        lemma_folded_monotone(folded_batches(cur, batches.drop_last()), batches.last());
    }
}

/// Cursor law over a whole run: when every successful fetch delivers a
/// non-empty batch, ids climb strictly within and across batches, and none
/// precedes the starting cursor, the cursor at the end is exactly the
/// maximum id seen over the run plus one — the last id of the last batch.
pub proof fn lemma_run_cursor_max_plus_one(cur: Option<int>, batches: Seq<Seq<int>>)
    requires
        batches.len() > 0,
        forall|b: int| 0 <= b < batches.len() ==> (#[trigger] batches[b]).len() > 0,
        forall|b: int, i: int, j: int|
            0 <= b < batches.len() && 0 <= i < j < batches[b].len() ==> #[trigger] batches[b][i]
                < #[trigger] batches[b][j],
        forall|b: int|
            0 <= b < batches.len() - 1 ==> (#[trigger] batches[b]).last() < batches[b + 1][0],
        cur is Some ==> cur->0 <= batches[0][0],
    ensures
        folded_batches(cur, batches) == Some(batches.last().last() + 1),
    decreases batches.len(),
{
    if batches.len() == 1 {
        lemma_cursor_max_plus_one(cur, batches[0]);
        assert(batches.drop_last() =~= Seq::<Seq<int>>::empty());
    } else {
        let pre = batches.drop_last();
        assert(pre.last() == batches[batches.len() - 2]);
        lemma_run_cursor_max_plus_one(cur, pre);
        assert(batches[batches.len() - 2].last() < batches[batches.len() - 1][0]);
        lemma_cursor_max_plus_one(folded_batches(cur, pre), batches.last());
    }
}

/// Offset honouring prevents re-delivery: if a first batch advanced the
/// cursor as `lemma_cursor_max_plus_one` says, and every id of a second batch
/// is at least that new cursor, then no id appears in both batches — so no
/// event is dispatched twice across the two fetches.
pub proof fn lemma_offset_prevents_redispatch(cur: Option<int>, ids1: Seq<int>, ids2: Seq<int>)
    requires
        ids1.len() > 0,
        forall|i: int, j: int| 0 <= i < j < ids1.len() ==> ids1[i] < ids1[j],
        cur is Some ==> cur->0 <= ids1[0],
        forall|k: int|
            0 <= k < ids2.len() ==> ids2[k] >= folded_offset(cur, ids1)->0,
    ensures
        forall|i: int, k: int|
            0 <= i < ids1.len() && 0 <= k < ids2.len() ==> ids1[i] != ids2[k],
{
    lemma_cursor_max_plus_one(cur, ids1);
    assert forall|i: int| 0 <= i < ids1.len() implies ids1[i] <= ids1.last() by {
        if i < ids1.len() - 1 {
            assert(ids1[i] < ids1[ids1.len() - 1]);
        }
    }
}

} // verus!
