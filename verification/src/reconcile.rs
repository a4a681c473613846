//! Which inputs of a batch count: of each client, the one that arrived last.

use crate::player::{FromClient, PlayerInputs};
use crate::seen::{seen_contains, seen_ids, seen_insert, seen_new};
use vstd::prelude::*;

verus! {

/// A batch of inputs, in the order of arrival.
pub type Batch = Seq<FromClient<PlayerInputs>>;

/// No later input of the batch comes from the client of input `i`.
pub open spec fn is_latest(events: Batch, i: int) -> bool {
    forall|j: int| i < j < events.len() ==> (#[trigger] events[j]).client_id != events[i].client_id
}

/// The inputs among the first `hi` that are the latest of their client in
/// the whole batch, in the order of arrival.
pub open spec fn latest_upto(events: Batch, hi: int) -> Batch
    decreases hi,
{
    if hi <= 0 {
        Seq::empty()
    } else if is_latest(events, hi - 1) {
        latest_upto(events, hi - 1).push(events[hi - 1])
    } else {
        latest_upto(events, hi - 1)
    }
}

/// The inputs that count: the latest of each client, in the order of arrival.
pub open spec fn survivors(events: Batch) -> Batch {
    latest_upto(events, events.len() as int)
}

/// Some input of the batch comes from `client`.
pub open spec fn has_event(events: Batch, client: u64) -> bool {
    exists|i: int| 0 <= i < events.len() && (#[trigger] events[i]).client_id == client
}

/// The place of the last input of `client` among the first `hi`, or `-1`.
pub open spec fn latest_index_upto(events: Batch, client: u64, hi: int) -> int
    decreases hi,
{
    if hi <= 0 {
        -1
    } else if events[hi - 1].client_id == client {
        hi - 1
    } else {
        latest_index_upto(events, client, hi - 1)
    }
}

/// The place of the last input of `client` in the batch, or `-1` if it sent none.
pub open spec fn latest_index(events: Batch, client: u64) -> int {
    latest_index_upto(events, client, events.len() as int)
}

/// What [`latest_index_upto`] finds: the last place below `hi` that holds
/// an input of `client`, if there is one.
pub proof fn lemma_latest_index_upto(events: Batch, client: u64, hi: int)
    requires
        0 <= hi <= events.len(),
    ensures
        -1 <= latest_index_upto(events, client, hi) < hi,
        latest_index_upto(events, client, hi) >= 0 ==> events[latest_index_upto(
            events,
            client,
            hi,
        )].client_id == client,
        forall|j: int|
            latest_index_upto(events, client, hi) < j < hi ==> (#[trigger] events[j]).client_id
                != client,
    decreases hi,
{
    if hi > 0 && events[hi - 1].client_id != client {
        lemma_latest_index_upto(events, client, hi - 1);
    }
}

/// The last input of a client that sent one is the latest of its client,
/// and no input but the last is.
pub proof fn lemma_latest_index(events: Batch, client: u64)
    ensures
        has_event(events, client) <==> latest_index(events, client) >= 0,
        latest_index(events, client) >= 0 ==> {
            &&& latest_index(events, client) < events.len()
            &&& events[latest_index(events, client)].client_id == client
            &&& is_latest(events, latest_index(events, client))
        },
        forall|i: int|
            0 <= i < events.len() && (#[trigger] events[i]).client_id == client && is_latest(
                events,
                i,
            ) ==> i == latest_index(events, client),
{
    lemma_latest_index_upto(events, client, events.len() as int);
    let last = latest_index(events, client);
    if has_event(events, client) {
        let i = choose|i: int| 0 <= i < events.len() && (#[trigger] events[i]).client_id == client;
        if last < i {
            assert(events[i].client_id != client);
        }
    }
    assert forall|i: int|
        0 <= i < events.len() && (#[trigger] events[i]).client_id == client && is_latest(
            events,
            i,
        ) implies i == last by {
        if i < last {
            assert(events[last].client_id != events[i].client_id);
        }
        if last < i {
            assert(events[i].client_id != client);
        }
    }
}

/// What the inputs that count are: each is the latest input of its client,
/// every latest input is among them, and they stand in the order of arrival.
/// `place` names, for each, where it stood in the batch.
pub proof fn lemma_latest_upto(events: Batch, hi: int) -> (place: Seq<int>)
    requires
        0 <= hi <= events.len(),
    ensures
        place.len() == latest_upto(events, hi).len(),
        forall|t: int|
            0 <= t < place.len() ==> 0 <= #[trigger] place[t] < hi && is_latest(events, place[t])
                && latest_upto(events, hi)[t] == events[place[t]],
        forall|s: int, t: int| 0 <= s < t < place.len() ==> place[s] < place[t],
        forall|i: int|
            0 <= i < hi && is_latest(events, i) ==> exists|t: int|
                0 <= t < place.len() && #[trigger] place[t] == i,
    decreases hi,
{
    if hi <= 0 {
        Seq::empty()
    } else {
        let before = lemma_latest_upto(events, hi - 1);
        if is_latest(events, hi - 1) {
            let place = before.push(hi - 1);
            assert forall|i: int| 0 <= i < hi && is_latest(events, i) implies exists|t: int|
                0 <= t < place.len() && #[trigger] place[t] == i by {
                if i < hi - 1 {
                    let t = choose|t: int| 0 <= t < before.len() && #[trigger] before[t] == i;
                    assert(place[t] == i);
                } else {
                    assert(place[before.len() as int] == i);
                }
            }
            place
        } else {
            before
        }
    }
}

/// Reduces a batch to the inputs that count: of each client the one that
/// arrived last, the clients in the order in which these arrived.
///
/// The batch is scanned from its end, and an input is kept where its client
/// is met for the first time.
pub fn keep_latest_per_client(events: &Vec<FromClient<PlayerInputs>>) -> (kept: Vec<
    FromClient<PlayerInputs>,
>)
    ensures
        kept@ == survivors(events@),
{
    let n = events.len();
    let mut keep: Vec<bool> = Vec::new();
    let mut k: usize = 0;
    while k < n
        invariant
            k <= n,
            keep@.len() == k,
            forall|j: int| 0 <= j < k ==> !#[trigger] keep@[j],
        decreases n - k,
    {
        keep.push(false);
        k += 1;
    }

    let mut seen = seen_new();
    let mut i: usize = n;
    while i > 0
        invariant
            n == events@.len(),
            i <= n,
            keep@.len() == n,
            forall|id: u64|
                seen_ids(seen).contains(id) <==> exists|j: int|
                    i <= j < n && (#[trigger] events@[j]).client_id == id,
            forall|j: int| i <= j < n ==> #[trigger] keep@[j] == is_latest(events@, j),
            forall|j: int| 0 <= j < i ==> !#[trigger] keep@[j],
        decreases i,
    {
        i -= 1;
        let id = events[i].client_id;
        let ghost before = seen_ids(seen);
        let fresh = !seen_contains(&seen, id);
        if fresh {
            seen_insert(&mut seen, id);
            keep.set(i, true);
        }
        proof {
            if fresh {
                assert forall|j: int| i < j < n implies (#[trigger] events@[j]).client_id != id by {
                    if events@[j].client_id == id {
                        assert(before.contains(id));
                    }
                }
            } else {
                let j = choose|j: int| i + 1 <= j < n && (#[trigger] events@[j]).client_id == id;
                assert(events@[j].client_id == events@[i as int].client_id);
            }
            assert forall|other: u64|
                seen_ids(seen).contains(other) <==> exists|j: int|
                    i <= j < n && (#[trigger] events@[j]).client_id == other by {
                if other == id {
                    assert(events@[i as int].client_id == other);
                } else if before.contains(other) {
                    let j = choose|j: int|
                        i + 1 <= j < n && (#[trigger] events@[j]).client_id == other;
                    assert(i <= j < n && events@[j].client_id == other);
                }
            }
        }
    }

    let mut kept: Vec<FromClient<PlayerInputs>> = Vec::new();
    let mut at: usize = 0;
    while at < n
        invariant
            n == events@.len(),
            at <= n,
            keep@.len() == n,
            forall|j: int| 0 <= j < n ==> #[trigger] keep@[j] == is_latest(events@, j),
            kept@ == latest_upto(events@, at as int),
        decreases n - at,
    {
        if keep[at] {
            kept.push(events[at]);
        }
        at += 1;
    }
    kept
}

/// Of a batch in which every input comes from one client, only the input
/// that arrived last counts.
pub proof fn lemma_one_client_one_survivor(events: Batch)
    requires
        events.len() >= 1,
        forall|i: int| 0 <= i < events.len() ==> (#[trigger] events[i]).client_id
            == events[0].client_id,
    ensures
        survivors(events) == seq![events.last()],
{
    lemma_only_last_survives(events, events.len() - 1);
    assert(is_latest(events, events.len() - 1));
}

proof fn lemma_only_last_survives(events: Batch, hi: int)
    requires
        0 <= hi < events.len(),
        forall|i: int| 0 <= i < events.len() ==> (#[trigger] events[i]).client_id
            == events[0].client_id,
    ensures
        latest_upto(events, hi) == Seq::<FromClient<PlayerInputs>>::empty(),
    decreases hi,
{
    if hi > 0 {
        lemma_only_last_survives(events, hi - 1);
        assert(events[hi].client_id == events[hi - 1].client_id);
        assert(!is_latest(events, hi - 1));
    }
}

/// Of every client that sent input, exactly one input counts: the one that
/// arrived last. Of a client that sent none, none counts.
pub proof fn lemma_one_survivor_per_client(events: Batch, client: u64)
    ensures
        has_event(events, client) ==> exists|t: int|
            0 <= t < survivors(events).len() && #[trigger] survivors(events)[t] == events[latest_index(
                events,
                client,
            )],
        forall|s: int, t: int|
            0 <= s < survivors(events).len() && 0 <= t < survivors(events).len() && (
            #[trigger] survivors(events)[s]).client_id == client && (#[trigger] survivors(
                events,
            )[t]).client_id == client ==> s == t && survivors(events)[s] == events[latest_index(
                events,
                client,
            )],
{
    let place = lemma_latest_upto(events, events.len() as int);
    lemma_latest_index(events, client);
    let kept = survivors(events);
    if has_event(events, client) {
        let last = latest_index(events, client);
        let t = choose|t: int| 0 <= t < place.len() && #[trigger] place[t] == last;
        assert(kept[t] == events[last]);
    }
    assert forall|s: int, t: int|
        0 <= s < kept.len() && 0 <= t < kept.len() && (#[trigger] kept[s]).client_id == client && (
        #[trigger] kept[t]).client_id == client implies s == t && kept[s] == events[latest_index(
        events,
        client,
    )] by {
        assert(events[place[s]].client_id == client);
        assert(events[place[t]].client_id == client);
        assert(place[s] == latest_index(events, client));
        assert(place[t] == latest_index(events, client));
        if s < t {
            assert(place[s] < place[t]);
        }
        if t < s {
            assert(place[t] < place[s]);
        }
    }
}

/// No two inputs that count come from one client.
pub proof fn lemma_survivors_distinct(events: Batch)
    ensures
        forall|s: int, t: int|
            0 <= s < t < survivors(events).len() ==> (#[trigger] survivors(events)[s]).client_id
                != (#[trigger] survivors(events)[t]).client_id,
{
    let place = lemma_latest_upto(events, events.len() as int);
    let kept = survivors(events);
    assert forall|s: int, t: int| 0 <= s < t < kept.len() implies (#[trigger] kept[s]).client_id
        != (#[trigger] kept[t]).client_id by {
        assert(place[s] < place[t]);
        assert(is_latest(events, place[s]));
        assert(events[place[t]].client_id != events[place[s]].client_id);
    }
}

/// Among the inputs that count, the input of a client is the last that it
/// sent; a client has one among them exactly if it sent any.
pub proof fn lemma_survivor_of_client(events: Batch, client: u64)
    ensures
        latest_index(survivors(events), client) >= 0 <==> has_event(events, client),
        has_event(events, client) ==> {
            &&& 0 <= latest_index(survivors(events), client) < survivors(events).len()
            &&& 0 <= latest_index(events, client) < events.len()
            &&& survivors(events)[latest_index(survivors(events), client)] == events[latest_index(
                events,
                client,
            )]
        },
{
    let kept = survivors(events);
    let place = lemma_latest_upto(events, events.len() as int);
    lemma_latest_index(events, client);
    lemma_latest_index(kept, client);
    lemma_one_survivor_per_client(events, client);
    let t = latest_index(kept, client);
    if t >= 0 {
        assert(events[place[t]].client_id == client);
    }
    if has_event(events, client) {
        let u = choose|u: int|
            0 <= u < kept.len() && #[trigger] kept[u] == events[latest_index(events, client)];
        assert(kept[u].client_id == client);
        assert(has_event(kept, client));
    }
}

} // verus!
