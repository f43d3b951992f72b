//! The bus's store of retained messages, as a map from topic to payload, and
//! what a run's messages do to it.

use vstd::prelude::*;
use crate::lifecycle::{create_plan, erase_plan, topics};

verus! {

/// What the store holds after one message: an empty payload erases the topic,
/// any other replaces what it held.
pub open spec fn deliver(store: Map<Seq<char>, Seq<char>>, m: (Seq<char>, Seq<char>)) -> Map<
    Seq<char>,
    Seq<char>,
> {
    if m.1.len() == 0 {
        store.remove(m.0)
    } else {
        store.insert(m.0, m.1)
    }
}

/// What the store holds after the messages `ms`, in order.
pub open spec fn deliver_all(store: Map<Seq<char>, Seq<char>>, ms: Seq<(Seq<char>, Seq<char>)>) -> Map<
    Seq<char>,
    Seq<char>,
>
    decreases ms.len(),
{
    if ms.len() == 0 {
        store
    } else {
        deliver(deliver_all(store, ms.drop_last()), ms.last())
    }
}

/// Whether two stores hold the same at topic `k`.
pub open spec fn agree_at(a: Map<Seq<char>, Seq<char>>, b: Map<Seq<char>, Seq<char>>, k: Seq<char>) -> bool {
    &&& a.contains_key(k) == b.contains_key(k)
    &&& a.contains_key(k) ==> a[k] == b[k]
}

proof fn lemma_untouched(store: Map<Seq<char>, Seq<char>>, ms: Seq<(Seq<char>, Seq<char>)>, k: Seq<char>)
    requires
        !topics(ms).contains(k),
    ensures
        agree_at(deliver_all(store, ms), store, k),
    decreases ms.len(),
{
    if ms.len() > 0 {
        assert(topics(ms)[ms.len() - 1] == ms.last().0);
        assert forall|i: int| 0 <= i < ms.len() - 1 implies topics(ms.drop_last())[i] != k by {
            assert(topics(ms)[i] == topics(ms.drop_last())[i]);
        }
        lemma_untouched(store, ms.drop_last(), k);
    }
}

proof fn lemma_touched(
    a: Map<Seq<char>, Seq<char>>,
    b: Map<Seq<char>, Seq<char>>,
    ms: Seq<(Seq<char>, Seq<char>)>,
    k: Seq<char>,
)
    requires
        topics(ms).contains(k),
    ensures
        agree_at(deliver_all(a, ms), deliver_all(b, ms), k),
    decreases ms.len(),
{
    if ms.last().0 != k {
        let i = choose|i: int| 0 <= i < topics(ms).len() && topics(ms)[i] == k;
        assert(i != ms.len() - 1);
        assert(topics(ms.drop_last())[i] == k);
        lemma_touched(a, b, ms.drop_last(), k);
    }
}

proof fn lemma_erased(store: Map<Seq<char>, Seq<char>>, ms: Seq<(Seq<char>, Seq<char>)>, k: Seq<char>)
    requires
        topics(ms).contains(k),
        forall|i: int| 0 <= i < ms.len() ==> (#[trigger] ms[i]).1.len() == 0,
    ensures
        !deliver_all(store, ms).contains_key(k),
    decreases ms.len(),
{
    if ms.last().0 != k {
        let i = choose|i: int| 0 <= i < topics(ms).len() && topics(ms)[i] == k;
        assert(i != ms.len() - 1);
        assert(topics(ms.drop_last())[i] == k);
        assert forall|j: int| 0 <= j < ms.drop_last().len() implies (#[trigger] ms.drop_last()[j]).1.len()
            == 0 by {
            assert(ms.drop_last()[j] == ms[j]);
        }
        lemma_erased(store, ms.drop_last(), k);
    } else {
        assert(ms[ms.len() - 1].1.len() == 0);
    }
}

/// Messages that address every topic that earlier ones addressed leave the
/// store as if the earlier ones had never been delivered.
pub proof fn deliver_all_overwrites(
    store: Map<Seq<char>, Seq<char>>,
    earlier: Seq<(Seq<char>, Seq<char>)>,
    later: Seq<(Seq<char>, Seq<char>)>,
)
    requires
        forall|k: Seq<char>| #[trigger] topics(earlier).contains(k) ==> topics(later).contains(k),
    ensures
        deliver_all(deliver_all(store, earlier), later) == deliver_all(store, later),
{
    let mid = deliver_all(store, earlier);
    let both = deliver_all(mid, later);
    let only = deliver_all(store, later);
    assert forall|k: Seq<char>| #[trigger] agree_at(both, only, k) by {
        if topics(later).contains(k) {
            lemma_touched(mid, store, later, k);
        } else {
            lemma_untouched(mid, later, k);
            lemma_untouched(store, earlier, k);
            lemma_untouched(store, later, k);
        }
    }
    assert forall|k: Seq<char>| #[trigger] both.contains_key(k) == only.contains_key(k) by {
        assert(agree_at(both, only, k));
    }
    assert forall|k: Seq<char>| #[trigger] both.contains_key(k) implies both[k] == only[k] by {
        assert(agree_at(both, only, k));
    }
    assert(both =~= only);
}

/// Delivering a sequence of messages a second time changes nothing.
pub proof fn deliver_all_idempotent(store: Map<Seq<char>, Seq<char>>, ms: Seq<(Seq<char>, Seq<char>)>)
    ensures
        deliver_all(deliver_all(store, ms), ms) == deliver_all(store, ms),
{
    deliver_all_overwrites(store, ms, ms);
}

/// Running create twice with the same identity, page, snapshot, prefix,
/// version and time leaves the store as running it once does.
pub proof fn create_is_idempotent(
    store: Map<Seq<char>, Seq<char>>,
    hash: Seq<char>,
    locator: (Seq<char>, Seq<char>),
    snapshot: (Seq<char>, i64, i64),
    prefix: Seq<char>,
    version: Seq<char>,
    timestamp: Seq<char>,
)
    ensures
        ({
            let plan = create_plan(hash, locator, snapshot, prefix, version, timestamp);
            deliver_all(deliver_all(store, plan), plan) == deliver_all(store, plan)
        }),
{
    deliver_all_idempotent(store, create_plan(hash, locator, snapshot, prefix, version, timestamp));
}

/// After a delete run, the store holds nothing at any topic that a create run
/// for the same device and prefix writes, whatever it held before.
pub proof fn erase_removes_created(
    store: Map<Seq<char>, Seq<char>>,
    hash: Seq<char>,
    locator: (Seq<char>, Seq<char>),
    snapshot: (Seq<char>, i64, i64),
    prefix: Seq<char>,
    version: Seq<char>,
    timestamp: Seq<char>,
    k: Seq<char>,
)
    requires
        topics(create_plan(hash, locator, snapshot, prefix, version, timestamp)).contains(k),
    ensures
        !deliver_all(store, erase_plan(hash, prefix)).contains_key(k),
{
    crate::lifecycle::erase_covers_create(hash, locator, snapshot, prefix, version, timestamp);
    lemma_erased(store, erase_plan(hash, prefix), k);
}

/// A create run for a device overwrites in place what an earlier create run
/// for the same device and prefix left, whatever the snapshots, pages,
/// versions and times of the two: the store ends as if only the later run had
/// happened, so no second device appears.
pub proof fn recreate_overwrites(
    store: Map<Seq<char>, Seq<char>>,
    hash: Seq<char>,
    prefix: Seq<char>,
    locator_a: (Seq<char>, Seq<char>),
    snapshot_a: (Seq<char>, i64, i64),
    version_a: Seq<char>,
    timestamp_a: Seq<char>,
    locator_b: (Seq<char>, Seq<char>),
    snapshot_b: (Seq<char>, i64, i64),
    version_b: Seq<char>,
    timestamp_b: Seq<char>,
)
    ensures
        ({
            let a = create_plan(hash, locator_a, snapshot_a, prefix, version_a, timestamp_a);
            let b = create_plan(hash, locator_b, snapshot_b, prefix, version_b, timestamp_b);
            deliver_all(deliver_all(store, a), b) == deliver_all(store, b)
        }),
{
    let a = create_plan(hash, locator_a, snapshot_a, prefix, version_a, timestamp_a);
    let b = create_plan(hash, locator_b, snapshot_b, prefix, version_b, timestamp_b);
    assert(topics(a) =~= topics(b));
    deliver_all_overwrites(store, a, b);
}

} // verus!
