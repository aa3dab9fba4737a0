use vstd::prelude::*;
use crate::record::{key_view, SessionKey, TranscriptionSession};
use crate::store::{lists_sessions, SessionMap, SessionStore};

verus! {

/// The dirty part of a store's content: what a flush must write.
pub open spec fn dirty_part(m: SessionMap) -> SessionMap {
    Map::new(|k| m.contains_key(k) && m[k].dirty, |k| m[k])
}

/// A record after a successful flush.
pub open spec fn flushed(rec: TranscriptionSession) -> TranscriptionSession {
    TranscriptionSession { dirty: false, ..rec }
}

/// The store's content after each entry of `batch`, in order, is written back
/// clean.
pub open spec fn marked_clean(m: SessionMap, batch: Seq<(SessionKey, TranscriptionSession)>) -> SessionMap
    decreases batch.len(),
{
    if batch.len() == 0 {
        m
    } else {
        marked_clean(m, batch.drop_last()).insert(key_view(batch.last().0), flushed(batch.last().1))
    }
}

/// Every session of `m`, clean.
pub open spec fn all_clean(m: SessionMap) -> SessionMap {
    Map::new(|k| m.contains_key(k), |k| flushed(m[k]))
}

/// The store's content after one scheduler tick on an otherwise idle store:
/// every dirty record is written and marked clean if the batch was persisted,
/// nothing changes if it failed.
pub open spec fn after_tick(m: SessionMap, persisted: bool) -> SessionMap {
    if persisted {
        all_clean(m)
    } else {
        m
    }
}

/// First half of a scheduler tick: the batch of dirty sessions to persist, each
/// with the record value that is written. An empty batch means that the tick
/// writes nothing.
pub fn begin_flush<S: SessionStore>(store: &S) -> (batch: Vec<(SessionKey, TranscriptionSession)>)
    requires
        store.well_formed(),
    ensures
        lists_sessions(batch@, dirty_part(store.sessions())),
        batch@.len() == 0 <==> dirty_part(store.sessions()).dom() == Set::<(Seq<char>, Seq<char>)>::empty(),
{
    let all = store.list_all();
    let ghost m = store.sessions();
    let ghost d = dirty_part(m);
    let mut batch: Vec<(SessionKey, TranscriptionSession)> = Vec::new();
    let ghost mut source: Seq<int> = Seq::empty();
    let mut i: usize = 0;
    while i < all.len()
        invariant
            i <= all@.len(),
            lists_sessions(all@, m),
            source.len() == batch@.len(),
            forall|j: int| 0 <= j < batch@.len() ==> 0 <= #[trigger] source[j] < i && batch@[j] == all@[source[j]]
                && all@[source[j]].1.dirty,
            forall|a: int, b: int| 0 <= a < b < source.len() ==> source[a] < source[b],
            forall|j: int| 0 <= j < i && (#[trigger] all@[j]).1.dirty ==> exists|t: int| 0 <= t < batch@.len() && batch@[t] == all@[j],
        decreases all@.len() - i,
    {
        let entry = &all[i];
        if entry.1.dirty {
            let ghost before = batch@;
            let key: SessionKey = (entry.0.0.clone(), entry.0.1.clone());
            batch.push((key, entry.1.clone()));
            proof {
                source = source.push(i as int);
                assert(batch@[batch@.len() - 1] == all@[i as int]);
                assert forall|j: int| 0 <= j < i + 1 && (#[trigger] all@[j]).1.dirty implies exists|t: int|
                    0 <= t < batch@.len() && batch@[t] == all@[j] by {
                    if j < i {
                        let t = choose|t: int| 0 <= t < before.len() && before[t] == all@[j];
                        assert(batch@[t] == before[t]);
                    } else {
                        assert(batch@[batch@.len() - 1] == all@[j]);
                    }
                }
            }
        }
        i = i + 1;
    }
    proof {
        assert forall|j: int| 0 <= j < batch@.len() implies #[trigger] d.contains_key(key_view(batch@[j].0))
            && d[key_view(batch@[j].0)] == batch@[j].1 by {
            let s = source[j];
            assert(m.contains_key(key_view(all@[s].0)));
        }
        assert forall|k| #[trigger] d.contains_key(k) implies exists|t: int| 0 <= t < batch@.len() && key_view(batch@[t].0) == k by {
            let s = choose|s: int| 0 <= s < all@.len() && key_view(all@[s].0) == k;
            assert(all@[s].1.dirty);
        }
        assert forall|a: int, b: int| 0 <= a < batch@.len() && 0 <= b < batch@.len() && a != b
            implies key_view(batch@[a].0) != key_view(batch@[b].0) by {
            if a < b {
                assert(source[a] < source[b]);
            } else {
                assert(source[b] < source[a]);
            }
        }
        if batch@.len() == 0 {
            assert forall|k| !d.dom().contains(k) by {
                if d.contains_key(k) {
                    let s = choose|s: int| 0 <= s < all@.len() && key_view(all@[s].0) == k;
                    assert(all@[s].1.dirty);
                }
            }
            assert(d.dom() =~= Set::empty());
        } else {
            assert(d.dom().contains(key_view(batch@[0].0)));
        }
    }
    batch
}

/// Second half of a scheduler tick, once the repository has answered for
/// `batch`: if it persisted the batch, each entry is written back clean from
/// the copy held since `begin_flush`; if it failed, nothing changes and the
/// next tick retries. A connection's write to one of these keys between the
/// two halves is overwritten by the held copy: the store is not locked across
/// the repository call, and that window is accepted for soft playback state.
pub fn finish_flush<S: SessionStore>(store: &mut S, batch: &Vec<(SessionKey, TranscriptionSession)>, persisted: bool)
    requires
        old(store).well_formed(),
    ensures
        final(store).well_formed(),
        final(store).sessions() == if persisted {
            marked_clean(old(store).sessions(), batch@)
        } else {
            old(store).sessions()
        },
{
    if persisted {
        let ghost m = store.sessions();
        let mut i: usize = 0;
        while i < batch.len()
            invariant
                i <= batch@.len(),
                store.well_formed(),
                store.sessions() == marked_clean(m, batch@.take(i as int)),
            decreases batch@.len() - i,
        {
            let entry = &batch[i];
            let mut session = entry.1.clone();
            session.dirty = false;
            store.set(&entry.0, session);
            proof {
                assert(batch@.take(i + 1).drop_last() =~= batch@.take(i as int));
            }
            i = i + 1;
        }
        proof {
            assert(batch@.take(i as int) =~= batch@);
        }
    }
}

/// Writing a batch back clean, entry by entry, with distinct keys: a key of
/// the first `n` entries holds its entry's record, clean; any other key keeps
/// what it had.
proof fn lemma_marked_clean_prefix(m: SessionMap, batch: Seq<(SessionKey, TranscriptionSession)>, n: int)
    requires
        0 <= n <= batch.len(),
        forall|a: int, b: int| 0 <= a < batch.len() && 0 <= b < batch.len() && a != b ==> key_view(batch[a].0) != key_view(batch[b].0),
    ensures
        forall|j: int| 0 <= j < n ==> #[trigger] marked_clean(m, batch.take(n)).contains_key(key_view(batch[j].0))
            && marked_clean(m, batch.take(n))[key_view(batch[j].0)] == flushed(batch[j].1),
        forall|k| (forall|j: int| 0 <= j < n ==> key_view(#[trigger] batch[j].0) != k) ==> (
            #[trigger] marked_clean(m, batch.take(n)).contains_key(k) == m.contains_key(k)
            && (m.contains_key(k) ==> marked_clean(m, batch.take(n))[k] == m[k])),
    decreases n,
{
    if n > 0 {
        lemma_marked_clean_prefix(m, batch, n - 1);
        assert(batch.take(n).drop_last() =~= batch.take(n - 1));
        assert(batch.take(n).last() == batch[n - 1]);
        let prev = marked_clean(m, batch.take(n - 1));
        let cur = marked_clean(m, batch.take(n));
        let kn = key_view(batch[n - 1].0);
        assert(cur == prev.insert(kn, flushed(batch[n - 1].1)));
        assert forall|j: int| 0 <= j < n implies #[trigger] cur.contains_key(key_view(batch[j].0))
            && cur[key_view(batch[j].0)] == flushed(batch[j].1) by {
            if j < n - 1 {
                assert(key_view(batch[j].0) != kn);
            }
        }
        assert forall|k| (forall|j: int| 0 <= j < n ==> key_view(#[trigger] batch[j].0) != k) implies (
            #[trigger] cur.contains_key(k) == m.contains_key(k)
            && (m.contains_key(k) ==> cur[k] == m[k])) by {
            assert(key_view(batch[n - 1].0) != k);
            assert forall|j: int| 0 <= j < n - 1 implies key_view(#[trigger] batch[j].0) != k by {
                assert(key_view(batch[j].0) != k);
            }
        }
    } else {
        assert(batch.take(0) =~= Seq::<(SessionKey, TranscriptionSession)>::empty());
    }
}

/// Writing back clean a batch that lists exactly the dirty sessions (what
/// `begin_flush` returns) makes every session clean and changes nothing else:
/// on an idle store, `finish_flush` after a persisted batch is `after_tick(m, true)`.
pub proof fn lemma_flush_cleans_all(m: SessionMap, batch: Seq<(SessionKey, TranscriptionSession)>)
    requires
        lists_sessions(batch, dirty_part(m)),
    ensures
        marked_clean(m, batch) == all_clean(m),
        marked_clean(m, batch) == after_tick(m, true),
{
    let d = dirty_part(m);
    lemma_marked_clean_prefix(m, batch, batch.len() as int);
    assert(batch.take(batch.len() as int) =~= batch);
    let mc = marked_clean(m, batch);
    assert forall|k| #[trigger] mc.contains_key(k) == all_clean(m).contains_key(k)
        && (mc.contains_key(k) ==> mc[k] == all_clean(m)[k]) by {
        if d.contains_key(k) {
            let j = choose|j: int| 0 <= j < batch.len() && key_view(batch[j].0) == k;
            assert(d.contains_key(key_view(batch[j].0)));
        } else {
            assert forall|j: int| 0 <= j < batch.len() implies key_view(#[trigger] batch[j].0) != k by {
                assert(d.contains_key(key_view(batch[j].0)));
            }
            if m.contains_key(k) {
                assert(flushed(m[k]) == m[k]);
            }
        }
    }
    assert(mc =~= all_clean(m));
}

/// The store's content after a run of scheduler ticks with the given
/// outcomes, while no connection writes.
pub open spec fn run_ticks(m: SessionMap, outcomes: Seq<bool>) -> SessionMap
    decreases outcomes.len(),
{
    if outcomes.len() == 0 {
        m
    } else {
        after_tick(run_ticks(m, outcomes.drop_last()), outcomes.last())
    }
}

/// A session with no mutation since it was created or loaded is clean, and
/// stays out of every batch however many ticks run, whatever their outcomes.
pub proof fn lemma_clean_session_never_flushed(m: SessionMap, k: (Seq<char>, Seq<char>), outcomes: Seq<bool>)
    requires
        m.contains_key(k),
        !m[k].dirty,
    ensures
        forall|n: int| 0 <= n <= outcomes.len() ==> !(#[trigger] dirty_part(run_ticks(m, outcomes.take(n)))).contains_key(k),
        run_ticks(m, outcomes).contains_key(k) && run_ticks(m, outcomes)[k] == m[k],
    decreases outcomes.len(),
{
    if outcomes.len() > 0 {
        let prefix = outcomes.drop_last();
        lemma_clean_session_never_flushed(m, k, prefix);
        assert(flushed(m[k]) == m[k]);
        assert forall|n: int| 0 <= n <= outcomes.len() implies !(#[trigger] dirty_part(run_ticks(m, outcomes.take(n)))).contains_key(k) by {
            if n < outcomes.len() {
                assert(outcomes.take(n) =~= prefix.take(n));
            } else {
                assert(outcomes.take(n) =~= outcomes);
            }
        }
    } else {
        assert forall|n: int| 0 <= n <= outcomes.len() implies !(#[trigger] dirty_part(run_ticks(m, outcomes.take(n)))).contains_key(k) by {
            assert(outcomes.take(n) =~= outcomes);
        }
    }
}

/// After a successful flush, and no mutation since, the next tick finds no
/// dirty session: nothing is written twice.
pub proof fn lemma_flushed_not_reflushed(m: SessionMap)
    ensures
        dirty_part(after_tick(m, true)).dom() == Set::<(Seq<char>, Seq<char>)>::empty(),
        after_tick(m, true).dom() == m.dom(),
{
    assert(dirty_part(after_tick(m, true)).dom() =~= Set::<(Seq<char>, Seq<char>)>::empty());
    assert(after_tick(m, true).dom() =~= m.dom());
}

/// A failed batch leaves every dirty flag set, so the next tick retries the
/// same sessions; once it succeeds all of them are clean.
pub proof fn lemma_failed_flush_retried(m: SessionMap)
    ensures
        after_tick(m, false) == m,
        dirty_part(after_tick(m, false)) == dirty_part(m),
        after_tick(after_tick(m, false), true) == all_clean(m),
        dirty_part(after_tick(after_tick(m, false), true)).dom() == Set::<(Seq<char>, Seq<char>)>::empty(),
{
    lemma_flushed_not_reflushed(m);
}

} // verus!
