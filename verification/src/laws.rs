//! Laws of the snapshot: what a debug snapshot shows of the entity state,
//! stated once and proved for every name and every pair of counters.

use crate::entity::Observable;
use crate::render::snapshot_text;
use vstd::prelude::*;

verus! {

/// Law: the snapshot text carries the name verbatim — the characters
/// between the fixed opening text and the closing quote are exactly the
/// name, whatever the counters are.
pub proof fn lemma_snapshot_shows_name(name: Seq<char>, listeners: nat, events: nat)
    ensures
        ({
            let prefix = "Observable { name: \""@;
            snapshot_text(name, listeners, events).subrange(
                prefix.len() as int,
                prefix.len() + name.len() as int,
            ) == name
        }),
{
    let prefix = "Observable { name: \""@;
    assert(snapshot_text(name, listeners, events).subrange(
        prefix.len() as int,
        prefix.len() + name.len() as int,
    ) =~= name);
}

/// Law: immediately after construction with name `n`, the entity's snapshot
/// shows `n` as the name field, together with a listener count and a
/// pending-event count of zero.
pub proof fn lemma_fresh_snapshot_shows_name(entity: Observable, n: Seq<char>)
    requires
        entity.name@ == n,
        entity.quiescent(),
    ensures
        entity.snapshot_spec() == snapshot_text(n, 0, 0),
        ({
            let prefix = "Observable { name: \""@;
            entity.snapshot_spec().subrange(prefix.len() as int, prefix.len() + n.len() as int) == n
        }),
{
    lemma_snapshot_shows_name(n, 0, 0);
}

/// Law: after the name is replaced by `m` and nothing else changes, the next
/// snapshot shows `m` as the name field.
pub proof fn lemma_rename_then_snapshot(before: Observable, after: Observable, m: Seq<char>)
    requires
        after.name@ == m,
        after.listeners == before.listeners,
        after.pending_events == before.pending_events,
    ensures
        ({
            let prefix = "Observable { name: \""@;
            after.snapshot_spec().subrange(prefix.len() as int, prefix.len() + m.len() as int) == m
        }),
{
    lemma_snapshot_shows_name(m, after.listeners@.len(), after.pending_events@.len());
}

/// Law: a snapshot is a function of the entity state alone, so repeated
/// snapshots with no intervening mutation are identical.
pub proof fn lemma_snapshot_repeatable(entity: Observable, s1: Seq<char>, s2: Seq<char>)
    requires
        s1 == entity.snapshot_spec(),
        s2 == entity.snapshot_spec(),
    ensures
        s1 == s2,
{
}

} // verus!
