//! Retention sweeper: the periodic pass that reclaims aged scratch entries.
//!
//! The sweeper enumerates the scratch directory and deletes every entry whose
//! age (time elapsed since its last modification) exceeds a configured
//! threshold. The age predicate is the only mechanism keeping the sweeper
//! away from files that in-flight requests are still using, so it is stated
//! and proved exactly here: an entry at most `threshold` old is never chosen.

use vstd::prelude::*;
use vstd::seq_lib::group_seq_properties;

verus! {

/// One entry of the scratch directory, as the sweeper sees it: its path, a
/// last-modified timestamp (seconds since an arbitrary epoch), and whether it
/// is a directory (deleted recursively) or a plain file.
pub struct ScratchEntry {
    pub path: Vec<u8>,
    pub last_modified: u64,
    pub is_dir: bool,
}

/// Age of an entry at time `now`: seconds elapsed since its last
/// modification. An entry stamped in the future has age zero.
pub open spec fn entry_age(e: ScratchEntry, now: u64) -> int {
    if now >= e.last_modified {
        now - e.last_modified
    } else {
        0
    }
}

/// An entry is expired when it is strictly older than the threshold.
pub open spec fn expired(e: ScratchEntry, now: u64, threshold: u64) -> bool {
    entry_age(e, now) > threshold
}

/// Decides whether one entry is old enough to delete.
pub fn should_delete(e: &ScratchEntry, now: u64, threshold: u64) -> (r: bool)
    ensures
        r == expired(*e, now, threshold),
{
    now > threshold && e.last_modified < now - threshold
}

/// Builds one sweep cycle's deletion plan: exactly the expired entries, in
/// enumeration order. Entries that are not expired are dropped from the plan.
pub fn plan_sweep(entries: Vec<ScratchEntry>, now: u64, threshold: u64) -> (plan: Vec<
    ScratchEntry,
>)
    ensures
        plan@ == entries@.filter(|e: ScratchEntry| expired(e, now, threshold)),
{
    broadcast use group_seq_properties;

    let ghost orig = entries@;
    let ghost pred = |e: ScratchEntry| expired(e, now, threshold);
    let mut rest = entries;
    let mut plan: Vec<ScratchEntry> = Vec::new();
    let ghost mut seen: Seq<ScratchEntry> = Seq::empty();
    while rest.len() > 0
        invariant
            orig == seen + rest@,
            plan@ == seen.filter(pred),
            pred == (|e: ScratchEntry| expired(e, now, threshold)),
        decreases rest.len(),
    {
        let ghost old_rest = rest@;
        let e = rest.remove(0);
        let expired_now = should_delete(&e, now, threshold);
        proof {
            assert(old_rest =~= seq![e] + rest@);
            assert(orig =~= (seen + seq![e]) + rest@);
            Seq::<ScratchEntry>::filter_distributes_over_add(seen, seq![e], pred);
            reveal_with_fuel(Seq::<_>::filter, 2);
            assert(seq![e].last() == e);
            assert(seq![e].drop_last() =~= Seq::<ScratchEntry>::empty());
            if pred(e) {
                assert(seq![e].filter(pred) =~= seq![e]);
            } else {
                assert(seq![e].filter(pred) =~= Seq::<ScratchEntry>::empty());
            }
            seen = seen + seq![e];
        }
        if expired_now {
            plan.push(e);
        }
    }
    proof {
        assert(orig =~= seen);
    }
    plan
}

/// Law: the retention sweeper never deletes a scratch entry younger than the
/// configured age threshold. Any entry whose age at sweep time is at most the
/// threshold is absent from the sweep plan, whatever else the directory holds.
pub proof fn lemma_sweeper_spares_young(
    entries: Seq<ScratchEntry>,
    now: u64,
    threshold: u64,
    e: ScratchEntry,
)
    requires
        entry_age(e, now) <= threshold,
    ensures
        !entries.filter(|x: ScratchEntry| expired(x, now, threshold)).contains(e),
{
    let pred = |x: ScratchEntry| expired(x, now, threshold);
    let plan = entries.filter(pred);
    assert forall|i: int| 0 <= i < plan.len() implies plan[i] != e by {
        entries.lemma_filter_pred(pred, i);
    }
}

} // verus!
