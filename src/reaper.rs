use crate::files::File;
use vstd::prelude::*;

verus! {

/// A record may be purged only once deleted and while not held for moderation.
pub open spec fn is_reapable(f: File) -> bool {
    f.deleted && !f.flagged
}

pub fn reapable(f: &File) -> (r: bool)
    ensures
        r == is_reapable(*f),
{
    f.deleted && !f.flagged
}

/// Positions, in order, of the records that a sweep purges.
pub open spec fn reap_positions(records: Seq<File>) -> Seq<int>
    decreases records.len(),
{
    if records.len() == 0 {
        Seq::empty()
    } else {
        let rest = reap_positions(records.drop_last());
        if is_reapable(records.last()) { rest.push(records.len() - 1) } else { rest }
    }
}

/// The positions of the records among `records` that a sweep purges.
pub fn select_for_reaping(records: &Vec<File>) -> (r: Vec<usize>)
    ensures
        r@.len() == reap_positions(records@).len(),
        forall|k: int| 0 <= k < r@.len() ==> r@[k] as int == #[trigger] reap_positions(records@)[k],
{
    let mut r: Vec<usize> = Vec::new();
    let mut i: usize = 0;
    while i < records.len()
        invariant
            i <= records@.len(),
            r@.len() == reap_positions(records@.subrange(0, i as int)).len(),
            forall|k: int| 0 <= k < r@.len() ==> r@[k] as int == #[trigger] reap_positions(records@.subrange(0, i as int))[k],
        decreases records@.len() - i,
    {
        let ghost prev = records@.subrange(0, i as int);
        let ghost next = records@.subrange(0, i + 1);
        assert(next.drop_last() =~= prev);
        if reapable(&records[i]) {
            r.push(i);
        }
        i = i + 1;
    }
    assert(records@.subrange(0, records@.len() as int) =~= records@);
    r
}

/// A position is listed for purging exactly when its record is reapable.
pub proof fn lemma_reap_positions(records: Seq<File>, p: int)
    requires
        0 <= p < records.len(),
    ensures
        reap_positions(records).contains(p) <==> is_reapable(records[p]),
    decreases records.len(),
{
    lemma_positions_below(records);
    if p < records.len() - 1 {
        lemma_reap_positions(records.drop_last(), p);
        let rest = reap_positions(records.drop_last());
        if is_reapable(records.last()) {
            let all = rest.push(records.len() - 1);
            if rest.contains(p) {
                let k = choose|k: int| 0 <= k < rest.len() && rest[k] == p;
                assert(all[k] == p);
            }
            if all.contains(p) {
                let k = choose|k: int| 0 <= k < all.len() && all[k] == p;
                assert(k < rest.len());
                assert(rest[k] == p);
            }
        }
    } else {
        let rest = reap_positions(records.drop_last());
        lemma_positions_below(records.drop_last());
        if is_reapable(records.last()) {
            let all = rest.push(records.len() - 1);
            assert(all[rest.len() as int] == p);
        }
    }
}

proof fn lemma_positions_below(records: Seq<File>)
    ensures
        forall|k: int| 0 <= k < reap_positions(records).len() ==> 0 <= #[trigger] reap_positions(records)[k] < records.len(),
    decreases records.len(),
{
    if records.len() > 0 {
        lemma_positions_below(records.drop_last());
        let rest = reap_positions(records.drop_last());
        if is_reapable(records.last()) {
            let all = rest.push(records.len() - 1);
            assert forall|k: int| 0 <= k < all.len() implies 0 <= #[trigger] all[k] < records.len() by {
                if k < rest.len() {
                    assert(all[k] == rest[k]);
                }
            }
        }
    }
}

/// A deleted record held for moderation is never purged; once the hold is
/// lifted, the next sweep purges it.
pub proof fn lemma_flagged_never_reaped(records: Seq<File>, p: int, released: File)
    requires
        0 <= p < records.len(),
        records[p].deleted,
        records[p].flagged,
        released == (File { flagged: false, ..records[p] }),
    ensures
        !reap_positions(records).contains(p),
        reap_positions(records.update(p, released)).contains(p),
{
    lemma_reap_positions(records, p);
    lemma_reap_positions(records.update(p, released), p);
}

/// Where a sweep stands on the records selected for it.
#[derive(Debug, Clone, Copy, PartialEq, Eq, Structural)]
pub enum SweepPhase {
    /// Deleting the bytes of the record at `index` from the backend.
    Purging { index: usize },
    /// Deleting the record at `index` from the database.
    Unlinking { index: usize },
    /// Pausing after the record at `index` before going on.
    Resting { index: usize },
    Finished,
}

/// What the driver of a sweep reports of the step it performed.
#[derive(Debug, Clone, Copy, PartialEq, Eq, Structural)]
pub enum SweepEvent {
    Succeeded,
    Failed,
}

/// Phase in which a sweep over `total` records begins.
pub fn start_sweep(total: usize) -> (r: SweepPhase)
    ensures
        total == 0 ==> r == SweepPhase::Finished,
        total > 0 ==> r == (SweepPhase::Purging { index: 0 }),
{
    if total == 0 { SweepPhase::Finished } else { SweepPhase::Purging { index: 0 } }
}

/// The next phase of a sweep over `total` records. A record's row is deleted
/// only after its bytes were; a failed byte deletion keeps the row for the
/// next sweep; no failure ends the sweep early.
pub fn sweep_step(total: usize, phase: SweepPhase, event: SweepEvent) -> (r: SweepPhase)
    ensures
        match phase {
            SweepPhase::Purging { index } => if event == SweepEvent::Succeeded {
                r == (SweepPhase::Unlinking { index })
            } else {
                r == (SweepPhase::Resting { index })
            },
            SweepPhase::Unlinking { index } => r == (SweepPhase::Resting { index }),
            SweepPhase::Resting { index } => if index as int + 1 < total {
                r == (SweepPhase::Purging { index: (index + 1) as usize })
            } else {
                r == SweepPhase::Finished
            },
            SweepPhase::Finished => r == SweepPhase::Finished,
        },
{
    match phase {
        SweepPhase::Purging { index } => match event {
            SweepEvent::Succeeded => SweepPhase::Unlinking { index },
            SweepEvent::Failed => SweepPhase::Resting { index },
        },
        SweepPhase::Unlinking { index } => SweepPhase::Resting { index },
        SweepPhase::Resting { index } => {
            if index < total && index + 1 < total {
                SweepPhase::Purging { index: index + 1 }
            } else {
                SweepPhase::Finished
            }
        }
        SweepPhase::Finished => SweepPhase::Finished,
    }
}

} // verus!
