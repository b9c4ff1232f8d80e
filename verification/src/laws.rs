//! The guarantees that hold across several operations of a context, stated
//! over the same transition relations the operations' contracts use.

use vstd::prelude::*;

use crate::context::{allocates, bumps, registers, sets_diagnostics, takes, Context};
use crate::types::PendingEntry;

verus! {

proof fn lemma_chain_strictly_increases(values: Seq<u64>, i: int, j: int)
    requires
        forall|k: int| 0 <= k < values.len() - 1 ==> #[trigger] values[k + 1] == values[k] + 1,
        0 <= i < j < values.len(),
    ensures
        values[i] < values[j],
    decreases j - i,
{
    if i + 1 < j {
        lemma_chain_strictly_increases(values, i + 1, j);
    }
}

/// Id uniqueness and monotonicity: over any run of the allocator — states
/// chained by `allocates`, each yielding the next id — later ids are
/// strictly greater than earlier ones, so no id is ever repeated.
pub proof fn lemma_request_ids_strictly_increase(states: Seq<Context>, ids: Seq<u64>)
    requires
        states.len() == ids.len() + 1,
        forall|i: int| 0 <= i < ids.len() ==> #[trigger] allocates(states[i], states[i + 1], ids[i]),
    ensures
        forall|i: int, j: int| 0 <= i < j < ids.len() ==> ids[i] < ids[j],
{
    let counters = Seq::<u64>::new(states.len(), |i: int| states[i].request_counter);
    assert forall|i: int, j: int| 0 <= i < j < ids.len() implies ids[i] < ids[j] by {
        assert(allocates(states[i], states[i + 1], ids[i]));
        assert(allocates(states[j], states[j + 1], ids[j]));
        assert forall|k: int| 0 <= k < counters.len() - 1 implies #[trigger] counters[k + 1]
            == counters[k] + 1 by {
            assert(allocates(states[k], states[k + 1], ids[k]));
        }
        lemma_chain_strictly_increases(counters, i, j);
    }
}

/// Waitlist round trip: registering an entry under a fresh id and then
/// taking that id returns exactly the entry; taking it once more reports an
/// unknown id, and the waitlist is back to where it started.
pub proof fn lemma_waitlist_round_trip(
    s0: Context,
    s1: Context,
    s2: Context,
    s3: Context,
    id: u64,
    entry: PendingEntry,
    first: Option<PendingEntry>,
    second: Option<PendingEntry>,
)
    requires
        !s0.response_waitlist@.contains_key(id),
        registers(s0, s1, id, entry),
        takes(s1, s2, id, first),
        takes(s2, s3, id, second),
    ensures
        first == Some(entry),
        second == None::<PendingEntry>,
        s3.response_waitlist@ == s0.response_waitlist@,
{
    assert(s2.response_waitlist@ =~= s0.response_waitlist@);
    assert(s3.response_waitlist@ =~= s0.response_waitlist@);
}

/// Version monotonicity: over any run of `bumps` on one document path, the
/// returned versions are strictly increasing, and the first of them is one
/// above whatever the document stood at before the run.
pub proof fn lemma_versions_strictly_increase(states: Seq<Context>, path: Seq<char>, vs: Seq<u64>)
    requires
        states.len() == vs.len() + 1,
        forall|i: int| 0 <= i < vs.len() ==> #[trigger] bumps(states[i], states[i + 1], path, vs[i]),
    ensures
        forall|i: int, j: int| 0 <= i < j < vs.len() ==> vs[i] < vs[j],
        vs.len() > 0 ==> vs[0] == states[0].stored_version(path) + 1,
{
    if vs.len() > 0 {
        let z = 0int;
        assert(bumps(states[z], states[z + 1], path, vs[z]));
    }
    assert forall|i: int, j: int| 0 <= i < j < vs.len() implies vs[i] < vs[j] by {
        assert forall|k: int| 0 <= k < vs.len() - 1 implies #[trigger] vs[k + 1] == vs[k] + 1 by {
            let n = k + 1;
            assert(bumps(states[k], states[k + 1], path, vs[k]));
            assert(bumps(states[n], states[n + 1], path, vs[n]));
            assert(states[k + 1].stored_version(path) == vs[k]);
        }
        lemma_chain_strictly_increases(vs, i, j);
    }
}

/// Diagnostics overwrite: publishing `a` and then `b` for one document
/// leaves exactly `b` in the cache — the result of the two writes is the
/// same as of the second alone, never a merge.
pub proof fn lemma_diagnostics_overwrite(
    s0: Context,
    s1: Context,
    s2: Context,
    path: Seq<char>,
    a: Vec<lsp_types::Diagnostic>,
    b: Vec<lsp_types::Diagnostic>,
)
    requires
        sets_diagnostics(s0, s1, path, a),
        sets_diagnostics(s1, s2, path, b),
    ensures
        s2.diagnostics_of(path) == b@,
        s2.diagnostics@ == s0.diagnostics@.insert(path, b),
{
    assert(s2.diagnostics@ =~= s0.diagnostics@.insert(path, b));
}

} // verus!
