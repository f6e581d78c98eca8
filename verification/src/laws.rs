//! Laws of the generation algorithm.
//!
//! A *run* is a chain of successful [`WebeIDFactory::next_at`] calls on one
//! factory: `states` holds the factory before and after each call, `clocks`
//! the reading each call was given, `ids` the identifiers issued. Each law
//! is stated over such runs and proved from the step relation
//! [`WebeIDFactory::ok_step`] alone, which `next_at` ensures of every
//! successful call.

use crate::factory::{
    id_of, node_field, sequence_field, ts_field, WebeID, WebeIDFactory, SEQUENCE_LIMIT,
    TS_FIELD_LIMIT,
};
use vstd::prelude::*;

verus! {

/// The `k`-th call of a run succeeded, relating the states around it to its
/// clock reading and its identifier.
pub open spec fn step_at(
    states: Seq<WebeIDFactory>,
    clocks: Seq<u128>,
    ids: Seq<WebeID>,
    k: int,
) -> bool {
    WebeIDFactory::ok_step(states[k], states[k + 1], clocks[k], ids[k])
}

/// A run of successful generation calls: one state more than identifiers,
/// one clock reading per identifier, and every call a successful step.
pub open spec fn run_ok(states: Seq<WebeIDFactory>, clocks: Seq<u128>, ids: Seq<WebeID>) -> bool {
    &&& states.len() == ids.len() + 1
    &&& clocks.len() == ids.len()
    &&& forall|k: int| 0 <= k < ids.len() ==> #[trigger] step_at(states, clocks, ids, k)
}

/// Every clock reading of the run fits the 40-bit timestamp field.
pub open spec fn clocks_in_ts_range(clocks: Seq<u128>) -> bool {
    forall|k: int| 0 <= k < clocks.len() ==> #[trigger] clocks[k] < TS_FIELD_LIMIT
}

/// Identifiers that share a node field are ordered by their (timestamp,
/// sequence) pair, because the fields do not overlap.
proof fn lemma_id_orders(ms1: u128, ms2: u128, nf: u64, s1: u16, s2: u16)
    by (bit_vector)
    requires
        ms1 < TS_FIELD_LIMIT,
        ms2 < TS_FIELD_LIMIT,
        nf < 0x100_0000,
        nf & 0xFFFF == 0,
        ms1 < ms2 || (ms1 == ms2 && s1 < s2),
    ensures
        id_of(ms1, nf, s1) < id_of(ms2, nf, s2),
{
}

/// Bit layout round-trip: decoding an identifier built from an in-range
/// timestamp, a well-formed node field and a sequence value recovers each
/// of the three exactly.
pub proof fn lemma_id_fields(ms: u128, nf: u64, s: u16)
    by (bit_vector)
    requires
        ms < TS_FIELD_LIMIT,
        nf < 0x100_0000,
        nf & 0xFFFF == 0,
    ensures
        ts_field(id_of(ms, nf, s)) == ms,
        node_field(id_of(ms, nf, s)) == nf >> 16,
        sequence_field(id_of(ms, nf, s)) == s,
{
}

/// A `u32` below the sequence limit survives the cast to `u16`.
proof fn lemma_sequence_cast(x: u32)
    by (bit_vector)
    requires
        x < SEQUENCE_LIMIT,
    ensures
        (x as u16) == x,
{
}

/// Along a run, the (clock, sequence) key each identifier was issued under
/// strictly increases lexicographically, and the node field never changes.
proof fn lemma_run_keys_increase(
    states: Seq<WebeIDFactory>,
    clocks: Seq<u128>,
    ids: Seq<WebeID>,
    i: int,
    j: int,
)
    requires
        run_ok(states, clocks, ids),
        0 <= i < j < ids.len(),
    ensures
        clocks[i] < clocks[j] || (clocks[i] == clocks[j] && states[i].sequence_for(clocks[i])
            < states[j].sequence_for(clocks[j])),
        states[i].node_field_spec() == states[j].node_field_spec(),
    decreases j - i,
{
    assert(step_at(states, clocks, ids, j - 1));
    assert(step_at(states, clocks, ids, j));
    // The step before j set states[j]'s recorded time to clocks[j - 1] and
    // its counter one past the sequence just used; step j cannot read an
    // earlier clock than that record.
    assert(states[j].last_ms_spec() == clocks[j - 1]);
    assert(clocks[j] >= clocks[j - 1]);
    assert(clocks[j] == clocks[j - 1] ==> states[j].sequence_for(clocks[j])
        == states[j - 1].sequence_for(clocks[j - 1]) + 1);
    if i < j - 1 {
        lemma_run_keys_increase(states, clocks, ids, i, j - 1);
    }
}

/// Law: the identifiers of a run are strictly increasing, provided the
/// clock readings fit the 40-bit timestamp field.
pub proof fn lemma_run_ids_strictly_increase(
    states: Seq<WebeIDFactory>,
    clocks: Seq<u128>,
    ids: Seq<WebeID>,
    i: int,
    j: int,
)
    requires
        run_ok(states, clocks, ids),
        clocks_in_ts_range(clocks),
        0 <= i < j < ids.len(),
    ensures
        ids[i] < ids[j],
{
    lemma_run_keys_increase(states, clocks, ids, i, j);
    assert(step_at(states, clocks, ids, i));
    assert(step_at(states, clocks, ids, j));
    lemma_sequence_cast(states[i].sequence_for(clocks[i]));
    lemma_sequence_cast(states[j].sequence_for(clocks[j]));
    lemma_id_orders(
        clocks[i],
        clocks[j],
        states[i].node_field_spec(),
        states[i].sequence_for(clocks[i]) as u16,
        states[j].sequence_for(clocks[j]) as u16,
    );
}

/// Law (uniqueness): no two calls of a run return the same identifier,
/// provided the clock readings fit the 40-bit timestamp field.
pub proof fn lemma_run_ids_distinct(
    states: Seq<WebeIDFactory>,
    clocks: Seq<u128>,
    ids: Seq<WebeID>,
    i: int,
    j: int,
)
    requires
        run_ok(states, clocks, ids),
        clocks_in_ts_range(clocks),
        0 <= i < ids.len(),
        0 <= j < ids.len(),
        i != j,
    ensures
        ids[i] != ids[j],
{
    if i < j {
        lemma_run_ids_strictly_increase(states, clocks, ids, i, j);
    } else {
        lemma_run_ids_strictly_increase(states, clocks, ids, j, i);
    }
}

/// Law (monotonic timestamp field): the extracted timestamp bits of the
/// identifiers of a run never decrease.
pub proof fn lemma_run_timestamps_monotonic(
    states: Seq<WebeIDFactory>,
    clocks: Seq<u128>,
    ids: Seq<WebeID>,
    i: int,
    j: int,
)
    requires
        run_ok(states, clocks, ids),
        clocks_in_ts_range(clocks),
        0 <= i <= j < ids.len(),
    ensures
        ts_field(ids[i]) <= ts_field(ids[j]),
{
    assert(step_at(states, clocks, ids, i));
    assert(step_at(states, clocks, ids, j));
    lemma_id_fields(clocks[i], states[i].node_field_spec(), states[i].sequence_for(clocks[i]) as u16);
    lemma_id_fields(clocks[j], states[j].node_field_spec(), states[j].sequence_for(clocks[j]) as u16);
    if i < j {
        lemma_run_keys_increase(states, clocks, ids, i, j);
    }
}

/// Law (sequence reset): when two consecutive identifiers of a run carry
/// different timestamp fields, the later call was the first of a fresh
/// millisecond and its identifier carries sequence zero.
pub proof fn lemma_sequence_reset(
    states: Seq<WebeIDFactory>,
    clocks: Seq<u128>,
    ids: Seq<WebeID>,
    i: int,
)
    requires
        run_ok(states, clocks, ids),
        clocks_in_ts_range(clocks),
        0 <= i,
        i + 1 < ids.len(),
    ensures
        ts_field(ids[i]) != ts_field(ids[i + 1]) ==> sequence_field(ids[i + 1]) == 0,
{
    assert(step_at(states, clocks, ids, i));
    assert(step_at(states, clocks, ids, i + 1));
    lemma_id_fields(clocks[i], states[i].node_field_spec(), states[i].sequence_for(clocks[i]) as u16);
    lemma_id_fields(
        clocks[i + 1],
        states[i + 1].node_field_spec(),
        states[i + 1].sequence_for(clocks[i + 1]) as u16,
    );
    if ts_field(ids[i]) != ts_field(ids[i + 1]) {
        // Equal readings would give equal timestamp fields, so the second
        // reading is strictly later than the first, which the step before
        // recorded; the sequence for a fresh millisecond is zero.
        assert(clocks[i + 1] != clocks[i]);
        assert(states[i + 1].last_ms_spec() == clocks[i]);
        assert(states[i + 1].sequence_for(clocks[i + 1]) == 0);
    }
}

/// Law (overflow boundary): while the clock reading stays on one
/// millisecond, the calls of a run use consecutive sequence values, all
/// below the 16-bit limit; so a window entered with a fresh counter serves
/// exactly the sequence values 0 through 65535 before a further call must
/// fail.
pub proof fn lemma_same_ms_sequences(
    states: Seq<WebeIDFactory>,
    clocks: Seq<u128>,
    ids: Seq<WebeID>,
    k: int,
)
    requires
        run_ok(states, clocks, ids),
        forall|t: int| 0 <= t < clocks.len() ==> #[trigger] clocks[t] == clocks[0],
        0 <= k < ids.len(),
    ensures
        states[k].sequence_for(clocks[k]) == states[0].sequence_for(clocks[0]) + k,
        states[0].sequence_for(clocks[0]) + k < SEQUENCE_LIMIT,
    decreases k,
{
    assert(step_at(states, clocks, ids, k));
    if k > 0 {
        lemma_same_ms_sequences(states, clocks, ids, k - 1);
        assert(step_at(states, clocks, ids, k - 1));
        assert(states[k].last_ms_spec() == clocks[k - 1]);
    }
}

} // verus!
