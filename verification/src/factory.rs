//! The identifier factory: construction-time validation, the bit-packing
//! layout, and the per-call generation algorithm with time-rewind detection
//! and sequence-overflow handling.

use std::time::SystemTime;
use vstd::prelude::*;

verus! {

/// A generated identifier: 40 bits of elapsed milliseconds, 8 bits of node
/// id, 16 bits of sequence, most significant first.
pub type WebeID = u64;

/// Number of bits the timestamp field is shifted left by.
pub const TS_SHIFT: u64 = 24;

/// Number of bits the node-id field is shifted left by.
pub const NODE_SHIFT: u64 = 16;

/// First sequence value that no identifier can carry: the 16-bit counter
/// runs over `0 ..= 0xFFFF`.
pub const SEQUENCE_LIMIT: u32 = 0x10000;

/// Widest span, in milliseconds, that the 16-bit sequence range can stand
/// for; the epoch must lie at least this far behind the clock.
pub const MAX_SEQUENCE_SPAN_MS: u128 = 0xFFFF;

/// First elapsed-millisecond value the 40-bit timestamp field cannot hold.
pub const TS_FIELD_LIMIT: u128 = 0x100_0000_0000;

/// Everything that can go wrong constructing a factory or generating an
/// identifier. All variants are recoverable by the caller.
#[derive(Debug)]
pub enum WebeIDError {
    /// The epoch lies too far ahead of the clock for elapsed time to be
    /// computed with the required headroom.
    BadEpoch,
    /// The supplied resume checkpoint is not strictly behind the current
    /// elapsed time since the epoch.
    BadLastDuration,
    /// More identifiers were requested within one millisecond than the
    /// 16-bit sequence counter can distinguish.
    SequenceOverflow,
    /// The underlying clock read failed; the error is passed on unchanged.
    SystemTimeError(std::time::SystemTimeError),
    /// The clock reported a time behind the last successful generation.
    TimeRewind,
}

/// Packs elapsed milliseconds, the pre-shifted node field and a sequence
/// value into one identifier. The milliseconds are truncated to 64 bits and
/// the shift keeps their low 40 bits, as the layout prescribes.
pub open spec fn id_of(ms: u128, node_field: u64, sequence: u16) -> WebeID {
    ((ms as u64) << TS_SHIFT) | node_field | (sequence as u64)
}

/// The timestamp field of an identifier: its high 40 bits.
pub open spec fn ts_field(id: WebeID) -> u64 {
    id >> TS_SHIFT
}

/// The node-id field of an identifier: bits 23 down to 16.
pub open spec fn node_field(id: WebeID) -> u64 {
    (id >> NODE_SHIFT) & 0xFF
}

/// The sequence field of an identifier: its low 16 bits.
pub open spec fn sequence_field(id: WebeID) -> u64 {
    id & 0xFFFF
}

/// Issues the identifiers for one node. All state lives in the factory;
/// callers must serialize access to one instance.
pub struct WebeIDFactory {
    /// Zero point that all timestamp fields are measured from.
    epoch: SystemTime,
    /// Elapsed milliseconds since `epoch` as of the last successful
    /// generation (or the resume checkpoint).
    last_duration_ms: u128,
    /// The 8-bit node id, already shifted into its final bit position.
    node_id: u64,
    /// Sequence value the next identifier in the current millisecond will
    /// carry; `SEQUENCE_LIMIT` once the window is exhausted.
    sequence: u32,
}

impl WebeIDFactory {
    /// The epoch the factory was built with.
    pub closed spec fn epoch_spec(self) -> SystemTime {
        self.epoch
    }

    /// Elapsed milliseconds since the epoch as of the last successful call.
    pub closed spec fn last_ms_spec(self) -> u128 {
        self.last_duration_ms
    }

    /// The node-id field, pre-shifted into bits 23 down to 16.
    pub closed spec fn node_field_spec(self) -> u64 {
        self.node_id
    }

    /// Sequence value the next identifier in the current millisecond will
    /// carry.
    pub closed spec fn sequence_spec(self) -> u32 {
        self.sequence
    }

    /// Well-formedness: the sequence counter never passes its limit and the
    /// node field occupies exactly bits 23 down to 16.
    pub open spec fn wf(self) -> bool {
        &&& self.sequence_spec() <= SEQUENCE_LIMIT
        &&& self.node_field_spec() < 0x100_0000
        &&& self.node_field_spec() & 0xFFFF == 0
    }

    /// Sequence value a generation call at `current_ms` would use: the
    /// counter so far, or zero when the clock has moved to a fresh
    /// millisecond.
    pub open spec fn sequence_for(self, current_ms: u128) -> u32 {
        if current_ms > self.last_ms_spec() {
            0
        } else {
            self.sequence_spec()
        }
    }

    /// A generation call at `current_ms` succeeds exactly when the clock
    /// has not rewound and the millisecond window is not exhausted.
    pub open spec fn can_issue(self, current_ms: u128) -> bool {
        &&& current_ms >= self.last_ms_spec()
        &&& self.sequence_for(current_ms) < SEQUENCE_LIMIT
    }

    /// One successful generation step: exactly what a call of
    /// [`WebeIDFactory::next_at`] that returns `Ok` ensures, relating the
    /// factory before (`pre`) and after (`post`) to the clock reading and
    /// the identifier issued. The laws in [`crate::laws`] are stated over
    /// chains of this relation.
    pub open spec fn ok_step(pre: WebeIDFactory, post: WebeIDFactory, current_ms: u128, id: WebeID) -> bool {
        &&& pre.wf()
        &&& post.wf()
        &&& pre.can_issue(current_ms)
        &&& post.epoch_spec() == pre.epoch_spec()
        &&& post.node_field_spec() == pre.node_field_spec()
        &&& post.last_ms_spec() == current_ms
        &&& post.sequence_spec() == pre.sequence_for(current_ms) + 1
        &&& id == id_of(current_ms, pre.node_field_spec(), pre.sequence_for(current_ms) as u16)
    }

    /// Builds the factory for a clock reading of `elapsed_ms` milliseconds
    /// since `epoch`: fails with `BadEpoch` unless the epoch lies at least
    /// the maximum sequence span behind the clock.
    pub fn new_at(epoch: SystemTime, node_id: u8, elapsed_ms: u128) -> (r: Result<WebeIDFactory, WebeIDError>)
        ensures
            r is Err <==> elapsed_ms < MAX_SEQUENCE_SPAN_MS,
            r is Err ==> r->Err_0 is BadEpoch,
            r is Ok ==> r->Ok_0.wf()
                && r->Ok_0.epoch_spec() == epoch
                && r->Ok_0.last_ms_spec() == 0
                && r->Ok_0.node_field_spec() == (node_id as u64) << NODE_SHIFT
                && r->Ok_0.sequence_spec() == 0,
    {
        if elapsed_ms < MAX_SEQUENCE_SPAN_MS {
            return Err(WebeIDError::BadEpoch);
        }
        let node_field: u64 = (node_id as u64) << NODE_SHIFT;
        proof {
            assert(node_field < 0x100_0000 && node_field & 0xFFFF == 0) by (bit_vector)
                requires
                    node_field == (node_id as u64) << NODE_SHIFT,
            ;
        }
        Ok(WebeIDFactory {
            epoch,
            last_duration_ms: 0,
            node_id: node_field,
            sequence: 0,
        })
    }

    /// One generation step for a clock reading of `current_ms` milliseconds
    /// since the epoch. Fails closed with `TimeRewind` when the clock has
    /// moved backwards and with `SequenceOverflow` when the current
    /// millisecond's 16-bit sequence range is spent; either failure leaves
    /// the factory unchanged. On success the returned identifier packs
    /// `current_ms`, the node field and the sequence value used.
    pub fn next_at(&mut self, current_ms: u128) -> (r: Result<WebeID, WebeIDError>)
        requires
            old(self).wf(),
        ensures
            final(self).wf(),
            final(self).epoch_spec() == old(self).epoch_spec(),
            final(self).node_field_spec() == old(self).node_field_spec(),
            r is Ok <==> old(self).can_issue(current_ms),
            r is Err ==> *final(self) == *old(self),
            current_ms < old(self).last_ms_spec() ==> r == Err::<WebeID, WebeIDError>(WebeIDError::TimeRewind),
            current_ms >= old(self).last_ms_spec() && old(self).sequence_for(current_ms) >= SEQUENCE_LIMIT
                ==> r == Err::<WebeID, WebeIDError>(WebeIDError::SequenceOverflow),
            r is Ok ==> r->Ok_0 == id_of(current_ms, old(self).node_field_spec(), old(self).sequence_for(current_ms) as u16)
                && final(self).last_ms_spec() == current_ms
                && final(self).sequence_spec() == old(self).sequence_for(current_ms) + 1,
            r is Ok ==> Self::ok_step(*old(self), *final(self), current_ms, r->Ok_0),
    {
        if current_ms < self.last_duration_ms {
            return Err(WebeIDError::TimeRewind);
        }
        if current_ms > self.last_duration_ms {
            self.sequence = 0;
        }
        if self.sequence >= SEQUENCE_LIMIT {
            return Err(WebeIDError::SequenceOverflow);
        }
        self.last_duration_ms = current_ms;
        let sequence: u16 = self.sequence as u16;
        let id: WebeID = ((current_ms as u64) << TS_SHIFT) | self.node_id | (sequence as u64);
        self.sequence = self.sequence + 1;
        Ok(id)
    }

    /// Builds a factory seeded with a resume checkpoint, for a clock reading
    /// of `elapsed_ms` milliseconds since `epoch`. Validates the epoch as
    /// [`WebeIDFactory::new_at`] does, then fails with `BadLastDuration`
    /// unless the clock reading is strictly past the checkpoint, so that the
    /// clock cannot appear to have gone backwards on first use.
    pub fn new_with_last_time_at(
        epoch: SystemTime,
        last_duration_ms: u64,
        node_id: u8,
        elapsed_ms: u128,
    ) -> (r: Result<WebeIDFactory, WebeIDError>)
        ensures
            r is Ok <==> elapsed_ms >= MAX_SEQUENCE_SPAN_MS && elapsed_ms > last_duration_ms,
            elapsed_ms < MAX_SEQUENCE_SPAN_MS ==> r == Err::<WebeIDFactory, WebeIDError>(WebeIDError::BadEpoch),
            elapsed_ms >= MAX_SEQUENCE_SPAN_MS && elapsed_ms <= last_duration_ms
                ==> r == Err::<WebeIDFactory, WebeIDError>(WebeIDError::BadLastDuration),
            r is Ok ==> r->Ok_0.wf()
                && r->Ok_0.epoch_spec() == epoch
                && r->Ok_0.last_ms_spec() == last_duration_ms
                && r->Ok_0.node_field_spec() == (node_id as u64) << NODE_SHIFT
                && r->Ok_0.sequence_spec() == 0,
    {
        let mut factory = match Self::new_at(epoch, node_id, elapsed_ms) {
            Ok(f) => f,
            Err(e) => {
                return Err(e);
            },
        };
        if elapsed_ms <= last_duration_ms as u128 {
            return Err(WebeIDError::BadLastDuration);
        }
        factory.last_duration_ms = last_duration_ms as u128;
        Ok(factory)
    }

    /// Builds a factory whose timestamps are measured from `epoch`, reading
    /// the system clock once: fails with `BadEpoch` when the elapsed time
    /// since the epoch cannot be computed or leaves no room for the maximum
    /// sequence span, i.e. when the epoch is improperly in the future.
    pub fn new(epoch: SystemTime, node_id: u8) -> (r: Result<WebeIDFactory, WebeIDError>)
        ensures
            r is Err ==> r->Err_0 is BadEpoch,
            r is Ok ==> r->Ok_0.wf()
                && r->Ok_0.epoch_spec() == epoch
                && r->Ok_0.last_ms_spec() == 0
                && r->Ok_0.node_field_spec() == (node_id as u64) << NODE_SHIFT
                && r->Ok_0.sequence_spec() == 0,
    {
        match SystemTime::now().duration_since(epoch) {
            Ok(d) => Self::new_at(epoch, node_id, d.as_millis()),
            Err(_) => Err(WebeIDError::BadEpoch),
        }
    }

    /// Builds a factory as [`WebeIDFactory::new`] does, but seeds
    /// `last_duration_ms` with a checkpoint persisted before a planned
    /// restart, so identifiers issued before the restart cannot be repeated.
    /// Fails with `BadLastDuration` when the checkpoint is not strictly
    /// behind the current elapsed time since the epoch.
    pub fn new_with_last_time(
        epoch: SystemTime,
        last_duration_ms: u64,
        node_id: u8,
    ) -> (r: Result<WebeIDFactory, WebeIDError>)
        ensures
            r is Err ==> (r->Err_0 is BadEpoch || r->Err_0 is BadLastDuration),
            r is Ok ==> r->Ok_0.wf()
                && r->Ok_0.epoch_spec() == epoch
                && r->Ok_0.last_ms_spec() == last_duration_ms
                && r->Ok_0.node_field_spec() == (node_id as u64) << NODE_SHIFT
                && r->Ok_0.sequence_spec() == 0,
    {
        match SystemTime::now().duration_since(epoch) {
            Ok(d) => Self::new_with_last_time_at(epoch, last_duration_ms, node_id, d.as_millis()),
            Err(_) => Err(WebeIDError::BadEpoch),
        }
    }

    /// Generates the next identifier from the system clock: reads the
    /// elapsed time since the epoch and takes one [`WebeIDFactory::next_at`]
    /// step with it. A failed clock read is passed on unchanged as
    /// `SystemTimeError`; every failure leaves the factory unchanged. On
    /// success the factory's recorded time never decreases, and the
    /// identifier packs that time, the node field and the sequence value
    /// one below the updated counter.
    pub fn next(&mut self) -> (r: Result<WebeID, WebeIDError>)
        requires
            old(self).wf(),
        ensures
            final(self).wf(),
            final(self).epoch_spec() == old(self).epoch_spec(),
            final(self).node_field_spec() == old(self).node_field_spec(),
            r is Err ==> *final(self) == *old(self)
                && (r->Err_0 is TimeRewind || r->Err_0 is SequenceOverflow || r->Err_0 is SystemTimeError),
            r is Ok ==> final(self).last_ms_spec() >= old(self).last_ms_spec()
                && final(self).sequence_spec() == old(self).sequence_for(final(self).last_ms_spec()) + 1
                && r->Ok_0 == id_of(
                    final(self).last_ms_spec(),
                    old(self).node_field_spec(),
                    old(self).sequence_for(final(self).last_ms_spec()) as u16,
                ),
            r is Ok ==> Self::ok_step(*old(self), *final(self), final(self).last_ms_spec(), r->Ok_0),
    {
        let current = match SystemTime::now().duration_since(self.epoch) {
            Ok(d) => d.as_millis(),
            Err(e) => {
                return Err(WebeIDError::SystemTimeError(e));
            },
        };
        self.next_at(current)
    }
}

} // verus!
