//! The caller-visible handle: its consumer configuration and its fail-fast
//! state.  Every operation checks the state first; once a catastrophic failure
//! disables the handle, every later operation fails with `LockUnavailable`.

use vstd::prelude::*;
use crate::codec::{decode_failure_of, decode_record, payload_of_record, record_is_text, Payload, StreamRecord};
use crate::connect::ConsumerConfig;
use crate::error::StreamError;

verus! {

/// One connection/consumer pair as seen by the operations on it.
pub struct RedisStreamWrapper {
    config: ConsumerConfig,
    disabled: bool,
}

/// What a read on handle `h` delivers when the backing-store call gave
/// `outcome`: the record read, or the description of the call's failure.
pub open spec fn read_delivers(
    h: RedisStreamWrapper,
    outcome: Result<Option<StreamRecord>, String>,
    r: Result<Payload, StreamError>,
) -> bool {
    &&& h.is_disabled_spec() ==> r == Err::<Payload, StreamError>(StreamError::LockUnavailable)
    &&& !h.is_disabled_spec() && outcome is Err ==> r == Err::<Payload, StreamError>(
        StreamError::Operation(outcome->Err_0),
    )
    &&& !h.is_disabled_spec() && outcome == Ok::<Option<StreamRecord>, String>(None)
        ==> r is Ok && r->Ok_0.is_empty_spec()
    &&& !h.is_disabled_spec() && outcome is Ok && outcome->Ok_0 is Some ==> {
        let rec = outcome->Ok_0->Some_0;
        &&& r is Ok <==> record_is_text(rec.fields@)
        &&& r is Ok ==> payload_of_record(r->Ok_0, rec)
        &&& r is Err ==> decode_failure_of(rec.fields@, r->Err_0)
    }
}

/// Whether an acknowledgement of `id` on handle `h` goes to the backing store,
/// and with which identifier.
pub open spec fn ack_admits(h: RedisStreamWrapper, id: String, r: Result<String, StreamError>) -> bool {
    &&& h.is_disabled_spec() ==> r == Err::<String, StreamError>(StreamError::LockUnavailable)
    &&& !h.is_disabled_spec() ==> r == Ok::<String, StreamError>(id)
}

/// What an acknowledgement on handle `h` delivers when the backing-store call
/// gave `outcome`: success, or the description of the call's failure.
pub open spec fn ack_delivers(
    h: RedisStreamWrapper,
    outcome: Result<(), String>,
    r: Result<(), StreamError>,
) -> bool {
    &&& h.is_disabled_spec() ==> r == Err::<(), StreamError>(StreamError::LockUnavailable)
    &&& !h.is_disabled_spec() ==> (r is Ok <==> outcome is Ok)
    &&& !h.is_disabled_spec() && outcome is Err ==> r == Err::<(), StreamError>(
        StreamError::Operation(outcome->Err_0),
    )
}

impl RedisStreamWrapper {
    /// Whether a catastrophic failure has disabled this handle.
    pub closed spec fn is_disabled_spec(&self) -> bool {
        self.disabled
    }

    /// The configuration this handle owns.
    pub closed spec fn config_spec(&self) -> ConsumerConfig {
        self.config
    }

    /// The usable handle that a successful `connect` yields for `config`.
    pub closed spec fn fresh(config: ConsumerConfig) -> RedisStreamWrapper {
        RedisStreamWrapper { config, disabled: false }
    }

    /// A usable handle that owns `config`.
    pub fn new(config: ConsumerConfig) -> (h: RedisStreamWrapper)
        ensures
            h == RedisStreamWrapper::fresh(config),
            h.config_spec() == config,
            !h.is_disabled_spec(),
    {
        RedisStreamWrapper { config, disabled: false }
    }

    pub fn config(&self) -> (r: &ConsumerConfig)
        ensures
            *r == self.config_spec(),
    {
        &self.config
    }

    pub fn is_disabled(&self) -> (r: bool)
        ensures
            r == self.is_disabled_spec(),
    {
        self.disabled
    }

    /// Records a catastrophic failure (one that happened while the handle's
    /// lock was held): the handle is unusable from now on.
    pub fn disable(&mut self)
        ensures
            final(self).is_disabled_spec(),
            final(self).config_spec() == old(self).config_spec(),
    {
        self.disabled = true;
    }

    /// Checked before a read is dispatched to the backing store: fails fast
    /// on a disabled handle.
    pub fn admit_read(&self) -> (r: Result<(), StreamError>)
        ensures
            r is Ok <==> !self.is_disabled_spec(),
            r is Err ==> r->Err_0 is LockUnavailable,
    {
        if self.disabled {
            Err(StreamError::LockUnavailable)
        } else {
            Ok(())
        }
    }

    /// Checked before an acknowledgement is dispatched: on a usable handle the
    /// identifier goes to the backing store exactly as the caller gave it,
    /// with no validation of its own.
    pub fn admit_ack(&self, id: String) -> (r: Result<String, StreamError>)
        ensures
            ack_admits(*self, id, r),
    {
        if self.disabled {
            Err(StreamError::LockUnavailable)
        } else {
            Ok(id)
        }
    }

    /// The result of a read, given what the backing-store call returned (its
    /// failure as the cause's description).
    pub fn read_result(&self, outcome: Result<Option<StreamRecord>, String>) -> (r: Result<
        Payload,
        StreamError,
    >)
        ensures
            read_delivers(*self, outcome, r),
    {
        if self.disabled {
            return Err(StreamError::LockUnavailable);
        }
        match outcome {
            Ok(record) => decode_record(record),
            Err(description) => Err(StreamError::Operation(description)),
        }
    }

    /// The result of an acknowledgement, given what the backing-store call
    /// returned (its failure as the cause's description).
    pub fn ack_result(&self, outcome: Result<(), String>) -> (r: Result<(), StreamError>)
        ensures
            ack_delivers(*self, outcome, r),
    {
        if self.disabled {
            return Err(StreamError::LockUnavailable);
        }
        match outcome {
            Ok(()) => Ok(()),
            Err(description) => Err(StreamError::Operation(description)),
        }
    }
}

/// A freshly connected handle whose stream has no pending entries delivers the
/// empty payload, not an error.
pub proof fn lemma_fresh_handle_reads_empty(config: ConsumerConfig, r: Result<Payload, StreamError>)
    requires
        read_delivers(RedisStreamWrapper::fresh(config), Ok(None), r),
    ensures
        r is Ok,
        r->Ok_0.is_empty_spec(),
{
}

/// The identifier of a message that a read delivered is exactly what an
/// acknowledgement of it hands to the backing store, and the acknowledgement
/// succeeds when the backing store accepts it.
pub proof fn lemma_read_identifier_acks(
    h: RedisStreamWrapper,
    rec: StreamRecord,
    r: Result<Payload, StreamError>,
    a: Result<String, StreamError>,
    r2: Result<(), StreamError>,
)
    requires
        read_delivers(h, Ok(Some(rec)), r),
        r is Ok,
        r->Ok_0.id is Some,
        ack_admits(h, r->Ok_0.id->Some_0, a),
        ack_delivers(h, Ok(()), r2),
    ensures
        a == Ok::<String, StreamError>(rec.id),
        r2 is Ok,
{
}

/// On a usable handle an acknowledgement forwards any identifier unchanged,
/// and a rejection by the backing store comes back as an `Operation` failure
/// carrying the rejection's description.
pub proof fn lemma_ack_passes_identifier_through(
    h: RedisStreamWrapper,
    id: String,
    a: Result<String, StreamError>,
    e: String,
    r: Result<(), StreamError>,
)
    requires
        !h.is_disabled_spec(),
        ack_admits(h, id, a),
        ack_delivers(h, Err(e), r),
    ensures
        a == Ok::<String, StreamError>(id),
        r == Err::<(), StreamError>(StreamError::Operation(e)),
{
}

/// Once disabled, a handle stays disabled and every operation on it fails
/// with `LockUnavailable`, whatever the backing store would have returned.
pub proof fn lemma_disabled_handle_fails_fast(h: RedisStreamWrapper)
    requires
        h.is_disabled_spec(),
    ensures
        forall|outcome: Result<Option<StreamRecord>, String>, r: Result<Payload, StreamError>|
            #[trigger] read_delivers(h, outcome, r) ==> r == Err::<Payload, StreamError>(
                StreamError::LockUnavailable,
            ),
        forall|id: String, a: Result<String, StreamError>|
            #[trigger] ack_admits(h, id, a) ==> a == Err::<String, StreamError>(
                StreamError::LockUnavailable,
            ),
        forall|outcome: Result<(), String>, r: Result<(), StreamError>|
            #[trigger] ack_delivers(h, outcome, r) ==> r == Err::<(), StreamError>(
                StreamError::LockUnavailable,
            ),
{
}

} // verus!
