//! Turning a stream record into the payload that the caller consumes.
//!
//! The message identifier is exposed beside the fields, never mixed into
//! them, so no field name can shadow it.

use vstd::prelude::*;
use vstd::string::StringExecFns;
use crate::error::StreamError;
use crate::redis_api::{error_description, redis_value_text, value_text};

verus! {

/// One record as read from the stream: its identifier and its field/value
/// pairs in the order they were delivered.
pub struct StreamRecord {
    pub id: String,
    pub fields: Vec<(String, redis::Value)>,
}

/// What a read hands to the caller: no identifier and no fields when no
/// message was available, else the record's identifier and its fields as text.
pub struct Payload {
    pub id: Option<String>,
    pub fields: Vec<(String, String)>,
}

impl Payload {
    pub open spec fn is_empty_spec(&self) -> bool {
        self.id is None && self.fields@.len() == 0
    }

    /// The payload of a read that found no message.
    pub fn empty() -> (r: Payload)
        ensures
            r.is_empty_spec(),
    {
        Payload { id: None, fields: Vec::new() }
    }

    /// Whether this payload reports that no message was available.
    pub fn is_empty(&self) -> (r: bool)
        ensures
            r == self.is_empty_spec(),
    {
        self.id.is_none() && self.fields.len() == 0
    }
}

/// The message of a field whose value is not text.
pub open spec fn decode_failure_text(name: Seq<char>, cause: Seq<char>) -> Seq<char> {
    "Field "@ + name + " could not be read as a string: "@ + cause
}

/// Every field value was read as text.
pub open spec fn all_text(outcomes: Seq<(String, Result<String, String>)>) -> bool {
    forall|i: int| 0 <= i < outcomes.len() ==> (#[trigger] outcomes[i]).1 is Ok
}

/// `j` is the first field whose value could not be read as text.
pub open spec fn first_failure(outcomes: Seq<(String, Result<String, String>)>, j: int) -> bool {
    &&& 0 <= j < outcomes.len()
    &&& outcomes[j].1 is Err
    &&& forall|i: int| 0 <= i < j ==> (#[trigger] outcomes[i]).1 is Ok
}

/// Builds the payload of record `id` from each field's name and the outcome of
/// reading its value as text (the error's description on failure).  The first
/// field that failed, if any, makes the whole read fail with `Decode`.
pub fn assemble_payload(id: String, outcomes: &Vec<(String, Result<String, String>)>) -> (r: Result<
    Payload,
    StreamError,
>)
    ensures
        r is Ok <==> all_text(outcomes@),
        r is Ok ==> {
            let p = r->Ok_0;
            &&& p.id == Some(id)
            &&& p.fields@.len() == outcomes@.len()
            &&& forall|i: int|
                0 <= i < outcomes@.len() ==> {
                    &&& (#[trigger] p.fields@[i]).0@ == outcomes@[i].0@
                    &&& outcomes@[i].1 == Ok::<String, String>(p.fields@[i].1)
                }
        },
        r is Err ==> exists|j: int|
            first_failure(outcomes@, j) && (r->Err_0 is Decode) && r->Err_0.message_view()
                == decode_failure_text(outcomes@[j].0@, outcomes@[j].1->Err_0@),
{
    let mut fields: Vec<(String, String)> = Vec::new();
    let mut i: usize = 0;
    while i < outcomes.len()
        invariant
            i <= outcomes@.len(),
            fields@.len() == i,
            forall|k: int| 0 <= k < i ==> (#[trigger] outcomes@[k]).1 is Ok,
            forall|k: int|
                0 <= k < i ==> {
                    &&& (#[trigger] fields@[k]).0@ == outcomes@[k].0@
                    &&& outcomes@[k].1 == Ok::<String, String>(fields@[k].1)
                },
        decreases outcomes@.len() - i,
    {
        let name = &outcomes[i].0;
        match &outcomes[i].1 {
            Ok(text) => {
                fields.push((name.clone(), text.clone()));
            },
            Err(cause) => {
                let message = String::from_str("Field ").concat(name.as_str()).concat(
                    " could not be read as a string: ",
                ).concat(cause.as_str());
                let r = Err(StreamError::Decode(message));
                assert(first_failure(outcomes@, i as int));
                return r;
            },
        }
        i = i + 1;
    }
    Ok(Payload { id: Some(id), fields })
}

/// The outcome of reading a field value as text matches what redis reads
/// from that value.
pub open spec fn outcome_matches(outcome: Result<String, String>, v: redis::Value) -> bool {
    &&& (outcome is Ok <==> redis_value_text(v) is Some)
    &&& outcome is Ok ==> redis_value_text(v) == Some(outcome->Ok_0@)
}

/// Every field value of the record reads as text.
pub open spec fn record_is_text(fields: Seq<(String, redis::Value)>) -> bool {
    forall|i: int| 0 <= i < fields.len() ==> redis_value_text((#[trigger] fields[i]).1) is Some
}

/// `j` is the first field whose value redis cannot read as text.
pub open spec fn first_non_text(fields: Seq<(String, redis::Value)>, j: int) -> bool {
    &&& 0 <= j < fields.len()
    &&& redis_value_text(fields[j].1) is None
    &&& forall|i: int| 0 <= i < j ==> redis_value_text((#[trigger] fields[i]).1) is Some
}

/// `e` is the `Decode` failure that names the first field whose value is not
/// text, followed by a description of the cause.
pub open spec fn decode_failure_of(fields: Seq<(String, redis::Value)>, e: StreamError) -> bool {
    &&& e is Decode
    &&& exists|j: int|
        #[trigger] first_non_text(fields, j) && exists|cause: Seq<char>|
            e.message_view() == #[trigger] decode_failure_text(fields[j].0@, cause)
}

/// `p` carries the identifier of `rec` and each of its fields, in order, with
/// the text that redis reads from the field's value.
pub open spec fn payload_of_record(p: Payload, rec: StreamRecord) -> bool {
    &&& p.id == Some(rec.id)
    &&& p.fields@.len() == rec.fields@.len()
    &&& forall|i: int|
        0 <= i < rec.fields@.len() ==> {
            &&& (#[trigger] p.fields@[i]).0@ == rec.fields@[i].0@
            &&& redis_value_text(rec.fields@[i].1) == Some(p.fields@[i].1@)
        }
}

/// Reads every field value of a record as text, keeping the field names and
/// their order.
pub fn field_outcomes(fields: &Vec<(String, redis::Value)>) -> (r: Vec<(String, Result<String, String>)>)
    ensures
        r@.len() == fields@.len(),
        forall|i: int|
            0 <= i < fields@.len() ==> {
                &&& (#[trigger] r@[i]).0@ == fields@[i].0@
                &&& outcome_matches(r@[i].1, fields@[i].1)
            },
{
    let mut out: Vec<(String, Result<String, String>)> = Vec::new();
    let mut i: usize = 0;
    while i < fields.len()
        invariant
            i <= fields@.len(),
            out@.len() == i,
            forall|k: int|
                0 <= k < i ==> {
                    &&& (#[trigger] out@[k]).0@ == fields@[k].0@
                    &&& outcome_matches(out@[k].1, fields@[k].1)
                },
        decreases fields@.len() - i,
    {
        let outcome = match value_text(&fields[i].1) {
            Ok(text) => Ok(text),
            Err(e) => Err(error_description(&e)),
        };
        out.push((fields[i].0.clone(), outcome));
        i = i + 1;
    }
    out
}

/// Decodes the result of one read: no record gives the empty payload; a
/// record gives its identifier and its fields as text, in order, or fails
/// with `Decode` exactly when some value is not text.
pub fn decode_record(record: Option<StreamRecord>) -> (r: Result<Payload, StreamError>)
    ensures
        record is None ==> r is Ok && r->Ok_0.is_empty_spec(),
        record is Some ==> {
            let rec = record->Some_0;
            &&& r is Ok <==> record_is_text(rec.fields@)
            &&& r is Ok ==> payload_of_record(r->Ok_0, rec)
            &&& r is Err ==> decode_failure_of(rec.fields@, r->Err_0)
        },
{
    match record {
        None => Ok(Payload::empty()),
        Some(rec) => {
            let outcomes = field_outcomes(&rec.fields);
            let ghost fields = rec.fields@;
            let r = assemble_payload(rec.id, &outcomes);
            assert(all_text(outcomes@) <==> record_is_text(fields)) by {
                if all_text(outcomes@) {
                    assert forall|i: int| 0 <= i < fields.len() implies redis_value_text(
                        (#[trigger] fields[i]).1,
                    ) is Some by {
                        assert(outcomes@[i].1 is Ok);
                    }
                }
                if record_is_text(fields) {
                    assert forall|i: int| 0 <= i < outcomes@.len() implies (
                    #[trigger] outcomes@[i]).1 is Ok by {
                        assert(redis_value_text(fields[i].1) is Some);
                    }
                }
            }
            proof {
                if r is Err {
                    let j = choose|j: int|
                        first_failure(outcomes@, j) && (r->Err_0 is Decode) && r->Err_0.message_view()
                            == decode_failure_text(outcomes@[j].0@, outcomes@[j].1->Err_0@);
                    assert forall|i: int| 0 <= i < j implies redis_value_text(
                        (#[trigger] fields[i]).1,
                    ) is Some by {
                        assert(outcomes@[i].1 is Ok);
                    }
                    assert(first_non_text(fields, j));
                    let cause = outcomes@[j].1->Err_0@;
                    assert(r->Err_0.message_view() == decode_failure_text(fields[j].0@, cause));
                }
            }
            r
        },
    }
}

} // verus!
