//! Reading the server's stream: from the records as the client decoded them
//! to the notifications that the informer takes.

use vstd::prelude::*;
use crate::event::RawNotification;
use crate::informer::SessionFailure;
use crate::informer::failure_of;
use crate::resource::Metadata;
use crate::resource::Resource;
use crate::resource::decimal_value;
use crate::resource::is_resource_version;
use crate::resource::parse_resource_version;

verus! {

/// One record of the watch stream, decoded but not yet read.
#[derive(Clone, Debug, PartialEq, Eq)]
pub enum WireRecord<P> {
    /// A change of one instance.
    Change {
        /// The type of the change as the server wrote it.
        tag: String,
        /// The server's token for the resource version.
        token: String,
        name: String,
        namespace: String,
        spec: P,
    },
    /// The status with which the server ended the stream.
    Status { code: u16 },
}

/// Whether a record can be read: it is a change whose token is a resource
/// version.
pub open spec fn readable<P>(record: WireRecord<P>) -> bool {
    match record {
        WireRecord::Change { token, .. } => is_resource_version(token@),
        WireRecord::Status { .. } => false,
    }
}

/// The notification that a readable record is read as. The resource version
/// is the number that the token spells.
pub open spec fn notification_of<P>(record: WireRecord<P>) -> RawNotification<P>
    recommends
        readable(record),
{
    let version = decimal_value(record->token@) as u64;
    RawNotification {
        kind: record->tag,
        resource_version: version,
        object: Resource {
            metadata: Metadata {
                name: record->name,
                namespace: record->namespace,
                resource_version: version,
            },
            spec: record->spec,
        },
    }
}

/// The failure that a record that cannot be read stands for: a status of the
/// server is sorted by its code, and a change without a resource version
/// cannot be recovered from.
pub open spec fn failure_at<P>(record: WireRecord<P>) -> SessionFailure
    recommends
        !readable(record),
{
    match record {
        WireRecord::Status { code } => failure_of(Some(code)),
        WireRecord::Change { .. } => SessionFailure::Fatal,
    }
}

/// Reads one record: a readable one as its notification, any other as the
/// failure that it stands for.
pub fn read_record<P>(record: WireRecord<P>) -> (outcome: Result<
    RawNotification<P>,
    SessionFailure,
>)
    ensures
        readable(record) ==> outcome == Ok::<RawNotification<P>, SessionFailure>(
            notification_of(record),
        ),
        !readable(record) ==> outcome == Err::<RawNotification<P>, SessionFailure>(
            failure_at(record),
        ),
{
    match record {
        WireRecord::Change { tag, token, name, namespace, spec } => {
            match parse_resource_version(token.as_str()) {
                Some(version) => Ok(
                    RawNotification {
                        kind: tag,
                        resource_version: version,
                        object: Resource {
                            metadata: Metadata { name, namespace, resource_version: version },
                            spec,
                        },
                    },
                ),
                None => Err(SessionFailure::Fatal),
            }
        },
        WireRecord::Status { code } => Err(SessionFailure::from_status(Some(code))),
    }
}

/// Reads what one read of the session gave.
///
/// The result is the batch of the notifications in front of the first record
/// that cannot be read, in their order; the whole stream if every record can
/// be read, and so an empty batch for an empty stream. Only when the very
/// first record cannot be read is the result the failure that it stands for:
/// what comes behind notifications is met again by the next read.
pub fn read_stream<P>(records: Vec<WireRecord<P>>) -> (outcome: Result<
    Vec<RawNotification<P>>,
    SessionFailure,
>)
    ensures
        match outcome {
            Ok(batch) => {
                &&& batch@.len() <= records@.len()
                &&& records@.len() > 0 ==> batch@.len() > 0
                &&& forall|i: int|
                    0 <= i < batch@.len() ==> readable(#[trigger] records@[i]) && batch@[i]
                        == notification_of(records@[i])
                &&& batch@.len() < records@.len() ==> !readable(records@[batch@.len() as int])
            },
            Err(failure) => {
                &&& records@.len() > 0
                &&& !readable(records@[0])
                &&& failure == failure_at(records@[0])
            },
        },
{
    let ghost all = records@;
    let mut batch: Vec<RawNotification<P>> = Vec::new();
    for record in iter: records.into_iter()
        invariant
            iter.seq() == all,
            batch@.len() == iter.index(),
            forall|i: int|
                0 <= i < batch@.len() ==> readable(#[trigger] all[i]) && batch@[i]
                    == notification_of(all[i]),
    {
        match read_record(record) {
            Ok(raw) => {
                batch.push(raw);
            },
            Err(failure) => {
                if batch.len() == 0 {
                    return Err(failure);
                } else {
                    return Ok(batch);
                }
            },
        }
    }
    Ok(batch)
}

} // verus!
