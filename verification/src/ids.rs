//! Names of queues and of the records in them: what the library assumes of
//! `normfs_types::QueueId` and of `uintn::UintN`.
use bytes::{Bytes, BytesMut};
use normfs_types::{QueueId, QueueIdResolver};
use uintn::UintN;
use vstd::prelude::*;

use crate::octets::octets;

verus! {

/// `uintn::UintN`, the number a queue gives to a record. Carried through, never computed with.
#[verifier::external_type_specification]
#[verifier::external_body]
pub struct ExUintN(uintn::UintN);

/// `normfs_types::QueueId`, the resolved name of a queue.
#[verifier::external_type_specification]
#[verifier::external_body]
pub struct ExQueueId(normfs_types::QueueId);

/// The bytes by which a record's number is written down: what
/// `UintN::write_value_to_buffer` appends for it. They are the number's little-endian bytes: as
/// many as the width it is kept in, or, beyond the widest, as many as it takes.
pub uninterp spec fn number_octets(id: UintN) -> Seq<u8>;

/// The absolute path that `QueueId::as_str` gives for a queue.
pub uninterp spec fn queue_path(id: QueueId) -> Seq<char>;

/// The absolute path of a queue that an instance names like this: a name that starts at the
/// root stands as it is, any other is one of the instance's own.
pub open spec fn resolved_path(instance_id: Seq<char>, name: Seq<char>) -> Seq<char> {
    if name.len() > 0 && name[0] == '/' {
        name
    } else {
        seq!['/'] + instance_id + seq!['/'] + name
    }
}

/// `QueueIdResolver::resolve`, of the resolver that `QueueIdResolver::new` makes for the
/// instance: the queue under its absolute path.
#[verifier::external_body]
pub(crate) fn resolve(instance_id: &str, name: &str) -> (id: QueueId)
    ensures
        queue_path(id) == resolved_path(instance_id@, name@),
{
    QueueIdResolver::new(instance_id).resolve(name)
}

/// `UintN::write_value_to_buffer` into an empty buffer, frozen: the bytes of the number and
/// nothing else. The width that a number is kept in is not stated.
#[verifier::external_body]
pub(crate) fn written_number(id: &UintN) -> (b: Bytes)
    ensures
        octets(b) == number_octets(*id),
{
    let mut buf = BytesMut::with_capacity(8);
    id.write_value_to_buffer(&mut buf);
    buf.freeze()
}

/// `QueueId::as_str` gives the path of the queue.
pub assume_specification[ QueueId::as_str ](id: &QueueId) -> (s: &str)
    ensures
        s@ == queue_path(*id),
;

} // verus!
