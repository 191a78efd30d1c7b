//! The protocol's general guarantees, stated and proved once over the
//! spec functions that every device contract speaks through.

use vstd::prelude::*;
use vstd::assert_seqs_equal;
use crate::i2c_slave::{
    classifies, read_outcome, write_outcome, written, I2cSlave, MasterAction, Request, Status,
};
use crate::sim::request_of;

verus! {

/// An incoming transfer of exactly the buffer's length is `Complete`, and
/// the buffer afterwards holds exactly the master's bytes.
pub proof fn lemma_exact_write_complete(data: Seq<u8>, buf: Seq<u8>)
    requires
        data.len() == buf.len(),
    ensures
        write_outcome(data, buf.len()) == Status::Complete,
        written(data, buf) == data,
{
    assert_seqs_equal!(written(data, buf) == data);
}

/// An incoming transfer of more bytes than the buffer holds is
/// `Incomplete`, and the buffer afterwards holds the transfer's prefix.
pub proof fn lemma_excess_write_incomplete(data: Seq<u8>, buf: Seq<u8>)
    requires
        data.len() > buf.len(),
    ensures
        write_outcome(data, buf.len()) == Status::Incomplete,
        written(data, buf) == data.take(buf.len() as int),
{
}

/// An incoming transfer of fewer bytes than the buffer holds is
/// `PartialRequest` with the exact count transferred; exactly that many
/// bytes of the buffer are populated from the master's data, in order,
/// and the tail is untouched.
pub proof fn lemma_short_write_partial(data: Seq<u8>, buf: Seq<u8>)
    requires
        data.len() < buf.len(),
    ensures
        write_outcome(data, buf.len()) == Status::PartialRequest(data.len() as usize),
        written(data, buf) == data + buf.skip(data.len() as int),
        written(data, buf).take(data.len() as int) == data,
{
    assert_seqs_equal!(written(data, buf).take(data.len() as int) == data);
}

/// The count in a `PartialRequest` outcome is always strictly less than
/// the buffer length passed to the call.
pub proof fn lemma_partial_request_strictly_less(data: Seq<u8>, cap: nat)
    ensures
        write_outcome(data, cap) matches Status::PartialRequest(n) ==> n < cap,
{
}

/// A transfer never answers with the wrong kind of outcome: exactly one
/// status describes any completed incoming transfer, and which one is
/// decided by the transfer length against the buffer length alone.
pub proof fn lemma_write_outcome_exclusive(data: Seq<u8>, cap: nat)
    ensures
        (write_outcome(data, cap) is Complete) <==> data.len() == cap,
        (write_outcome(data, cap) is Incomplete) <==> data.len() > cap,
        (write_outcome(data, cap) is PartialRequest) <==> data.len() < cap,
{
}

/// A master read past the supplied data is `Incomplete`; otherwise —
/// including a read the master terminates early — it is `Complete`, and
/// never `PartialRequest`.
pub proof fn lemma_read_outcome(count: usize, cap: nat)
    ensures
        (read_outcome(count, cap) is Incomplete) <==> count > cap,
        (read_outcome(count, cap) is Complete) <==> count <= cap,
        !(read_outcome(count, cap) is PartialRequest),
{
}

/// Classification preserves the master's direction: a general-call
/// broadcast is classified `GeneralCall` and nothing else is; the same
/// holds of each other direction.
pub proof fn lemma_classification_faithful(a: MasterAction, req: Request)
    requires
        classifies(a, req),
    ensures
        a is GeneralCall <==> req is GeneralCall,
        a is Write <==> req is Write,
        a is WriteRead <==> req is WriteRead,
        a is Read <==> req is Read,
{
}

/// The simulated device's classification is correct: the request it hands
/// out classifies the master action that becomes pending.
pub proof fn lemma_request_of_classifies(a: MasterAction)
    ensures
        classifies(a, request_of(a)),
{
}

/// The delegating adapter is pass-through: a borrowed handle's ghost
/// protocol state is the referenced device's own, so every clause of the
/// device contract reads identically through the handle and the results
/// it admits are exactly those the underlying device admits.
pub proof fn lemma_adapter_passthrough<T: I2cSlave>(handle: &&mut T)
    ensures
        <&mut T as I2cSlave>::protocol_state(handle) == (*old(*handle)).protocol_state(),
{
}

} // verus!
