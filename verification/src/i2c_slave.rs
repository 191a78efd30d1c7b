//! The I2C slave protocol contract: request and status vocabulary, the
//! ghost model of a pending transaction, and the [`I2cSlave`] trait.

use vstd::prelude::*;

verus! {

/// Received request: what the bus master is asking of the slave at the
/// moment [`I2cSlave::listen`] returns.
#[derive(Debug, Copy, Clone, Eq, PartialEq, Structural)]
pub enum Request {
    /// I2C master read. No length is known yet: the length is determined by
    /// however many bytes the master ultimately reads.
    Read,
    /// I2C master write-then-read. The count is the extent of the incoming
    /// transfer as known at classification time; it is driver-specific and
    /// treated opaquely by this layer.
    WriteRead(usize),
    /// I2C master write of the given number of bytes, as known at
    /// classification time.
    Write(usize),
    /// Broadcast write to the reserved general-call address, with the byte
    /// count as known at classification time.
    GeneralCall(usize),
}

/// Outcome of a response operation.
#[derive(Debug, Copy, Clone, Eq, PartialEq, Structural)]
pub enum Status {
    /// The provided buffer and the master's transfer matched exactly.
    Complete,
    /// The master attempted to transfer more bytes than the buffer had
    /// capacity for; the excess was truncated on the slave side.
    Incomplete,
    /// The master transferred fewer bytes than the buffer capacity; the
    /// count is the number of bytes actually transferred, always strictly
    /// less than the buffer length passed to the call.
    PartialRequest(usize),
}

/// Ghost model of the transfer the master performs in the pending
/// transaction: the direction and, for incoming transfers, the exact bytes
/// the master sends.
pub enum MasterAction {
    /// The master reads, attempting to take this many bytes.
    Read(usize),
    /// The master writes exactly these bytes.
    Write(Seq<u8>),
    /// The master writes exactly these bytes, then reads in one combined
    /// transaction.
    WriteRead(Seq<u8>),
    /// The master broadcasts exactly these bytes to the general-call
    /// address.
    GeneralCall(Seq<u8>),
}

/// Ghost protocol state of a slave device: either no outstanding request,
/// or one classified request awaiting its single matching response call.
pub enum ProtocolState {
    /// No outstanding request; only `listen` may be called.
    Idle,
    /// `listen` has returned; exactly one matching response call is owed.
    Pending(MasterAction),
}

/// Whether a request correctly classifies a master action: the variant must
/// match the action's direction. The count carried by the request is
/// driver-specific and not constrained at this layer.
pub open spec fn classifies(action: MasterAction, req: Request) -> bool {
    match (action, req) {
        (MasterAction::Read(_), Request::Read) => true,
        (MasterAction::Write(_), Request::Write(_)) => true,
        (MasterAction::WriteRead(_), Request::WriteRead(_)) => true,
        (MasterAction::GeneralCall(_), Request::GeneralCall(_)) => true,
        _ => false,
    }
}

/// True when the pending request admits `respond_to_write`: the master is
/// writing, either alone or as the write phase of a write-then-read.
pub open spec fn write_pending(s: ProtocolState) -> bool {
    match s {
        ProtocolState::Pending(MasterAction::Write(_)) => true,
        ProtocolState::Pending(MasterAction::WriteRead(_)) => true,
        _ => false,
    }
}

/// True when the pending request admits `respond_to_general_call`.
pub open spec fn general_call_pending(s: ProtocolState) -> bool {
    s matches ProtocolState::Pending(MasterAction::GeneralCall(_))
}

/// True when the pending request admits `respond_to_read`.
pub open spec fn read_pending(s: ProtocolState) -> bool {
    s matches ProtocolState::Pending(MasterAction::Read(_))
}

/// The bytes the master sends in the pending incoming transfer.
pub open spec fn pending_write_data(s: ProtocolState) -> Seq<u8> {
    match s {
        ProtocolState::Pending(MasterAction::Write(d)) => d,
        ProtocolState::Pending(MasterAction::WriteRead(d)) => d,
        ProtocolState::Pending(MasterAction::GeneralCall(d)) => d,
        _ => Seq::empty(),
    }
}

/// The number of bytes the master attempts to take in the pending read.
pub open spec fn pending_read_count(s: ProtocolState) -> usize {
    match s {
        ProtocolState::Pending(MasterAction::Read(n)) => n,
        _ => 0,
    }
}

/// Status of an incoming transfer of `data` into a buffer of length `cap`:
/// `Complete` on an exact match, `Incomplete` when the master sent more
/// than fits, `PartialRequest` with the exact count when it sent fewer.
pub open spec fn write_outcome(data: Seq<u8>, cap: nat) -> Status {
    if data.len() == cap {
        Status::Complete
    } else if data.len() > cap {
        Status::Incomplete
    } else {
        Status::PartialRequest(data.len() as usize)
    }
}

/// Contents of a buffer that held `buf` after an incoming transfer of
/// `data`: the transferred prefix in order, any excess truncated, and the
/// untouched tail kept when the master sent fewer bytes than fit.
pub open spec fn written(data: Seq<u8>, buf: Seq<u8>) -> Seq<u8> {
    if data.len() >= buf.len() {
        data.take(buf.len() as int)
    } else {
        data + buf.skip(data.len() as int)
    }
}

/// Status of a master read of `count` bytes from a buffer of length `cap`:
/// `Incomplete` when the master attempted to read past the supplied data,
/// otherwise `Complete`. An early-terminated read — the master stopping
/// before the whole buffer is sent — counts as `Complete`, since none of
/// the offered data was truncated; it is never `PartialRequest`.
pub open spec fn read_outcome(count: usize, cap: nat) -> Status {
    if count > cap {
        Status::Incomplete
    } else {
        Status::Complete
    }
}

/// An I2C slave device.
///
/// The protocol is a state machine over [`ProtocolState`]: from `Idle`,
/// `listen` suspends until the bus addresses this slave and classifies the
/// master's intent; exactly one matching `respond_to_*` call must follow,
/// after which the device is `Idle` again. Any error ends the current
/// transaction and leaves the device `Idle`; the only recovery is to call
/// `listen` again. Calling a response operation while `Idle`, or with a
/// mismatched request kind, or calling `listen` while a request is
/// pending, is a caller contract violation and is excluded by `requires`.
pub trait I2cSlave {
    /// The device's bus-fault vocabulary.
    type Error;

    /// Ghost protocol state: whether a classified request is outstanding,
    /// and what transfer the master performs in it.
    spec fn protocol_state(&self) -> ProtocolState;

    /// Wait for a request from an I2C master.
    ///
    /// On success the returned request classifies the master's pending
    /// action. On a bus-level fault during the wait the pending
    /// transaction is abandoned and the device is `Idle` again.
    fn listen(&mut self) -> (r: Result<Request, Self::Error>)
        requires
            old(self).protocol_state() is Idle,
        ensures
            match r {
                Ok(req) => {
                    &&& (*final(self)).protocol_state() is Pending
                    &&& classifies((*final(self)).protocol_state()->Pending_0, req)
                },
                Err(_) => (*final(self)).protocol_state() is Idle,
            },
    ;

    /// Respond to an I2C master read request by supplying data from
    /// `buffer`. Valid only immediately after `listen` returned
    /// [`Request::Read`].
    fn respond_to_read(&mut self, buffer: &[u8]) -> (r: Result<Status, Self::Error>)
        requires
            read_pending(old(self).protocol_state()),
        ensures
            (*final(self)).protocol_state() is Idle,
            (r matches Ok(st) ==> st == read_outcome(
                pending_read_count(old(self).protocol_state()),
                buffer@.len(),
            )),
    ;

    /// Respond to an I2C master write request by filling `buffer` with the
    /// bytes received from the master. Valid only immediately after
    /// `listen` returned [`Request::Write`] or [`Request::WriteRead`].
    fn respond_to_write(&mut self, buffer: &mut [u8]) -> (r: Result<Status, Self::Error>)
        requires
            write_pending(old(self).protocol_state()),
        ensures
            (*final(self)).protocol_state() is Idle,
            final(buffer)@.len() == old(buffer)@.len(),
            (r matches Ok(st) ==> {
                let data = pending_write_data(old(self).protocol_state());
                &&& st == write_outcome(data, old(buffer)@.len())
                &&& final(buffer)@ == written(data, old(buffer)@)
            }),
    ;

    /// Respond to an I2C master general-call request: identical semantics
    /// to [`I2cSlave::respond_to_write`], but valid only immediately after
    /// `listen` returned [`Request::GeneralCall`].
    fn respond_to_general_call(&mut self, buffer: &mut [u8]) -> (r: Result<Status, Self::Error>)
        requires
            general_call_pending(old(self).protocol_state()),
        ensures
            (*final(self)).protocol_state() is Idle,
            final(buffer)@.len() == old(buffer)@.len(),
            (r matches Ok(st) ==> {
                let data = pending_write_data(old(self).protocol_state());
                &&& st == write_outcome(data, old(buffer)@.len())
                &&& final(buffer)@ == written(data, old(buffer)@)
            }),
    ;
}

/// The delegating adapter: a borrowed, exclusive handle to any conforming
/// device itself conforms to the same contract. Every operation forwards
/// verbatim to the referenced device and returns its result unchanged; the
/// error type, the ghost protocol state and with them every clause of the
/// contract are those of the referenced device, so the handle is
/// indistinguishable from the device itself.
impl<T: I2cSlave> I2cSlave for &mut T {
    type Error = T::Error;

    open spec fn protocol_state(&self) -> ProtocolState {
        (**self).protocol_state()
    }

    fn listen(&mut self) -> (r: Result<Request, Self::Error>) {
        (**self).listen()
    }

    fn respond_to_read(&mut self, buffer: &[u8]) -> (r: Result<Status, Self::Error>) {
        (**self).respond_to_read(buffer)
    }

    fn respond_to_write(&mut self, buffer: &mut [u8]) -> (r: Result<Status, Self::Error>) {
        (**self).respond_to_write(buffer)
    }

    fn respond_to_general_call(&mut self, buffer: &mut [u8]) -> (r: Result<Status, Self::Error>) {
        (**self).respond_to_general_call(buffer)
    }
}

} // verus!
