//! A scripted bus backend for the slave contract.
//!
//! [`SimI2cSlave`] plays back a script of bus activity — master transfers
//! and bus faults — written down as [`BusEvent`] values. It implements
//! [`I2cSlave`] and is the backend the protocol contract is exercised
//! against: every outcome it produces is pinned exactly by its contracts.
//!
//! Beyond the trait, the `try_*` methods carry no protocol precondition:
//! an operation issued while the device state does not admit it is
//! rejected with [`SimError::OutOfOrder`] and changes nothing, so a caller
//! that breaks the call order can never be answered as if it had been a
//! different kind of request.

use vstd::prelude::*;
use vstd::assert_seqs_equal;
use crate::i2c_slave::{
    general_call_pending, pending_read_count, pending_write_data, read_outcome, read_pending,
    write_outcome, write_pending, written, I2cSlave, MasterAction, ProtocolState, Request, Status,
};
use embedded_hal::i2c::ErrorKind;

verus! {

/// Declaration of `embedded_hal::i2c::ErrorKind`, the shared synchronous
/// bus-fault vocabulary; its values are carried through unread.
#[verifier::external_type_specification]
#[verifier::external_body]
pub struct ExErrorKind(ErrorKind);

/// One step of scripted bus activity, consumed in order by `listen`.
#[derive(Debug)]
pub enum BusEvent {
    /// The master addresses the slave for a read and attempts to take
    /// this many bytes.
    MasterRead(usize),
    /// The master addresses the slave and writes exactly these bytes.
    MasterWrite(Vec<u8>),
    /// The master writes exactly these bytes, then reads, in one combined
    /// transaction; the read phase appears as a later event of its own.
    MasterWriteRead(Vec<u8>),
    /// The master broadcasts exactly these bytes to the general-call
    /// address.
    MasterGeneralCall(Vec<u8>),
    /// A bus-level fault of the given kind strikes while waiting.
    Fault(ErrorKind),
}

/// Ghost view of one scripted step: a master action or a fault.
pub enum BusEventV {
    /// A transfer the master performs.
    Action(MasterAction),
    /// A bus-level fault of the given kind.
    Fault(ErrorKind),
}

impl View for BusEvent {
    type V = BusEventV;

    open spec fn view(&self) -> BusEventV {
        match self {
            BusEvent::MasterRead(n) => BusEventV::Action(MasterAction::Read(*n)),
            BusEvent::MasterWrite(d) => BusEventV::Action(MasterAction::Write(d@)),
            BusEvent::MasterWriteRead(d) => BusEventV::Action(MasterAction::WriteRead(d@)),
            BusEvent::MasterGeneralCall(d) => BusEventV::Action(MasterAction::GeneralCall(d@)),
            BusEvent::Fault(k) => BusEventV::Fault(*k),
        }
    }
}

/// Failure vocabulary of the simulated device.
#[derive(Debug, PartialEq, Eq)]
pub enum SimError {
    /// A scripted bus-level fault, carrying the shared fault kind; the
    /// current transaction is void and the device is idle again.
    Bus(ErrorKind),
    /// The script holds no further bus activity to wait for.
    Exhausted,
    /// A caller contract violation: the operation was issued while the
    /// device state did not admit it. Nothing changed.
    OutOfOrder,
}

/// The request a driver is handed when `listen` classifies an action: the
/// variant matching the master's direction, carrying the byte count of
/// the incoming transfer as the simulator knows it in full.
pub open spec fn request_of(a: MasterAction) -> Request {
    match a {
        MasterAction::Read(_) => Request::Read,
        MasterAction::Write(d) => Request::Write(d.len() as usize),
        MasterAction::WriteRead(d) => Request::WriteRead(d.len() as usize),
        MasterAction::GeneralCall(d) => Request::GeneralCall(d.len() as usize),
    }
}

/// The ghost view of a whole script, step by step.
pub open spec fn script_view(events: Seq<BusEvent>) -> Seq<BusEventV> {
    events.map_values(|e: BusEvent| e@)
}

/// The transfer awaiting its response call, holding the master's bytes.
enum PendingTransfer {
    Idle,
    Read(usize),
    Write(Vec<u8>),
    WriteRead(Vec<u8>),
    GeneralCall(Vec<u8>),
}

/// A slave device driven by a script of bus activity instead of hardware.
pub struct SimI2cSlave {
    events: Vec<BusEvent>,
    pending: PendingTransfer,
}

impl SimI2cSlave {
    /// The ghost protocol state: idle, or the pending transfer the script
    /// handed out.
    pub closed spec fn state(&self) -> ProtocolState {
        match self.pending {
            PendingTransfer::Idle => ProtocolState::Idle,
            PendingTransfer::Read(n) => ProtocolState::Pending(MasterAction::Read(n)),
            PendingTransfer::Write(d) => ProtocolState::Pending(MasterAction::Write(d@)),
            PendingTransfer::WriteRead(d) => ProtocolState::Pending(MasterAction::WriteRead(d@)),
            PendingTransfer::GeneralCall(d) => ProtocolState::Pending(
                MasterAction::GeneralCall(d@),
            ),
        }
    }

    /// The scripted bus activity still ahead, in order.
    pub closed spec fn events_view(&self) -> Seq<BusEventV> {
        script_view(self.events@)
    }

    /// Builds a device that is idle and will play `events` back in order.
    pub fn new(events: Vec<BusEvent>) -> (r: SimI2cSlave)
        ensures
            r.state() is Idle,
            r.events_view() == script_view(events@),
    {
        SimI2cSlave { events, pending: PendingTransfer::Idle }
    }

    /// One `listen` step, with no protocol precondition: listening while a
    /// request is still pending is rejected with `OutOfOrder` and changes
    /// nothing. Otherwise the next scripted step is consumed: an action is
    /// classified into the request that becomes pending, a fault voids the
    /// transaction, and an exhausted script reports `Exhausted`.
    pub fn try_listen(&mut self) -> (r: Result<Request, SimError>)
        ensures
            ({
                let s0 = old(self).state();
                let ev0 = old(self).events_view();
                match r {
                    Ok(req) => {
                        &&& s0 is Idle
                        &&& ev0.len() > 0
                        &&& ev0[0] matches BusEventV::Action(a)
                        &&& req == request_of(ev0[0]->Action_0)
                        &&& (*final(self)).state() == ProtocolState::Pending(
                            ev0[0]->Action_0,
                        )
                        &&& (*final(self)).events_view() == ev0.drop_first()
                    },
                    Err(e) => match e {
                        SimError::OutOfOrder => {
                            &&& !(s0 is Idle)
                            &&& (*final(self)).state() == s0
                            &&& (*final(self)).events_view() == ev0
                        },
                        SimError::Exhausted => {
                            &&& s0 is Idle
                            &&& ev0.len() == 0
                            &&& (*final(self)).state() is Idle
                            &&& (*final(self)).events_view() == ev0
                        },
                        SimError::Bus(k) => {
                            &&& s0 is Idle
                            &&& ev0.len() > 0
                            &&& ev0[0] == BusEventV::Fault(k)
                            &&& (*final(self)).state() is Idle
                            &&& (*final(self)).events_view() == ev0.drop_first()
                        },
                    },
                }
            }),
    {
        match self.pending {
            PendingTransfer::Idle => {},
            _ => {
                return Err(SimError::OutOfOrder);
            },
        }
        if self.events.len() == 0 {
            return Err(SimError::Exhausted);
        }
        let ev = self.events.remove(0);
        proof {
            assert_seqs_equal!(
                script_view(self.events@) == script_view(old(self).events@).drop_first()
            );
        }
        match ev {
            BusEvent::MasterRead(n) => {
                self.pending = PendingTransfer::Read(n);
                Ok(Request::Read)
            },
            BusEvent::MasterWrite(d) => {
                let n = d.len();
                self.pending = PendingTransfer::Write(d);
                Ok(Request::Write(n))
            },
            BusEvent::MasterWriteRead(d) => {
                let n = d.len();
                self.pending = PendingTransfer::WriteRead(d);
                Ok(Request::WriteRead(n))
            },
            BusEvent::MasterGeneralCall(d) => {
                let n = d.len();
                self.pending = PendingTransfer::GeneralCall(d);
                Ok(Request::GeneralCall(n))
            },
            BusEvent::Fault(k) => Err(SimError::Bus(k)),
        }
    }

    /// One `respond_to_read` step, with no protocol precondition: when no
    /// master read is pending the call is rejected with `OutOfOrder` and
    /// changes nothing. Otherwise the master takes bytes from `buffer`
    /// and the outcome is classified by `read_outcome`.
    pub fn try_respond_to_read(&mut self, buffer: &[u8]) -> (r: Result<Status, SimError>)
        ensures
            (*final(self)).events_view() == old(self).events_view(),
            ({
                let s0 = old(self).state();
                if read_pending(s0) {
                    &&& r == Ok::<Status, SimError>(read_outcome(
                        pending_read_count(s0),
                        buffer@.len(),
                    ))
                    &&& (*final(self)).state() is Idle
                } else {
                    &&& r == Err::<Status, SimError>(SimError::OutOfOrder)
                    &&& (*final(self)).state() == s0
                }
            }),
    {
        let count = match self.pending {
            PendingTransfer::Read(n) => n,
            _ => {
                return Err(SimError::OutOfOrder);
            },
        };
        self.pending = PendingTransfer::Idle;
        if count > buffer.len() {
            Ok(Status::Incomplete)
        } else {
            Ok(Status::Complete)
        }
    }

    /// One `respond_to_write` step, with no protocol precondition: when no
    /// master write (or write phase of a write-then-read) is pending the
    /// call is rejected with `OutOfOrder` and changes nothing — in
    /// particular the buffer. Otherwise the master's bytes fill `buffer`
    /// in order, any excess is truncated, and the outcome is classified
    /// by `write_outcome`.
    pub fn try_respond_to_write(&mut self, buffer: &mut [u8]) -> (r: Result<Status, SimError>)
        ensures
            (*final(self)).events_view() == old(self).events_view(),
            final(buffer)@.len() == old(buffer)@.len(),
            ({
                let s0 = old(self).state();
                if write_pending(s0) {
                    &&& r == Ok::<Status, SimError>(write_outcome(
                        pending_write_data(s0),
                        old(buffer)@.len(),
                    ))
                    &&& final(buffer)@ == written(pending_write_data(s0), old(buffer)@)
                    &&& (*final(self)).state() is Idle
                } else {
                    &&& r == Err::<Status, SimError>(SimError::OutOfOrder)
                    &&& final(buffer)@ == old(buffer)@
                    &&& (*final(self)).state() == s0
                }
            }),
    {
        match self.pending {
            PendingTransfer::Write(_) | PendingTransfer::WriteRead(_) => {},
            _ => {
                return Err(SimError::OutOfOrder);
            },
        }
        let mut taken = PendingTransfer::Idle;
        core::mem::swap(&mut self.pending, &mut taken);
        let data = match taken {
            PendingTransfer::Write(d) => d,
            PendingTransfer::WriteRead(d) => d,
            _ => {
                return Err(SimError::OutOfOrder);
            },
        };
        Ok(transfer_in(&data, buffer))
    }

    /// One `respond_to_general_call` step: identical semantics to
    /// [`SimI2cSlave::try_respond_to_write`], but admitted only while a
    /// general-call broadcast is pending.
    pub fn try_respond_to_general_call(&mut self, buffer: &mut [u8]) -> (r: Result<
        Status,
        SimError,
    >)
        ensures
            (*final(self)).events_view() == old(self).events_view(),
            final(buffer)@.len() == old(buffer)@.len(),
            ({
                let s0 = old(self).state();
                if general_call_pending(s0) {
                    &&& r == Ok::<Status, SimError>(write_outcome(
                        pending_write_data(s0),
                        old(buffer)@.len(),
                    ))
                    &&& final(buffer)@ == written(pending_write_data(s0), old(buffer)@)
                    &&& (*final(self)).state() is Idle
                } else {
                    &&& r == Err::<Status, SimError>(SimError::OutOfOrder)
                    &&& final(buffer)@ == old(buffer)@
                    &&& (*final(self)).state() == s0
                }
            }),
    {
        match self.pending {
            PendingTransfer::GeneralCall(_) => {},
            _ => {
                return Err(SimError::OutOfOrder);
            },
        }
        let mut taken = PendingTransfer::Idle;
        core::mem::swap(&mut self.pending, &mut taken);
        let data = match taken {
            PendingTransfer::GeneralCall(d) => d,
            _ => {
                return Err(SimError::OutOfOrder);
            },
        };
        Ok(transfer_in(&data, buffer))
    }
}

/// Performs an incoming transfer: copies the bytes of `data` into
/// `buffer` in order, truncating any excess and leaving the tail beyond a
/// short transfer untouched, and classifies the outcome.
fn transfer_in(data: &Vec<u8>, buffer: &mut [u8]) -> (st: Status)
    ensures
        final(buffer)@.len() == old(buffer)@.len(),
        final(buffer)@ == written(data@, old(buffer)@),
        st == write_outcome(data@, old(buffer)@.len()),
{
    let cap = buffer.len();
    let n = if data.len() < cap {
        data.len()
    } else {
        cap
    };
    let mut i: usize = 0;
    while i < n
        invariant
            i <= n,
            n <= data@.len(),
            n <= buffer@.len(),
            buffer@.len() == old(buffer)@.len(),
            forall|j: int| 0 <= j < i ==> buffer@[j] == data@[j],
            forall|j: int| i <= j < buffer@.len() ==> buffer@[j] == old(buffer)@[j],
        decreases n - i,
    {
        buffer[i] = data[i];
        i += 1;
    }
    proof {
        assert_seqs_equal!(buffer@ == written(data@, old(buffer)@));
    }
    if data.len() == cap {
        Status::Complete
    } else if data.len() > cap {
        Status::Incomplete
    } else {
        Status::PartialRequest(data.len())
    }
}

impl I2cSlave for SimI2cSlave {
    type Error = SimError;

    /// The inherent ghost state of the simulated device.
    open spec fn protocol_state(&self) -> ProtocolState {
        self.state()
    }

    fn listen(&mut self) -> (r: Result<Request, SimError>) {
        self.try_listen()
    }

    fn respond_to_read(&mut self, buffer: &[u8]) -> (r: Result<Status, SimError>) {
        self.try_respond_to_read(buffer)
    }

    fn respond_to_write(&mut self, buffer: &mut [u8]) -> (r: Result<Status, SimError>) {
        self.try_respond_to_write(buffer)
    }

    fn respond_to_general_call(&mut self, buffer: &mut [u8]) -> (r: Result<Status, SimError>) {
        self.try_respond_to_general_call(buffer)
    }
}

} // verus!

