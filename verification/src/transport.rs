//! The transport port of the driver: the contract a bus adapter must meet,
//! the bus-level error kind, and an in-memory transport that records what
//! the controller asks of it.

use vstd::prelude::*;
use vstd::slice::slice_to_vec;

verus! {

/// A bus-level fault reported by a transport write.
#[derive(Clone, Copy, Debug, PartialEq, Eq, Structural)]
pub enum TransportError {
    /// The device did not acknowledge the transfer.
    Nack,
    /// The transfer timed out.
    Timeout,
    /// No device answers at the configured address.
    DeviceAbsent,
    /// Any other input/output fault on the bus.
    Io,
}

/// A synchronous bus adapter together with its timing duty.
///
/// The model of an adapter is the history of the payloads it has delivered
/// (`writes`), the history of the settling delays it has been asked to hold
/// (`delays`), and an optional latched fault (`fault`).
///
/// A write either delivers its whole payload atomically as one bus
/// transaction, or delivers nothing and reports a fault. Success is never
/// promised: a bus may fail at any time. What is promised is that a faulted
/// adapter reports exactly its latched fault, and that a failed write leaves
/// the delivered history unchanged.
pub trait Transport {
    /// The payloads of all writes delivered so far, oldest first. The
    /// default model records nothing; an adapter that can return `Ok`
    /// overrides it with its own history.
    open spec fn writes(&self) -> Seq<Seq<u8>> {
        Seq::empty()
    }

    /// The settling delays held so far, in milliseconds, oldest first. The
    /// default model records nothing.
    open spec fn delays(&self) -> Seq<u64> {
        Seq::empty()
    }

    /// The latched fault, if any: while present, every write reports it and
    /// delivers nothing. Absent by default.
    open spec fn fault(&self) -> Option<TransportError> {
        None
    }

    /// Whether this adapter owes success: a reliable adapter accepts every
    /// write while no fault is latched. False by default, since a real bus
    /// may fail at any time; an in-memory adapter overrides it.
    open spec fn reliable(&self) -> bool {
        false
    }

    /// Deliver `bytes` as a single bus transaction addressed to the
    /// configured device, and report how many bytes went out.
    fn write(&mut self, bytes: &[u8]) -> (r: Result<usize, TransportError>)
        ensures
            final(self).delays() == old(self).delays(),
            final(self).fault() == old(self).fault(),
            final(self).reliable() == old(self).reliable(),
            old(self).reliable() && old(self).fault() is None ==> r is Ok,
            (r matches Ok(n) ==> old(self).fault() is None && final(self).writes() == old(
                self,
            ).writes().push(bytes@) && n == bytes@.len()),
            (r matches Err(e) ==> final(self).writes() == old(self).writes() && (old(
                self,
            ).fault() matches Some(f) ==> e == f)),
    ;

    /// Block the calling thread for `ms` milliseconds.
    fn delay_ms(&mut self, ms: u64)
        ensures
            final(self).writes() == old(self).writes(),
            final(self).delays() == old(self).delays().push(ms),
            final(self).fault() == old(self).fault(),
            final(self).reliable() == old(self).reliable(),
    ;
}

/// An in-memory transport: it records every payload and delay instead of
/// touching a bus, and can carry an injected fault, so that a controller can
/// be exercised without hardware.
pub struct MockTransport {
    /// Payloads delivered so far, oldest first.
    pub sent: Vec<Vec<u8>>,
    /// Settling delays held so far, in milliseconds, oldest first.
    pub delayed_ms: Vec<u64>,
    /// While present, every write fails with this fault and records nothing.
    pub injected_fault: Option<TransportError>,
}

impl MockTransport {
    /// A fresh transport with nothing recorded and no fault.
    pub fn new() -> (t: MockTransport)
        ensures
            t.writes() == Seq::<Seq<u8>>::empty(),
            t.delays() == Seq::<u64>::empty(),
            t.fault() is None,
    {
        let t = MockTransport { sent: Vec::new(), delayed_ms: Vec::new(), injected_fault: None };
        proof {
            assert(t.writes() =~= Seq::<Seq<u8>>::empty());
            assert(t.delays() =~= Seq::<u64>::empty());
        }
        t
    }

    /// A fresh transport whose every write fails with `fault`.
    pub fn failing(fault: TransportError) -> (t: MockTransport)
        ensures
            t.writes() == Seq::<Seq<u8>>::empty(),
            t.delays() == Seq::<u64>::empty(),
            t.fault() == Some(fault),
    {
        let t = MockTransport {
            sent: Vec::new(),
            delayed_ms: Vec::new(),
            injected_fault: Some(fault),
        };
        proof {
            assert(t.writes() =~= Seq::<Seq<u8>>::empty());
            assert(t.delays() =~= Seq::<u64>::empty());
        }
        t
    }
}

impl Transport for MockTransport {
    open spec fn writes(&self) -> Seq<Seq<u8>> {
        self.sent@.map_values(|payload: Vec<u8>| payload@)
    }

    open spec fn delays(&self) -> Seq<u64> {
        self.delayed_ms@
    }

    open spec fn fault(&self) -> Option<TransportError> {
        self.injected_fault
    }

    open spec fn reliable(&self) -> bool {
        true
    }

    fn write(&mut self, bytes: &[u8]) -> (r: Result<usize, TransportError>) {
        match self.injected_fault {
            Some(e) => Err(e),
            None => {
                let payload: Vec<u8> = slice_to_vec(bytes);
                self.sent.push(payload);
                proof {
                    assert(self.writes() =~= old(self).writes().push(bytes@));
                }
                Ok(bytes.len())
            },
        }
    }

    fn delay_ms(&mut self, ms: u64) {
        self.delayed_ms.push(ms);
    }
}

} // verus!
