//! Classification of the latched status bits, and the decision taken at
//! each poll of a wait that is bounded by a cycle budget.
use vstd::prelude::*;
use nb::Error as NbError;

verus! {

/// nb::Error, the result of a non-blocking step: `Other(e)` for a fault,
/// `WouldBlock` for not yet. Verus reads its two public variants.
#[verifier::external_type_specification]
#[verifier::reject_recursive_types(E)]
pub struct ExNbError<E>(NbError<E>);

/// I2C error
#[derive(Debug, Clone, Copy, PartialEq, Eq, Structural)]
pub enum Error {
    /// Bus error
    Bus,
    /// Arbitration loss
    Arbitration,
    /// No ack received
    Acknowledge,
    /// Overrun/underrun
    Overrun,
    /// Bus is busy
    Busy,
}

/// A snapshot of the interrupt-and-status register.
#[derive(Debug, Clone, Copy, PartialEq, Eq, Structural)]
pub struct Status {
    /// Transmit data register empty.
    pub txis: bool,
    /// Receive data register not empty.
    pub rxne: bool,
    /// Transfer complete (software end mode).
    pub tc: bool,
    /// Bus error latch.
    pub berr: bool,
    /// Arbitration loss latch.
    pub arlo: bool,
    /// No-acknowledge latch.
    pub nackf: bool,
    /// Overrun/underrun latch.
    pub ovr: bool,
    /// STOP detection latch.
    pub stopf: bool,
}

/// The readiness condition a wait is for.
#[derive(Debug, Clone, Copy, PartialEq, Eq, Structural)]
pub enum Condition {
    TransmitEmpty,
    ReceiveNotEmpty,
    TransferComplete,
}

/// The latches to clear, as one write of the flag-clear register.
#[derive(Debug, Clone, Copy, PartialEq, Eq, Structural)]
pub struct FlagClear {
    pub berr: bool,
    pub arlo: bool,
    pub nack: bool,
    pub ovr: bool,
    pub stop: bool,
}

impl FlagClear {
    /// Whether no latch is to be cleared, so no register write is due.
    pub fn is_empty(&self) -> (r: bool)
        ensures
            r == (*self == no_clear()),
    {
        !(self.berr || self.arlo || self.nack || self.ovr || self.stop)
    }
}

/// What one poll of a wait decides.
#[derive(Debug, Clone, Copy)]
pub enum Poll {
    /// The condition holds: go on with the transfer.
    Ready,
    /// Nothing decided yet: read the status again.
    Retry,
    /// The transfer is abandoned: clear the latches in `clear`, then report
    /// `error` (`WouldBlock` when the cycle budget ran out).
    Fail { error: NbError<Error>, clear: FlagClear },
}

pub open spec fn condition_holds(s: Status, c: Condition) -> bool {
    match c {
        Condition::TransmitEmpty => s.txis,
        Condition::ReceiveNotEmpty => s.rxne,
        Condition::TransferComplete => s.tc,
    }
}

/// The protocol fault a status shows, by fixed priority: bus error,
/// arbitration loss, no-acknowledge, overrun.
pub open spec fn fault_of(s: Status) -> Option<Error> {
    if s.berr {
        Some(Error::Bus)
    } else if s.arlo {
        Some(Error::Arbitration)
    } else if s.nackf {
        Some(Error::Acknowledge)
    } else if s.ovr {
        Some(Error::Overrun)
    } else {
        None
    }
}

/// The latches implicated by a fault. A no-acknowledge or an overrun makes
/// the hardware emit STOP, so their STOP latch is cleared along with them.
pub open spec fn clear_for(e: Error) -> FlagClear {
    FlagClear {
        berr: e == Error::Bus,
        arlo: e == Error::Arbitration,
        nack: e == Error::Acknowledge,
        ovr: e == Error::Overrun,
        stop: e == Error::Acknowledge || e == Error::Overrun,
    }
}

pub open spec fn no_clear() -> FlagClear {
    FlagClear { berr: false, arlo: false, nack: false, ovr: false, stop: false }
}

/// The status once the latches in `c` are cleared.
pub open spec fn after_clear(s: Status, c: FlagClear) -> Status {
    Status {
        berr: s.berr && !c.berr,
        arlo: s.arlo && !c.arlo,
        nackf: s.nackf && !c.nack,
        ovr: s.ovr && !c.ovr,
        stopf: s.stopf && !c.stop,
        ..s
    }
}

/// Classifies a status for condition `cond`: a fault first (with the
/// latches to clear), then readiness, else `WouldBlock`.
pub fn check_status(s: &Status, cond: Condition) -> (r: (Result<(), NbError<Error>>, FlagClear))
    ensures
        match fault_of(*s) {
            Some(e) => r == (Err::<(), NbError<Error>>(NbError::Other(e)), clear_for(e)),
            None => r.1 == no_clear() && if condition_holds(*s, cond) {
                r.0 == Ok::<(), NbError<Error>>(())
            } else {
                r.0 == Err::<(), NbError<Error>>(NbError::WouldBlock)
            },
        },
{
    let none = FlagClear { berr: false, arlo: false, nack: false, ovr: false, stop: false };
    if s.berr {
        (Err(NbError::Other(Error::Bus)), FlagClear { berr: true, ..none })
    } else if s.arlo {
        (Err(NbError::Other(Error::Arbitration)), FlagClear { arlo: true, ..none })
    } else if s.nackf {
        (Err(NbError::Other(Error::Acknowledge)), FlagClear { nack: true, stop: true, ..none })
    } else if s.ovr {
        (Err(NbError::Other(Error::Overrun)), FlagClear { ovr: true, stop: true, ..none })
    } else {
        let ready = match cond {
            Condition::TransmitEmpty => s.txis,
            Condition::ReceiveNotEmpty => s.rxne,
            Condition::TransferComplete => s.tc,
        };
        if ready {
            (Ok(()), none)
        } else {
            (Err(NbError::WouldBlock), none)
        }
    }
}

/// With the no-acknowledge and overrun latches both set, and no bus error or
/// arbitration loss, the fault is `Acknowledge` by priority, and clearing the
/// latches it implicates leaves the no-acknowledge and STOP latches clear
/// (the overrun latch is not among them).
pub proof fn lemma_acknowledge_before_overrun(s: Status)
    requires
        s.nackf,
        s.ovr,
        !s.berr,
        !s.arlo,
    ensures
        fault_of(s) == Some(Error::Acknowledge),
        !after_clear(s, clear_for(Error::Acknowledge)).nackf,
        !after_clear(s, clear_for(Error::Acknowledge)).stopf,
        after_clear(s, clear_for(Error::Acknowledge)).ovr,
{
}

/// Cycles counted from `started` to `now` on a wrapping 32-bit counter.
pub open spec fn elapsed_spec(started: u32, now: u32) -> u32 {
    ((now as int - started as int) % 0x1_0000_0000) as u32
}

/// Cycles counted from `started` to `now`, correct across one wrap of the counter.
pub fn elapsed(started: u32, now: u32) -> (r: u32)
    ensures
        r == elapsed_spec(started, now),
{
    now.wrapping_sub(started)
}

/// The decision at one poll of a wait for `cond` that began at cycle
/// `started` with `budget` cycles: a classified fault or readiness ends the
/// wait; otherwise it times out once the budget is spent.
pub fn poll(s: &Status, cond: Condition, started: u32, now: u32, budget: u32) -> (r: Poll)
    ensures
        match fault_of(*s) {
            Some(e) => r == (Poll::Fail { error: NbError::Other(e), clear: clear_for(e) }),
            None => if condition_holds(*s, cond) {
                r == Poll::Ready
            } else if elapsed_spec(started, now) >= budget {
                r == (Poll::Fail { error: NbError::WouldBlock, clear: no_clear() })
            } else {
                r == Poll::Retry
            },
        },
{
    let (res, clear) = check_status(s, cond);
    match res {
        Ok(()) => Poll::Ready,
        Err(NbError::Other(e)) => Poll::Fail { error: NbError::Other(e), clear },
        Err(NbError::WouldBlock) => {
            if elapsed(started, now) >= budget {
                Poll::Fail { error: NbError::WouldBlock, clear }
            } else {
                Poll::Retry
            }
        },
    }
}

} // verus!
