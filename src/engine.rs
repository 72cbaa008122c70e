//! The blocking transaction engine as a state machine: it says which
//! hardware action comes next, and takes back what the hardware showed.
//! Whoever owns the registers performs each action and reports its event.
use vstd::prelude::*;
use nb::Error as NbError;
use crate::status::{
    Condition, Error, FlagClear, Poll, Status, clear_for, condition_holds, elapsed_spec, fault_of,
    no_clear, poll,
};
use crate::transfer::{Descriptor, Step};

verus! {

/// The next thing to do on the hardware.
#[derive(Debug, Clone, Copy)]
pub enum Action {
    /// Spin until no START request is pending, then report `step_done`.
    WaitStart,
    /// Write the descriptor with the START request, then report `step_done`.
    Start(Descriptor),
    /// Read the status and the cycle counter, and report `status_read`.
    Poll(Condition),
    /// Put the byte in the transmit register, then report `step_done`.
    Transmit(u8),
    /// Take a byte from the receive register and report `byte_received`.
    Receive,
    /// Clear the latches in `clear`; the transaction failed with `error`.
    Fail { error: NbError<Error>, clear: FlagClear },
    /// The transaction succeeded; `received` holds the bytes read.
    Finish,
}

/// The state of a transaction.
pub struct TransferView {
    pub steps: Seq<Step>,
    /// Index of the current step.
    pub pos: int,
    /// The current step's wait is over and its data transfer is due.
    pub ready: bool,
    /// Cycle at which the current wait began, once it has been polled.
    pub started: Option<u32>,
    pub received: Seq<u8>,
    pub failure: Option<(NbError<Error>, FlagClear)>,
    pub budget: u32,
}

pub open spec fn has_data(s: Step) -> bool {
    s is Send || s is Receive
}

pub open spec fn wf_view(v: TransferView) -> bool {
    &&& 0 <= v.pos <= v.steps.len()
    &&& v.ready ==> v.pos < v.steps.len() && has_data(v.steps[v.pos])
}

/// The condition the wait of a step is for, if it has one.
pub open spec fn wait_of(s: Step) -> Option<Condition> {
    match s {
        Step::Send(_) => Some(Condition::TransmitEmpty),
        Step::AwaitComplete => Some(Condition::TransferComplete),
        Step::Receive => Some(Condition::ReceiveNotEmpty),
        _ => None,
    }
}

pub open spec fn action_spec(v: TransferView) -> Action {
    if let Some(f) = v.failure {
        Action::Fail { error: f.0, clear: f.1 }
    } else if v.pos >= v.steps.len() {
        Action::Finish
    } else {
        match v.steps[v.pos] {
            Step::WaitStart => Action::WaitStart,
            Step::Start(d) => Action::Start(d),
            Step::Send(b) => if v.ready {
                Action::Transmit(b)
            } else {
                Action::Poll(Condition::TransmitEmpty)
            },
            Step::AwaitComplete => Action::Poll(Condition::TransferComplete),
            Step::Receive => if v.ready {
                Action::Receive
            } else {
                Action::Poll(Condition::ReceiveNotEmpty)
            },
        }
    }
}

/// The state once the current step is over.
pub open spec fn advanced(v: TransferView) -> TransferView {
    TransferView { pos: v.pos + 1, ready: false, started: None, ..v }
}

/// The state after polling status `s` at cycle `now` for the current step.
pub open spec fn after_status(v: TransferView, s: Status, now: u32) -> TransferView {
    let cond = wait_of(v.steps[v.pos])->0;
    let started = match v.started {
        Some(t) => t,
        None => now,
    };
    match fault_of(s) {
        Some(e) => TransferView { failure: Some((NbError::Other(e), clear_for(e))), ..v },
        None => if condition_holds(s, cond) {
            if v.steps[v.pos] is AwaitComplete {
                advanced(v)
            } else {
                TransferView { ready: true, ..v }
            }
        } else if elapsed_spec(started, now) >= v.budget {
            TransferView { failure: Some((NbError::WouldBlock, no_clear())), ..v }
        } else {
            TransferView { started: Some(started), ..v }
        },
    }
}

/// A transaction in progress.
pub struct Transfer {
    steps: Vec<Step>,
    pos: usize,
    ready: bool,
    started: Option<u32>,
    received: Vec<u8>,
    failure: Option<(NbError<Error>, FlagClear)>,
    budget: u32,
}

impl View for Transfer {
    type V = TransferView;

    closed spec fn view(&self) -> TransferView {
        TransferView {
            steps: self.steps@,
            pos: self.pos as int,
            ready: self.ready,
            started: self.started,
            received: self.received@,
            failure: self.failure,
            budget: self.budget,
        }
    }
}

impl Transfer {
    pub open spec fn wf(&self) -> bool {
        wf_view(self@)
    }

    /// A transaction that carries out `steps`, each wait bounded by `budget` cycles.
    pub fn new(steps: Vec<Step>, budget: u32) -> (r: Transfer)
        ensures
            r.wf(),
            r@ == (TransferView {
                steps: steps@,
                pos: 0,
                ready: false,
                started: None,
                received: Seq::empty(),
                failure: None,
                budget,
            }),
    {
        Transfer { steps, pos: 0, ready: false, started: None, received: Vec::new(), failure: None, budget }
    }

    /// What to do next.
    pub fn action(&self) -> (r: Action)
        requires
            self.wf(),
        ensures
            r == action_spec(self@),
    {
        if let Some((error, clear)) = self.failure {
            return Action::Fail { error, clear };
        }
        if self.pos >= self.steps.len() {
            return Action::Finish;
        }
        match self.steps[self.pos] {
            Step::WaitStart => Action::WaitStart,
            Step::Start(d) => Action::Start(d),
            Step::Send(b) => if self.ready {
                Action::Transmit(b)
            } else {
                Action::Poll(Condition::TransmitEmpty)
            },
            Step::AwaitComplete => Action::Poll(Condition::TransferComplete),
            Step::Receive => if self.ready {
                Action::Receive
            } else {
                Action::Poll(Condition::ReceiveNotEmpty)
            },
        }
    }

    /// Reports that a `WaitStart`, `Start` or `Transmit` action was carried out.
    pub fn step_done(&mut self)
        requires
            old(self).wf(),
            action_spec(old(self)@) is WaitStart || action_spec(old(self)@) is Start
                || action_spec(old(self)@) is Transmit,
        ensures
            final(self).wf(),
            final(self)@ == advanced(old(self)@),
    {
        let n = self.steps.len();
        assert(self.pos < n);
        self.pos = self.pos + 1;
        self.ready = false;
        self.started = None;
    }

    /// Reports the byte taken by a `Receive` action.
    pub fn byte_received(&mut self, byte: u8)
        requires
            old(self).wf(),
            action_spec(old(self)@) is Receive,
        ensures
            final(self).wf(),
            final(self)@ == (TransferView {
                received: old(self)@.received.push(byte),
                ..advanced(old(self)@)
            }),
    {
        let n = self.steps.len();
        assert(self.pos < n);
        self.received.push(byte);
        self.pos = self.pos + 1;
        self.ready = false;
        self.started = None;
    }

    /// Reports the status `s` and cycle count `now` read for a `Poll` action.
    /// The first poll of a wait starts its budget.
    pub fn status_read(&mut self, s: &Status, now: u32)
        requires
            old(self).wf(),
            action_spec(old(self)@) is Poll,
        ensures
            final(self).wf(),
            final(self)@ == after_status(old(self)@, *s, now),
    {
        let n = self.steps.len();
        assert(self.pos < n);
        let step = self.steps[self.pos];
        let cond = match step {
            Step::Send(_) => Condition::TransmitEmpty,
            Step::AwaitComplete => Condition::TransferComplete,
            _ => Condition::ReceiveNotEmpty,
        };
        let started = match self.started {
            Some(t) => t,
            None => now,
        };
        match poll(s, cond, started, now, self.budget) {
            Poll::Ready => {
                if let Step::AwaitComplete = step {
                    self.pos = self.pos + 1;
                    self.started = None;
                } else {
                    self.ready = true;
                }
            },
            Poll::Retry => {
                self.started = Some(started);
            },
            Poll::Fail { error, clear } => {
                self.failure = Some((error, clear));
            },
        }
    }

    /// The bytes received so far.
    pub fn received(&self) -> (r: &[u8])
        ensures
            r@ == self@.received,
    {
        self.received.as_slice()
    }
}

/// A wait whose condition does not hold and that sees no fault fails with
/// `WouldBlock` at the first poll at which `budget` cycles have passed since
/// the wait began, clearing nothing; before that it keeps polling.
pub proof fn lemma_wait_times_out(v: TransferView, s: Status, now: u32)
    requires
        wf_view(v),
        action_spec(v) is Poll,
        fault_of(s) is None,
        !condition_holds(s, wait_of(v.steps[v.pos])->0),
    ensures
        ({
            let started = match v.started {
                Some(t) => t,
                None => now,
            };
            let w = after_status(v, s, now);
            &&& elapsed_spec(started, now) >= v.budget ==> action_spec(w) == (Action::Fail {
                error: NbError::WouldBlock,
                clear: no_clear(),
            })
            &&& elapsed_spec(started, now) < v.budget ==> action_spec(w) == action_spec(v)
                && w.started == Some(started)
        }),
{
}

/// A failed transaction stays failed: whatever the next action would have
/// been, it is now to clear the latches and report the failure.
pub proof fn lemma_failure_is_final(v: TransferView, f: (NbError<Error>, FlagClear))
    requires
        v.failure == Some(f),
    ensures
        action_spec(v) == (Action::Fail { error: f.0, clear: f.1 }),
{
}

} // verus!
