//! A serial port that performs nothing and records what it is asked to do.
//! It can be told to fail every configuration and write from a given
//! operation on, as a port does once its device is gone.

use vstd::prelude::*;

use crate::profile::SerialProfile;
use crate::transmit::{DmxTransmitter, PortAction, PortStep};

verus! {

/// One recorded port operation.
#[derive(Debug, PartialEq, Eq)]
pub enum PortOp {
    Configure(SerialProfile),
    Write(Vec<u8>),
    Pause(u32),
}

impl View for PortOp {
    type V = PortAction;

    open spec fn view(&self) -> PortAction {
        match self {
            PortOp::Configure(p) => PortAction::Configure(*p),
            PortOp::Write(bytes) => PortAction::Write(bytes@),
            PortOp::Pause(nanos) => PortAction::Pause(*nanos as nat),
        }
    }
}

/// The failure a recording port reports: the position, counted from zero,
/// of the operation that failed.
#[derive(Debug, Clone, Copy, PartialEq, Eq, Structural)]
pub struct PortFault {
    pub at: usize,
}

/// What the recording port answers to operation `op` at position `at`.
pub open spec fn recorded_outcome(failing_from: Option<usize>, at: int, op: PortAction) -> Result<
    (),
    PortFault,
> {
    match failing_from {
        Some(n) if n <= at && !(op is Pause) => Err(PortFault { at: at as usize }),
        _ => Ok(()),
    }
}

/// A port that records every operation instead of performing it.
pub struct RecordingPort {
    ops: Vec<PortOp>,
    failing_from: Option<usize>,
}

impl RecordingPort {
    /// A port on which every operation succeeds.
    pub fn new() -> (r: RecordingPort)
        ensures
            r.ops()@.len() == 0,
            r.failing_from() == None::<usize>,
    {
        RecordingPort { ops: Vec::new(), failing_from: None }
    }

    /// A port on which every configuration and write at position `at` or
    /// later fails; pauses never fail.
    pub fn failing_at(at: usize) -> (r: RecordingPort)
        ensures
            r.ops()@.len() == 0,
            r.failing_from() == Some(at),
    {
        RecordingPort { ops: Vec::new(), failing_from: Some(at) }
    }

    pub closed spec fn ops(&self) -> Vec<PortOp> {
        self.ops
    }

    pub closed spec fn failing_from(&self) -> Option<usize> {
        self.failing_from
    }

    /// The operations recorded so far, oldest first.
    pub fn recorded(&self) -> (r: &[PortOp])
        ensures
            r@ == self.ops()@,
    {
        self.ops.as_slice()
    }

    fn record(&mut self, op: PortOp) -> (r: Result<(), PortFault>)
        ensures
            final(self).failing_from == old(self).failing_from,
            final(self).ops@ == old(self).ops@.push(op),
            r == recorded_outcome(old(self).failing_from, old(self).ops@.len() as int, op@),
    {
        let at = self.ops.len();
        let fails = match self.failing_from {
            Some(n) => n <= at && !matches!(op, PortOp::Pause(_)),
            None => false,
        };
        self.ops.push(op);
        if fails {
            Err(PortFault { at })
        } else {
            Ok(())
        }
    }
}

impl DmxTransmitter for RecordingPort {
    type Error = PortFault;

    open spec fn history(&self) -> Seq<PortStep<PortFault>> {
        Seq::new(
            self.ops()@.len(),
            |i: int| (self.ops()@[i]@, recorded_outcome(self.failing_from(), i, self.ops()@[i]@)),
        )
    }

    fn configure(&mut self, profile: &SerialProfile) -> (r: Result<(), PortFault>) {
        self.record(PortOp::Configure(*profile))
    }

    fn write_bytes(&mut self, data: &[u8]) -> (r: Result<(), PortFault>) {
        self.record(PortOp::Write(vstd::slice::slice_to_vec(data)))
    }

    fn pause(&mut self, nanos: u32) {
        let _ = self.record(PortOp::Pause(nanos));
    }
}

} // verus!
