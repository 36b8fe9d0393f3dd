//! Sending signals to the processes of services.

use crate::formats::TerminationSignal;
use crate::service_handler::ServiceHandler;
use nix::errno::Errno;
use nix::sys::signal::Signal;
use nix::unistd::Pid;
use vstd::prelude::*;

verus! {

/// What the operating system answered when it was handed a signal.
#[derive(Clone, Copy, Debug, PartialEq, Eq, Structural)]
pub enum SignalResult {
    /// The signal was accepted for the process.
    Delivered,
    /// No such process exists any more.
    NoSuchProcess,
    /// The signal was refused, with this error number.
    Refused(i32),
}

/// `nix::sys::signal::kill` asks the operating system to send the signal to
/// the process `pid`. The answer is passed on as it came; which answer comes
/// is not claimed.
#[verifier::external_body]
fn send_signal(pid: i32, signal: TerminationSignal) -> (result: SignalResult) {
    let signal = match signal {
        TerminationSignal::TERM => Signal::SIGTERM,
        TerminationSignal::HUP => Signal::SIGHUP,
        TerminationSignal::INT => Signal::SIGINT,
        TerminationSignal::QUIT => Signal::SIGQUIT,
        TerminationSignal::KILL => Signal::SIGKILL,
        TerminationSignal::USR1 => Signal::SIGUSR1,
        TerminationSignal::USR2 => Signal::SIGUSR2,
    };
    match nix::sys::signal::kill(Pid::from_raw(pid), signal) {
        Ok(()) => SignalResult::Delivered,
        Err(Errno::ESRCH) => SignalResult::NoSuchProcess,
        Err(errno) => SignalResult::Refused(errno as i32),
    }
}

/// What became of an attempt to signal a service.
#[derive(Clone, Copy, Debug, PartialEq, Eq, Structural)]
pub enum KillOutcome {
    /// The process of the service is not known: no signal was sent.
    MissingPid,
    /// The signal was handed to the operating system for the process.
    Sent { pid: i32, signal: TerminationSignal, result: SignalResult },
}

impl KillOutcome {
    /// Whether this is the outcome of signalling `pid` with `signal`: nothing
    /// is sent without a process, and otherwise that signal goes to that
    /// process.
    pub open spec fn answers(self, pid: Option<i32>, signal: TerminationSignal) -> bool {
        match pid {
            None => self == KillOutcome::MissingPid,
            Some(target) => match self {
                KillOutcome::MissingPid => false,
                KillOutcome::Sent { pid: to, signal: sent, result: _ } => to == target && sent
                    == signal,
            },
        }
    }
}

/// The signal to send: the given one, or else the one that the service is
/// declared to terminate on.
pub open spec fn signal_for(signal: Option<TerminationSignal>, declared: TerminationSignal) -> TerminationSignal {
    match signal {
        Some(s) => s,
        None => declared,
    }
}

/// Sends a signal to the process of the service: the given one, or by default
/// the one that the service is declared to terminate on. A process that is
/// already gone is no error.
pub fn kill(sh: &ServiceHandler, signal: Option<TerminationSignal>) -> (outcome: KillOutcome)
    ensures
        outcome.answers(sh@.pid, signal_for(signal, sh@.service.termination.signal)),
{
    let signal = match signal {
        Some(s) => s,
        None => sh.service.termination.signal,
    };
    match sh.pid {
        Some(pid) => KillOutcome::Sent { pid, signal, result: send_signal(pid, signal) },
        None => KillOutcome::MissingPid,
    }
}

} // verus!
