//! Terminator: asks the operating system to end a process, and the stop
//! operation built on it.

use vstd::prelude::*;
use vstd::string::StringExecFns;
use crate::registry::ProjectManager;
use crate::status::{append_decimal, decimal};

verus! {

/// The error number with which the system reports that no process has the
/// given id.
pub const ESRCH: i32 = 3;

/// The error number with which the system reports that the caller may not
/// signal the process.
pub const EPERM: i32 = 1;

/// The largest process id that can be signalled.
pub const MAX_PID: u32 = 0x7fff_ffff;

/// The exit code given to a process that is ended by force.
pub const FORCED_EXIT_CODE: u32 = 1;

/// Why a process could not be asked to end.
#[derive(Clone, Copy, Debug, PartialEq, Eq, Structural)]
pub enum TerminationError {
    /// The handle is not the id of a single process: it is zero or beyond
    /// the range of process ids. No request was made.
    InvalidHandle,
    /// The process is gone already.
    NoSuchProcess,
    /// The system does not let the caller end the process.
    PermissionDenied,
    /// The system refused for another reason, given by its error number.
    Os(i32),
    /// The system did not open the process for termination.
    OpenFailed,
    /// The system opened the process but did not end it.
    KillFailed,
}

impl TerminationError {
    /// Whether the error says that the process was gone already, so that
    /// what the stop was for holds all the same.
    pub fn process_is_gone(&self) -> (gone: bool)
        ensures
            gone == (*self == TerminationError::NoSuchProcess),
    {
        match self {
            TerminationError::NoSuchProcess => true,
            _ => false,
        }
    }

    /// The text shown to the caller of a failed stop.
    pub fn message(&self) -> (text: String)
        ensures
            text@ == (match *self {
                TerminationError::InvalidHandle => "Invalid process handle"@,
                TerminationError::NoSuchProcess => "ESRCH: No such process"@,
                TerminationError::PermissionDenied => "EPERM: Operation not permitted"@,
                TerminationError::Os(code) => "Failed to terminate process (os error "@ + decimal(
                    code as int,
                ) + ")"@,
                TerminationError::OpenFailed => "Failed to open process"@,
                TerminationError::KillFailed => "Failed to terminate process"@,
            }),
    {
        match self {
            TerminationError::InvalidHandle => "Invalid process handle".to_owned(),
            TerminationError::NoSuchProcess => "ESRCH: No such process".to_owned(),
            TerminationError::PermissionDenied => "EPERM: Operation not permitted".to_owned(),
            TerminationError::Os(code) => {
                let mut text = "Failed to terminate process (os error ".to_owned();
                append_decimal(&mut text, *code);
                text.append(")");
                text
            },
            TerminationError::OpenFailed => "Failed to open process".to_owned(),
            TerminationError::KillFailed => "Failed to terminate process".to_owned(),
        }
    }
}

/// Whether `pid` is the id of a single process, so that a signal sent to it
/// reaches that process and no group of processes.
pub open spec fn is_process_id(pid: u32) -> bool {
    0 < pid <= MAX_PID
}

/// `nix::sys::signal::kill` with `Signal::SIGTERM` passes the request to the
/// system's `kill` and returns once the system has taken or refused it; it
/// does not wait for the process to end. Whether the system takes it depends
/// on the processes that exist at that moment, so nothing is claimed of the
/// result: on refusal it is the system's error number. A `pid` of zero or
/// below addresses process groups, the caller's own among them, and is left
/// out.
#[verifier::external_body]
fn send_sigterm(pid: i32) -> (result: Result<(), i32>)
    requires
        pid > 0,
{
    match nix::sys::signal::kill(nix::unistd::Pid::from_raw(pid), nix::sys::signal::Signal::SIGTERM) {
        Ok(()) => Ok(()),
        Err(errno) => Err(errno as i32),
    }
}

/// What the answer of the system to a termination request means: taken is
/// success, and a refusal is told apart by its error number.
pub open spec fn outcome_of(os_result: Result<(), i32>) -> Result<(), TerminationError> {
    match os_result {
        Ok(()) => Ok(()),
        Err(code) => if code == ESRCH {
            Err(TerminationError::NoSuchProcess)
        } else if code == EPERM {
            Err(TerminationError::PermissionDenied)
        } else {
            Err(TerminationError::Os(code))
        },
    }
}

/// Reads the answer of the system to a termination request.
pub fn termination_outcome(os_result: Result<(), i32>) -> (r: Result<(), TerminationError>)
    ensures
        r == outcome_of(os_result),
{
    match os_result {
        Ok(()) => Ok(()),
        Err(code) => {
            if code == ESRCH {
                Err(TerminationError::NoSuchProcess)
            } else if code == EPERM {
                Err(TerminationError::PermissionDenied)
            } else {
                Err(TerminationError::Os(code))
            }
        },
    }
}

/// What a forced termination comes to, on a system without signals: the
/// process is first opened for termination, then ended with
/// `FORCED_EXIT_CODE`. The first component says whether there is an open
/// process object to release, which is so whenever the process was opened,
/// whether or not it was then ended.
pub open spec fn forced_outcome_of(opened: bool, ended: bool) -> (bool, Result<(), TerminationError>) {
    if !opened {
        (false, Err(TerminationError::OpenFailed))
    } else if !ended {
        (true, Err(TerminationError::KillFailed))
    } else {
        (true, Ok(()))
    }
}

/// Reads the answers of the system to a forced termination: whether it
/// opened the process and, if so, whether it ended it. Returns whether the
/// process object is to be released, and the result of the termination.
pub fn forced_termination_outcome(opened: bool, ended: bool) -> (r: (
    bool,
    Result<(), TerminationError>,
))
    ensures
        r == forced_outcome_of(opened, ended),
        r.0 == opened,
{
    if !opened {
        (false, Err(TerminationError::OpenFailed))
    } else if !ended {
        (true, Err(TerminationError::KillFailed))
    } else {
        (true, Ok(()))
    }
}

/// What a termination request for `pid` comes to when the system, where it
/// is asked, answers `answer`: a handle that is not the id of a single
/// process is refused and the system is not asked; for every other handle
/// the answer decides.
pub open spec fn termination_result(pid: u32, answer: Result<(), i32>) -> Result<
    (),
    TerminationError,
> {
    if is_process_id(pid) {
        outcome_of(answer)
    } else {
        Err(TerminationError::InvalidHandle)
    }
}

/// Asks the system to end the process `pid` gracefully, and returns as soon
/// as the system has answered, without waiting for the process to end.
///
/// The result is what `termination_result` gives for the answer of the
/// system. So a handle that is not the id of a single process is refused
/// with `InvalidHandle`, and no other handle ever is.
pub fn terminate_process(pid: u32) -> (r: Result<(), TerminationError>)
    ensures
        exists|answer: Result<(), i32>| r == #[trigger] termination_result(pid, answer),
        !is_process_id(pid) ==> r == Err::<(), TerminationError>(TerminationError::InvalidHandle),
{
    if pid == 0 || pid > MAX_PID {
        assert(Err::<(), TerminationError>(TerminationError::InvalidHandle) == termination_result(
            pid,
            Ok(()),
        ));
        return Err(TerminationError::InvalidHandle);
    }
    let answer = send_sigterm(pid as i32);
    let r = termination_outcome(answer);
    assert(r == termination_result(pid, answer));
    r
}

/// The registry after a stop of `pid`: the entry of `pid` is gone, all
/// others stay.
pub open spec fn after_stop<P>(processes: Map<u32, P>, pid: u32) -> Map<u32, P> {
    processes.remove(pid)
}

/// What a stop of `pid` comes to, given the registry before it and the
/// answer of the system where it is asked: a handle that is not tracked is
/// nothing to stop, which is success; a tracked handle goes by
/// `termination_result`.
pub open spec fn stop_result<P>(
    processes: Map<u32, P>,
    pid: u32,
    answer: Result<(), i32>,
) -> Result<(), TerminationError> {
    if processes.contains_key(pid) {
        termination_result(pid, answer)
    } else {
        Ok(())
    }
}

/// Stops the process `pid`: takes it out of the registry and, if it was
/// there, asks the system to end it.
///
/// The entry is gone afterwards whatever the system answers. A handle that
/// the registry does not track is nothing to stop: that is success, the
/// registry stays as it is, and the system is not asked.
pub fn close_project<P>(manager: &mut ProjectManager<P>, pid: u32) -> (r: Result<
    (),
    TerminationError,
>)
    ensures
        final(manager)@ == after_stop(old(manager)@, pid),
        exists|answer: Result<(), i32>| r == #[trigger] stop_result(old(manager)@, pid, answer),
        !old(manager)@.contains_key(pid) ==> r is Ok && final(manager)@ == old(manager)@,
{
    let ghost before = manager@;
    match manager.unregister(pid) {
        Some(_process) => {
            let r = terminate_process(pid);
            proof {
                let answer = choose|answer: Result<(), i32>|
                    r == #[trigger] termination_result(pid, answer);
                assert(r == stop_result(before, pid, answer));
            }
            r
        },
        None => {
            assert(Ok::<(), TerminationError>(()) == stop_result(before, pid, Ok(())));
            Ok(())
        },
    }
}

/// Stopping is idempotent: after a stop of a handle, whatever it came to, a
/// second stop of the same handle succeeds whatever the system would
/// answer, and leaves the registry as the first stop left it.
pub proof fn lemma_stop_twice<P>(processes: Map<u32, P>, pid: u32, answer: Result<(), i32>)
    ensures
        !after_stop(processes, pid).contains_key(pid),
        stop_result(after_stop(processes, pid), pid, answer) == Ok::<(), TerminationError>(()),
        after_stop(after_stop(processes, pid), pid) == after_stop(processes, pid),
{
}

/// A stop touches no other handle: what was tracked under another handle is
/// tracked after it as before.
pub proof fn lemma_stop_keeps_others<P>(processes: Map<u32, P>, pid: u32, other: u32)
    requires
        other != pid,
    ensures
        after_stop(processes, pid).contains_key(other) == processes.contains_key(other),
        processes.contains_key(other) ==> after_stop(processes, pid)[other] == processes[other],
{
}

} // verus!
