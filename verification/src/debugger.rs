//! The debugger probe: a debugger counts as attached only where every signal
//! says so.

use vstd::prelude::*;
use crate::result::ProbeResult;

verus! {

/// What the operating system said of a debugger. Each signal is a flag even
/// where the query behind it failed.
#[derive(Clone, Copy, Debug, PartialEq, Eq, Structural)]
pub struct DebuggerSignals {
    /// The process is marked as debugged.
    pub local: bool,
    /// The query for a remote debugger was answered.
    pub remote_answered: bool,
    /// The query for a remote debugger said that one is attached.
    pub remote: bool,
    /// The device object that only a debugger provides could be opened.
    pub device: bool,
}

/// The value that the operating system gives in place of a handle where
/// nothing could be opened.
pub const INVALID_HANDLE: isize = -1;

impl DebuggerSignals {
    /// Whether all signals agree that a debugger is attached.
    pub open spec fn all_agree(self) -> bool {
        self.local && self.remote_answered && self.remote && self.device
    }

    /// The signals in what the operating system's calls gave back: the flag
    /// of the local query, the status and the flag of the remote query, each
    /// raised where it is not zero, and the handle of the device object,
    /// which was opened where the handle is not the invalid one.
    pub open spec fn of_raw(local: i32, remote_status: i32, remote_flag: i32, device: isize) -> DebuggerSignals {
        DebuggerSignals {
            local: local != 0,
            remote_answered: remote_status != 0,
            remote: remote_flag != 0,
            device: device != INVALID_HANDLE,
        }
    }

    /// The signals in what the operating system's calls gave back.
    pub fn from_raw(local: i32, remote_status: i32, remote_flag: i32, device: isize) -> (signals:
        DebuggerSignals)
        ensures
            signals == DebuggerSignals::of_raw(local, remote_status, remote_flag, device),
    {
        DebuggerSignals {
            local: local != 0,
            remote_answered: remote_status != 0,
            remote: remote_flag != 0,
            device: device != INVALID_HANDLE,
        }
    }
}

/// Whether `local`, `remote` and `device` are what `DebuggerSignals::reading`
/// can have read: each query is made only where all before it said yes, and a
/// query that was not made stands as one that said no.
pub open spec fn is_debugger_reading<L: Fn() -> i32, R: Fn() -> (i32, i32), D: Fn() -> isize>(
    read_local: L,
    read_remote: R,
    read_device: D,
    local: i32,
    remote: (i32, i32),
    device: isize,
) -> bool {
    &&& read_local.ensures((), local)
    &&& if local != 0 {
        read_remote.ensures((), remote)
    } else {
        remote == (0i32, 0i32)
    }
    &&& if local != 0 && remote.0 != 0 && remote.1 != 0 {
        read_device.ensures((), device)
    } else {
        device == INVALID_HANDLE
    }
}

impl DebuggerSignals {
    /// Reads the signals one after the other and stops at the first that says
    /// no: `read_local` gives the flag of the local query, `read_remote` the
    /// status and the flag of the remote query, `read_device` the handle of
    /// the device object. The device object is opened only where both
    /// queries said that a debugger is attached.
    pub fn reading<L: Fn() -> i32, R: Fn() -> (i32, i32), D: Fn() -> isize>(
        read_local: L,
        read_remote: R,
        read_device: D,
    ) -> (signals: DebuggerSignals)
        requires
            read_local.requires(()),
            read_remote.requires(()),
            read_device.requires(()),
        ensures
            exists|local: i32, remote: (i32, i32), device: isize| #[trigger]
                is_debugger_reading(read_local, read_remote, read_device, local, remote, device)
                    && signals == DebuggerSignals::of_raw(local, remote.0, remote.1, device),
    {
        let local = read_local();
        if local == 0 {
            proof {
                assert(is_debugger_reading(
                    read_local,
                    read_remote,
                    read_device,
                    local,
                    (0i32, 0i32),
                    INVALID_HANDLE,
                ));
            }
            return DebuggerSignals::from_raw(local, 0, 0, INVALID_HANDLE);
        }
        let remote = read_remote();
        if remote.0 == 0 || remote.1 == 0 {
            proof {
                assert(is_debugger_reading(
                    read_local,
                    read_remote,
                    read_device,
                    local,
                    remote,
                    INVALID_HANDLE,
                ));
            }
            return DebuggerSignals::from_raw(local, remote.0, remote.1, INVALID_HANDLE);
        }
        let device = read_device();
        proof {
            assert(is_debugger_reading(
                read_local,
                read_remote,
                read_device,
                local,
                remote,
                device,
            ));
        }
        DebuggerSignals::from_raw(local, remote.0, remote.1, device)
    }
}

/// The debugger probe: `Positive` where all signals agree, else `Negative`.
/// One signal that says no is enough for `Negative`; the answer is never
/// `Indeterminate`.
pub fn is_debugger_present(signals: DebuggerSignals) -> (r: ProbeResult)
    ensures
        r == ProbeResult::of_flag(signals.all_agree()),
        r != ProbeResult::Indeterminate,
{
    ProbeResult::from_flag(
        signals.local && signals.remote_answered && signals.remote && signals.device,
    )
}

} // verus!
