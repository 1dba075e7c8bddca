use vstd::prelude::*;

verus! {

/// Win32 error codes that the device code tells apart.
pub const ERROR_FILE_NOT_FOUND: u32 = 2;
pub const ERROR_SHARING_VIOLATION: u32 = 32;
pub const ERROR_INSUFFICIENT_BUFFER: u32 = 122;
pub const WAIT_TIMEOUT: u32 = 258;
pub const ERROR_NO_MORE_ITEMS: u32 = 259;
pub const ERROR_IO_INCOMPLETE: u32 = 996;
pub const ERROR_IO_PENDING: u32 = 997;
pub const ERROR_DEVICE_NOT_CONNECTED: u32 = 1167;
pub const ERROR_NOT_FOUND: u32 = 1168;

/// What went wrong with a device.
#[derive(Clone, Copy, PartialEq, Eq, Structural, Debug)]
pub enum ErrorKind {
    DeviceNotConnected,
    DeviceInUse,
    TimedOut,
    /// Any other failure of the system; its code says more.
    Os,
}

/// The error of a device that could not be opened.
pub fn open_error(code: u32) -> (r: ErrorKind)
    ensures
        r == (if code == ERROR_FILE_NOT_FOUND {
            ErrorKind::DeviceNotConnected
        } else if code == ERROR_SHARING_VIOLATION {
            ErrorKind::DeviceInUse
        } else {
            ErrorKind::Os
        }),
{
    if code == ERROR_FILE_NOT_FOUND {
        ErrorKind::DeviceNotConnected
    } else if code == ERROR_SHARING_VIOLATION {
        ErrorKind::DeviceInUse
    } else {
        ErrorKind::Os
    }
}

/// The error of a device that could not be probed while listing devices.
pub fn probe_error(code: u32) -> (r: ErrorKind)
    ensures
        r == (if code == ERROR_SHARING_VIOLATION {
            ErrorKind::DeviceInUse
        } else {
            ErrorKind::Os
        }),
{
    if code == ERROR_SHARING_VIOLATION {
        ErrorKind::DeviceInUse
    } else {
        ErrorKind::Os
    }
}

/// The error of a failed read or write, and whether the device must be
/// closed: it is, once it is gone.
pub fn io_error(code: u32) -> (r: (ErrorKind, bool))
    ensures
        r == (if code == ERROR_DEVICE_NOT_CONNECTED {
            (ErrorKind::DeviceNotConnected, true)
        } else {
            (ErrorKind::Os, false)
        }),
{
    if code == ERROR_DEVICE_NOT_CONNECTED {
        (ErrorKind::DeviceNotConnected, true)
    } else {
        (ErrorKind::Os, false)
    }
}

/// What a read does once it has started.
#[derive(Clone, Copy, Debug)]
pub enum ReadStep {
    /// The read is over, with this result.
    Done(Result<(), ErrorKind>),
    /// The read is still under way: wait for it.
    Wait,
    /// The wait is over without a result: cancel the read.
    Cancel,
    /// The read had finished before it could be cancelled: take its result.
    Collect,
}

/// The step after a read was started: `code` is `None` where it completed at once.
pub fn read_started(code: Option<u32>) -> (r: (ReadStep, bool))
    ensures
        r == match code {
            None => (ReadStep::Done(Ok(())), false),
            Some(c) => if c == ERROR_IO_PENDING {
                (ReadStep::Wait, false)
            } else {
                (ReadStep::Done(Err(io_error_kind(c))), c == ERROR_DEVICE_NOT_CONNECTED)
            },
        },
{
    match code {
        None => (ReadStep::Done(Ok(())), false),
        Some(c) => if c == ERROR_IO_PENDING {
            (ReadStep::Wait, false)
        } else {
            let (kind, close) = io_error(c);
            (ReadStep::Done(Err(kind)), close)
        },
    }
}

pub open spec fn io_error_kind(code: u32) -> ErrorKind {
    if code == ERROR_DEVICE_NOT_CONNECTED {
        ErrorKind::DeviceNotConnected
    } else {
        ErrorKind::Os
    }
}

/// The step after waiting on a read: a timeout, or a read still incomplete
/// after a wait of no time, leads to its cancellation.
pub fn read_waited(code: Option<u32>) -> (r: (ReadStep, bool))
    ensures
        r == match code {
            None => (ReadStep::Done(Ok(())), false),
            Some(c) => if c == WAIT_TIMEOUT || c == ERROR_IO_INCOMPLETE {
                (ReadStep::Cancel, false)
            } else {
                (ReadStep::Done(Err(io_error_kind(c))), c == ERROR_DEVICE_NOT_CONNECTED)
            },
        },
{
    match code {
        None => (ReadStep::Done(Ok(())), false),
        Some(c) => if c == WAIT_TIMEOUT || c == ERROR_IO_INCOMPLETE {
            (ReadStep::Cancel, false)
        } else {
            let (kind, close) = io_error(c);
            (ReadStep::Done(Err(kind)), close)
        },
    }
}

/// The step after cancelling a read: a cancelled read timed out; a read
/// that was already over is collected.
pub fn read_cancelled(code: Option<u32>) -> (r: ReadStep)
    ensures
        r == match code {
            None => ReadStep::Done(Err(ErrorKind::TimedOut)),
            Some(c) => if c == ERROR_NOT_FOUND {
                ReadStep::Collect
            } else {
                ReadStep::Done(Err(ErrorKind::Os))
            },
        },
{
    match code {
        None => ReadStep::Done(Err(ErrorKind::TimedOut)),
        Some(c) => if c == ERROR_NOT_FOUND {
            ReadStep::Collect
        } else {
            ReadStep::Done(Err(ErrorKind::Os))
        },
    }
}

/// A wait of `millis` milliseconds as the system takes it: longer waits
/// are infinite.
pub fn wait_millis(millis: u128) -> (r: u32)
    ensures
        r == (if millis < 0xFFFF_FFFF {
            millis as u32
        } else {
            0xFFFF_FFFFu32
        }),
{
    if millis < 0xFFFF_FFFF {
        millis as u32
    } else {
        0xFFFF_FFFF
    }
}

} // verus!
