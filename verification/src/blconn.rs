//! The value-level side of the radio socket connector. The raw socket and
//! the kernel's address structure live outside the crate; this module holds
//! the validated connection parameters and the check every socket call's
//! return value goes through.

use vstd::prelude::*;

use crate::address::Address;

verus! {

/// A connect target: the device address and the service identifier of the
/// logical channel to open. The caller lays this out in the kernel's raw
/// address structure, with every other field zeroed.
#[derive(Debug, Clone, Copy)]
pub struct L2CapAddr {
    pub addr: Address,
    pub psm: u16,
}

impl L2CapAddr {
    pub fn new(addr: Address, psm: u16) -> (r: Self)
        ensures
            r.addr == addr,
            r.psm == psm,
    {
        L2CapAddr { addr, psm }
    }
}

/// A socket call signalled failure; the operating system's error code is
/// read by the caller, which alone can see it.
#[derive(Debug, Clone, Copy, PartialEq, Eq, Structural)]
pub struct SyscallFailed;

/// A negative return from a socket call is a failure; anything else is the
/// call's result, passed through unchanged.
pub fn checkerr(err: i32) -> (r: Result<i32, SyscallFailed>)
    ensures
        r == if err < 0 {
            Err::<i32, SyscallFailed>(SyscallFailed)
        } else {
            Ok::<i32, SyscallFailed>(err)
        },
{
    if err < 0 {
        Err(SyscallFailed)
    } else {
        Ok(err)
    }
}

} // verus!
