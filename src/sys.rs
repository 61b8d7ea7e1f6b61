//! Translation of raw socket-call results, shared by every socket operation.

use vstd::prelude::*;
use crate::addr::{SocketAddr, SOCKADDR_IN_LEN, SOCKADDR_IN6_LEN, decoded, raw2addr};

verus! {

/// The error of a failed socket call: the operating system's error number.
#[derive(Clone, Copy, Debug, PartialEq, Eq, Hash)]
pub struct OsError {
    pub code: i32,
}

impl OsError {
    pub fn from_raw_os_error(code: i32) -> (r: OsError)
        ensures
            r.code == code,
    {
        OsError { code }
    }

    pub fn raw_os_error(&self) -> (r: i32)
        ensures
            r == self.code,
    {
        self.code
    }
}

/// What a socket call that returned `ret` amounts to, where `errno` is the
/// error number that the system held right after the call.
pub open spec fn cvt_spec(ret: i32, errno: i32) -> Result<i32, OsError> {
    if ret == -1 {
        Err(OsError { code: errno })
    } else {
        Ok(ret)
    }
}

/// Turns the return value of a socket call into a result: `-1` is failure,
/// with the error number `errno`; any other value is success and is kept.
pub fn cvt(ret: i32, errno: i32) -> (r: Result<i32, OsError>)
    ensures
        r == cvt_spec(ret, errno),
        r is Err <==> ret == -1,
{
    if ret == -1 {
        Err(OsError { code: errno })
    } else {
        Ok(ret)
    }
}

/// The peer address that a `getpeername` call reports: its failure, or the
/// address in the first `len` bytes of the buffer that it filled.
pub fn peer_addr_from(ret: i32, errno: i32, raw: &[u8], len: u32) -> (r: Result<
    SocketAddr,
    OsError,
>)
    requires
        ret != -1 ==> (len == SOCKADDR_IN_LEN || len == SOCKADDR_IN6_LEN) && len <= raw@.len(),
    ensures
        ret == -1 ==> r == Err::<SocketAddr, OsError>(OsError { code: errno }),
        ret != -1 ==> r == Ok::<SocketAddr, OsError>(decoded(raw@, len)),
{
    match cvt(ret, errno) {
        Err(e) => Err(e),
        Ok(_) => Ok(raw2addr(raw, len)),
    }
}

} // verus!
