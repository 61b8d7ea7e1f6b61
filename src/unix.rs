//! Unix-specific socket options of the socket builders.

use vstd::prelude::*;

verus! {

/// The socket-level option namespace (Linux's number).
pub const SOL_SOCKET: i32 = 1;

/// The option that lets later binds reuse a local port (Linux's number).
pub const SO_REUSEPORT: i32 = 15;

/// A request to set an integer socket option: what a `setsockopt` call on
/// descriptor `fd` with the namespace `level`, the option `name` and the
/// value `value` does.
#[derive(Clone, Copy, Debug, PartialEq, Eq, Hash)]
pub struct SetOpt {
    pub fd: i32,
    pub level: i32,
    pub name: i32,
    pub value: i32,
}

/// The integer that stands for a boolean option value.
pub open spec fn bool_opt(b: bool) -> i32 {
    if b {
        1
    } else {
        0
    }
}

/// The request that sets `SO_REUSEPORT` on `fd` to `reuse`.
pub open spec fn reuse_port_spec(fd: i32, reuse: bool) -> SetOpt {
    SetOpt { fd, level: SOL_SOCKET, name: SO_REUSEPORT, value: bool_opt(reuse) }
}

/// The request that sets `SO_REUSEPORT` on `fd` to `reuse`.
pub fn reuse_port_opt(fd: i32, reuse: bool) -> (r: SetOpt)
    ensures
        r == reuse_port_spec(fd, reuse),
{
    SetOpt { fd, level: SOL_SOCKET, name: SO_REUSEPORT, value: if reuse { 1 } else { 0 } }
}

/// The option values of a socket after `o` took effect on it, where `opts`
/// maps each (namespace, option) pair to its value before.
pub open spec fn with_opt(opts: Map<(i32, i32), i32>, o: SetOpt) -> Map<(i32, i32), i32> {
    opts.insert((o.level, o.name), o.value)
}

/// Setting the reuse option twice to one value leaves the socket's options
/// as setting it once does.
pub proof fn lemma_reuse_port_idempotent(opts: Map<(i32, i32), i32>, fd: i32, reuse: bool)
    ensures
        with_opt(with_opt(opts, reuse_port_spec(fd, reuse)), reuse_port_spec(fd, reuse))
            == with_opt(opts, reuse_port_spec(fd, reuse)),
        with_opt(opts, reuse_port_spec(fd, reuse))[(SOL_SOCKET, SO_REUSEPORT)] == bool_opt(reuse),
{
    let once = with_opt(opts, reuse_port_spec(fd, reuse));
    assert(with_opt(once, reuse_port_spec(fd, reuse)) =~= once);
}

/// A TCP socket under construction, by its descriptor.
#[derive(Clone, Copy, Debug, PartialEq, Eq, Hash)]
pub struct TcpBuilder {
    pub fd: i32,
}

/// A UDP socket under construction, by its descriptor.
#[derive(Clone, Copy, Debug, PartialEq, Eq, Hash)]
pub struct UdpBuilder {
    pub fd: i32,
}

impl TcpBuilder {
    pub fn new(fd: i32) -> (r: TcpBuilder)
        ensures
            r.fd == fd,
    {
        TcpBuilder { fd }
    }

    pub fn raw(&self) -> (r: i32)
        ensures
            r == self.fd,
    {
        self.fd
    }
}

impl UdpBuilder {
    pub fn new(fd: i32) -> (r: UdpBuilder)
        ensures
            r.fd == fd,
    {
        UdpBuilder { fd }
    }

    pub fn raw(&self) -> (r: i32)
        ensures
            r == self.fd,
    {
        self.fd
    }
}

/// Unix-specific extensions of `TcpBuilder`.
pub trait UnixTcpBuilderExt {
    spec fn raw_fd(&self) -> i32;

    /// The `SO_REUSEPORT` setting of this socket: with it, further binds may
    /// reuse local addresses; an IPv4 socket may bind even where a socket
    /// already listens on the port.
    fn reuse_port(&self, reuse: bool) -> (r: SetOpt)
        ensures
            r == reuse_port_spec(self.raw_fd(), reuse),
    ;
}

/// Unix-specific extensions of `UdpBuilder`.
pub trait UnixUdpBuilderExt {
    spec fn raw_fd(&self) -> i32;

    /// The `SO_REUSEPORT` setting of this socket: with it, further binds may
    /// reuse local addresses.
    fn reuse_port(&self, reuse: bool) -> (r: SetOpt)
        ensures
            r == reuse_port_spec(self.raw_fd(), reuse),
    ;
}

impl UnixTcpBuilderExt for TcpBuilder {
    open spec fn raw_fd(&self) -> i32 {
        self.fd
    }

    fn reuse_port(&self, reuse: bool) -> (r: SetOpt) {
        reuse_port_opt(self.fd, reuse)
    }
}

impl UnixUdpBuilderExt for UdpBuilder {
    open spec fn raw_fd(&self) -> i32 {
        self.fd
    }

    fn reuse_port(&self, reuse: bool) -> (r: SetOpt) {
        reuse_port_opt(self.fd, reuse)
    }
}

} // verus!
