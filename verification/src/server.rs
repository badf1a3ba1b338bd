//! The server's verified state and per-datagram decisions.  The receive
//! loop around them binds a datagram socket, reads messages with kernel
//! receive timestamps and performs the sends; this module decides what
//! each message means: whether the loop stops, whether an echo goes back,
//! and what record is published.
use vstd::prelude::*;

use crate::{ECHO_FLAG, MIN_SIZE};
use crate::codec::{spec_flags_field, spec_nsec_field, spec_sec_field, spec_seq_field};
use crate::record::{ReceivedPacket, SockAddr};
use crate::time::TimeSpec;

verus! {

/// Lifecycle misuse: the receive loop was started before the server was
/// bound.
#[derive(Clone, Copy, Debug, PartialEq, Eq, Structural)]
pub enum ServerError {
    NotConnected,
}

impl ServerError {
    /// The diagnostic text of this error.
    pub fn message(&self) -> (r: &'static str)
        ensures
            r@ == "socket not bound"@,
    {
        "socket not bound"
    }
}

/// The externally held right to stop a running server: a non-owning
/// reference to the bound descriptor, given out at most once.
pub struct CloseHandle {
    pub fd: Option<i32>,
}

impl CloseHandle {
    pub fn new(fd: i32) -> (r: CloseHandle)
        ensures
            r.fd == Some(fd),
    {
        CloseHandle { fd: Some(fd) }
    }

    /// The first call hands the descriptor out, to be shut down; every
    /// later call finds the handle empty, does nothing and reports
    /// success.
    pub fn close(&mut self) -> (r: Option<i32>)
        ensures
            final(self).fd is None,
            r == old(self).fd,
    {
        let r = self.fd;
        self.fd = None;
        r
    }
}

/// How the shutdown call on the handle's descriptor ended, as the close
/// logic reads it.
#[derive(Clone, Copy, Debug, PartialEq, Eq, Structural)]
pub enum ShutdownError {
    /// The socket was no longer connected: the server had already
    /// stopped, which close treats as success.
    NotConnected,
    /// Any other error, by its OS number.
    Other(i32),
}

/// Whether a close succeeded: a shutdown that found the socket already
/// disconnected is a success, any other error is passed on.
pub fn close_outcome(r: Option<ShutdownError>) -> (out: Result<(), i32>)
    ensures
        match out {
            Ok(_) => r is None || r == Some(ShutdownError::NotConnected),
            Err(e) => r == Some(ShutdownError::Other(e)),
        },
{
    match r {
        None => Ok(()),
        Some(ShutdownError::NotConnected) => Ok(()),
        Some(ShutdownError::Other(e)) => Err(e),
    }
}

/// The server: a bind address, the receive buffer size, where records
/// go, and the bound descriptor once there is one.
pub struct Server {
    /// The configured address; after a bind, the address actually bound,
    /// ephemeral port resolved.
    pub bind: SockAddr,
    /// Size of the receive buffer; longer datagrams are truncated.
    pub buf_size: usize,
    /// Whether records go to an in-process consumer; otherwise they are
    /// printed as text.
    pub has_logger: bool,
    /// The bound socket descriptor, once `bind` has completed.
    pub sock: Option<i32>,
}

impl Server {
    /// Configure a server; no socket is allocated yet.
    pub fn new(bind_addr: SockAddr, buf_size: usize, has_logger: bool) -> (r: Server)
        ensures
            r.bind == bind_addr,
            r.buf_size == buf_size,
            r.has_logger == has_logger,
            r.sock is None,
    {
        Server { bind: bind_addr, buf_size, has_logger, sock: None }
    }

    /// Record a completed bind: the descriptor and the address the OS
    /// actually chose (the ephemeral port when the configured port was
    /// zero) replace the configured ones, and the close handle for the
    /// descriptor is given out.
    pub fn bind(&mut self, fd: i32, actual_addr: SockAddr) -> (r: CloseHandle)
        ensures
            final(self).bind == actual_addr,
            final(self).sock == Some(fd),
            final(self).buf_size == old(self).buf_size,
            final(self).has_logger == old(self).has_logger,
            r.fd == Some(fd),
    {
        self.bind = actual_addr;
        self.sock = Some(fd);
        CloseHandle::new(fd)
    }

    /// The address the server is reachable at, known once it is bound.
    pub fn bound(&self) -> (r: Option<SockAddr>)
        ensures
            r == if self.sock is Some {
                Some(self.bind)
            } else {
                None
            },
    {
        if self.sock.is_some() {
            Some(self.bind)
        } else {
            None
        }
    }

    /// The descriptor the receive loop reads from; starting the loop
    /// before `bind` has completed is refused.
    pub fn run_fd(&self) -> (r: Result<i32, ServerError>)
        ensures
            match r {
                Ok(fd) => self.sock == Some(fd),
                Err(e) => self.sock is None && e == ServerError::NotConnected,
            },
    {
        match self.sock {
            Some(fd) => Ok(fd),
            None => Err(ServerError::NotConnected),
        }
    }
}

/// Whether a datagram of `bytes` bytes asks for an echo: it must carry
/// the whole fixed prefix and have the echo bit set.  The decision reads
/// only the raw length and the flags byte, so a packet that decodes to no
/// record is still echoed.
pub open spec fn spec_should_echo(b: Seq<u8>, bytes: int) -> bool {
    bytes >= MIN_SIZE && spec_flags_field(b) & ECHO_FLAG != 0
}

/// What the receive loop does with one message: `stop` on the zero-byte
/// message the shutdown produces; otherwise echo the received bytes
/// verbatim to their source iff the packet is long enough and asks for
/// it, and publish a record iff the message decodes to one.
pub fn handle_datagram<'a>(
    buf: &'a [u8],
    bytes: usize,
    source: Option<SockAddr>,
    receive_time: Option<TimeSpec>,
) -> (r: (bool, Option<&'a [u8]>, Option<ReceivedPacket>))
    requires
        bytes <= buf.len(),
    ensures
        r.0 == (bytes == 0),
        match r.1 {
            Some(e) => spec_should_echo(buf@, bytes as int) && e@ == buf@.subrange(
                0,
                bytes as int,
            ),
            None => !spec_should_echo(buf@, bytes as int),
        },
        match r.2 {
            Some(p) => bytes >= MIN_SIZE && source == Some(p.source) && receive_time == Some(
                p.receive_time,
            ) && p.size == bytes && p.sequence == spec_seq_field(buf@) && p.timestamp.sec
                == spec_sec_field(buf@) && p.timestamp.nsec == spec_nsec_field(buf@) && p.flags
                == spec_flags_field(buf@),
            None => bytes < MIN_SIZE || source is None || receive_time is None,
        },
{
    if bytes == 0 {
        return (true, None, None);
    }
    let echo: Option<&'a [u8]> = if bytes >= MIN_SIZE && (buf[20] & ECHO_FLAG) != 0 {
        Some(vstd::slice::slice_subrange(buf, 0, bytes))
    } else {
        None
    };
    let record = match ReceivedPacket::try_from(buf, bytes, source, receive_time) {
        Ok(p) => Some(p),
        Err(_) => None,
    };
    (false, echo, record)
}

} // verus!
