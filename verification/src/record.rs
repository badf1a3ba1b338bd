//! Records of received packets: the decoded fields together with what
//! the receive path observed (source address, kernel receive timestamp,
//! byte count), and the tab-separated text line a record is reported as.
use vstd::prelude::*;

use crate::MIN_SIZE;
use crate::codec::{
    decode_packet, spec_flags_field, spec_nsec_field, spec_sec_field, spec_seq_field,
};
use crate::time::TimeSpec;
use vstd::string::StringSliceAdditionalSpecFns;

verus! {

/// A socket address held as plain values: the numeric IP and the port.
#[derive(Clone, Copy, Debug, PartialEq, Eq, Structural)]
pub enum SockAddr {
    V4 { ip: u32, port: u16 },
    V6 { ip: u128, port: u16 },
}

impl SockAddr {
    pub open spec fn spec_port(self) -> u16 {
        match self {
            SockAddr::V4 { port, .. } => port,
            SockAddr::V6 { port, .. } => port,
        }
    }

    pub fn port(&self) -> (r: u16)
        ensures
            r == self.spec_port(),
    {
        match self {
            SockAddr::V4 { port, .. } => *port,
            SockAddr::V6 { port, .. } => *port,
        }
    }
}

/// Why a received message does not make a record.  Each case is skipped
/// by the receive loops; none of them stops a receiver.
#[derive(Clone, Copy, Debug, PartialEq, Eq, Structural)]
pub enum DecodeError {
    /// Fewer bytes than the fixed prefix.
    TooSmall,
    /// The receive operation exposed no peer address.
    NoSourceAddress,
    /// No nanosecond receive-timestamp ancillary data was attached.
    NoReceiveTime,
}

impl DecodeError {
    /// The diagnostic text of this error.
    pub fn message(&self) -> (r: &'static str)
        ensures
            match self {
                DecodeError::TooSmall => r@ == "packet too small"@,
                DecodeError::NoSourceAddress => r@ == "no source address"@,
                DecodeError::NoReceiveTime => r@ == "no receive time data"@,
            },
    {
        match self {
            DecodeError::TooSmall => "packet too small",
            DecodeError::NoSourceAddress => "no source address",
            DecodeError::NoReceiveTime => "no receive time data",
        }
    }
}

/// A received packet: where it came from, when the kernel saw it, how
/// long it was, and the fields decoded from its fixed prefix.
#[derive(Clone, Copy, Debug, PartialEq, Eq, Structural)]
pub struct ReceivedPacket {
    /// Where the packet was received from: the client on the server
    /// side, the server for echo packets received by the client.
    pub source: SockAddr,
    /// Time the packet was received, from the kernel's ancillary data.
    pub receive_time: TimeSpec,
    /// Length of the datagram in bytes.
    pub size: usize,
    /// Sequence number recorded in the packet.
    pub sequence: u32,
    /// Send timestamp recorded in the packet.
    pub timestamp: TimeSpec,
    /// Flags recorded in the packet.
    pub flags: u8,
}

impl ReceivedPacket {
    /// Build a record from what one receive operation yielded: the
    /// buffer, the number of bytes the datagram carried, and the source
    /// address and kernel receive timestamp when they were exposed.
    /// Too few bytes, a missing source, and a missing timestamp are the
    /// three errors, checked in that order.
    pub fn try_from(
        data: &[u8],
        bytes: usize,
        source: Option<SockAddr>,
        receive_time: Option<TimeSpec>,
    ) -> (r: Result<ReceivedPacket, DecodeError>)
        requires
            bytes <= data.len(),
        ensures
            match r {
                Err(DecodeError::TooSmall) => bytes < MIN_SIZE,
                Err(DecodeError::NoSourceAddress) => bytes >= MIN_SIZE && source is None,
                Err(DecodeError::NoReceiveTime) => bytes >= MIN_SIZE && source is Some
                    && receive_time is None,
                Ok(p) => bytes >= MIN_SIZE && source == Some(p.source) && receive_time == Some(
                    p.receive_time,
                ) && p.size == bytes && p.sequence == spec_seq_field(data@) && p.timestamp.sec
                    == spec_sec_field(data@) && p.timestamp.nsec == spec_nsec_field(data@)
                    && p.flags == spec_flags_field(data@),
            },
    {
        if bytes < MIN_SIZE {
            return Err(DecodeError::TooSmall);
        }
        let src = match source {
            None => {
                return Err(DecodeError::NoSourceAddress);
            },
            Some(s) => s,
        };
        let rtime = match receive_time {
            None => {
                return Err(DecodeError::NoReceiveTime);
            },
            Some(t) => t,
        };
        let (sequence, sec, nsec, flags) = decode_packet(data);
        Ok(
            ReceivedPacket {
                source: src,
                receive_time: rtime,
                size: bytes,
                sequence,
                timestamp: TimeSpec { sec, nsec },
                flags,
            },
        )
    }

    /// The column names of the text report, in the order the fields are
    /// printed.
    pub fn header() -> (r: &'static str)
        ensures
            r@ == "receive_time\tsource\tport\tsequence\ttimestamp\tsize"@,
    {
        "receive_time\tsource\tport\tsequence\ttimestamp\tsize"
    }
}

/// The decimal digits of a nonnegative number, most significant first.
pub open spec fn spec_udec(n: int) -> Seq<u8>
    recommends
        n >= 0,
    decreases n,
{
    if n < 10 {
        seq![(48 + n) as u8]
    } else {
        spec_udec(n / 10).push((48 + n % 10) as u8)
    }
}

/// A signed number in decimal, with a leading minus sign if negative.
pub open spec fn spec_idec(n: int) -> Seq<u8> {
    if n < 0 {
        seq![45u8] + spec_udec(-n)
    } else {
        spec_udec(n)
    }
}

pub open spec fn spec_zeros(k: int) -> Seq<u8> {
    if k <= 0 {
        Seq::empty()
    } else {
        Seq::new(k as nat, |i: int| 48u8)
    }
}

/// A signed number padded with leading zeros to at least nine
/// characters, the sign counted as one of them.
pub open spec fn spec_pad9(n: int) -> Seq<u8> {
    if n < 0 {
        seq![45u8] + spec_zeros(8 - spec_udec(-n).len()) + spec_udec(-n)
    } else {
        spec_zeros(9 - spec_udec(n).len()) + spec_udec(n)
    }
}

/// Append the decimal digits of `n`.
pub fn push_u64_dec(out: &mut Vec<u8>, n: u64)
    ensures
        final(out)@ == old(out)@ + spec_udec(n as int),
    decreases n,
{
    if n < 10 {
        out.push(48 + n as u8);
    } else {
        push_u64_dec(out, n / 10);
        out.push(48 + (n % 10) as u8);
    }
    proof {
        assert(out@ =~= old(out)@ + spec_udec(n as int));
    }
}

/// The magnitude of `n` as an unsigned number.
fn abs_u64(n: i64) -> (r: u64)
    ensures
        r == if n < 0 {
            -(n as int)
        } else {
            n as int
        },
{
    if n >= 0 {
        n as u64
    } else {
        ((-(n + 1)) as u64) + 1
    }
}

/// Append `n` in decimal, with a minus sign if negative.
pub fn push_i64_dec(out: &mut Vec<u8>, n: i64)
    ensures
        final(out)@ == old(out)@ + spec_idec(n as int),
{
    if n < 0 {
        out.push(45);
        push_u64_dec(out, abs_u64(n));
    } else {
        push_u64_dec(out, n as u64);
    }
    proof {
        assert(out@ =~= old(out)@ + spec_idec(n as int));
    }
}

/// Append `n` zero-padded to nine characters, as the nanosecond columns
/// are printed.
pub fn push_pad9(out: &mut Vec<u8>, n: i64)
    ensures
        final(out)@ == old(out)@ + spec_pad9(n as int),
{
    let mut digits: Vec<u8> = Vec::new();
    let width: usize;
    if n < 0 {
        out.push(45);
        push_u64_dec(&mut digits, abs_u64(n));
        width = 8;
    } else {
        push_u64_dec(&mut digits, n as u64);
        width = 9;
    }
    let mut pad: usize = 0;
    let ghost target = if digits@.len() < width {
        width - digits@.len()
    } else {
        0
    };
    while pad + digits.len() < width
        invariant
            0 <= pad <= target,
            target == if digits@.len() < width {
                width - digits@.len()
            } else {
                0
            },
            out@ == old(out)@ + (if n < 0 {
                seq![45u8]
            } else {
                Seq::<u8>::empty()
            }) + spec_zeros(pad as int),
            digits@ == spec_udec(
                if n < 0 {
                    -(n as int)
                } else {
                    n as int
                },
            ),
        decreases width - pad - digits@.len(),
    {
        out.push(48);
        proof {
            assert(spec_zeros(pad + 1) =~= spec_zeros(pad as int).push(48u8));
        }
        pad = pad + 1;
    }
    let mut d = digits;
    out.append(&mut d);
    proof {
        assert(spec_zeros(target as int) =~= spec_zeros(
            (if n < 0 {
                8int
            } else {
                9int
            }) - spec_udec(
                if n < 0 {
                    -(n as int)
                } else {
                    n as int
                },
            ).len(),
        ));
        assert(out@ =~= old(out)@ + spec_pad9(n as int));
    }
}

/// Append the bytes of `data`.
pub fn push_bytes(out: &mut Vec<u8>, data: &[u8])
    ensures
        final(out)@ == old(out)@ + data@,
{
    let mut i: usize = 0;
    while i < data.len()
        invariant
            0 <= i <= data@.len(),
            out@ == old(out)@ + data@.subrange(0, i as int),
        decreases data@.len() - i,
    {
        out.push(data[i]);
        proof {
            assert(data@.subrange(0, i + 1) =~= data@.subrange(0, i as int).push(data@[i as int]));
        }
        i = i + 1;
    }
    proof {
        assert(data@.subrange(0, data@.len() as int) =~= data@);
    }
}

/// The text line of a record: kernel receive time, source IP and port,
/// sequence number, send timestamp and size, tab-separated, with both
/// times printed as seconds, a dot, and nine nanosecond digits.
pub open spec fn spec_record_line(p: ReceivedPacket, ip: Seq<u8>) -> Seq<u8> {
    spec_idec(p.receive_time.sec as int) + seq![46u8] + spec_pad9(p.receive_time.nsec as int)
        + seq![9u8] + ip + seq![9u8] + spec_udec(p.source.spec_port() as int) + seq![9u8]
        + spec_udec(p.sequence as int) + seq![9u8] + spec_idec(p.timestamp.sec as int)
        + seq![46u8] + spec_pad9(p.timestamp.nsec as int) + seq![9u8] + spec_udec(p.size as int)
}

impl ReceivedPacket {
    /// Render the record as its report line.  The textual form of the
    /// source IP is passed in; everything else comes from the record.
    pub fn format_line(&self, ip_text: &str) -> (r: Vec<u8>)
        ensures
            r@ == spec_record_line(*self, ip_text.spec_bytes()),
    {
        let mut out: Vec<u8> = Vec::new();
        push_i64_dec(&mut out, self.receive_time.sec);
        out.push(46);
        push_pad9(&mut out, self.receive_time.nsec);
        out.push(9);
        push_bytes(&mut out, ip_text.as_bytes());
        out.push(9);
        push_u64_dec(&mut out, self.source.port() as u64);
        out.push(9);
        push_u64_dec(&mut out, self.sequence as u64);
        out.push(9);
        push_i64_dec(&mut out, self.timestamp.sec);
        out.push(46);
        push_pad9(&mut out, self.timestamp.nsec);
        out.push(9);
        push_u64_dec(&mut out, self.size as u64);
        proof {
            assert(out@ =~= spec_record_line(*self, ip_text.spec_bytes()));
        }
        out
    }
}

} // verus!
