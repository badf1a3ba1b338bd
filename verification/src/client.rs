//! The client-side receive path: what the echo reader does with each
//! message, and the size check at the submission boundary.  The reader's
//! loop blocks on the socket and feeds each result in as plain values;
//! stopping, skipping and publishing are decided here.
use vstd::prelude::*;

use crate::MIN_SIZE;
use crate::codec::{spec_flags_field, spec_nsec_field, spec_sec_field, spec_seq_field};
use crate::record::{ReceivedPacket, SockAddr};
use crate::time::TimeSpec;

verus! {

/// A size that cannot be submitted: below the wire minimum or above the
/// sender's buffer.
#[derive(Clone, Copy, Debug, PartialEq, Eq, Structural)]
pub enum SizeError {
    TooLarge,
    TooSmall,
}

impl SizeError {
    /// The diagnostic text of this error.
    pub fn message(&self) -> (r: &'static str)
        ensures
            match self {
                SizeError::TooLarge => r@ == "size too large, increase buffer_size"@,
                SizeError::TooSmall => r@ == "size smaller than minimum"@,
            },
    {
        match self {
            SizeError::TooLarge => "size too large, increase buffer_size",
            SizeError::TooSmall => "size smaller than minimum",
        }
    }
}

/// The check at the submission boundary: a directive's size must reach
/// the wire minimum and fit the configured buffer.  The sender itself
/// trusts its input; only submission rejects.
pub fn check_put_size(size: usize, buffer_size: usize) -> (r: Result<(), SizeError>)
    ensures
        match r {
            Ok(_) => MIN_SIZE <= size <= buffer_size,
            Err(SizeError::TooLarge) => size > buffer_size,
            Err(SizeError::TooSmall) => size <= buffer_size && size < MIN_SIZE,
        },
{
    if size > buffer_size {
        Err(SizeError::TooLarge)
    } else if size < MIN_SIZE {
        Err(SizeError::TooSmall)
    } else {
        Ok(())
    }
}

/// What the echo reader does with one received message: stop on the
/// zero-byte message that the read-shutdown produces; otherwise publish
/// a record exactly when the message decodes to one and its source is
/// the configured server.  Anything else — too short, no source, no
/// receive time, or a foreign source — is skipped in silence.
pub fn handle_echo(
    buf: &[u8],
    bytes: usize,
    source: Option<SockAddr>,
    receive_time: Option<TimeSpec>,
    server: SockAddr,
) -> (r: (bool, Option<ReceivedPacket>))
    requires
        bytes <= buf.len(),
    ensures
        r.0 == (bytes == 0),
        match r.1 {
            Some(p) => bytes >= MIN_SIZE && p.source == server && source == Some(p.source)
                && receive_time == Some(p.receive_time) && p.size == bytes && p.sequence
                == spec_seq_field(buf@) && p.timestamp.sec == spec_sec_field(buf@)
                && p.timestamp.nsec == spec_nsec_field(buf@) && p.flags == spec_flags_field(buf@),
            None => bytes < MIN_SIZE || source is None || receive_time is None || source != Some(
                server,
            ),
        },
{
    if bytes == 0 {
        return (true, None);
    }
    match ReceivedPacket::try_from(buf, bytes, source, receive_time) {
        Err(_) => (false, None),
        Ok(p) => {
            let keep = p.source == server;
            if keep {
                (false, Some(p))
            } else {
                (false, None)
            }
        },
    }
}

} // verus!
