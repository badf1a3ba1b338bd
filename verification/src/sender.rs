//! The sender's framing state: one reusable zero-initialized buffer whose
//! fixed prefix is rewritten between sends.  For every directive the
//! sender frames exactly one datagram of length `min(size, buffer_size)`
//! whose sequence number equals the directive's emission index (wrapping
//! at thirty-two bits), whose timestamp is the clock value read just
//! before the send, and whose flags byte asks for an echo exactly when
//! the sender was configured to.  The surrounding loop reads the clock,
//! sleeps to the absolute target and performs the send.
use vstd::prelude::*;

use crate::{ECHO_FLAG, MIN_SIZE};
use crate::codec::{
    lemma_be32_roundtrip, lemma_be64_roundtrip, lemma_i64_bits_roundtrip, spec_be32, spec_be64,
    spec_flags_field, spec_nsec_field, spec_sec_field, spec_seq_field, write_be32, write_be64,
};
use crate::generator::PacketData;
use crate::time::{NANOS_PER_SEC, TimeSpec};

verus! {

/// The absolute time of the next send: the previous target, or the clock
/// `now` on the first directive, advanced by the directive's delay.
/// `None` exactly when no normalized value can hold the target.
pub fn next_target(t: Option<TimeSpec>, now: TimeSpec, delay: TimeSpec) -> (r: Option<TimeSpec>)
    requires
        now.wf(),
        delay.wf(),
        t is Some ==> t->0.wf(),
    ensures
        ({
            let base = match t {
                Some(x) => x.total_nanos(),
                None => now.total_nanos(),
            };
            match r {
                Some(u) => u.wf() && u.total_nanos() == base + delay.total_nanos(),
                None => base + delay.total_nanos() > i64::MAX * (NANOS_PER_SEC as int) + (
                NANOS_PER_SEC - 1) || base + delay.total_nanos() < i64::MIN * (
                NANOS_PER_SEC as int),
            }
        }),
{
    match t {
        None => now.checked_add(delay),
        Some(x) => x.checked_add(delay),
    }
}

/// The sender's reusable buffer with its bookkeeping.  The ghost
/// `emitted` counts the directives framed so far; the sequence number in
/// the buffer is always `emitted` modulo two to the thirty-second.
pub struct SenderState {
    pub buffer: Vec<u8>,
    pub seq: u32,
    pub buffer_size: usize,
    pub echo: bool,
    pub emitted: Ghost<int>,
}

impl SenderState {
    /// The flags byte every framed packet carries.
    pub open spec fn spec_flags(self) -> u8 {
        if self.echo {
            ECHO_FLAG
        } else {
            0
        }
    }

    pub open spec fn wf(self) -> bool {
        self.buffer@.len() == self.buffer_size && self.buffer_size >= MIN_SIZE && self.emitted@
            >= 0 && self.seq as int == self.emitted@ % 0x1_0000_0000 && spec_seq_field(
            self.buffer@,
        ) == self.seq && spec_flags_field(self.buffer@) == self.spec_flags()
    }

    /// A zeroed buffer of the configured size, the echo bit set in the
    /// flags byte when echoes are requested, sequence number zero.
    pub fn new(buffer_size: usize, echo: bool) -> (r: SenderState)
        requires
            buffer_size >= MIN_SIZE,
        ensures
            r.wf(),
            r.buffer_size == buffer_size,
            r.echo == echo,
            r.seq == 0,
            r.emitted@ == 0,
            forall|i: int| MIN_SIZE <= i < buffer_size ==> r.buffer@[i] == 0,
    {
        let mut buffer: Vec<u8> = Vec::new();
        let mut i: usize = 0;
        while i < buffer_size
            invariant
                0 <= i <= buffer_size,
                buffer@.len() == i,
                forall|j: int| 0 <= j < i ==> buffer@[j] == 0,
            decreases buffer_size - i,
        {
            buffer.push(0);
            i = i + 1;
        }
        if echo {
            buffer[20] = ECHO_FLAG;
        }
        proof {
            assert((((0u8 as u32) << 24) | ((0u8 as u32) << 16) | ((0u8 as u32) << 8) | (
            0u8 as u32)) == 0) by (bit_vector);
        }
        SenderState { buffer, seq: 0, buffer_size, echo, emitted: Ghost(0int) }
    }

    /// Frame the next directive: write `now` into the timestamp fields
    /// and give the number of bytes to send, the directive's size clamped
    /// to the buffer.  The framed prefix then carries the sequence number
    /// `emitted % 2^32`, the timestamp `now` and the configured flags;
    /// the padding is untouched.
    pub fn frame(&mut self, data: &PacketData, now: TimeSpec) -> (len: usize)
        requires
            old(self).wf(),
        ensures
            final(self).wf(),
            final(self).buffer_size == old(self).buffer_size,
            final(self).echo == old(self).echo,
            final(self).seq == old(self).seq,
            final(self).emitted@ == old(self).emitted@,
            final(self).buffer@.len() == old(self).buffer@.len(),
            len == if data.size < old(self).buffer_size {
                data.size as int
            } else {
                old(self).buffer_size as int
            },
            len <= final(self).buffer@.len(),
            spec_seq_field(final(self).buffer@) == old(self).emitted@ % 0x1_0000_0000,
            spec_sec_field(final(self).buffer@) == now.sec,
            spec_nsec_field(final(self).buffer@) == now.nsec,
            spec_flags_field(final(self).buffer@) == old(self).spec_flags(),
            forall|i: int|
                0 <= i < old(self).buffer@.len() && !(4 <= i < 20) ==> final(self).buffer@[i]
                    == old(self).buffer@[i],
    {
        let ghost pre = self.buffer@;
        write_be64(&mut self.buffer, 4, now.sec as u64);
        write_be64(&mut self.buffer, 12, now.nsec as u64);
        proof {
            lemma_be64_roundtrip(now.sec as u64);
            lemma_be64_roundtrip(now.nsec as u64);
            lemma_i64_bits_roundtrip(now.sec);
            lemma_i64_bits_roundtrip(now.nsec);
            assert(self.buffer@.subrange(0, 4) =~= pre.subrange(0, 4));
            assert(self.buffer@.subrange(4, 12) =~= spec_be64(now.sec as u64));
        }
        if data.size < self.buffer_size {
            data.size
        } else {
            self.buffer_size
        }
    }

    /// Step to the next directive after a send: the sequence number
    /// grows by one, wrapping, and is written back into the prefix;
    /// everything else stays.
    pub fn advance(&mut self)
        requires
            old(self).wf(),
        ensures
            final(self).wf(),
            final(self).buffer_size == old(self).buffer_size,
            final(self).echo == old(self).echo,
            final(self).emitted@ == old(self).emitted@ + 1,
            final(self).buffer@.len() == old(self).buffer@.len(),
            forall|i: int|
                4 <= i < old(self).buffer@.len() ==> final(self).buffer@[i] == old(
                    self,
                ).buffer@[i],
    {
        let ghost pre = self.buffer@;
        self.seq = self.seq.wrapping_add(1);
        proof {
            vstd::arithmetic::div_mod::lemma_add_mod_noop(
                old(self).emitted@,
                1,
                0x1_0000_0000,
            );
        }
        self.emitted = Ghost(self.emitted@ + 1);
        write_be32(&mut self.buffer, 0, self.seq);
        proof {
            lemma_be32_roundtrip(self.seq);
            assert(self.buffer@.subrange(0, 4) =~= spec_be32(self.seq));
        }
    }
}

} // verus!
