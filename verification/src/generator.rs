//! Workload generators: a finite, lazy sequence of `(delay, size)`
//! directives for the sender.  The built-in variants are a fixed-size,
//! fixed-interval stream and one whose size doubles up to a bound and
//! halves back down.  Each variant reads only the option keys it knows;
//! a value that does not parse is reported under its key.
use vstd::prelude::*;

use crate::MIN_SIZE;
use crate::options::{
    InvalidOption, dec_val, frac_part, frac_part_val, int_part, int_part_val,
    interval_key_count, opt_get, opt_has, opt_value, parse_interval, parse_u64,
    second_interval_key, u64_digits, valid_timespec_str, valid_u64_str,
};
use crate::time::TimeSpec;

verus! {

/// One scheduling directive: wait `delay`, then send `size` bytes.
#[derive(Clone, Copy, Debug, PartialEq, Eq, Structural)]
pub struct PacketData {
    pub delay: TimeSpec,
    pub size: usize,
}

/// The built-in generator variants.
#[derive(Clone, Copy, Debug, PartialEq, Eq, Structural)]
pub enum Generator {
    /// Fixed size and fixed interval; by default ten packets of the
    /// minimum size, half a second apart.
    Default,
    /// Size doubling from the minimum up to `max-size` and halving back
    /// down; by default twenty packets, a millisecond apart.
    Vary,
}

/// The key is absent, or its value is a plain decimal that fits `u64`.
pub open spec fn u64_opt_ok(o: Seq<(String, String)>, key: Seq<char>) -> bool {
    !opt_has(o, key) || valid_u64_str(opt_value(o, key))
}

/// The key's value, or the default when the key is absent.
pub open spec fn u64_opt_or(o: Seq<(String, String)>, key: Seq<char>, d: int) -> int {
    if opt_has(o, key) {
        dec_val(u64_digits(opt_value(o, key)))
    } else {
        d
    }
}

/// The key is absent, or its value is a decimal that fits `usize`.
pub open spec fn usize_opt_ok(o: Seq<(String, String)>, key: Seq<char>) -> bool {
    !opt_has(o, key) || (valid_u64_str(opt_value(o, key)) && dec_val(u64_digits(opt_value(o, key)))
        <= usize::MAX)
}

/// The time-unit options are consistent: none of the four keys, or a
/// single one whose value parses.
pub open spec fn valid_interval_opts(o: Seq<(String, String)>) -> bool {
    interval_key_count(o) == 0 || (interval_key_count(o) == 1 && (if opt_has(o, "msec"@) {
        valid_u64_str(opt_value(o, "msec"@))
    } else if opt_has(o, "usec"@) {
        valid_u64_str(opt_value(o, "usec"@))
    } else if opt_has(o, "nsec"@) {
        valid_u64_str(opt_value(o, "nsec"@))
    } else {
        valid_timespec_str(opt_value(o, "interval"@))
    }))
}

/// The key an interval configuration error is reported under: the
/// second clashing key, or the single key whose value failed to parse.
pub open spec fn interval_err_key(o: Seq<(String, String)>) -> Seq<char> {
    if interval_key_count(o) >= 2 {
        second_interval_key(o)
    } else if opt_has(o, "msec"@) {
        "msec"@
    } else if opt_has(o, "usec"@) {
        "usec"@
    } else if opt_has(o, "nsec"@) {
        "nsec"@
    } else {
        "interval"@
    }
}

/// The configured interval in nanoseconds, or the default when no
/// time-unit key is present.
pub open spec fn spec_interval_nanos(o: Seq<(String, String)>, d: int) -> int {
    if interval_key_count(o) == 0 {
        d
    } else if opt_has(o, "msec"@) {
        dec_val(u64_digits(opt_value(o, "msec"@))) * 1_000_000
    } else if opt_has(o, "usec"@) {
        dec_val(u64_digits(opt_value(o, "usec"@))) * 1000
    } else if opt_has(o, "nsec"@) {
        dec_val(u64_digits(opt_value(o, "nsec"@)))
    } else {
        int_part_val(int_part(opt_value(o, "interval"@))) * 1_000_000_000 + frac_part_val(
            frac_part(opt_value(o, "interval"@)),
        )
    }
}

/// All options of the fixed-size generator parse.
pub open spec fn gen_default_opts_ok(o: Seq<(String, String)>) -> bool {
    u64_opt_ok(o, "count"@) && usize_opt_ok(o, "size"@) && valid_interval_opts(o)
}

/// All options of the varying-size generator parse.
pub open spec fn gen_vary_opts_ok(o: Seq<(String, String)>) -> bool {
    u64_opt_ok(o, "count"@) && valid_interval_opts(o) && usize_opt_ok(o, "max-size"@)
}

/// The size the varying generator emits in a given state.
pub open spec fn vary_emit(size: int, max: int) -> int {
    if size < max {
        size
    } else {
        max
    }
}

/// The raw size after one varying step: double while growing (held at
/// the machine bound), halve down to the minimum while shrinking.
pub open spec fn vary_next_size(size: int, grow: bool) -> int {
    if grow {
        if 2 * size > usize::MAX {
            usize::MAX as int
        } else {
            2 * size
        }
    } else {
        if size / 2 < MIN_SIZE {
            MIN_SIZE as int
        } else {
            size / 2
        }
    }
}

/// Whether the varying generator keeps growing after one step.
pub open spec fn vary_next_grow(size: int, grow: bool, max: int) -> bool {
    if grow {
        vary_next_size(size, grow) < max
    } else {
        vary_next_size(size, grow) <= MIN_SIZE
    }
}

/// The varying sizes oscillate between the wire minimum and the bound:
/// whatever the raw state, the emitted size never leaves that band, and
/// one step never takes the raw size below the minimum.
pub proof fn lemma_vary_size_bounds(size: int, grow: bool, max: int)
    requires
        size >= MIN_SIZE,
        max >= MIN_SIZE,
    ensures
        MIN_SIZE <= vary_emit(size, max) <= max,
        vary_next_size(size, grow) >= MIN_SIZE,
{
}

/// The lazy stream of directives a generator produces: the consumer
/// pulls one directive at a time until the count runs out.
#[derive(Clone, Copy, Debug, PartialEq, Eq, Structural)]
pub struct PacketStream {
    /// Directives still to be emitted.
    pub remaining: u64,
    /// The interval before each packet.
    pub delay: TimeSpec,
    /// Whether the size varies; fixed otherwise.
    pub vary: bool,
    /// The fixed size, or the varying raw size.
    pub size: usize,
    /// Varying only: whether the size is on its way up.
    pub grow: bool,
    /// Varying only: the bound the emitted size is clamped to.
    pub max_size: usize,
}

impl PacketStream {
    pub open spec fn wf(self) -> bool {
        self.delay.wf() && (self.vary ==> self.size >= MIN_SIZE)
    }

    /// The next directive, or `None` once the stream is exhausted.
    pub fn next(&mut self) -> (r: Option<PacketData>)
        requires
            old(self).wf(),
        ensures
            final(self).wf(),
            final(self).vary == old(self).vary,
            final(self).delay == old(self).delay,
            final(self).max_size == old(self).max_size,
            match r {
                None => old(self).remaining == 0 && *final(self) == *old(self),
                Some(p) => old(self).remaining > 0
                    && final(self).remaining == old(self).remaining - 1
                    && p.delay == old(self).delay
                    && (if old(self).vary {
                        p.size == vary_emit(old(self).size as int, old(self).max_size as int)
                        && final(self).size == vary_next_size(old(self).size as int, old(self).grow)
                        && final(self).grow == vary_next_grow(
                            old(self).size as int,
                            old(self).grow,
                            old(self).max_size as int,
                        )
                    } else {
                        p.size == old(self).size
                        && final(self).size == old(self).size
                        && final(self).grow == old(self).grow
                    }),
            },
    {
        if self.remaining == 0 {
            return None;
        }
        self.remaining = self.remaining - 1;
        let delay = self.delay;
        if !self.vary {
            Some(PacketData { delay, size: self.size })
        } else {
            let emit = if self.size < self.max_size {
                self.size
            } else {
                self.max_size
            };
            if self.grow {
                self.size = if self.size > usize::MAX / 2 {
                    usize::MAX
                } else {
                    self.size * 2
                };
                self.grow = self.size < self.max_size;
            } else {
                let mut h = self.size / 2;
                if h < MIN_SIZE {
                    h = MIN_SIZE;
                }
                self.size = h;
                self.grow = h <= MIN_SIZE;
            }
            Some(PacketData { delay, size: emit })
        }
    }
}

impl Generator {
    /// Read the options this variant knows and set up its stream: the
    /// packet count, the size plan and the inter-packet interval, each
    /// falling back to the variant's default when absent.  A value that
    /// does not parse, or a second time-unit key, is reported under the
    /// offending key.
    pub fn run(self, options: &Vec<(String, String)>) -> (r: Result<PacketStream, InvalidOption>)
        ensures
            match r {
                Ok(st) => st.wf() && match self {
                    Generator::Default => gen_default_opts_ok(options@) && !st.vary && st.remaining
                        == u64_opt_or(options@, "count"@, 10) && st.size == u64_opt_or(
                        options@,
                        "size"@,
                        MIN_SIZE as int,
                    ) && st.delay.total_nanos() == spec_interval_nanos(options@, 500_000_000),
                    Generator::Vary => gen_vary_opts_ok(options@) && st.vary && st.remaining
                        == u64_opt_or(options@, "count"@, 20) && st.size == MIN_SIZE && st.grow
                        && st.max_size == u64_opt_or(options@, "max-size"@, 1500)
                        && st.delay.total_nanos() == spec_interval_nanos(options@, 1_000_000),
                },
                Err(e) => match self {
                    Generator::Default => !gen_default_opts_ok(options@) && e.option@ == (if !u64_opt_ok(
                        options@,
                        "count"@,
                    ) {
                        "count"@
                    } else if !usize_opt_ok(options@, "size"@) {
                        "size"@
                    } else {
                        interval_err_key(options@)
                    }),
                    Generator::Vary => !gen_vary_opts_ok(options@) && e.option@ == (if !u64_opt_ok(
                        options@,
                        "count"@,
                    ) {
                        "count"@
                    } else if !valid_interval_opts(options@) {
                        interval_err_key(options@)
                    } else {
                        "max-size"@
                    }),
                },
            },
    {
        let count: u64 = match opt_get(options, "count") {
            None => if matches!(self, Generator::Default) {
                10
            } else {
                20
            },
            Some(v) => match parse_u64(v.as_str()) {
                Some(c) => c,
                None => {
                    return Err(InvalidOption { option: "count".to_owned() });
                },
            },
        };
        match self {
            Generator::Default => {
                let size: usize = match opt_get(options, "size") {
                    None => MIN_SIZE,
                    Some(v) => match parse_u64(v.as_str()) {
                        Some(s) => {
                            if s <= usize::MAX as u64 {
                                s as usize
                            } else {
                                return Err(InvalidOption { option: "size".to_owned() });
                            }
                        },
                        None => {
                            return Err(InvalidOption { option: "size".to_owned() });
                        },
                    },
                };
                let delay = match parse_interval(options) {
                    Err(e) => {
                        return Err(e);
                    },
                    Ok(None) => TimeSpec { sec: 0, nsec: 500_000_000 },
                    Ok(Some(t)) => t,
                };
                Ok(
                    PacketStream {
                        remaining: count,
                        delay,
                        vary: false,
                        size,
                        grow: true,
                        max_size: 0,
                    },
                )
            },
            Generator::Vary => {
                let delay = match parse_interval(options) {
                    Err(e) => {
                        return Err(e);
                    },
                    Ok(None) => TimeSpec { sec: 0, nsec: 1_000_000 },
                    Ok(Some(t)) => t,
                };
                let max_size: usize = match opt_get(options, "max-size") {
                    None => 1500,
                    Some(v) => match parse_u64(v.as_str()) {
                        Some(s) => {
                            if s <= usize::MAX as u64 {
                                s as usize
                            } else {
                                return Err(InvalidOption { option: "max-size".to_owned() });
                            }
                        },
                        None => {
                            return Err(InvalidOption { option: "max-size".to_owned() });
                        },
                    },
                };
                Ok(
                    PacketStream {
                        remaining: count,
                        delay,
                        vary: true,
                        size: MIN_SIZE,
                        grow: true,
                        max_size,
                    },
                )
            },
        }
    }
}

} // verus!
