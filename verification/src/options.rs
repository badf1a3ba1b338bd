//! Generator options: a small string-keyed configuration, decimal number
//! parsing, and the `S.F` time syntax.  Each generator reads only the keys
//! it knows; a value that does not parse names the offending key.
use vstd::prelude::*;

use crate::time::TimeSpec;

verus! {

/// A configuration error: the named option has a value that does not
/// parse, or clashes with another option.
#[derive(Debug)]
pub struct InvalidOption {
    pub option: String,
}

/// A string that does not denote a number in the expected syntax.
#[derive(Clone, Copy, Debug, PartialEq, Eq, Structural)]
pub struct ParseError;

pub open spec fn is_dec_digit(c: char) -> bool {
    48 <= c as int <= 57
}

pub open spec fn digit_val(c: char) -> int {
    c as int - 48
}

pub open spec fn all_digits(s: Seq<char>) -> bool {
    forall|i: int| 0 <= i < s.len() ==> is_dec_digit(#[trigger] s[i])
}

/// The number a digit string denotes, most significant digit first.
pub open spec fn dec_val(s: Seq<char>) -> int
    decreases s.len(),
{
    if s.len() == 0 {
        0
    } else {
        dec_val(s.drop_last()) * 10 + digit_val(s.last())
    }
}

pub open spec fn pow10(n: nat) -> int
    decreases n,
{
    if n == 0 {
        1
    } else {
        10 * pow10((n - 1) as nat)
    }
}

/// A digit string is bounded by ten to its length.
pub proof fn lemma_dec_val_bounds(s: Seq<char>)
    requires
        all_digits(s),
    ensures
        0 <= dec_val(s) < pow10(s.len()),
    decreases s.len(),
{
    if s.len() > 0 {
        assert(all_digits(s.drop_last()));
        lemma_dec_val_bounds(s.drop_last());
        assert(pow10(s.len()) == 10 * pow10((s.len() - 1) as nat));
    }
}

/// Extending a digit string never shrinks its value.
pub proof fn lemma_dec_val_prefix(s: Seq<char>, n: int)
    requires
        all_digits(s),
        0 <= n <= s.len(),
    ensures
        dec_val(s.subrange(0, n)) <= dec_val(s),
    decreases s.len() - n,
{
    if n < s.len() {
        lemma_dec_val_prefix(s, n + 1);
        let t = s.subrange(0, n + 1);
        assert(t.drop_last() =~= s.subrange(0, n));
        assert(all_digits(t));
        lemma_dec_val_bounds(s.subrange(0, n));
        assert(dec_val(t) == dec_val(s.subrange(0, n)) * 10 + digit_val(t.last()));
    } else {
        assert(s.subrange(0, n) =~= s);
    }
}

pub proof fn lemma_pow10_pos(n: nat)
    ensures
        pow10(n) >= 1,
    decreases n,
{
    if n > 0 {
        lemma_pow10_pos((n - 1) as nat);
    }
}

pub proof fn lemma_pow10_mono(a: nat, b: nat)
    requires
        a <= b,
    ensures
        pow10(a) <= pow10(b),
    decreases b,
{
    if a < b {
        lemma_pow10_mono(a, (b - 1) as nat);
        lemma_pow10_pos((b - 1) as nat);
    }
}

/// Powers of ten multiply as their exponents add.
pub proof fn lemma_pow10_adds(a: nat, b: nat)
    ensures
        pow10(a) * pow10(b) == pow10(a + b),
    decreases a,
{
    if a == 0 {
    } else {
        lemma_pow10_adds((a - 1) as nat, b);
        assert((10 * pow10((a - 1) as nat)) * pow10(b) == 10 * (pow10((a - 1) as nat) * pow10(b)))
            by (nonlinear_arith);
    }
}

/// Index of the first `'.'`, or the length when there is none.
pub open spec fn first_dot(s: Seq<char>) -> int
    decreases s.len(),
{
    if s.len() == 0 {
        0
    } else if s[0] == '.' {
        0
    } else {
        1 + first_dot(s.skip(1))
    }
}

/// `first_dot` is the least index holding a `'.'`.
pub proof fn lemma_first_dot_at(s: Seq<char>, k: int)
    requires
        0 <= k <= s.len(),
        forall|j: int| 0 <= j < k ==> s[j] != '.',
        k == s.len() || s[k] == '.',
    ensures
        first_dot(s) == k,
    decreases s.len(),
{
    if s.len() > 0 && s[0] != '.' {
        lemma_first_dot_at(s.skip(1), k - 1);
    }
}

/// The integer part: everything before the first `'.'`.
pub open spec fn int_part(s: Seq<char>) -> Seq<char> {
    s.subrange(0, first_dot(s))
}

/// The fractional part: everything after the first `'.'`, empty when
/// there is no dot.
pub open spec fn frac_part(s: Seq<char>) -> Seq<char> {
    if first_dot(s) < s.len() {
        s.subrange(first_dot(s) + 1, s.len() as int)
    } else {
        Seq::empty()
    }
}

pub open spec fn has_sign(s: Seq<char>) -> bool {
    s.len() > 0 && (s[0] == '-' || s[0] == '+')
}

pub open spec fn int_digits(s: Seq<char>) -> Seq<char> {
    if has_sign(s) {
        s.skip(1)
    } else {
        s
    }
}

/// An empty integer part counts as zero; otherwise an optional sign must
/// be followed by at least one digit.
pub open spec fn valid_int_part(s: Seq<char>) -> bool {
    s.len() == 0 || (int_digits(s).len() > 0 && all_digits(int_digits(s)))
}

pub open spec fn int_part_val(s: Seq<char>) -> int {
    if s.len() == 0 {
        0
    } else if s[0] == '-' {
        -dec_val(int_digits(s))
    } else {
        dec_val(int_digits(s))
    }
}

/// Only the first nine fractional characters count; the rest are cut off.
pub open spec fn frac_digits(f: Seq<char>) -> Seq<char> {
    if f.len() > 9 {
        f.subrange(0, 9)
    } else {
        f
    }
}

pub open spec fn valid_frac_part(f: Seq<char>) -> bool {
    all_digits(frac_digits(f))
}

/// The fractional digits, padded on the right to nine places: the number
/// of nanoseconds they denote.
pub open spec fn frac_part_val(f: Seq<char>) -> int {
    dec_val(frac_digits(f)) * pow10((9 - frac_digits(f).len()) as nat)
}

/// A time string `S.F` is valid when `S` is empty or a signed digit
/// string whose value fits a signed 64-bit count of seconds, and the
/// leading fractional digits are digits.
pub open spec fn valid_timespec_str(s: Seq<char>) -> bool {
    valid_int_part(int_part(s)) && valid_frac_part(frac_part(s)) && i64::MIN <= int_part_val(
        int_part(s),
    ) <= i64::MAX
}

/// Character-for-character string comparison.
pub fn str_eq(a: &str, b: &str) -> (r: bool)
    ensures
        r == (a@ == b@),
{
    let an = a.unicode_len();
    let bn = b.unicode_len();
    if an != bn {
        return false;
    }
    let mut i: usize = 0;
    while i < an
        invariant
            0 <= i <= an,
            an == a@.len(),
            an == b@.len(),
            forall|j: int| 0 <= j < i ==> a@[j] == b@[j],
        decreases an - i,
    {
        if a.get_char(i) != b.get_char(i) {
            return false;
        }
        i = i + 1;
    }
    proof {
        assert(a@ =~= b@);
    }
    true
}

/// Parse the characters of `s` in `[from, to)` as an unsigned decimal
/// number; `None` when the range is empty, holds a non-digit, or the
/// value does not fit in a `u64`.
pub fn parse_digits_u64(s: &str, from: usize, to: usize) -> (r: Option<u64>)
    requires
        from <= to <= s@.len(),
    ensures
        match r {
            Some(v) => from < to && all_digits(s@.subrange(from as int, to as int)) && v == dec_val(
                s@.subrange(from as int, to as int),
            ),
            None => from == to || !all_digits(s@.subrange(from as int, to as int)) || dec_val(
                s@.subrange(from as int, to as int),
            ) > u64::MAX,
        },
{
    if from == to {
        return None;
    }
    let ghost whole = s@.subrange(from as int, to as int);
    let mut i: usize = from;
    let mut acc: u64 = 0;
    while i < to
        invariant
            from <= i <= to <= s@.len(),
            whole == s@.subrange(from as int, to as int),
            all_digits(s@.subrange(from as int, i as int)),
            acc == dec_val(s@.subrange(from as int, i as int)),
        decreases to - i,
    {
        let c = s.get_char(i);
        let d = c as u32;
        if d < 48 || d > 57 {
            assert(!is_dec_digit(whole[i - from]));
            return None;
        }
        let ghost prefix = s@.subrange(from as int, i as int);
        let ghost next_prefix = s@.subrange(from as int, i + 1);
        proof {
            assert(next_prefix.drop_last() =~= prefix);
            assert(next_prefix.last() == s@[i as int]);
        }
        let step = match acc.checked_mul(10) {
            Some(m) => m.checked_add((d - 48) as u64),
            None => None,
        };
        match step {
            Some(v) => {
                acc = v;
            },
            None => {
                proof {
                    assert(all_digits(next_prefix));
                    assert(dec_val(next_prefix) > u64::MAX);
                    if all_digits(whole) {
                        lemma_dec_val_prefix(whole, i + 1 - from);
                        assert(whole.subrange(0, i + 1 - from) =~= next_prefix);
                    }
                }
                return None;
            },
        }
        i = i + 1;
    }
    proof {
        assert(s@.subrange(from as int, to as int) =~= whole);
    }
    Some(acc)
}

/// Whether the option list holds the key.
pub open spec fn opt_has(opts: Seq<(String, String)>, key: Seq<char>) -> bool
    decreases opts.len(),
{
    opts.len() > 0 && (opts[0].0@ == key || opt_has(opts.skip(1), key))
}

/// The value of the first entry with the key.
pub open spec fn opt_value(opts: Seq<(String, String)>, key: Seq<char>) -> Seq<char>
    decreases opts.len(),
{
    if opts.len() == 0 {
        Seq::empty()
    } else if opts[0].0@ == key {
        opts[0].1@
    } else {
        opt_value(opts.skip(1), key)
    }
}

/// Look a key up in an option list; the first entry wins.
pub fn opt_get<'a>(opts: &'a Vec<(String, String)>, key: &str) -> (r: Option<&'a String>)
    ensures
        match r {
            Some(v) => opt_has(opts@, key@) && v@ == opt_value(opts@, key@),
            None => !opt_has(opts@, key@),
        },
{
    let mut i: usize = 0;
    proof {
        assert(opts@.skip(0) =~= opts@);
    }
    while i < opts.len()
        invariant
            0 <= i <= opts@.len(),
            opt_has(opts@, key@) == opt_has(opts@.skip(i as int), key@),
            opt_has(opts@, key@) ==> opt_value(opts@, key@) == opt_value(
                opts@.skip(i as int),
                key@,
            ),
        decreases opts@.len() - i,
    {
        proof {
            assert(opts@.skip(i as int).skip(1) =~= opts@.skip(i + 1));
            assert(opts@.skip(i as int)[0] == opts@[i as int]);
        }
        if str_eq(opts[i].0.as_str(), key) {
            return Some(&opts[i].1);
        }
        i = i + 1;
    }
    None
}

/// The digits of an unsigned decimal string, an optional leading plus
/// sign stripped.
pub open spec fn u64_digits(s: Seq<char>) -> Seq<char> {
    if s.len() > 0 && s[0] == '+' {
        s.skip(1)
    } else {
        s
    }
}

/// An optional plus sign, then at least one digit, denoting a value that
/// fits an unsigned 64-bit number.
pub open spec fn valid_u64_str(s: Seq<char>) -> bool {
    u64_digits(s).len() > 0 && all_digits(u64_digits(s)) && dec_val(u64_digits(s)) <= u64::MAX
}

/// Parse a whole string as an unsigned decimal number, an optional
/// leading plus sign allowed.
pub fn parse_u64(s: &str) -> (r: Option<u64>)
    ensures
        match r {
            Some(v) => valid_u64_str(s@) && v == dec_val(u64_digits(s@)),
            None => !valid_u64_str(s@),
        },
{
    let n = s.unicode_len();
    let start: usize = if n > 0 && s.get_char(0) == '+' {
        1
    } else {
        0
    };
    let r = parse_digits_u64(s, start, n);
    proof {
        assert(s@.subrange(start as int, n as int) =~= u64_digits(s@));
    }
    r
}

/// The second key, in the order interval, msec, usec, nsec, that the
/// options hold; meaningful only when at least two of them are present.
pub open spec fn second_interval_key(o: Seq<(String, String)>) -> Seq<char> {
    if opt_has(o, "interval"@) {
        if opt_has(o, "msec"@) {
            "msec"@
        } else if opt_has(o, "usec"@) {
            "usec"@
        } else {
            "nsec"@
        }
    } else if opt_has(o, "msec"@) {
        if opt_has(o, "usec"@) {
            "usec"@
        } else {
            "nsec"@
        }
    } else {
        "nsec"@
    }
}

/// How many of the four time-unit keys the options hold.
pub open spec fn interval_key_count(o: Seq<(String, String)>) -> int {
    (if opt_has(o, "interval"@) {
        1int
    } else {
        0int
    }) + (if opt_has(o, "msec"@) {
        1int
    } else {
        0int
    }) + (if opt_has(o, "usec"@) {
        1int
    } else {
        0int
    }) + (if opt_has(o, "nsec"@) {
        1int
    } else {
        0int
    })
}

/// The interval the options call for.  At most one of `interval` (the
/// `S.F` seconds syntax), `msec`, `usec` and `nsec` (plain decimal
/// counts) may be given: a second one is a configuration error naming
/// the clashing key.  No key at all means no interval was configured.
pub fn parse_interval(options: &Vec<(String, String)>) -> (r: Result<
    Option<TimeSpec>,
    InvalidOption,
>)
    ensures
        match r {
            Ok(None) => interval_key_count(options@) == 0,
            Ok(Some(t)) => interval_key_count(options@) == 1 && t.wf() && (if opt_has(
                options@,
                "msec"@,
            ) {
                valid_u64_str(opt_value(options@, "msec"@)) && t.total_nanos() == dec_val(
                    u64_digits(opt_value(options@, "msec"@)),
                ) * 1_000_000
            } else if opt_has(options@, "usec"@) {
                valid_u64_str(opt_value(options@, "usec"@)) && t.total_nanos() == dec_val(
                    u64_digits(opt_value(options@, "usec"@)),
                ) * 1000
            } else if opt_has(options@, "nsec"@) {
                valid_u64_str(opt_value(options@, "nsec"@)) && t.total_nanos() == dec_val(
                    u64_digits(opt_value(options@, "nsec"@)),
                )
            } else {
                valid_timespec_str(opt_value(options@, "interval"@)) && t.sec == int_part_val(
                    int_part(opt_value(options@, "interval"@)),
                ) && t.nsec == frac_part_val(frac_part(opt_value(options@, "interval"@)))
            }),
            Err(e) => (interval_key_count(options@) >= 2 && e.option@ == second_interval_key(
                options@,
            )) || (interval_key_count(options@) == 1 && (if opt_has(options@, "msec"@) {
                !valid_u64_str(opt_value(options@, "msec"@)) && e.option@ == "msec"@
            } else if opt_has(options@, "usec"@) {
                !valid_u64_str(opt_value(options@, "usec"@)) && e.option@ == "usec"@
            } else if opt_has(options@, "nsec"@) {
                !valid_u64_str(opt_value(options@, "nsec"@)) && e.option@ == "nsec"@
            } else {
                !valid_timespec_str(opt_value(options@, "interval"@)) && e.option@ == "interval"@
            })),
        },
{
    let vi = opt_get(options, "interval");
    let vm = opt_get(options, "msec");
    let vu = opt_get(options, "usec");
    let vn = opt_get(options, "nsec");
    let mut count: u32 = 0;
    if vi.is_some() {
        count = count + 1;
    }
    if vm.is_some() {
        count = count + 1;
    }
    if vu.is_some() {
        count = count + 1;
    }
    if vn.is_some() {
        count = count + 1;
    }
    if count == 0 {
        return Ok(None);
    }
    if count > 1 {
        let second: &str = if vi.is_some() {
            if vm.is_some() {
                "msec"
            } else if vu.is_some() {
                "usec"
            } else {
                "nsec"
            }
        } else if vm.is_some() {
            if vu.is_some() {
                "usec"
            } else {
                "nsec"
            }
        } else {
            "nsec"
        };
        return Err(InvalidOption { option: second.to_owned() });
    }
    if let Some(v) = vm {
        return match parse_u64(v.as_str()) {
            Some(ms) => Ok(Some(TimeSpec::from_millis(ms))),
            None => Err(InvalidOption { option: "msec".to_owned() }),
        };
    }
    if let Some(v) = vu {
        return match parse_u64(v.as_str()) {
            Some(us) => Ok(Some(TimeSpec::from_micros(us))),
            None => Err(InvalidOption { option: "usec".to_owned() }),
        };
    }
    if let Some(v) = vn {
        return match parse_u64(v.as_str()) {
            Some(ns) => Ok(Some(TimeSpec::from_nanos(ns))),
            None => Err(InvalidOption { option: "nsec".to_owned() }),
        };
    }
    let v = vi.unwrap();
    match parse_timespec(v.as_str()) {
        Ok(t) => Ok(Some(t)),
        Err(_) => Err(InvalidOption { option: "interval".to_owned() }),
    }
}

/// Parse a `S.F` time string: `S` seconds (a possibly signed decimal
/// integer, empty for zero) and up to nine digits `F` of the fraction,
/// right-padded to nanoseconds; fractional characters beyond the ninth
/// are cut off.
pub fn parse_timespec(value: &str) -> (r: Result<TimeSpec, ParseError>)
    ensures
        match r {
            Ok(t) => valid_timespec_str(value@) && t.sec == int_part_val(int_part(value@))
                && t.nsec == frac_part_val(frac_part(value@)) && t.wf(),
            Err(_) => !valid_timespec_str(value@),
        },
{
    let n = value.unicode_len();
    let mut dot: usize = n;
    let mut i: usize = 0;
    while i < n
        invariant_except_break
            dot == n,
        invariant
            0 <= i <= n,
            n == value@.len(),
            forall|j: int| 0 <= j < i ==> value@[j] != '.',
        ensures
            dot <= n,
            forall|j: int| 0 <= j < dot ==> value@[j] != '.',
            dot == n || value@[dot as int] == '.',
        decreases n - i,
    {
        if value.get_char(i) == '.' {
            dot = i;
            break ;
        }
        i = i + 1;
    }
    proof {
        lemma_first_dot_at(value@, dot as int);
        assert(int_part(value@) =~= value@.subrange(0, dot as int));
    }
    let ghost ip = int_part(value@);
    let sec: i64;
    if dot == 0 {
        sec = 0;
    } else {
        let c0 = value.get_char(0);
        let neg = c0 == '-';
        let start: usize = if neg || c0 == '+' {
            1
        } else {
            0
        };
        proof {
            assert(int_digits(ip) =~= value@.subrange(start as int, dot as int));
        }
        if start == dot {
            return Err(ParseError);
        }
        match parse_digits_u64(value, start, dot) {
            None => {
                proof {
                    if all_digits(int_digits(ip)) {
                        lemma_dec_val_bounds(int_digits(ip));
                    }
                }
                return Err(ParseError);
            },
            Some(mag) => {
                if neg {
                    if mag <= 9223372036854775808u64 {
                        sec = if mag == 9223372036854775808u64 {
                            i64::MIN
                        } else {
                            -(mag as i64)
                        };
                    } else {
                        return Err(ParseError);
                    }
                } else {
                    if mag <= i64::MAX as u64 {
                        sec = mag as i64;
                    } else {
                        return Err(ParseError);
                    }
                }
            },
        }
    }
    let nsec: i64;
    let ghost fp = frac_part(value@);
    if dot == n {
        nsec = 0;
        proof {
            assert(frac_digits(fp) =~= Seq::<char>::empty());
        }
    } else {
        let fstart = dot + 1;
        let take: usize = if n - fstart < 9 {
            n - fstart
        } else {
            9
        };
        proof {
            assert(fp =~= value@.subrange(fstart as int, n as int));
            assert(frac_digits(fp) =~= value@.subrange(fstart as int, fstart + take));
        }
        if take == 0 {
            nsec = 0;
        } else {
            match parse_digits_u64(value, fstart, fstart + take) {
                None => {
                    proof {
                        if all_digits(frac_digits(fp)) {
                            lemma_dec_val_bounds(frac_digits(fp));
                            lemma_pow10_adds(take as nat, (9 - take) as nat);
                            lemma_pow10_pos((9 - take) as nat);
                            vstd::arithmetic::mul::lemma_mul_strict_inequality(
                                dec_val(frac_digits(fp)),
                                pow10(take as nat),
                                pow10((9 - take) as nat),
                            );
                            reveal_with_fuel(pow10, 10);
                            assert(dec_val(frac_digits(fp)) <= u64::MAX);
                        }
                    }
                    return Err(ParseError);
                },
                Some(v) => {
                    let mut padded = v;
                    let mut j = take;
                    proof {
                        lemma_dec_val_bounds(frac_digits(fp));
                        reveal_with_fuel(pow10, 10);
                    }
                    while j < 9
                        invariant
                            take <= j <= 9,
                            take <= 9,
                            all_digits(frac_digits(fp)),
                            dec_val(frac_digits(fp)) < pow10(take as nat),
                            padded == dec_val(frac_digits(fp)) * pow10((j - take) as nat),
                            padded < pow10(j as nat),
                            pow10(8) == 100_000_000,
                            pow10(9) == 1_000_000_000,
                        decreases 9 - j,
                    {
                        proof {
                            let a = dec_val(frac_digits(fp));
                            let p = pow10((j - take) as nat);
                            assert(pow10((j + 1 - take) as nat) == 10 * p);
                            assert(a * (10 * p) == 10 * (a * p)) by (nonlinear_arith);
                            lemma_pow10_adds(take as nat, (j + 1 - take) as nat);
                            lemma_pow10_pos((j + 1 - take) as nat);
                            vstd::arithmetic::mul::lemma_mul_strict_inequality(
                                a,
                                pow10(take as nat),
                                pow10((j + 1 - take) as nat),
                            );
                            lemma_pow10_mono(j as nat, 8);
                        }
                        padded = padded * 10;
                        j = j + 1;
                    }
                    proof {
                        assert(padded == frac_part_val(fp));
                    }
                    nsec = padded as i64;
                },
            }
        }
    }
    Ok(TimeSpec { sec, nsec })
}

} // verus!
