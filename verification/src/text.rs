//! Byte-level text utilities: whitespace trimming for command validation and
//! decimal rendering of process identifiers for status messages.

use vstd::prelude::*;

verus! {

/// Line feed, the line terminator recognised by the output streamers.
pub const NL: u8 = 10;

/// Carriage return, stripped when it ends a line just before the terminator.
pub const CR: u8 = 13;

/// The ASCII whitespace bytes that command validation trims.
pub open spec fn is_ascii_ws(b: u8) -> bool {
    b == 32 || b == 9 || b == 10 || b == 11 || b == 12 || b == 13
}

/// `s` with its leading ASCII whitespace removed.
pub open spec fn trim_start_ws(s: Seq<u8>) -> Seq<u8>
    decreases s.len(),
{
    if s.len() > 0 && is_ascii_ws(s[0]) {
        trim_start_ws(s.drop_first())
    } else {
        s
    }
}

/// `s` with its trailing ASCII whitespace removed.
pub open spec fn trim_end_ws(s: Seq<u8>) -> Seq<u8>
    decreases s.len(),
{
    if s.len() > 0 && is_ascii_ws(s.last()) {
        trim_end_ws(s.drop_last())
    } else {
        s
    }
}

/// `s` with leading and trailing ASCII whitespace removed.
pub open spec fn trim_ws(s: Seq<u8>) -> Seq<u8> {
    trim_end_ws(trim_start_ws(s))
}

/// Whether `b` is one of the ASCII whitespace bytes.
pub fn is_ws_byte(b: u8) -> (r: bool)
    ensures
        r == is_ascii_ws(b),
{
    b == 32 || b == 9 || b == 10 || b == 11 || b == 12 || b == 13
}

/// Returns `v` with leading and trailing ASCII whitespace removed.
pub fn trim_bytes(v: &[u8]) -> (r: Vec<u8>)
    ensures
        r@ == trim_ws(v@),
{
    let ghost s = v@;
    proof {
        assert(s.skip(0) =~= s);
    }
    let mut start: usize = 0;
    while start < v.len() && is_ws_byte(v[start])
        invariant
            0 <= start <= s.len(),
            s == v@,
            trim_start_ws(s) == trim_start_ws(s.skip(start as int)),
        decreases s.len() - start,
    {
        proof {
            assert(s.skip(start as int).drop_first() =~= s.skip(start as int + 1));
        }
        start = start + 1;
    }
    proof {
        if start < s.len() {
            assert(s.skip(start as int)[0] == s[start as int]);
        }
        assert(trim_start_ws(s.skip(start as int)) == s.skip(start as int));
        assert(s.skip(start as int) =~= s.subrange(start as int, s.len() as int));
    }
    let mut end: usize = v.len();
    while end > start && is_ws_byte(v[end - 1])
        invariant
            start <= end <= s.len(),
            s == v@,
            trim_end_ws(s.subrange(start as int, s.len() as int)) == trim_end_ws(
                s.subrange(start as int, end as int),
            ),
        decreases end,
    {
        proof {
            assert(s.subrange(start as int, end as int).drop_last() =~= s.subrange(
                start as int,
                end as int - 1,
            ));
        }
        end = end - 1;
    }
    proof {
        if end > start {
            assert(s.subrange(start as int, end as int).last() == s[end as int - 1]);
        }
        assert(trim_end_ws(s.subrange(start as int, end as int)) == s.subrange(
            start as int,
            end as int,
        ));
    }
    let sub = vstd::slice::slice_subrange(v, start, end);
    vstd::slice::slice_to_vec(sub)
}

/// The decimal digit characters of `n`, most significant first.
pub open spec fn decimal_digits(n: nat) -> Seq<u8>
    decreases n,
{
    if n < 10 {
        seq![(48 + n) as u8]
    } else {
        decimal_digits(n / 10).push((48 + n % 10) as u8)
    }
}

/// Renders `n` in decimal, most significant digit first.
pub fn u32_decimal(n: u32) -> (r: Vec<u8>)
    ensures
        r@ == decimal_digits(n as nat),
    decreases n,
{
    if n < 10 {
        let mut v: Vec<u8> = Vec::new();
        v.push(48 + n as u8);
        v
    } else {
        let mut v = u32_decimal(n / 10);
        v.push(48 + (n % 10) as u8);
        v
    }
}

} // verus!
