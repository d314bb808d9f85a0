use vstd::prelude::*;

verus! {

/// An ASCII decimal digit.
pub open spec fn digit_byte(b: u8) -> bool {
    0x30u8 <= b <= 0x39u8
}

/// The number that the digits of `s` spell in base ten, most significant first.
pub open spec fn digits_value(s: Seq<u8>) -> nat
    decreases s.len(),
{
    if s.len() == 0 {
        0
    } else {
        digits_value(s.drop_last()) * 10 + (s.last() - 0x30u8) as nat
    }
}

/// What a strict base-ten reading of `s` as a `u64` gives: one or more
/// digits, nothing else, and a value that fits.
pub open spec fn decimal_value(s: Seq<u8>) -> Option<u64> {
    if s.len() > 0 && (forall|k: int| 0 <= k < s.len() ==> digit_byte(#[trigger] s[k]))
        && digits_value(s) <= u64::MAX {
        Some(digits_value(s) as u64)
    } else {
        None
    }
}

/// Reads `text[start..end]` as a `u64` in base ten.
pub fn parse_decimal_range(text: &[u8], start: usize, end: usize) -> (r: Option<u64>)
    requires
        start <= end <= text@.len(),
    ensures
        r == decimal_value(text@.subrange(start as int, end as int)),
{
    let ghost s = text@.subrange(start as int, end as int);
    let mut value: u64 = 0;
    let mut overflow = false;
    let mut i: usize = start;
    while i < end
        invariant
            start <= i <= end <= text@.len(),
            s == text@.subrange(start as int, end as int),
            forall|k: int| start <= k < i ==> digit_byte(#[trigger] text@[k]),
            overflow ==> digits_value(text@.subrange(start as int, i as int)) > u64::MAX,
            !overflow ==> value as nat == digits_value(text@.subrange(start as int, i as int)),
        decreases end - i,
    {
        let b = text[i];
        if b < 0x30u8 || b > 0x39u8 {
            assert(!digit_byte(s[i - start]));
            return None;
        }
        let ghost prev = text@.subrange(start as int, i as int);
        let ghost next = text@.subrange(start as int, i + 1);
        assert(next.drop_last() =~= prev);
        let d = (b - 0x30u8) as u64;
        assert(digits_value(next) == digits_value(prev) * 10 + d);
        if !overflow {
            match value.checked_mul(10) {
                Some(m) => match m.checked_add(d) {
                    Some(v) => {
                        value = v;
                    },
                    None => {
                        overflow = true;
                    },
                },
                None => {
                    overflow = true;
                },
            }
        } else {
            assert(digits_value(prev) * 10 >= digits_value(prev)) by (nonlinear_arith);
        }
        i = i + 1;
    }
    assert(text@.subrange(start as int, i as int) =~= s);
    if start == end || overflow {
        None
    } else {
        assert(forall|k: int| 0 <= k < s.len() ==> digit_byte(#[trigger] s[k])) by {
            assert forall|k: int| 0 <= k < s.len() implies digit_byte(#[trigger] s[k]) by {
                assert(s[k] == text@[start + k]);
            }
        }
        Some(value)
    }
}

/// Reads all of `bytes` as a `u64` in base ten: `None` unless it is one or
/// more ASCII digits whose value fits in 64 bits. No sign is accepted.
pub fn parse_decimal(bytes: &[u8]) -> (r: Option<u64>)
    ensures
        r == decimal_value(bytes@),
{
    assert(bytes@.subrange(0, bytes@.len() as int) =~= bytes@);
    parse_decimal_range(bytes, 0, bytes.len())
}

} // verus!
