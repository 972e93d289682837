use vstd::prelude::*;

verus! {

/// Numeric cap of the scalar decoders: a magnitude at or above this bound
/// (two to the 124th power) is rejected as out of range by every decoder.
/// This is a deliberate bound of the library's amount representation: an
/// extra-currency amount is carried as an unsigned 128-bit value, so a
/// decimal beyond the cap — nothing any real configuration holds — fails
/// to parse rather than being truncated.
pub const MAG_CAP: u128 = 0x1000_0000_0000_0000_0000_0000_0000_0000;

/// Largest currency amount plus one (two to the 120th power): amounts are
/// stored in fifteen bytes.
pub const GRAMS_CAP: u128 = 0x100_0000_0000_0000_0000_0000_0000_0000;

/// The value of byte `b` as a digit in `radix` (10 or 16); hex digits may
/// be upper or lower case.
pub open spec fn digit_val(b: u8, radix: u8) -> Option<u8> {
    if 48 <= b && b <= 57 {
        Some((b - 48) as u8)
    } else if radix == 16 && 97 <= b && b <= 102 {
        Some((b - 97 + 10) as u8)
    } else if radix == 16 && 65 <= b && b <= 70 {
        Some((b - 65 + 10) as u8)
    } else {
        None
    }
}

pub open spec fn all_digits(s: Seq<u8>, radix: u8) -> bool {
    forall|i: int| 0 <= i < s.len() ==> digit_val(#[trigger] s[i], radix) is Some
}

/// The magnitude of a digit string, most significant digit first.
pub open spec fn digits_mag(s: Seq<u8>, radix: u8) -> nat
    decreases s.len(),
{
    if s.len() == 0 {
        0
    } else {
        digits_mag(s.drop_last(), radix) * (radix as nat) + (match digit_val(s.last(), radix) {
            Some(d) => d as nat,
            None => 0,
        })
    }
}

/// The integer a byte string denotes in the given radix: an optional sign
/// followed by one or more digits, read the way the standard library reads
/// integers from text.
pub open spec fn int_of_bytes(s: Seq<u8>, radix: u8) -> Option<int> {
    if s.len() == 0 {
        None
    } else {
        let body = if s[0] == 45 || s[0] == 43 {
            s.drop_first()
        } else {
            s
        };
        if body.len() > 0 && all_digits(body, radix) {
            Some(
                if s[0] == 45 {
                    -(digits_mag(body, radix) as int)
                } else {
                    digits_mag(body, radix) as int
                },
            )
        } else {
            None
        }
    }
}

/// Parses an optional sign and digits in `radix`; magnitudes at or above
/// `MAG_CAP` are rejected. On success the flag says whether the value is
/// strictly negative.
pub fn parse_int_bytes(bytes: &[u8], radix: u8) -> (r: Option<(bool, u128)>)
    requires
        radix == 10 || radix == 16,
    ensures
        match int_of_bytes(bytes@, radix) {
            Some(v) => if -(MAG_CAP as int) < v && v < MAG_CAP as int {
                r == Some(
                    (v < 0, (if v < 0 {
                        -v
                    } else {
                        v
                    }) as u128),
                )
            } else {
                r is None
            },
            None => r is None,
        },
{
    let n = bytes.len();
    if n == 0 {
        return None;
    }
    let b0 = bytes[0];
    let neg = b0 == 45;
    let start: usize = if b0 == 45 || b0 == 43 {
        1
    } else {
        0
    };
    let ghost body = if start == 1 {
        bytes@.drop_first()
    } else {
        bytes@
    };
    proof {
        assert(body =~= bytes@.skip(start as int));
    }
    if start >= n {
        return None;
    }
    let mut mag: u128 = 0;
    let mut over = false;
    let mut i: usize = start;
    proof {
        assert(bytes@.subrange(start as int, start as int) =~= Seq::<u8>::empty());
    }
    while i < n
        invariant
            radix == 10 || radix == 16,
            start <= i <= n,
            n == bytes@.len(),
            n >= 1,
            b0 == bytes@[0],
            start == (if b0 == 45 || b0 == 43 {
                1int
            } else {
                0int
            }),
            body == bytes@.skip(start as int),
            all_digits(bytes@.subrange(start as int, i as int), radix),
            !over ==> mag == digits_mag(bytes@.subrange(start as int, i as int), radix),
            over ==> digits_mag(bytes@.subrange(start as int, i as int), radix) >= MAG_CAP,
        decreases n - i,
    {
        let b = bytes[i];
        let d_opt: Option<u8> = if 48 <= b && b <= 57 {
            Some(b - 48)
        } else if radix == 16 && 97 <= b && b <= 102 {
            Some(b - 97 + 10)
        } else if radix == 16 && 65 <= b && b <= 70 {
            Some(b - 65 + 10)
        } else {
            None
        };
        proof {
            assert(d_opt == digit_val(bytes@[i as int], radix));
        }
        let d = match d_opt {
            Some(d) => d,
            None => {
                proof {
                    let j = (i - start) as int;
                    assert(body[j] == bytes@[i as int]);
                    assert(!all_digits(body, radix));
                    assert(body =~= (if bytes@[0] == 45 || bytes@[0] == 43 {
                        bytes@.drop_first()
                    } else {
                        bytes@
                    }));
                }
                return None;
            },
        };
        let ghost pre = bytes@.subrange(start as int, i as int);
        let ghost post = bytes@.subrange(start as int, i + 1 as int);
        proof {
            assert(post.drop_last() =~= pre);
            assert(post.last() == bytes@[i as int]);
            assert(digits_mag(post, radix) == digits_mag(pre, radix) * (radix as nat) + (
            d as nat));
        }
        if over {
            proof {
                let m = digits_mag(pre, radix);
                assert(m * (radix as nat) >= m) by (nonlinear_arith)
                    requires
                        radix >= 1,
                ;
            }
        } else if mag >= MAG_CAP {
            over = true;
            proof {
                let m = digits_mag(pre, radix);
                assert(m * (radix as nat) >= m) by (nonlinear_arith)
                    requires
                        radix >= 1,
                ;
            }
        } else {
            proof {
                assert(mag * (radix as u128) <= mag * 16) by (nonlinear_arith)
                    requires
                        0 <= mag,
                        0 <= radix <= 16,
                ;
            }
            mag = mag * (radix as u128) + (d as u128);
        }
        i += 1;
    }
    proof {
        assert(bytes@.subrange(start as int, n as int) =~= body);
    }
    if over || mag >= MAG_CAP {
        return None;
    }
    Some((neg && mag != 0, mag))
}

/// The signed 64-bit integer a byte string denotes in `radix`, the way
/// `i64::from_str` and `i64::from_str_radix` read it.
pub open spec fn i64_of_bytes(s: Seq<u8>, radix: u8) -> Option<i64> {
    match int_of_bytes(s, radix) {
        Some(v) => if i64::MIN <= v <= i64::MAX {
            Some(v as i64)
        } else {
            None
        },
        None => None,
    }
}

pub fn parse_i64_bytes(bytes: &[u8], radix: u8) -> (r: Option<i64>)
    requires
        radix == 10 || radix == 16,
    ensures
        r == i64_of_bytes(bytes@, radix),
{
    match parse_int_bytes(bytes, radix) {
        None => None,
        Some((neg, mag)) => {
            if neg {
                if mag <= i64::MAX as u128 {
                    Some(-(mag as i64))
                } else if mag == i64::MAX as u128 + 1 {
                    Some(i64::MIN)
                } else {
                    None
                }
            } else {
                if mag <= i64::MAX as u128 {
                    Some(mag as i64)
                } else {
                    None
                }
            }
        },
    }
}

/// The unsigned 64-bit integer a byte string denotes in `radix`, the way
/// `u64::from_str` and `u64::from_str_radix` read it.
pub open spec fn u64_of_bytes(s: Seq<u8>, radix: u8) -> Option<u64> {
    match int_of_bytes(s, radix) {
        Some(v) => if 0 <= v <= u64::MAX {
            Some(v as u64)
        } else {
            None
        },
        None => None,
    }
}

pub fn parse_u64_bytes(bytes: &[u8], radix: u8) -> (r: Option<u64>)
    requires
        radix == 10 || radix == 16,
    ensures
        r == u64_of_bytes(bytes@, radix),
{
    match parse_int_bytes(bytes, radix) {
        None => None,
        Some((neg, mag)) => {
            if neg {
                None
            } else if mag <= u64::MAX as u128 {
                Some(mag as u64)
            } else {
                None
            }
        },
    }
}

/// The unsigned 32-bit integer a decimal byte string denotes, the way
/// `u32::from_str` reads it.
pub open spec fn u32_of_bytes(s: Seq<u8>) -> Option<u32> {
    match int_of_bytes(s, 10) {
        Some(v) => if 0 <= v <= u32::MAX {
            Some(v as u32)
        } else {
            None
        },
        None => None,
    }
}

pub fn parse_u32_bytes(bytes: &[u8]) -> (r: Option<u32>)
    ensures
        r == u32_of_bytes(bytes@),
{
    match parse_int_bytes(bytes, 10) {
        None => None,
        Some((neg, mag)) => {
            if neg {
                None
            } else if mag <= u32::MAX as u128 {
                Some(mag as u32)
            } else {
                None
            }
        },
    }
}

/// The signed 32-bit integer a decimal byte string denotes, the way
/// `i32::from_str` reads it.
pub open spec fn i32_of_bytes(s: Seq<u8>) -> Option<i32> {
    match int_of_bytes(s, 10) {
        Some(v) => if i32::MIN <= v <= i32::MAX {
            Some(v as i32)
        } else {
            None
        },
        None => None,
    }
}

pub fn parse_i32_bytes(bytes: &[u8]) -> (r: Option<i32>)
    ensures
        r == i32_of_bytes(bytes@),
{
    match parse_int_bytes(bytes, 10) {
        None => None,
        Some((neg, mag)) => {
            if neg {
                if mag <= i32::MAX as u128 {
                    Some(-(mag as i32))
                } else if mag == i32::MAX as u128 + 1 {
                    Some(i32::MIN)
                } else {
                    None
                }
            } else {
                if mag <= i32::MAX as u128 {
                    Some(mag as i32)
                } else {
                    None
                }
            }
        },
    }
}

/// The non-negative decimal value a byte string denotes when it lies below
/// `cap`; used for currency amounts.
pub open spec fn capped_dec_of_bytes(s: Seq<u8>, cap: u128) -> Option<u128> {
    match int_of_bytes(s, 10) {
        Some(v) => if 0 <= v < cap {
            Some(v as u128)
        } else {
            None
        },
        None => None,
    }
}

pub fn parse_capped_dec_bytes(bytes: &[u8], cap: u128) -> (r: Option<u128>)
    requires
        cap <= MAG_CAP,
    ensures
        r == capped_dec_of_bytes(bytes@, cap),
{
    match parse_int_bytes(bytes, 10) {
        None => None,
        Some((neg, mag)) => {
            if neg {
                None
            } else if mag < cap {
                Some(mag)
            } else {
                None
            }
        },
    }
}

} // verus!
