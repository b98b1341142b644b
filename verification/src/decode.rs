//! Decoding of the identification buffers a module fills in when started.
//!
//! The start entry point receives fixed-size byte buffers for the module's
//! name, signature and description and is expected to write nul-terminated
//! text into each. Decoding takes the bytes before the first nul and accepts
//! them only if they are well-formed UTF-8; a buffer without a nul, or with
//! ill-formed text before it, yields a [`DecodeFault`]. Such a fault is
//! diagnostic only and never fails the module's construction.

use vstd::prelude::*;

use crate::errors::DecodeFault;

verus! {

/// Index of the first nul byte of `s` at or after `i`, or `s.len()` when
/// there is none.
pub open spec fn first_nul_from(s: Seq<u8>, i: int) -> int
    recommends
        0 <= i <= s.len(),
    decreases s.len() - i,
{
    if i < 0 || i >= s.len() {
        s.len() as int
    } else if s[i] == 0 {
        i
    } else {
        first_nul_from(s, i + 1)
    }
}

/// Index of the first nul byte of `s`, or `s.len()` when there is none.
pub open spec fn first_nul(s: Seq<u8>) -> int {
    first_nul_from(s, 0)
}

/// Whether `s` holds a nul terminator at all.
pub open spec fn has_nul(s: Seq<u8>) -> bool {
    first_nul(s) < s.len()
}

/// How many bytes an encoded scalar beginning with `b0` occupies: one for
/// ASCII, two to four for the longer sequences, zero when no well-formed
/// sequence begins with `b0` (a bare continuation byte, an overlong lead
/// such as `0xC0`/`0xC1`, or a lead beyond `0xF4`).
pub open spec fn utf8_len(b0: u8) -> int {
    if b0 < 0x80 {
        1
    } else if 0xC2 <= b0 && b0 <= 0xDF {
        2
    } else if 0xE0 <= b0 && b0 <= 0xEF {
        3
    } else if 0xF0 <= b0 && b0 <= 0xF4 {
        4
    } else {
        0
    }
}

/// A continuation byte, `0x80` to `0xBF`.
pub open spec fn is_cont(b: u8) -> bool {
    0x80 <= b && b <= 0xBF
}

/// A well-formed encoded scalar begins at position `i` of `s`: the lead
/// byte admits a length that fits in `s`, every following byte of the
/// sequence is a continuation byte, and the constrained second bytes rule
/// out overlong forms, surrogates and values beyond the last scalar.
pub open spec fn valid_scalar_at(s: Seq<u8>, i: int) -> bool {
    let n = utf8_len(s[i]);
    &&& 1 <= n
    &&& i + n <= s.len()
    &&& (n == 2 ==> is_cont(s[i + 1]))
    &&& (n == 3 ==> is_cont(s[i + 1]) && is_cont(s[i + 2]) && (s[i] == 0xE0 ==> s[i + 1] >= 0xA0)
        && (s[i] == 0xED ==> s[i + 1] <= 0x9F))
    &&& (n == 4 ==> is_cont(s[i + 1]) && is_cont(s[i + 2]) && is_cont(s[i + 3]) && (s[i] == 0xF0
        ==> s[i + 1] >= 0x90) && (s[i] == 0xF4 ==> s[i + 1] <= 0x8F))
}

/// The bytes of `s` from position `i` on are a well-formed UTF-8 suffix.
pub open spec fn utf8_from(s: Seq<u8>, i: int) -> bool
    recommends
        0 <= i <= s.len(),
    decreases s.len() - i,
{
    if i >= s.len() {
        true
    } else if !valid_scalar_at(s, i) {
        false
    } else {
        utf8_from(s, i + utf8_len(s[i]))
    }
}

/// `s` is well-formed UTF-8.
pub open spec fn is_utf8(s: Seq<u8>) -> bool {
    utf8_from(s, 0)
}

/// Find the first nul byte, if any.
pub fn find_nul(buf: &[u8]) -> (r: Option<usize>)
    ensures
        match r {
            Some(j) => j == first_nul(buf@) && j < buf@.len() && buf@[j as int] == 0,
            None => !has_nul(buf@) && first_nul(buf@) == buf@.len(),
        },
{
    let n = buf.len();
    let mut i: usize = 0;
    while i < n
        invariant
            0 <= i <= n,
            n == buf@.len(),
            first_nul(buf@) == first_nul_from(buf@, i as int),
        decreases n - i,
    {
        if buf[i] == 0 {
            return Some(i);
        }
        i = i + 1;
    }
    None
}

/// Check that `buf` is well-formed UTF-8 throughout.
pub fn is_valid_utf8(buf: &[u8]) -> (r: bool)
    ensures
        r == is_utf8(buf@),
{
    let n = buf.len();
    let mut i: usize = 0;
    while i < n
        invariant
            0 <= i <= n,
            n == buf@.len(),
            is_utf8(buf@) == utf8_from(buf@, i as int),
        decreases n - i,
    {
        let b0: u8 = buf[i];
        let len: usize = if b0 < 0x80 {
            1
        } else if 0xC2 <= b0 && b0 <= 0xDF {
            2
        } else if 0xE0 <= b0 && b0 <= 0xEF {
            3
        } else if 0xF0 <= b0 && b0 <= 0xF4 {
            4
        } else {
            return false;
        };
        if n - i < len {
            return false;
        }
        if len >= 2 {
            let b1: u8 = buf[i + 1];
            if !(0x80 <= b1 && b1 <= 0xBF) {
                return false;
            }
            if len == 3 && ((b0 == 0xE0 && b1 < 0xA0) || (b0 == 0xED && b1 > 0x9F)) {
                return false;
            }
            if len == 4 && ((b0 == 0xF0 && b1 < 0x90) || (b0 == 0xF4 && b1 > 0x8F)) {
                return false;
            }
        }
        if len >= 3 {
            let b2: u8 = buf[i + 2];
            if !(0x80 <= b2 && b2 <= 0xBF) {
                return false;
            }
        }
        if len == 4 {
            let b3: u8 = buf[i + 3];
            if !(0x80 <= b3 && b3 <= 0xBF) {
                return false;
            }
        }
        proof {
            assert(utf8_len(buf@[i as int]) == len as int);
            assert(valid_scalar_at(buf@, i as int));
        }
        i = i + len;
    }
    true
}

/// Decode one identification buffer: the bytes before the first nul,
/// accepted exactly when a nul is there and the prefix is well-formed
/// UTF-8. The fault tells which of the two conditions failed; a missing
/// nul is reported even if the whole buffer happens to be valid text.
pub fn decode_identity(buf: &[u8]) -> (r: Result<Vec<u8>, DecodeFault>)
    ensures
        match r {
            Ok(v) => has_nul(buf@) && is_utf8(buf@.take(first_nul(buf@))) && v@ == buf@.take(
                first_nul(buf@),
            ),
            Err(DecodeFault::MissingNul) => !has_nul(buf@),
            Err(DecodeFault::InvalidUtf8) => has_nul(buf@) && !is_utf8(
                buf@.take(first_nul(buf@)),
            ),
        },
{
    let end = match find_nul(buf) {
        Some(j) => j,
        None => {
            return Err(DecodeFault::MissingNul);
        },
    };
    let mut v: Vec<u8> = Vec::new();
    proof {
        assert(v@ =~= buf@.take(0int));
    }
    let mut k: usize = 0;
    while k < end
        invariant
            0 <= k <= end,
            end < buf@.len(),
            v@ == buf@.take(k as int),
        decreases end - k,
    {
        let b: u8 = buf[k];
        v.push(b);
        proof {
            assert(v@ =~= buf@.take(k + 1));
        }
        k = k + 1;
    }
    if is_valid_utf8(v.as_slice()) {
        Ok(v)
    } else {
        Err(DecodeFault::InvalidUtf8)
    }
}

} // verus!
