//! Verified checks on byte buffers before they cross the C boundary: UTF-8
//! validity and the absence of interior NUL bytes.

use vstd::prelude::*;
use vstd::utf8::*;

verus! {

/// True when the byte sequence holds a NUL byte, which the null-terminated
/// text form of the native interface cannot represent.
pub open spec fn contains_nul(bytes: Seq<u8>) -> bool {
    exists|i: int| 0 <= i < bytes.len() && bytes[i] == 0u8
}

/// Scans a buffer for a NUL byte.
pub fn contains_nul_byte(bytes: &[u8]) -> (r: bool)
    ensures
        r == contains_nul(bytes@),
{
    let n = bytes.len();
    let mut i: usize = 0;
    while i < n
        invariant
            i <= n,
            n == bytes@.len(),
            forall|j: int| 0 <= j < i ==> bytes@[j] != 0u8,
        decreases n - i,
    {
        if bytes[i] == 0 {
            proof {
                assert(bytes@[i as int] == 0u8);
            }
            return true;
        }
        i += 1;
    }
    false
}

/// Checks that a buffer is a valid UTF-8 encoding, against the UTF-8
/// specification of `vstd::utf8`.
///
/// The scan walks the buffer one encoded scalar at a time: it classifies the
/// leading byte, checks that the required continuation bytes are present and
/// well-formed, decodes the codepoint, and rejects overlong encodings,
/// surrogates, and values beyond the Unicode range.
pub fn is_valid_utf8(bytes: &[u8]) -> (r: bool)
    ensures
        r == valid_utf8(bytes@),
{
    let n = bytes.len();
    let mut i: usize = 0;
    proof {
        assert(bytes@.skip(0) =~= bytes@);
    }
    while i < n
        invariant
            i <= n,
            n == bytes@.len(),
            valid_utf8(bytes@) == valid_utf8(bytes@.skip(i as int)),
        decreases n - i,
    {
        let ghost rest = bytes@.skip(i as int);
        proof {
            assert(rest.len() == n - i);
            assert(forall|k: int| 0 <= k < rest.len() ==> rest[k] == bytes@[i + k]);
        }
        let b0 = bytes[i];
        let width: usize;
        if b0 < 0x80 {
            // A 1-byte encoding: always a valid scalar.
            width = 1;
            proof {
                assert(valid_first_scalar(rest));
                assert(length_of_first_scalar(rest) == 1);
            }
        } else if b0 < 0xc0 {
            // A stray continuation byte cannot lead an encoding.
            proof {
                assert(!valid_first_scalar(rest));
                assert(!valid_utf8(rest));
            }
            return false;
        } else if b0 < 0xe0 {
            // A 2-byte encoding: one continuation byte, codepoint at least 0x80.
            if n - i < 2 {
                proof {
                    assert(!valid_first_scalar(rest));
                    assert(!valid_utf8(rest));
                }
                return false;
            }
            let b1 = bytes[i + 1];
            if !(0x80 <= b1 && b1 < 0xc0) {
                proof {
                    assert(!valid_first_scalar(rest));
                    assert(!valid_utf8(rest));
                }
                return false;
            }
            let cp: u32 = (((b0 & 0x1f) as u32) << 6u32) | ((b1 & 0x3f) as u32);
            proof {
                assert(decode_first_codepoint(rest) == cp);
                assert(length_of_first_codepoint(rest) == 2);
            }
            if cp < 0x80 {
                proof {
                    assert(!not_overlong_encoding(cp, 2));
                    assert(!valid_first_scalar(rest));
                    assert(!valid_utf8(rest));
                }
                return false;
            }
            if 0xd800 <= cp && cp <= 0xdfff {
                proof {
                    assert(!valid_first_scalar(rest));
                    assert(!valid_utf8(rest));
                }
                return false;
            }
            width = 2;
            proof {
                assert(valid_first_scalar(rest));
                assert(length_of_first_scalar(rest) == 2);
            }
        } else if b0 < 0xf0 {
            // A 3-byte encoding: two continuation bytes, codepoint at least
            // 0x800 and outside the surrogate range.
            if n - i < 3 {
                proof {
                    assert(!valid_first_scalar(rest));
                    assert(!valid_utf8(rest));
                }
                return false;
            }
            let b1 = bytes[i + 1];
            let b2 = bytes[i + 2];
            if !(0x80 <= b1 && b1 < 0xc0) || !(0x80 <= b2 && b2 < 0xc0) {
                proof {
                    assert(!valid_first_scalar(rest));
                    assert(!valid_utf8(rest));
                }
                return false;
            }
            let cp: u32 = (((b0 & 0x0f) as u32) << 12u32) | (((b1 & 0x3f) as u32) << 6u32) | ((
            b2 & 0x3f) as u32);
            proof {
                assert(decode_first_codepoint(rest) == cp);
                assert(length_of_first_codepoint(rest) == 3);
            }
            if cp < 0x800 {
                proof {
                    assert(!not_overlong_encoding(cp, 3));
                    assert(!valid_first_scalar(rest));
                    assert(!valid_utf8(rest));
                }
                return false;
            }
            if 0xd800 <= cp && cp <= 0xdfff {
                proof {
                    assert(!valid_first_scalar(rest));
                    assert(!valid_utf8(rest));
                }
                return false;
            }
            width = 3;
            proof {
                assert(valid_first_scalar(rest));
                assert(length_of_first_scalar(rest) == 3);
            }
        } else if b0 < 0xf8 {
            // A 4-byte encoding: three continuation bytes, codepoint between
            // 0x10000 and 0x10ffff.
            if n - i < 4 {
                proof {
                    assert(!valid_first_scalar(rest));
                    assert(!valid_utf8(rest));
                }
                return false;
            }
            let b1 = bytes[i + 1];
            let b2 = bytes[i + 2];
            let b3 = bytes[i + 3];
            if !(0x80 <= b1 && b1 < 0xc0) || !(0x80 <= b2 && b2 < 0xc0) || !(0x80 <= b3 && b3
                < 0xc0) {
                proof {
                    assert(!valid_first_scalar(rest));
                    assert(!valid_utf8(rest));
                }
                return false;
            }
            let cp: u32 = (((b0 & 0x07) as u32) << 18u32) | (((b1 & 0x3f) as u32) << 12u32) | (((
            b2 & 0x3f) as u32) << 6u32) | ((b3 & 0x3f) as u32);
            proof {
                assert(decode_first_codepoint(rest) == cp);
                assert(length_of_first_codepoint(rest) == 4);
            }
            if !(0x10000 <= cp && cp <= 0x10ffff) {
                proof {
                    assert(!not_overlong_encoding(cp, 4));
                    assert(!valid_first_scalar(rest));
                    assert(!valid_utf8(rest));
                }
                return false;
            }
            if 0xd800 <= cp && cp <= 0xdfff {
                proof {
                    assert(!valid_first_scalar(rest));
                    assert(!valid_utf8(rest));
                }
                return false;
            }
            width = 4;
            proof {
                assert(valid_first_scalar(rest));
                assert(length_of_first_scalar(rest) == 4);
            }
        } else {
            // 0xf8 and above never lead a valid encoding.
            proof {
                assert(!valid_first_scalar(rest));
                assert(!valid_utf8(rest));
            }
            return false;
        }
        proof {
            assert(pop_first_scalar(rest) =~= bytes@.skip(i + width));
            assert(valid_utf8(rest) == valid_utf8(bytes@.skip(i + width)));
        }
        i += width;
    }
    proof {
        assert(bytes@.skip(n as int) =~= Seq::<u8>::empty());
        assert(valid_utf8(bytes@.skip(n as int)));
    }
    true
}

} // verus!
