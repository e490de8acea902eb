//! UTF-8 validation over byte slices, verified against vstd's reference
//! specification of UTF-8 (`vstd::utf8`), and extraction of a borrowed
//! string view once the full byte range has passed validation.

use vstd::prelude::*;
use vstd::utf8::*;

verus! {

/// A failed scalar at position `i` invalidates the whole sequence, however
/// valid the prefix before `i` is.
proof fn lemma_invalid_scalar_here(bytes: Seq<u8>, i: int)
    requires
        partial_valid_utf8(bytes, i),
        i < bytes.len(),
        !valid_first_scalar(bytes.subrange(i, bytes.len() as int)),
    ensures
        !valid_utf8(bytes),
{
    let suffix = bytes.subrange(i, bytes.len() as int);
    assert(suffix.len() > 0);
    assert(!valid_utf8(suffix));
    partial_valid_partial_invalid_utf8(bytes, i);
}

/// Decide whether `bytes` is a valid UTF-8 encoding, scanning one encoded
/// scalar at a time from the front.
pub fn check_utf8(bytes: &[u8]) -> (b: bool)
    ensures
        b == valid_utf8(bytes@),
{
    let n = bytes.len();
    proof {
        assert(bytes@.subrange(0, 0) =~= Seq::<u8>::empty());
    }
    let mut i: usize = 0;
    while i < n
        invariant
            i <= n,
            n == bytes@.len(),
            partial_valid_utf8(bytes@, i as int),
        decreases n - i,
    {
        let ghost suffix = bytes@.subrange(i as int, n as int);
        let b0 = bytes[i];
        proof {
            assert(suffix[0] == b0);
        }
        if b0 < 0x80 {
            // A one-byte scalar: the codepoint is the byte itself.
            proof {
                assert((b0 & 0x7f) == b0) by (bit_vector)
                    requires
                        b0 < 0x80,
                ;
                assert(valid_first_scalar(suffix));
                assert(length_of_first_scalar(suffix) == 1);
                partial_valid_utf8_extend(bytes@, i as int);
            }
            i = i + 1;
        } else if b0 < 0xc0 {
            // A continuation byte in leading position: no variant matches.
            proof {
                lemma_invalid_scalar_here(bytes@, i as int);
            }
            return false;
        } else if b0 < 0xe0 {
            // A two-byte leading pattern: one continuation byte must follow,
            // and the codepoint must be large enough not to be overlong.
            if n - i < 2 {
                proof {
                    lemma_invalid_scalar_here(bytes@, i as int);
                }
                return false;
            }
            let b1 = bytes[i + 1];
            proof {
                assert(suffix[1] == b1);
            }
            if !(0x80 <= b1 && b1 < 0xc0) {
                proof {
                    lemma_invalid_scalar_here(bytes@, i as int);
                }
                return false;
            }
            let cp = (((b0 & 0x1f) as u32) << 6u32) | ((b1 & 0x3f) as u32);
            proof {
                assert(cp == decode_first_codepoint(suffix));
                assert(length_of_first_codepoint(suffix) == 2);
            }
            if cp < 0x80 {
                // Overlong: two bytes spent on a one-byte codepoint.
                proof {
                    lemma_invalid_scalar_here(bytes@, i as int);
                }
                return false;
            }
            proof {
                assert(cp <= 0x7ff) by (bit_vector)
                    requires
                        cp == (((b0 & 0x1f) as u32) << 6u32) | ((b1 & 0x3f) as u32),
                ;
                assert(valid_first_scalar(suffix));
                partial_valid_utf8_extend(bytes@, i as int);
            }
            i = i + 2;
        } else if b0 < 0xf0 {
            // A three-byte leading pattern: two continuation bytes must
            // follow, and the codepoint must be neither overlong nor in the
            // surrogate range.
            if n - i < 3 {
                proof {
                    lemma_invalid_scalar_here(bytes@, i as int);
                }
                return false;
            }
            let b1 = bytes[i + 1];
            let b2 = bytes[i + 2];
            proof {
                assert(suffix[1] == b1);
                assert(suffix[2] == b2);
            }
            if !(0x80 <= b1 && b1 < 0xc0) || !(0x80 <= b2 && b2 < 0xc0) {
                proof {
                    lemma_invalid_scalar_here(bytes@, i as int);
                }
                return false;
            }
            let cp = (((b0 & 0x0f) as u32) << 12u32) | (((b1 & 0x3f) as u32) << 6u32) | ((b2
                & 0x3f) as u32);
            proof {
                assert(cp == decode_first_codepoint(suffix));
                assert(length_of_first_codepoint(suffix) == 3);
            }
            if cp < 0x800 || (0xd800 <= cp && cp <= 0xdfff) {
                proof {
                    lemma_invalid_scalar_here(bytes@, i as int);
                }
                return false;
            }
            proof {
                assert(valid_first_scalar(suffix));
                partial_valid_utf8_extend(bytes@, i as int);
            }
            i = i + 3;
        } else if b0 < 0xf8 {
            // A four-byte leading pattern: three continuation bytes must
            // follow, and the codepoint must lie in the supplementary planes.
            if n - i < 4 {
                proof {
                    lemma_invalid_scalar_here(bytes@, i as int);
                }
                return false;
            }
            let b1 = bytes[i + 1];
            let b2 = bytes[i + 2];
            let b3 = bytes[i + 3];
            proof {
                assert(suffix[1] == b1);
                assert(suffix[2] == b2);
                assert(suffix[3] == b3);
            }
            if !(0x80 <= b1 && b1 < 0xc0) || !(0x80 <= b2 && b2 < 0xc0) || !(0x80 <= b3 && b3
                < 0xc0) {
                proof {
                    lemma_invalid_scalar_here(bytes@, i as int);
                }
                return false;
            }
            let cp = (((b0 & 0x07) as u32) << 18u32) | (((b1 & 0x3f) as u32) << 12u32) | (((b2
                & 0x3f) as u32) << 6u32) | ((b3 & 0x3f) as u32);
            proof {
                assert(cp == decode_first_codepoint(suffix));
                assert(length_of_first_codepoint(suffix) == 4);
            }
            if cp < 0x10000 || cp > 0x10ffff {
                proof {
                    lemma_invalid_scalar_here(bytes@, i as int);
                }
                return false;
            }
            proof {
                assert(valid_first_scalar(suffix));
                partial_valid_utf8_extend(bytes@, i as int);
            }
            i = i + 4;
        } else {
            // 0xf8 and above lead no scalar of any width.
            proof {
                lemma_invalid_scalar_here(bytes@, i as int);
            }
            return false;
        }
    }
    proof {
        assert(bytes@.subrange(0, n as int) =~= bytes@);
    }
    true
}

/// Relies on std's `str::from_utf8`: on bytes that are valid UTF-8 it returns
/// `Ok` with a borrowed string view over exactly those bytes, so the view's
/// UTF-8 encoding is the input itself.
#[verifier::external_body]
fn view_valid_utf8<'a>(bytes: &'a [u8]) -> (r: &'a str)
    requires
        valid_utf8(bytes@),
    ensures
        encode_utf8(r@) == bytes@,
{
    match core::str::from_utf8(bytes) {
        Ok(s) => s,
        Err(_) => "",
    }
}

/// Validate `bytes` as UTF-8 and return the borrowed string view over them,
/// or nothing when some subsequence is invalid. On success the view is the
/// reference decoding of the bytes, and encodes back to exactly those bytes.
pub fn utf8_str_view<'a>(bytes: &'a [u8]) -> (r: Option<&'a str>)
    ensures
        match r {
            Some(s) => valid_utf8(bytes@) && s@ == decode_utf8(bytes@) && encode_utf8(s@)
                == bytes@,
            None => !valid_utf8(bytes@),
        },
{
    if check_utf8(bytes) {
        let s = view_valid_utf8(bytes);
        proof {
            encode_utf8_decode_utf8(s@);
        }
        Some(s)
    } else {
        None
    }
}

} // verus!
