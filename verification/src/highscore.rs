//! Decimal codec for the persisted high score.
//!
//! The high score is durable as decimal text in a single file. The caller
//! that touches the file hands the raw bytes in (or `None` when the file is
//! missing or unreadable); decoding degrades to `0` on any malformed input,
//! so a broken record is never a fatal error. Encoding produces the canonical
//! decimal digits, and decoding them gives the value back.
//!
//! The accepted shape mirrors what `u32` parsing accepts for text the game
//! itself may meet: an optional leading `+`, then one or more ASCII digits,
//! with a value that fits in 32 bits.

use vstd::prelude::*;

verus! {

/// ASCII `+`.
pub const PLUS_SIGN: u8 = 43;

/// ASCII `0`.
pub const DIGIT_ZERO: u8 = 48;

/// ASCII `9`.
pub const DIGIT_NINE: u8 = 57;

/// `b` is an ASCII decimal digit.
pub open spec fn is_digit(b: u8) -> bool {
    DIGIT_ZERO <= b <= DIGIT_NINE
}

/// Every byte of `s` is an ASCII decimal digit.
pub open spec fn all_digits(s: Seq<u8>) -> bool {
    forall|i: int| 0 <= i < s.len() ==> is_digit(#[trigger] s[i])
}

/// The number the digit string `s` denotes, most significant digit first.
pub open spec fn digits_value(s: Seq<u8>) -> int
    decreases s.len(),
{
    if s.len() == 0 {
        0
    } else {
        digits_value(s.drop_last()) * 10 + (s.last() - DIGIT_ZERO)
    }
}

/// What parsing the bytes `s` as a `u32` yields: an optional leading `+`,
/// then at least one digit, denoting a value that fits in 32 bits; anything
/// else fails.
pub open spec fn parses_to(s: Seq<u8>) -> Option<u32> {
    let body = if s.len() > 0 && s[0] == PLUS_SIGN {
        s.drop_first()
    } else {
        s
    };
    if body.len() > 0 && all_digits(body) && digits_value(body) <= u32::MAX {
        Some(digits_value(body) as u32)
    } else {
        None
    }
}

/// The loaded high score: `0` when the record is absent or malformed.
pub open spec fn decoded(content: Option<Vec<u8>>) -> u32 {
    match content {
        Some(bytes) => match parses_to(bytes@) {
            Some(v) => v,
            None => 0,
        },
        None => 0,
    }
}

/// The canonical decimal digits of `n`, most significant first, no sign and
/// no leading zero (except for `0` itself).
pub open spec fn dec_digits(n: nat) -> Seq<u8>
    decreases n,
{
    if n < 10 {
        seq![(DIGIT_ZERO + n) as u8]
    } else {
        dec_digits(n / 10).push((DIGIT_ZERO + n % 10) as u8)
    }
}

/// A digit string denotes a non-negative number.
proof fn lemma_digits_value_nonneg(s: Seq<u8>)
    requires
        all_digits(s),
    ensures
        digits_value(s) >= 0,
    decreases s.len(),
{
    if s.len() > 0 {
        assert(all_digits(s.drop_last()));
        lemma_digits_value_nonneg(s.drop_last());
    }
}

/// Extending a digit string never shrinks the number it denotes.
proof fn lemma_digits_value_prefix(s: Seq<u8>, t: Seq<u8>)
    requires
        all_digits(t),
        s.len() <= t.len(),
        s == t.subrange(0, s.len() as int),
    ensures
        digits_value(s) <= digits_value(t),
    decreases t.len(),
{
    if s.len() < t.len() {
        assert(t.drop_last().subrange(0, s.len() as int) =~= s);
        assert(all_digits(t.drop_last()));
        lemma_digits_value_prefix(s, t.drop_last());
        lemma_digits_value_nonneg(t.drop_last());
    } else {
        assert(s =~= t);
    }
}

/// The canonical digits of `n` are digits, start with one (never a sign),
/// and denote `n`.
pub proof fn lemma_dec_digits(n: nat)
    ensures
        dec_digits(n).len() >= 1,
        all_digits(dec_digits(n)),
        digits_value(dec_digits(n)) == n,
    decreases n,
{
    if n < 10 {
        let s = dec_digits(n);
        assert(digits_value(Seq::<u8>::empty()) == 0);
        assert(s.drop_last() =~= Seq::<u8>::empty());
        assert(digits_value(s) == (s.last() - DIGIT_ZERO));
    } else {
        lemma_dec_digits(n / 10);
        let s = dec_digits(n);
        assert(s.drop_last() =~= dec_digits(n / 10));
        assert(digits_value(s) == digits_value(dec_digits(n / 10)) * 10 + n % 10);
    }
}

/// Encoding and then parsing a high score gives the value back.
pub proof fn lemma_high_score_round_trip(v: u32)
    ensures
        parses_to(dec_digits(v as nat)) == Some(v),
{
    lemma_dec_digits(v as nat);
    let s = dec_digits(v as nat);
    assert(is_digit(s[0]));
    assert(s[0] != PLUS_SIGN);
}

/// Parses persisted bytes as a `u32`, exactly as the spec-level
/// [`parses_to`] describes.
pub fn parse_u32(s: &Vec<u8>) -> (r: Option<u32>)
    ensures
        r == parses_to(s@),
{
    let n: usize = s.len();
    let start: usize = if n > 0 && s[0] == PLUS_SIGN {
        1
    } else {
        0
    };
    let ghost body = (if s@.len() > 0 && s@[0] == PLUS_SIGN {
        s@.drop_first()
    } else {
        s@
    });
    proof {
        assert(body =~= s@.subrange(start as int, n as int));
    }
    if n == start {
        assert(body.len() == 0);
        return None;
    }
    let mut acc: u32 = 0;
    let mut i: usize = start;
    while i < n
        invariant
            start <= i <= n,
            n == s@.len(),
            n > start,
            body == (if s@.len() > 0 && s@[0] == PLUS_SIGN {
                s@.drop_first()
            } else {
                s@
            }),
            body == s@.subrange(start as int, n as int),
            all_digits(s@.subrange(start as int, i as int)),
            acc == digits_value(s@.subrange(start as int, i as int)),
        decreases n - i,
    {
        let b: u8 = s[i];
        if b < DIGIT_ZERO || b > DIGIT_NINE {
            assert(body[i - start] == b);
            assert(!all_digits(body));
            return None;
        }
        let ghost prefix = s@.subrange(start as int, i as int);
        let ghost prefix2 = s@.subrange(start as int, i as int + 1);
        proof {
            assert(prefix2.drop_last() =~= prefix);
            assert(prefix2.last() == b);
            assert(digits_value(prefix2) == digits_value(prefix) * 10 + (b - DIGIT_ZERO));
        }
        let wide: u64 = acc as u64 * 10 + (b - DIGIT_ZERO) as u64;
        if wide > u32::MAX as u64 {
            proof {
                assert(digits_value(prefix2) > u32::MAX);
                if all_digits(body) && digits_value(body) <= u32::MAX {
                    assert(prefix2 =~= body.subrange(0, prefix2.len() as int));
                    lemma_digits_value_prefix(prefix2, body);
                }
            }
            return None;
        }
        acc = wide as u32;
        i = i + 1;
    }
    proof {
        assert(s@.subrange(start as int, n as int) =~= body);
    }
    Some(acc)
}

/// The loaded high score: the parsed value, or `0` when the record is
/// absent or malformed. A missing record is the ordinary first run, so it
/// degrades silently.
pub fn decode_high_score(content: Option<Vec<u8>>) -> (r: u32)
    ensures
        r == decoded(content),
        content is None ==> r == 0,
{
    match content {
        Some(bytes) => match parse_u32(&bytes) {
            Some(v) => v,
            None => 0,
        },
        None => 0,
    }
}

/// The canonical decimal bytes of `value`, ready to persist; decoding them
/// yields `value` again.
pub fn encode_high_score(value: u32) -> (r: Vec<u8>)
    ensures
        r@ == dec_digits(value as nat),
        parses_to(r@) == Some(value),
{
    let mut out: Vec<u8> = Vec::new();
    let mut cur: u32 = value;
    proof {
        assert(dec_digits(value as nat) =~= dec_digits(cur as nat) + out@);
    }
    while cur >= 10
        invariant
            dec_digits(value as nat) == dec_digits(cur as nat) + out@,
        decreases cur,
    {
        let d: u32 = cur % 10;
        let ghost prev = out@;
        out.insert(0, DIGIT_ZERO + d as u8);
        proof {
            let dd = (DIGIT_ZERO + d) as u8;
            assert(out@ =~= seq![dd] + prev);
            assert(dec_digits(cur as nat) =~= dec_digits((cur / 10) as nat) + seq![dd]);
            assert(dec_digits(value as nat) =~= dec_digits((cur / 10) as nat) + out@);
        }
        cur = cur / 10;
    }
    let ghost prev = out@;
    out.insert(0, DIGIT_ZERO + cur as u8);
    proof {
        let dd = (DIGIT_ZERO + cur) as u8;
        assert(out@ =~= seq![dd] + prev);
        assert(dec_digits(cur as nat) =~= seq![dd]);
        assert(out@ =~= dec_digits(value as nat));
        lemma_high_score_round_trip(value);
    }
    out
}

} // verus!
