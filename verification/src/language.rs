//! What a compiled pattern has to do with its text.
//!
//! The compiler reads a text character by character. This module says what
//! comes of it in terms of the text as a whole: which character declares
//! which bit of which byte, and which brackets span which capture.

use crate::pattern::{
    is_bit_char, is_whitespace, lemma_prefix_invariant, parse_bit_pattern, parse_prefix,
    parse_step, state_invariant, ParseState, CHAR_CAPTURE_CLOSE, CHAR_CAPTURE_OPEN, CHAR_ONE,
    CHAR_WILDCARD,
};
use crate::scanner::bit_is_set;
use vstd::prelude::*;

verus! {

/// The bit characters among the first `n` characters of the text, in their
/// order.
pub open spec fn bit_chars(text: Seq<u8>, n: nat) -> Seq<u8>
    decreases n,
{
    if n == 0 {
        Seq::empty()
    } else if is_bit_char(text[n - 1]) {
        bit_chars(text, (n - 1) as nat).push(text[n - 1])
    } else {
        bit_chars(text, (n - 1) as nat)
    }
}

/// Where among the first `n` characters of the text the given bracket
/// stands.
pub open spec fn bracket_positions(text: Seq<u8>, bracket: u8, n: nat) -> Seq<int>
    decreases n,
{
    if n == 0 {
        Seq::empty()
    } else if text[n - 1] == bracket {
        bracket_positions(text, bracket, (n - 1) as nat).push(n - 1)
    } else {
        bracket_positions(text, bracket, (n - 1) as nat)
    }
}

/// The bit character declares the given bit of the byte: `0` and `1` fix it
/// to their value, `.` leaves it open.
pub open spec fn declares(c: u8, value: u8, mask: u8, bit: u8) -> bool {
    &&& bit_is_set(mask, bit) <==> c != CHAR_WILDCARD
    &&& bit_is_set(value, bit) <==> c == CHAR_ONE
}

/// What the state of the compiler has to do with the first `n` characters
/// of the text.
pub open spec fn spells(text: Seq<u8>, n: nat, s: ParseState) -> bool {
    let bits = bit_chars(text, n);
    let opens = bracket_positions(text, CHAR_CAPTURE_OPEN, n);
    let closes = bracket_positions(text, CHAR_CAPTURE_CLOSE, n);
    &&& state_invariant(s)
    &&& bits.len() == 8 * s.values.len() + s.bits
    &&& forall|k: int|
        0 <= k < 8 * s.values.len() ==> declares(
            #[trigger] bits[k],
            s.values[k / 8],
            s.masks[k / 8],
            (7 - k % 8) as u8,
        )
    &&& forall|k: int|
        8 * s.values.len() <= k < bits.len() ==> declares(
            #[trigger] bits[k],
            s.value as u8,
            s.mask as u8,
            (bits.len() - 1 - k) as u8,
        )
    &&& closes.len() == s.captures.len()
    &&& opens.len() == s.captures.len() + (if s.open is Some {
        1int
    } else {
        0int
    })
    &&& forall|k: int| 0 <= k < opens.len() ==> 0 <= #[trigger] opens[k] < n
    &&& forall|k: int| 0 <= k < closes.len() ==> 0 <= #[trigger] closes[k] < n
    &&& forall|k: int|
        0 <= k < s.captures.len() ==> 8 * (#[trigger] s.captures[k]).0 == bit_chars(
            text,
            opens[k] as nat,
        ).len() && 8 * s.captures[k].1 == bit_chars(text, closes[k] as nat).len()
    &&& s.open is Some ==> 8 * s.open->0 == bit_chars(text, opens.last() as nat).len()
}

/// A bit that is appended moves the bits before it up by one place.
proof fn lemma_appended_bit(v: u8, b: u8, i: u8)
    by (bit_vector)
    requires
        v < 128,
        b <= 1,
        i < 7,
    ensures
        (((2 * v + b) as u8 >> ((i + 1) as u8)) & 1 == 1) <==> ((v >> i) & 1 == 1),
        (((2 * v + b) as u8 >> 0u8) & 1 == 1) <==> b == 1,
{
}

proof fn lemma_bit_is_spelled(text: Seq<u8>, n: nat, s: ParseState)
    requires
        n < text.len(),
        spells(text, n, s),
        is_bit_char(text[n as int]),
        parse_step(s, text[n as int]) is Some,
    ensures
        spells(text, n + 1, parse_step(s, text[n as int])->0),
{
    let c = text[n as int];
    let t = parse_step(s, c)->0;
    let bits = bit_chars(text, n);
    let after = bit_chars(text, n + 1);
    let value_bit: u8 = if c == CHAR_ONE {
        1
    } else {
        0
    };
    let mask_bit: u8 = if c == CHAR_WILDCARD {
        0
    } else {
        1
    };
    let v = s.value as u8;
    let m = s.mask as u8;
    let value = (2 * v + value_bit) as u8;
    let mask = (2 * m + mask_bit) as u8;
    crate::pattern::lemma_step_keeps_invariant(s, c);
    assert(after == bits.push(c));
    assert(bracket_positions(text, CHAR_CAPTURE_OPEN, n + 1) == bracket_positions(
        text,
        CHAR_CAPTURE_OPEN,
        n,
    ));
    assert(bracket_positions(text, CHAR_CAPTURE_CLOSE, n + 1) == bracket_positions(
        text,
        CHAR_CAPTURE_CLOSE,
        n,
    ));
    let first = 8 * s.values.len();
    assert forall|k: int| first <= k < after.len() implies declares(
        #[trigger] after[k],
        value,
        mask,
        (after.len() - 1 - k) as u8,
    ) by {
        if k < bits.len() {
            let place = (bits.len() - 1 - k) as u8;
            assert(declares(bits[k], v, m, place));
            lemma_appended_bit(v, value_bit, place);
            lemma_appended_bit(m, mask_bit, place);
            assert(after[k] == bits[k]);
        } else {
            lemma_appended_bit(v, value_bit, 0);
            lemma_appended_bit(m, mask_bit, 0);
        }
    }
    if s.bits == 7 {
        assert(t.values == s.values.push(value));
        assert(t.masks == s.masks.push(mask));
        assert forall|k: int| 0 <= k < 8 * t.values.len() implies declares(
            #[trigger] after[k],
            t.values[k / 8],
            t.masks[k / 8],
            (7 - k % 8) as u8,
        ) by {
            if k < first {
                assert(declares(bits[k], s.values[k / 8], s.masks[k / 8], (7 - k % 8) as u8));
                assert(after[k] == bits[k]);
            } else {
                assert(k / 8 == s.values.len());
                assert(7 - k % 8 == after.len() - 1 - k);
                assert(declares(after[k], value, mask, (after.len() - 1 - k) as u8));
            }
        }
    } else {
        assert(t.value == 2 * s.value + value_bit);
        assert(t.value as u8 == value);
        assert(t.mask as u8 == mask);
        assert forall|k: int| 0 <= k < 8 * t.values.len() implies declares(
            #[trigger] after[k],
            t.values[k / 8],
            t.masks[k / 8],
            (7 - k % 8) as u8,
        ) by {
            assert(declares(bits[k], s.values[k / 8], s.masks[k / 8], (7 - k % 8) as u8));
            assert(after[k] == bits[k]);
        }
    }
    lemma_positions_stay(text, n, s, t);
}

/// What holds of the brackets of the first `n` characters holds of those of
/// one more character that is no bracket.
proof fn lemma_positions_stay(text: Seq<u8>, n: nat, s: ParseState, t: ParseState)
    requires
        n < text.len(),
        spells(text, n, s),
        text[n as int] != CHAR_CAPTURE_OPEN,
        text[n as int] != CHAR_CAPTURE_CLOSE,
        t.captures == s.captures,
        t.open == s.open,
    ensures
        ({
            let opens = bracket_positions(text, CHAR_CAPTURE_OPEN, n + 1);
            let closes = bracket_positions(text, CHAR_CAPTURE_CLOSE, n + 1);
            &&& closes.len() == t.captures.len()
            &&& opens.len() == t.captures.len() + (if t.open is Some {
                1int
            } else {
                0int
            })
            &&& forall|k: int| 0 <= k < opens.len() ==> 0 <= #[trigger] opens[k] < n + 1
            &&& forall|k: int| 0 <= k < closes.len() ==> 0 <= #[trigger] closes[k] < n + 1
            &&& forall|k: int|
                0 <= k < t.captures.len() ==> 8 * (#[trigger] t.captures[k]).0 == bit_chars(
                    text,
                    opens[k] as nat,
                ).len() && 8 * t.captures[k].1 == bit_chars(text, closes[k] as nat).len()
            &&& t.open is Some ==> 8 * t.open->0 == bit_chars(text, opens.last() as nat).len()
        }),
{
    assert(bracket_positions(text, CHAR_CAPTURE_OPEN, n + 1) == bracket_positions(
        text,
        CHAR_CAPTURE_OPEN,
        n,
    ));
    assert(bracket_positions(text, CHAR_CAPTURE_CLOSE, n + 1) == bracket_positions(
        text,
        CHAR_CAPTURE_CLOSE,
        n,
    ));
}

proof fn lemma_step_is_spelled(text: Seq<u8>, n: nat, s: ParseState)
    requires
        n < text.len(),
        spells(text, n, s),
        parse_step(s, text[n as int]) is Some,
    ensures
        spells(text, n + 1, parse_step(s, text[n as int])->0),
{
    let c = text[n as int];
    let t = parse_step(s, c)->0;
    let bits = bit_chars(text, n);
    let opens = bracket_positions(text, CHAR_CAPTURE_OPEN, n);
    let closes = bracket_positions(text, CHAR_CAPTURE_CLOSE, n);
    crate::pattern::lemma_step_keeps_invariant(s, c);
    if is_bit_char(c) {
        lemma_bit_is_spelled(text, n, s);
    } else if is_whitespace(c) {
        assert(bit_chars(text, n + 1) == bits);
        lemma_positions_stay(text, n, s, t);
    } else if c == CHAR_CAPTURE_OPEN {
        let after = bracket_positions(text, CHAR_CAPTURE_OPEN, n + 1);
        assert(bit_chars(text, n + 1) == bits);
        assert(after == opens.push(n as int));
        assert(bracket_positions(text, CHAR_CAPTURE_CLOSE, n + 1) == closes);
        assert forall|k: int| 0 <= k < t.captures.len() implies 8 * (#[trigger] t.captures[k]).0
            == bit_chars(text, after[k] as nat).len() && 8 * t.captures[k].1 == bit_chars(
            text,
            closes[k] as nat,
        ).len() by {
            assert(after[k] == opens[k]);
        }
        assert forall|k: int| 0 <= k < after.len() implies 0 <= #[trigger] after[k] < n + 1 by {
            if k < opens.len() {
                assert(after[k] == opens[k]);
            }
        }
    } else {
        let after = bracket_positions(text, CHAR_CAPTURE_CLOSE, n + 1);
        let unchanged = bracket_positions(text, CHAR_CAPTURE_OPEN, n + 1);
        assert(c == CHAR_CAPTURE_CLOSE);
        assert(bit_chars(text, n + 1) == bits);
        assert(after == closes.push(n as int));
        assert(unchanged == opens);
        assert forall|k: int| 0 <= k < t.captures.len() implies 8 * (#[trigger] t.captures[k]).0
            == bit_chars(text, unchanged[k] as nat).len() && 8 * t.captures[k].1 == bit_chars(
            text,
            after[k] as nat,
        ).len() by {
            if k < s.captures.len() {
                assert(t.captures[k] == s.captures[k]);
                assert(after[k] == closes[k]);
            } else {
                assert(opens[k] == opens.last());
            }
        }
        assert forall|k: int| 0 <= k < after.len() implies 0 <= #[trigger] after[k] < n + 1 by {
            if k < closes.len() {
                assert(after[k] == closes[k]);
            }
        }
    }
}

proof fn lemma_prefix_is_spelled(text: Seq<u8>, n: nat)
    requires
        n <= text.len(),
        parse_prefix(text, n) is Some,
    ensures
        spells(text, n, parse_prefix(text, n)->0),
    decreases n,
{
    if n > 0 {
        lemma_prefix_is_spelled(text, (n - 1) as nat);
        lemma_step_is_spelled(text, (n - 1) as nat, parse_prefix(text, (n - 1) as nat)->0);
    } else {
        lemma_prefix_invariant(text, 0);
    }
}

/// A pattern says what its text spells. Leaving aside whitespace and
/// brackets, the text is a run of bit characters, eight for each byte of
/// the pattern, and each declares one bit of its byte, the first the most
/// significant. The text holds as many opening as closing brackets, one pair
/// for each capture in their order, and a capture spans the bytes that are
/// declared between its brackets.
pub proof fn lemma_pattern_spells_its_text(text: Seq<u8>)
    requires
        parse_bit_pattern(text) is Some,
    ensures
        ({
            let p = parse_bit_pattern(text)->0;
            let bits = bit_chars(text, text.len());
            let opens = bracket_positions(text, CHAR_CAPTURE_OPEN, text.len());
            let closes = bracket_positions(text, CHAR_CAPTURE_CLOSE, text.len());
            &&& bits.len() == 8 * p.len()
            &&& forall|k: int|
                0 <= k < bits.len() ==> declares(
                    #[trigger] bits[k],
                    p.values[k / 8],
                    p.masks[k / 8],
                    (7 - k % 8) as u8,
                )
            &&& opens.len() == p.captures.len()
            &&& closes.len() == p.captures.len()
            &&& forall|k: int|
                0 <= k < p.captures.len() ==> {
                    &&& 0 <= opens[k] < closes[k] < text.len()
                    &&& 8 * (#[trigger] p.captures[k]).0 == bit_chars(text, opens[k] as nat).len()
                    &&& 8 * p.captures[k].1 == bit_chars(text, closes[k] as nat).len()
                }
        }),
{
    lemma_prefix_is_spelled(text, text.len());
    let s = parse_prefix(text, text.len())->0;
    let p = parse_bit_pattern(text)->0;
    let opens = bracket_positions(text, CHAR_CAPTURE_OPEN, text.len());
    let closes = bracket_positions(text, CHAR_CAPTURE_CLOSE, text.len());
    assert forall|k: int| 0 <= k < p.captures.len() implies opens[k] < closes[k] by {
        assert(8 * p.captures[k].0 == bit_chars(text, opens[k] as nat).len());
        assert(8 * p.captures[k].1 == bit_chars(text, closes[k] as nat).len());
        if opens[k] >= closes[k] {
            lemma_bit_chars_grow(text, closes[k] as nat, opens[k] as nat);
        }
    }
}

/// A longer prefix of a text holds no fewer bit characters.
pub proof fn lemma_bit_chars_grow(text: Seq<u8>, shorter: nat, longer: nat)
    requires
        shorter <= longer,
    ensures
        bit_chars(text, shorter).len() <= bit_chars(text, longer).len(),
    decreases longer,
{
    if shorter < longer {
        lemma_bit_chars_grow(text, shorter, (longer - 1) as nat);
    }
}

/// Only bit characters, brackets and whitespace stand in a text that
/// compiles.
pub proof fn lemma_pattern_text_is_of_the_language(text: Seq<u8>, i: int)
    requires
        parse_bit_pattern(text) is Some,
        0 <= i < text.len(),
    ensures
        is_bit_char(text[i]) || is_whitespace(text[i]) || text[i] == CHAR_CAPTURE_OPEN || text[i]
            == CHAR_CAPTURE_CLOSE,
{
    lemma_prefix_is_some(text, (i + 1) as nat, text.len());
}

proof fn lemma_prefix_is_some(text: Seq<u8>, n: nat, m: nat)
    requires
        n <= m,
        parse_prefix(text, m) is Some,
    ensures
        parse_prefix(text, n) is Some,
    decreases m,
{
    if n < m {
        lemma_prefix_is_some(text, n, (m - 1) as nat);
    }
}

} // verus!
