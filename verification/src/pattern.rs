//! The bit-pattern language and its compiler.
//!
//! A pattern is written as a run of bit characters: `0` and `1` fix a bit,
//! `.` leaves it open. Every eight bit characters, most significant first,
//! declare one byte. Whitespace between characters carries no meaning. A pair
//! of brackets around whole bytes marks a capture: the bytes inside are
//! matched like any others and are also handed back with each match.

use vstd::prelude::*;
use vstd::string::StringSliceAdditionalSpecFns;

verus! {

/// The character `0`: a bit that is fixed to zero.
pub const CHAR_ZERO: u8 = 0x30;

/// The character `1`: a bit that is fixed to one.
pub const CHAR_ONE: u8 = 0x31;

/// The character `.`: a bit that is left open.
pub const CHAR_WILDCARD: u8 = 0x2e;

/// The character `[`: a capture begins.
pub const CHAR_CAPTURE_OPEN: u8 = 0x5b;

/// The character `]`: the capture ends.
pub const CHAR_CAPTURE_CLOSE: u8 = 0x5d;

/// The pattern text could not be compiled: a character outside the language,
/// a byte of fewer than eight bits, a bracket inside a byte, brackets that do
/// not pair up or hold nothing, or a text that declares no byte at all.
#[derive(Debug, Clone, Copy, PartialEq, Eq)]
pub struct PatternSyntaxError;

/// The bytes `start..end` of a pattern, handed back with each match.
#[derive(Debug, Clone, Copy, PartialEq, Eq)]
pub struct CaptureGroup {
    pub start: usize,
    pub end: usize,
}

/// What a compiled pattern is: for each declared byte the value of its fixed
/// bits and the mask that selects them, and the capture spans in the order of
/// their opening brackets.
pub struct PatternModel {
    pub values: Seq<u8>,
    pub masks: Seq<u8>,
    pub captures: Seq<(int, int)>,
}

impl PatternModel {
    /// The number of bytes that the pattern declares.
    pub open spec fn len(self) -> int {
        self.values.len() as int
    }

    /// One value and one mask per byte, at least one byte, no bit set in a
    /// value that the mask leaves open, and the captures non-empty, inside
    /// the pattern, one after the other.
    pub open spec fn well_formed(self) -> bool {
        &&& self.values.len() == self.masks.len()
        &&& self.values.len() >= 1
        &&& forall|i: int|
            0 <= i < self.values.len() ==> fixes_only(self.values[i], #[trigger] self.masks[i])
        &&& forall|k: int|
            0 <= k < self.captures.len() ==> 0 <= (#[trigger] self.captures[k]).0
                < self.captures[k].1 <= self.len()
        &&& forall|j: int, k: int|
            0 <= j < k < self.captures.len() ==> (#[trigger] self.captures[j]).1 <= (
            #[trigger] self.captures[k]).0
    }
}

/// The value has no bit set that the mask leaves open.
pub open spec fn fixes_only(value: u8, mask: u8) -> bool {
    value & !mask == 0
}

/// Where the compiler stands after some prefix of the pattern text.
pub struct ParseState {
    /// The bytes that are complete.
    pub values: Seq<u8>,
    pub masks: Seq<u8>,
    /// The captures that are closed.
    pub captures: Seq<(int, int)>,
    /// The first byte of the capture that is open, if one is.
    pub open: Option<int>,
    /// How many bits of the current byte have been read, and what they give.
    pub bits: int,
    pub value: int,
    pub mask: int,
}

/// Space, tabulator, line feed, form feed and carriage return.
pub open spec fn is_whitespace(c: u8) -> bool {
    c == 0x20 || c == 0x09 || c == 0x0a || c == 0x0c || c == 0x0d
}

/// The characters that declare a bit.
pub open spec fn is_bit_char(c: u8) -> bool {
    c == CHAR_ZERO || c == CHAR_ONE || c == CHAR_WILDCARD
}

/// The state before the first character.
pub open spec fn initial_state() -> ParseState {
    ParseState {
        values: Seq::empty(),
        masks: Seq::empty(),
        captures: Seq::empty(),
        open: None,
        bits: 0,
        value: 0,
        mask: 0,
    }
}

/// Appends one bit to the byte being read; the eighth bit completes it.
pub open spec fn push_bit(s: ParseState, value_bit: int, mask_bit: int) -> ParseState {
    let value = 2 * s.value + value_bit;
    let mask = 2 * s.mask + mask_bit;
    if s.bits == 7 {
        ParseState {
            values: s.values.push(value as u8),
            masks: s.masks.push(mask as u8),
            bits: 0,
            value: 0,
            mask: 0,
            ..s
        }
    } else {
        ParseState { bits: s.bits + 1, value, mask, ..s }
    }
}

/// What one character of the pattern text does; `None` where it is an error.
pub open spec fn parse_step(s: ParseState, c: u8) -> Option<ParseState> {
    if is_whitespace(c) {
        Some(s)
    } else if c == CHAR_ZERO {
        Some(push_bit(s, 0, 1))
    } else if c == CHAR_ONE {
        Some(push_bit(s, 1, 1))
    } else if c == CHAR_WILDCARD {
        Some(push_bit(s, 0, 0))
    } else if c == CHAR_CAPTURE_OPEN {
        if s.bits == 0 && s.open is None {
            Some(ParseState { open: Some(s.values.len() as int), ..s })
        } else {
            None
        }
    } else if c == CHAR_CAPTURE_CLOSE {
        if s.bits == 0 && s.open is Some && s.open->0 < s.values.len() {
            Some(
                ParseState {
                    captures: s.captures.push((s.open->0, s.values.len() as int)),
                    open: None,
                    ..s
                },
            )
        } else {
            None
        }
    } else {
        None
    }
}

/// The state after the first `n` characters of `text`.
pub open spec fn parse_prefix(text: Seq<u8>, n: nat) -> Option<ParseState>
    decreases n,
{
    if n == 0 {
        Some(initial_state())
    } else {
        match parse_prefix(text, (n - 1) as nat) {
            Some(s) => parse_step(s, text[n - 1]),
            None => None,
        }
    }
}

/// The pattern that a text declares, if it is one of the language: every byte
/// complete, every capture closed, at least one byte.
pub open spec fn parse_bit_pattern(text: Seq<u8>) -> Option<PatternModel> {
    match parse_prefix(text, text.len()) {
        Some(s) => if s.bits == 0 && s.open is None && s.values.len() >= 1 {
            Some(PatternModel { values: s.values, masks: s.masks, captures: s.captures })
        } else {
            None
        },
        None => None,
    }
}

/// The largest partial value plus one after `bits` bits.
pub open spec fn bit_limit(bits: int) -> int {
    if bits <= 0 {
        1
    } else if bits == 1 {
        2
    } else if bits == 2 {
        4
    } else if bits == 3 {
        8
    } else if bits == 4 {
        16
    } else if bits == 5 {
        32
    } else if bits == 6 {
        64
    } else {
        128
    }
}

/// What holds of every state that the compiler reaches.
pub open spec fn state_invariant(s: ParseState) -> bool {
    &&& s.values.len() == s.masks.len()
    &&& 0 <= s.bits < 8
    &&& 0 <= s.value < bit_limit(s.bits)
    &&& 0 <= s.mask < bit_limit(s.bits)
    &&& fixes_only(s.value as u8, s.mask as u8)
    &&& forall|i: int|
        0 <= i < s.values.len() ==> fixes_only(s.values[i], #[trigger] s.masks[i])
    &&& s.open is Some ==> 0 <= s.open->0 <= s.values.len()
    &&& forall|k: int|
        0 <= k < s.captures.len() ==> 0 <= (#[trigger] s.captures[k]).0 < s.captures[k].1
            <= s.values.len()
    &&& forall|j: int, k: int|
        0 <= j < k < s.captures.len() ==> (#[trigger] s.captures[j]).1 <= (
        #[trigger] s.captures[k]).0
    &&& forall|k: int|
        0 <= k < s.captures.len() && s.open is Some ==> (#[trigger] s.captures[k]).1
            <= s.open->0
}

/// One more bit, fixed or open, sets no bit that the mask leaves open.
proof fn lemma_bit_keeps_fixed(value: u8, mask: u8)
    by (bit_vector)
    requires
        value < 128,
        mask < 128,
        value & !mask == 0,
    ensures
        (2 * value) as u8 & !((2 * mask + 1) as u8) == 0,
        (2 * value + 1) as u8 & !((2 * mask + 1) as u8) == 0,
        (2 * value) as u8 & !((2 * mask) as u8) == 0,
        0u8 & !0u8 == 0u8,
{
}

/// One character leaves the state as every reachable state is.
pub proof fn lemma_step_keeps_invariant(s: ParseState, c: u8)
    requires
        state_invariant(s),
        parse_step(s, c) is Some,
    ensures
        state_invariant(parse_step(s, c)->0),
{
    let t = parse_step(s, c)->0;
    lemma_bit_keeps_fixed(s.value as u8, s.mask as u8);
    if is_bit_char(c) && !is_whitespace(c) {
        assert forall|i: int| 0 <= i < t.values.len() implies fixes_only(
            t.values[i],
            #[trigger] t.masks[i],
        ) by {
            if i < s.values.len() {
                assert(fixes_only(s.values[i], s.masks[i]));
            }
        }
    }
    if c == CHAR_CAPTURE_CLOSE {
        assert forall|j: int, k: int| 0 <= j < k < t.captures.len() implies (
        #[trigger] t.captures[j]).1 <= (#[trigger] t.captures[k]).0 by {
            if k < s.captures.len() {
                assert(t.captures[j] == s.captures[j]);
                assert(t.captures[k] == s.captures[k]);
            } else {
                assert(t.captures[j] == s.captures[j]);
            }
        }
        assert forall|k: int| 0 <= k < t.captures.len() implies 0 <= (#[trigger] t.captures[k]).0
            < t.captures[k].1 <= t.values.len() by {
            if k < s.captures.len() {
                assert(t.captures[k] == s.captures[k]);
            }
        }
    }
}

/// The state after every prefix that compiles is as every reachable state
/// is.
pub proof fn lemma_prefix_invariant(text: Seq<u8>, n: nat)
    requires
        n <= text.len(),
        parse_prefix(text, n) is Some,
    ensures
        state_invariant(parse_prefix(text, n)->0),
    decreases n,
{
    if n > 0 {
        lemma_prefix_invariant(text, (n - 1) as nat);
        lemma_step_keeps_invariant(parse_prefix(text, (n - 1) as nat)->0, text[n - 1]);
    } else {
        assert(0u8 & !0u8 == 0) by (bit_vector);
    }
}

/// An error at some character is an error of the whole text.
pub proof fn lemma_error_is_final(text: Seq<u8>, n: nat, m: nat)
    requires
        n <= m,
        parse_prefix(text, n) is None,
    ensures
        parse_prefix(text, m) is None,
    decreases m,
{
    if n < m {
        lemma_error_is_final(text, n, (m - 1) as nat);
    }
}

/// Every pattern that compiles is well formed.
pub proof fn lemma_parsed_pattern_is_well_formed(text: Seq<u8>)
    requires
        parse_bit_pattern(text) is Some,
    ensures
        parse_bit_pattern(text)->0.well_formed(),
{
    lemma_prefix_invariant(text, text.len());
}

/// A compiled pattern.
pub struct Pattern {
    values: Vec<u8>,
    masks: Vec<u8>,
    captures: Vec<CaptureGroup>,
}

/// The spans of the capture groups, as pairs of first byte and end.
pub open spec fn capture_spans(groups: Seq<CaptureGroup>) -> Seq<(int, int)> {
    Seq::new(groups.len(), |k: int| (groups[k].start as int, groups[k].end as int))
}

impl View for Pattern {
    type V = PatternModel;

    closed spec fn view(&self) -> PatternModel {
        PatternModel {
            values: self.values@,
            masks: self.masks@,
            captures: capture_spans(self.captures@),
        }
    }
}

impl Pattern {
    /// What holds of every compiled pattern.
    #[verifier::type_invariant]
    pub closed spec fn inv(self) -> bool {
        self@.well_formed()
    }

    /// Every compiled pattern is well formed.
    pub proof fn lemma_well_formed(self)
        requires
            self.inv(),
        ensures
            self@.well_formed(),
    {
    }

    /// Compiles a pattern text.
    pub fn from_bit_pattern(pattern: &str) -> (r: Result<Pattern, PatternSyntaxError>)
        ensures
            match parse_bit_pattern(pattern.spec_bytes()) {
                Some(model) => r is Ok && r->Ok_0@ == model,
                None => r is Err,
            },
    {
        let text = pattern.as_bytes();
        let ghost spec_text = pattern.spec_bytes();
        let mut values: Vec<u8> = Vec::new();
        let mut masks: Vec<u8> = Vec::new();
        let mut captures: Vec<CaptureGroup> = Vec::new();
        let mut open: Option<usize> = None;
        let mut bits: u8 = 0;
        let mut value: u8 = 0;
        let mut mask: u8 = 0;
        let mut i: usize = 0;
        while i < text.len()
            invariant
                text@ == spec_text,
                spec_text == pattern.spec_bytes(),
                i <= text.len(),
                parse_prefix(spec_text, i as nat) is Some,
                parse_prefix(spec_text, i as nat)->0 == (ParseState {
                    values: values@,
                    masks: masks@,
                    captures: parse_prefix(spec_text, i as nat)->0.captures,
                    open: match open {
                        Some(start) => Some(start as int),
                        None => None,
                    },
                    bits: bits as int,
                    value: value as int,
                    mask: mask as int,
                }),
                parse_prefix(spec_text, i as nat)->0.captures =~= capture_spans(captures@),
                values@.len() <= i,
            decreases text.len() - i,
        {
            let c = text[i];
            proof {
                lemma_prefix_invariant(spec_text, i as nat);
            }
            let ghost before = parse_prefix(spec_text, i as nat)->0;
            let mut bit: Option<(u8, u8)> = None;
            if c == 0x20 || c == 0x09 || c == 0x0a || c == 0x0c || c == 0x0d {
            } else if c == CHAR_ZERO {
                bit = Some((0, 1));
            } else if c == CHAR_ONE {
                bit = Some((1, 1));
            } else if c == CHAR_WILDCARD {
                bit = Some((0, 0));
            } else if c == CHAR_CAPTURE_OPEN {
                if bits == 0 && open.is_none() {
                    open = Some(values.len());
                } else {
                    proof {
                        assert(parse_prefix(spec_text, (i + 1) as nat) is None);
                        lemma_error_is_final(spec_text, (i + 1) as nat, spec_text.len());
                    }
                    return Err(PatternSyntaxError);
                }
            } else if c == CHAR_CAPTURE_CLOSE {
                match open {
                    Some(start) if bits == 0 && start < values.len() => {
                        captures.push(CaptureGroup { start, end: values.len() });
                        open = None;
                        assert(capture_spans(captures@) =~= before.captures.push(
                            (start as int, values@.len() as int),
                        ));
                    },
                    _ => {
                        proof {
                            assert(parse_prefix(spec_text, (i + 1) as nat) is None);
                        lemma_error_is_final(spec_text, (i + 1) as nat, spec_text.len());
                        }
                        return Err(PatternSyntaxError);
                    },
                }
            } else {
                proof {
                    assert(parse_prefix(spec_text, (i + 1) as nat) is None);
                    lemma_error_is_final(spec_text, (i + 1) as nat, spec_text.len());
                }
                return Err(PatternSyntaxError);
            }
            match bit {
                Some((value_bit, mask_bit)) => {
                    value = 2 * value + value_bit;
                    mask = 2 * mask + mask_bit;
                    if bits == 7 {
                        values.push(value);
                        masks.push(mask);
                        bits = 0;
                        value = 0;
                        mask = 0;
                    } else {
                        bits = bits + 1;
                    }
                },
                None => {},
            }
            i = i + 1;
        }
        if bits == 0 && open.is_none() && values.len() >= 1 {
            proof {
                lemma_parsed_pattern_is_well_formed(spec_text);
            }
            Ok(Pattern { values, masks, captures })
        } else {
            Err(PatternSyntaxError)
        }
    }

    /// The number of bytes that the pattern declares.
    pub fn len(&self) -> (n: usize)
        ensures
            n == self@.len(),
    {
        self.values.len()
    }

    /// The number of captures that the pattern declares.
    pub fn capture_count(&self) -> (n: usize)
        ensures
            n == self@.captures.len(),
    {
        self.captures.len()
    }

    /// The span of the capture with the given index, in bytes from the start
    /// of a match.
    pub fn capture_group(&self, index: usize) -> (group: Option<CaptureGroup>)
        ensures
            match group {
                Some(g) => index < self@.captures.len() && self@.captures[index as int] == (
                    g.start as int,
                    g.end as int,
                ),
                None => index >= self@.captures.len(),
            },
    {
        if index < self.captures.len() {
            Some(self.captures[index])
        } else {
            None
        }
    }

    /// The value of the fixed bits of the byte at `index`, and the mask that
    /// selects them.
    pub fn byte(&self, index: usize) -> (descriptor: Option<(u8, u8)>)
        ensures
            match descriptor {
                Some((value, mask)) => index < self@.len() && value == self@.values[index as int]
                    && mask == self@.masks[index as int],
                None => index >= self@.len(),
            },
    {
        proof {
            use_type_invariant(self);
        }
        if index < self.values.len() {
            Some((self.values[index], self.masks[index]))
        } else {
            None
        }
    }
}

} // verus!
